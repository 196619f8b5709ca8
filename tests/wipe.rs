use secure_wipe::algorithms::WipeAlgorithm;
use secure_wipe::errors::WipeError;
use secure_wipe::wipe::{Abort, Action, WipeConfig, WipeContext};

fn config(algorithm: WipeAlgorithm, passes: usize, buffer_kb: Option<usize>, fast: bool) -> WipeConfig {
    WipeConfig {
        algorithm,
        passes,
        buffer_size_kb: buffer_kb,
        json_mode: false,
        is_block_device: false,
        fast_mode: fast,
    }
}

/// Carries out every action on an in-memory target; returns the actions and
/// a copy of the target at the end of each pass.
fn run(ctx: &mut WipeContext, target: &mut Vec<u8>) -> (Vec<Action>, Vec<Vec<u8>>) {
    let mut actions = Vec::new();
    let mut snapshots = Vec::new();
    let mut cursor: usize = 0;
    loop {
        let action = ctx.next();
        actions.push(action);
        match action {
            Action::BeginPass { .. } => cursor = 0,
            Action::Write { offset, len } => {
                assert_eq!(offset as usize, cursor);
                target[cursor..cursor + len].copy_from_slice(&ctx.buffer()[..len]);
                cursor += len;
            }
            Action::Sync { .. } => {}
            Action::EndPass { .. } => snapshots.push(target.clone()),
            Action::Finish | Action::Halted => break,
        }
    }
    (actions, snapshots)
}

fn write_lengths(actions: &[Action]) -> Vec<usize> {
    actions
        .iter()
        .filter_map(|a| match a {
            Action::Write { len, .. } => Some(*len),
            _ => None,
        })
        .collect()
}

#[test]
fn test_wipe_context_creation() {
    let data = b"test data";
    let result = WipeContext::new(
        config(WipeAlgorithm::Zero, 1, Some(1024), false),
        data.len() as u64,
        None,
    );
    assert!(result.is_ok());
}

#[test]
fn zero_algorithm_ten_mib_file() {
    let size: usize = 10 * 1024 * 1024;
    let mut target = vec![0xA5u8; size];
    let mut ctx = WipeContext::new(config(WipeAlgorithm::Zero, 1, Some(1024), false), size as u64, None).unwrap();
    assert_eq!(ctx.buffer_size(), 1024);
    let (actions, _) = run(&mut ctx, &mut target);
    assert_eq!(target.len(), 10_485_760);
    assert!(target.iter().all(|&b| b == 0x00));
    assert_eq!(write_lengths(&actions), vec![1024 * 1024; 10]);
    assert_eq!(ctx.total_bytes(), 10_485_760);
}

#[test]
fn dod_on_five_byte_file() {
    let mut target = vec![0x11u8; 5];
    let mut ctx = WipeContext::new(config(WipeAlgorithm::Dod5220, 3, Some(4), false), 5, None).unwrap();
    assert_eq!(ctx.total_passes(), 3);
    let (actions, snapshots) = run(&mut ctx, &mut target);
    assert_eq!(write_lengths(&actions), vec![5, 5, 5]);
    assert_eq!(snapshots.len(), 3);
    assert_eq!(snapshots[0], vec![0x00; 5]);
    assert_eq!(snapshots[1], vec![0xFF; 5]);
    assert_eq!(target.len(), 5);
    assert_ne!(target, vec![0x00; 5]);
    assert_ne!(target, vec![0xFF; 5]);
    assert_eq!(ctx.total_bytes(), 15);
}

#[test]
fn action_sequence_with_sync() {
    let mut target = vec![0u8; 1500];
    let mut ctx = WipeContext::new(config(WipeAlgorithm::Zero, 1, Some(1), false), 1500, None).unwrap();
    let (actions, _) = run(&mut ctx, &mut target);
    assert_eq!(
        actions,
        vec![
            Action::BeginPass { pass: 1 },
            Action::Write { offset: 0, len: 1024 },
            Action::Write { offset: 1024, len: 476 },
            Action::Sync { pass: 1 },
            Action::EndPass { pass: 1 },
            Action::Finish,
        ]
    );
    assert_eq!(ctx.next(), Action::Finish);
}

#[test]
fn fast_mode_skips_sync() {
    let mut target = vec![0u8; 2048];
    let mut ctx = WipeContext::new(config(WipeAlgorithm::Custom, 2, Some(1), true), 2048, None).unwrap();
    let (actions, _) = run(&mut ctx, &mut target);
    assert!(!actions.iter().any(|a| matches!(a, Action::Sync { .. })));
    assert_eq!(write_lengths(&actions), vec![1024, 1024, 1024, 1024]);
    assert_eq!(
        actions.iter().filter(|a| matches!(a, Action::EndPass { .. })).count(),
        2
    );
}

#[test]
fn write_sizes_cover_the_target() {
    for &(size, kb) in &[(2500usize, 1usize), (2048, 1), (1, 1), (3 * 4096 + 7, 4), (4096, 8)] {
        let b = kb * 1024;
        let mut target = vec![0u8; size];
        let mut ctx = WipeContext::new(config(WipeAlgorithm::Zero, 1, Some(kb), true), size as u64, None).unwrap();
        let (actions, _) = run(&mut ctx, &mut target);
        let lens = write_lengths(&actions);
        assert_eq!(lens.iter().sum::<usize>(), size);
        let expected_last = if size % b != 0 { size % b } else { b };
        assert_eq!(*lens.last().unwrap(), expected_last);
        assert!(lens[..lens.len() - 1].iter().all(|&l| l == b));
    }
}

#[test]
fn empty_target_has_no_writes() {
    let mut target = Vec::new();
    let mut ctx = WipeContext::new(config(WipeAlgorithm::Dod5220, 3, None, false), 0, Some(1_000_000)).unwrap();
    let (actions, _) = run(&mut ctx, &mut target);
    assert!(write_lengths(&actions).is_empty());
    assert_eq!(actions.len(), 3 * 3 + 1);
}

#[test]
fn gutmann_cycle_restarts_at_each_write() {
    // Pass 5 writes 0x92 0x49 0x24 repeated from the start of the buffer.
    let size = 2048usize;
    let mut target = vec![0u8; size];
    let mut ctx = WipeContext::new(config(WipeAlgorithm::Gutmann, 0, Some(1), true), size as u64, None).unwrap();
    let mut snapshots = Vec::new();
    let mut cursor = 0usize;
    loop {
        match ctx.next() {
            Action::BeginPass { .. } => cursor = 0,
            Action::Write { len, .. } => {
                target[cursor..cursor + len].copy_from_slice(&ctx.buffer()[..len]);
                cursor += len;
            }
            Action::EndPass { .. } => snapshots.push(target.clone()),
            Action::Sync { .. } => {}
            Action::Finish | Action::Halted => break,
        }
    }
    assert_eq!(snapshots.len(), 35);
    let fifth = &snapshots[4];
    assert_eq!(&fifth[0..4], &[0x92, 0x49, 0x24, 0x92]);
    assert_eq!(fifth[1023], [0x92, 0x49, 0x24][1023 % 3]);
    assert_eq!(fifth[1024], 0x92);
    assert_eq!(snapshots[3], vec![0xAA; size]);
    assert_eq!(snapshots[4], snapshots[33]);
}

#[test]
fn custom_zero_passes_fails_before_anything() {
    let c = config(WipeAlgorithm::Custom, 0, None, false);
    assert_eq!(c.check(), Err(WipeError::ZeroPasses));
    assert!(matches!(WipeContext::new(c, 100, None), Err(WipeError::ZeroPasses)));
}

#[test]
fn bad_buffer_sizes_are_rejected() {
    let zero = config(WipeAlgorithm::Zero, 1, Some(0), false);
    assert_eq!(zero.check(), Err(WipeError::BadBufferSize));
    assert!(matches!(WipeContext::new(zero, 100, None), Err(WipeError::BadBufferSize)));
    let huge = config(WipeAlgorithm::Zero, 1, Some(usize::MAX), false);
    assert_eq!(huge.check(), Err(WipeError::BadBufferSize));
    assert_eq!(config(WipeAlgorithm::Custom, 4, None, false).check(), Ok(4));
}

#[test]
fn sync_writes_only_for_block_devices() {
    let mut c = config(WipeAlgorithm::Zero, 1, None, false);
    assert!(!c.sync_writes());
    c.is_block_device = true;
    assert!(c.sync_writes());
    c.fast_mode = true;
    assert!(!c.sync_writes());
}

#[test]
fn write_failure_reports_pass_and_bytes() {
    let mut ctx = WipeContext::new(config(WipeAlgorithm::Dod5220, 3, Some(1), false), 3000, None).unwrap();
    assert_eq!(ctx.next(), Action::BeginPass { pass: 1 });
    assert_eq!(ctx.next(), Action::Write { offset: 0, len: 1024 });
    assert_eq!(ctx.next(), Action::Write { offset: 1024, len: 1024 });
    assert_eq!(ctx.bytes_written(), 1024);
    assert_eq!(ctx.abort(Abort::WriteFailed), WipeError::Io { pass: 1, bytes_written: 1024 });
    assert_eq!(ctx.next(), Action::Halted);
}

#[test]
fn cancel_and_sync_failure() {
    let mut ctx = WipeContext::new(config(WipeAlgorithm::Zero, 1, Some(1), false), 1024, None).unwrap();
    assert_eq!(ctx.next(), Action::BeginPass { pass: 1 });
    assert_eq!(ctx.next(), Action::Write { offset: 0, len: 1024 });
    assert_eq!(ctx.next(), Action::Sync { pass: 1 });
    assert_eq!(ctx.abort(Abort::SyncFailed), WipeError::Sync { pass: 1 });

    let mut ctx = WipeContext::new(config(WipeAlgorithm::Zero, 1, Some(1), false), 4096, None).unwrap();
    ctx.next();
    ctx.next();
    ctx.next();
    assert_eq!(ctx.abort(Abort::Cancelled), WipeError::Cancelled { pass: 1, bytes_written: 1024 });
    assert_eq!(ctx.next(), Action::Halted);
}

#[test]
fn random_pass_refills_each_write() {
    let size = 4096usize;
    let mut target = vec![0u8; size];
    let mut ctx = WipeContext::new(config(WipeAlgorithm::Random, 1, Some(1), true), size as u64, None).unwrap();
    run(&mut ctx, &mut target);
    assert_ne!(&target[0..1024], &target[1024..2048]);
    assert_ne!(target, vec![0u8; size]);
}

#[test]
fn labels_and_throughput_inputs() {
    let mut ctx = WipeContext::new(config(WipeAlgorithm::Dod5220, 3, None, false), 1000, Some(1_000_000)).unwrap();
    assert_eq!(ctx.buffer_size(), 10000);
    assert_eq!(ctx.algorithm(), WipeAlgorithm::Dod5220);
    ctx.next();
    assert_eq!(ctx.pass(), 1);
    assert_eq!(ctx.pattern_name(), "0x00");
    assert_eq!(ctx.size(), 1000);
    assert_eq!(ctx.total_bytes(), 3000);
    let elapsed_seconds = 0.5f64;
    let throughput = ctx.total_bytes() as f64 / elapsed_seconds / (1024.0 * 1024.0);
    assert!((throughput - (1000.0 * 3.0) / 0.5 / 1_048_576.0).abs() < 1e-12);
}
