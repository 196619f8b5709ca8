use vstd::prelude::*;

use rand::RngCore;

use crate::algorithms::{
    get_algorithm_pass_count, get_pass_pattern, get_pattern_name, pass_count_spec, pattern_label,
    pattern_spec, valid_pass_config, PatternModel, WipeAlgorithm, WipePattern,
};
use crate::buffer::{get_optimal_buffer_size, min_nat, optimal_buffer_kb};
use crate::errors::WipeError;

verus! {

/// Settings of one wipe session, as handed over by the command line.
#[derive(Debug, Clone, Copy)]
pub struct WipeConfig {
    pub algorithm: WipeAlgorithm,
    /// Pass count of `WipeAlgorithm::Custom`.
    pub passes: usize,
    /// Requested buffer size in KB; `None` asks for automatic sizing.
    pub buffer_size_kb: Option<usize>,
    pub json_mode: bool,
    pub is_block_device: bool,
    pub fast_mode: bool,
}

/// Where a session stands.
#[derive(Debug, Clone, Copy, PartialEq, Eq, Structural)]
pub enum WipePhase {
    /// No pass has begun.
    Ready,
    /// The current pass has begun and nothing of it is written yet.
    PassBegun,
    /// A write of `len` bytes was handed out.
    Writing { len: usize },
    /// The end-of-pass flush was handed out.
    Syncing,
    /// The current pass is over.
    PassEnded,
    /// All passes are over.
    Completed,
    /// The session was stopped by an error or a cancellation.
    Failed,
}

/// What the caller must carry out next.
#[derive(Debug, Clone, Copy, PartialEq, Eq, Structural)]
pub enum Action {
    /// Seek to offset 0 and announce pass `pass`.
    BeginPass { pass: usize },
    /// Write the first `len` bytes of the buffer at `offset`.
    Write { offset: u64, len: usize },
    /// Flush the target to the medium at the end of pass `pass`.
    Sync { pass: usize },
    /// Pass `pass` is complete.
    EndPass { pass: usize },
    /// Every pass is complete.
    Finish,
    /// The session was stopped; nothing more is to be done.
    Halted,
}

/// Why the caller stops a session.
#[derive(Debug, Clone, Copy, PartialEq, Eq, Structural)]
pub enum Abort {
    WriteFailed,
    SyncFailed,
    Cancelled,
}

/// The abstract state of a session.
pub struct ContextView {
    pub algorithm: WipeAlgorithm,
    pub pass: nat,
    pub total_passes: nat,
    pub size: nat,
    pub buffer_len: nat,
    pub sync_each_pass: bool,
    pub written: nat,
    pub phase: WipePhase,
}

/// The error a configuration is rejected with, if any.
pub open spec fn config_error(c: WipeConfig) -> Option<WipeError> {
    if !valid_pass_config(c.algorithm, c.passes as nat) {
        Some(WipeError::ZeroPasses)
    } else if c.buffer_size_kb matches Some(kb) && (kb == 0 || kb * 1024 > usize::MAX) {
        Some(WipeError::BadBufferSize)
    } else {
        None
    }
}

pub open spec fn memory_model(m: Option<usize>) -> Option<nat> {
    match m {
        Some(v) => Some(v as nat),
        None => None,
    }
}

/// The state of a fresh session on a target of `size` bytes.
pub open spec fn initial_view(c: WipeConfig, size: nat, memory_kb: Option<usize>) -> ContextView {
    ContextView {
        algorithm: c.algorithm,
        pass: 0,
        total_passes: pass_count_spec(c.algorithm, c.passes as nat),
        size,
        buffer_len: optimal_buffer_kb(c.is_block_device, c.buffer_size_kb, memory_model(memory_kb))
            * 1024,
        sync_each_pass: !c.fast_mode,
        written: 0,
        phase: WipePhase::Ready,
    }
}

/// One step of a session: the next state and the action handed out.
pub open spec fn next_spec(v: ContextView) -> (ContextView, Action) {
    match v.phase {
        WipePhase::Ready | WipePhase::PassEnded => if v.pass < v.total_passes {
            (
                ContextView { pass: v.pass + 1, written: 0, phase: WipePhase::PassBegun, ..v },
                Action::BeginPass { pass: (v.pass + 1) as usize },
            )
        } else {
            (ContextView { phase: WipePhase::Completed, ..v }, Action::Finish)
        },
        WipePhase::PassBegun | WipePhase::Writing { .. } => if v.written < v.size {
            let len = min_nat(v.buffer_len, (v.size - v.written) as nat);
            (
                ContextView { written: v.written + len, phase: WipePhase::Writing { len: len as usize }, ..v },
                Action::Write { offset: v.written as u64, len: len as usize },
            )
        } else if v.sync_each_pass {
            (ContextView { phase: WipePhase::Syncing, ..v }, Action::Sync { pass: v.pass as usize })
        } else {
            (ContextView { phase: WipePhase::PassEnded, ..v }, Action::EndPass { pass: v.pass as usize })
        },
        WipePhase::Syncing => (
            ContextView { phase: WipePhase::PassEnded, ..v },
            Action::EndPass { pass: v.pass as usize },
        ),
        WipePhase::Completed => (v, Action::Finish),
        WipePhase::Failed => (v, Action::Halted),
    }
}

/// Bytes of the current pass known to be written: a write handed out is
/// counted once the caller asks for the next action.
pub open spec fn completed_bytes(v: ContextView) -> nat {
    match v.phase {
        WipePhase::Writing { len } => (v.written - len) as nat,
        _ => v.written,
    }
}

/// The error that stopping a session for `cause` reports.
pub open spec fn abort_error(v: ContextView, cause: Abort) -> WipeError {
    match cause {
        Abort::WriteFailed => WipeError::Io { pass: v.pass as usize, bytes_written: completed_bytes(v) as u64 },
        Abort::SyncFailed => WipeError::Sync { pass: v.pass as usize },
        Abort::Cancelled => WipeError::Cancelled {
            pass: v.pass as usize,
            bytes_written: completed_bytes(v) as u64,
        },
    }
}

/// Sizes of the writes that cover `remaining` bytes with a buffer of `b` bytes.
pub open spec fn write_sizes(remaining: nat, b: nat) -> Seq<nat>
    decreases remaining,
{
    if remaining == 0 || b == 0 {
        seq![]
    } else if remaining <= b {
        seq![remaining]
    } else {
        seq![b] + write_sizes((remaining - b) as nat, b)
    }
}

pub open spec fn sum_nat(s: Seq<nat>) -> nat
    decreases s.len(),
{
    if s.len() == 0 {
        0
    } else {
        s[0] + sum_nat(s.subrange(1, s.len() as int))
    }
}

pub open spec fn deterministic(p: PatternModel) -> bool {
    !(p is Random)
}

/// Byte `j` of a buffer filled with pattern `p`.
pub open spec fn pattern_byte(p: PatternModel, j: nat) -> u8 {
    match p {
        PatternModel::Fixed(b) => b,
        PatternModel::Cyclic(s) => if s.len() > 0 { s[(j % s.len()) as int] } else { 0 },
        PatternModel::Random => 0,
    }
}

/// The first `n` bytes of the target after a pass of pattern `p` written
/// through a buffer of `b` bytes: each write starts at the buffer's start.
pub open spec fn pass_content(p: PatternModel, n: nat, b: nat) -> Seq<u8> {
    Seq::new(n, |o: int| pattern_byte(p, (o % (b as int)) as nat))
}

/// Relies on `rand::thread_rng` and `RngCore::fill_bytes`: the first `len`
/// bytes are overwritten with random bytes, the rest is left alone. (rand
/// panics only when the operating system cannot seed the generator.)
#[verifier::external_body]
fn fill_random(buf: &mut Vec<u8>, len: usize)
    requires
        len <= old(buf)@.len(),
    ensures
        final(buf)@.len() == old(buf)@.len(),
        final(buf)@.subrange(len as int, final(buf)@.len() as int) == old(buf)@.subrange(
            len as int,
            old(buf)@.len() as int,
        ),
{
    rand::thread_rng().fill_bytes(&mut buf[..len]);
}

/// Fills the whole buffer with a fixed or cyclic pattern.
pub fn fill_pattern(buf: &mut Vec<u8>, pattern: &WipePattern)
    requires
        pattern.wf(),
        deterministic(pattern.model()),
    ensures
        final(buf)@ == Seq::new(old(buf)@.len(), |j: int| pattern_byte(pattern.model(), j as nat)),
{
    let n = buf.len();
    let mut i: usize = 0;
    while i < n
        invariant
            n == buf@.len(),
            n == old(buf)@.len(),
            i <= n,
            pattern.wf(),
            deterministic(pattern.model()),
            forall|j: int| 0 <= j < i ==> buf@[j] == pattern_byte(pattern.model(), j as nat),
        decreases n - i,
    {
        let byte = match pattern {
            WipePattern::Fixed(b) => *b,
            WipePattern::Gutmann { table, index } => {
                let sequence = &table[*index];
                sequence[i % sequence.len()]
            },
            WipePattern::Random => 0,
        };
        buf.set(i, byte);
        i = i + 1;
    }
    assert(buf@ =~= Seq::new(old(buf)@.len(), |j: int| pattern_byte(pattern.model(), j as nat)));
}

impl WipeConfig {
    /// Checks the settings before anything is opened; on success returns
    /// the number of passes the session will run.
    pub fn check(&self) -> (r: Result<usize, WipeError>)
        ensures
            match config_error(*self) {
                Some(e) => r == Err::<usize, WipeError>(e),
                None => r == Ok::<usize, WipeError>(pass_count_spec(self.algorithm, self.passes as nat) as usize),
            },
    {
        let total = match get_algorithm_pass_count(&self.algorithm, self.passes) {
            Ok(n) => n,
            Err(e) => {
                return Err(e);
            },
        };
        if let Some(kb) = self.buffer_size_kb {
            if kb == 0 || kb > usize::MAX / 1024 {
                return Err(WipeError::BadBufferSize);
            }
        }
        Ok(total)
    }

    /// Whether the target is opened for synchronous writes: block devices
    /// are, unless in fast mode.
    pub fn sync_writes(&self) -> (r: bool)
        ensures
            r == (self.is_block_device && !self.fast_mode),
    {
        self.is_block_device && !self.fast_mode
    }
}

/// A wipe session: the settings, the target's size, the progress through the
/// passes and the one buffer reused by every write.
pub struct WipeContext {
    config: WipeConfig,
    size: u64,
    buffer_size: usize,
    total_passes: usize,
    pass: usize,
    written: u64,
    phase: WipePhase,
    pattern: WipePattern,
    write_buffer: Vec<u8>,
    /// Sizes of the writes handed out in the current pass.
    chunks: Ghost<Seq<nat>>,
    /// The bytes those writes carry, in order.
    image: Ghost<Seq<u8>>,
}

impl View for WipeContext {
    type V = ContextView;

    closed spec fn view(&self) -> ContextView {
        ContextView {
            algorithm: self.config.algorithm,
            pass: self.pass as nat,
            total_passes: self.total_passes as nat,
            size: self.size as nat,
            buffer_len: self.write_buffer@.len(),
            sync_each_pass: !self.config.fast_mode,
            written: self.written as nat,
            phase: self.phase,
        }
    }
}

impl WipeContext {
    /// Sizes of the writes handed out in the current pass.
    pub closed spec fn chunks(&self) -> Seq<nat> {
        self.chunks@
    }

    /// The bytes handed out for writing in the current pass, in order: the
    /// first `written` bytes of the target once those writes are done.
    pub closed spec fn image(&self) -> Seq<u8> {
        self.image@
    }

    /// The buffer's content.
    pub closed spec fn buffer_content(&self) -> Seq<u8> {
        self.write_buffer@
    }

    /// The pattern of the current pass.
    pub open spec fn current_pattern(&self) -> PatternModel {
        pattern_spec(self@.algorithm, self@.pass)
    }

    pub closed spec fn wf(&self) -> bool {
        let v = self@;
        let b = v.buffer_len;
        &&& valid_pass_config(self.config.algorithm, self.config.passes as nat)
        &&& v.total_passes == pass_count_spec(self.config.algorithm, self.config.passes as nat)
        &&& v.total_passes > 0
        &&& b > 0
        &&& b == self.buffer_size * 1024
        &&& v.pass <= v.total_passes
        &&& v.phase == WipePhase::Ready ==> v.pass == 0
        &&& v.pass == 0 ==> v.phase == WipePhase::Ready || v.phase == WipePhase::Failed
        &&& v.written <= v.size
        &&& v.phase == WipePhase::Ready ==> v.written == 0 && self.chunks@.len() == 0
        &&& v.phase == WipePhase::Completed ==> v.pass == v.total_passes
        &&& (v.phase == WipePhase::Syncing || v.phase == WipePhase::PassEnded
            || v.phase == WipePhase::Completed) ==> v.written == v.size
        &&& (v.phase matches WipePhase::Writing { len } ==> 0 < len <= v.written)
        &&& self.image@.len() == v.written
        &&& self.chunks@ + write_sizes((v.size - v.written) as nat, b) == write_sizes(v.size, b)
        &&& v.written < v.size ==> v.written % b == 0
        &&& v.pass >= 1 ==> {
            &&& self.pattern.model() == self.current_pattern()
            &&& self.pattern.wf()
            &&& deterministic(self.current_pattern()) ==> {
                &&& self.write_buffer@ == Seq::new(b, |j: int| pattern_byte(self.current_pattern(), j as nat))
                &&& self.image@ == pass_content(self.current_pattern(), v.written, b)
            }
        }
    }

    /// Starts a session on a target of `size` bytes. The buffer is sized
    /// from the configuration and the available memory (KB), if known, and
    /// allocated here once for the whole session.
    pub fn new(config: WipeConfig, size: u64, available_memory_kb: Option<usize>) -> (r: Result<
        WipeContext,
        WipeError,
    >)
        ensures
            match config_error(config) {
                Some(e) => r == Err::<WipeContext, WipeError>(e),
                None => match r {
                    Ok(ctx) => ctx.wf() && ctx@ == initial_view(config, size as nat, available_memory_kb),
                    Err(_) => false,
                },
            },
    {
        let total_passes = match get_algorithm_pass_count(&config.algorithm, config.passes) {
            Ok(n) => n,
            Err(e) => {
                return Err(e);
            },
        };
        let buffer_size = get_optimal_buffer_size(
            config.is_block_device,
            config.buffer_size_kb,
            available_memory_kb,
        );
        if buffer_size == 0 || buffer_size > usize::MAX / 1024 {
            return Err(WipeError::BadBufferSize);
        }
        let write_buffer = vec![0u8; buffer_size * 1024];
        let ctx = WipeContext {
            config,
            size,
            buffer_size,
            total_passes,
            pass: 0,
            written: 0,
            phase: WipePhase::Ready,
            pattern: WipePattern::Random,
            write_buffer,
            chunks: Ghost(Seq::empty()),
            image: Ghost(Seq::empty()),
        };
        assert(ctx.chunks@ + write_sizes(size as nat, ctx@.buffer_len) =~= write_sizes(size as nat, ctx@.buffer_len));
        Ok(ctx)
    }
    /// The current pass (1-based); 0 before the first.
    pub fn pass(&self) -> (r: usize)
        ensures
            r == self@.pass,
    {
        self.pass
    }

    pub fn total_passes(&self) -> (r: usize)
        ensures
            r == self@.total_passes,
    {
        self.total_passes
    }

    /// The target's size in bytes.
    pub fn size(&self) -> (r: u64)
        ensures
            r == self@.size,
    {
        self.size
    }

    /// The buffer size in KB.
    pub fn buffer_size(&self) -> (r: usize)
        requires
            self.wf(),
        ensures
            r * 1024 == self@.buffer_len,
    {
        self.buffer_size
    }

    pub fn algorithm(&self) -> (r: WipeAlgorithm)
        ensures
            r == self@.algorithm,
    {
        self.config.algorithm
    }

    /// Bytes of the current pass known to be written.
    pub fn bytes_written(&self) -> (r: u64)
        requires
            self.wf(),
        ensures
            r == completed_bytes(self@),
    {
        match self.phase {
            WipePhase::Writing { len } => self.written - len as u64,
            _ => self.written,
        }
    }

    /// The buffer whose first `len` bytes a `Write` action asks for.
    pub fn buffer(&self) -> (r: &Vec<u8>)
        ensures
            r@ == self.buffer_content(),
    {
        &self.write_buffer
    }

    /// The display label of the current pass.
    pub fn pattern_name(&self) -> (r: &'static str)
        ensures
            r@ == pattern_label(self@.algorithm, self@.pass),
    {
        get_pattern_name(&self.config.algorithm, self.pass)
    }

    /// Bytes written over all passes of a complete session.
    pub fn total_bytes(&self) -> (r: u128)
        ensures
            r == self@.size * self@.total_passes,
    {
        assert(self.size as u128 * self.total_passes as u128 <= u64::MAX as u128 * u64::MAX as u128) by (nonlinear_arith)
            requires self.size <= u64::MAX, self.total_passes <= u64::MAX;
        self.size as u128 * self.total_passes as u128
    }

    /// Hands out the next action; asking for it also reports that the
    /// previous action was carried out.
    pub fn next(&mut self) -> (r: Action)
        requires
            old(self).wf(),
        ensures
            final(self).wf(),
            (final(self)@, r) == next_spec(old(self)@),
            final(self).buffer_content().len() == old(self).buffer_content().len(),
            r is BeginPass ==> final(self).image() == Seq::<u8>::empty() && final(self).chunks()
                == Seq::<nat>::empty(),
            r matches Action::Write { len, .. } ==> {
                &&& final(self).image() == old(self).image() + final(self).buffer_content().take(len as int)
                &&& final(self).chunks() == old(self).chunks().push(len as nat)
            },
            !(r is BeginPass) && !(r is Write) ==> final(self).image() == old(self).image()
                && final(self).chunks() == old(self).chunks(),
    {
        match self.phase {
            WipePhase::Ready | WipePhase::PassEnded => {
                if self.pass < self.total_passes {
                    self.begin_pass()
                } else {
                    self.phase = WipePhase::Completed;
                    Action::Finish
                }
            },
            WipePhase::PassBegun | WipePhase::Writing { .. } => {
                if self.written < self.size {
                    self.issue_write()
                } else if !self.config.fast_mode {
                    self.phase = WipePhase::Syncing;
                    Action::Sync { pass: self.pass }
                } else {
                    self.phase = WipePhase::PassEnded;
                    Action::EndPass { pass: self.pass }
                }
            },
            WipePhase::Syncing => {
                self.phase = WipePhase::PassEnded;
                Action::EndPass { pass: self.pass }
            },
            WipePhase::Completed => Action::Finish,
            WipePhase::Failed => Action::Halted,
        }
    }

    /// Moves to the next pass and fills the buffer once with its pattern,
    /// unless the pattern is random.
    fn begin_pass(&mut self) -> (r: Action)
        requires
            old(self).wf(),
            old(self)@.phase == WipePhase::Ready || old(self)@.phase == WipePhase::PassEnded,
            old(self)@.pass < old(self)@.total_passes,
        ensures
            final(self).wf(),
            (final(self)@, r) == next_spec(old(self)@),
            final(self).buffer_content().len() == old(self).buffer_content().len(),
            final(self).image() == Seq::<u8>::empty(),
            final(self).chunks() == Seq::<nat>::empty(),
    {
        let pass = self.pass + 1;
        let pattern = get_pass_pattern(&self.config.algorithm, pass);
        match pattern {
            WipePattern::Random => {},
            _ => {
                fill_pattern(&mut self.write_buffer, &pattern);
            },
        }
        self.pattern = pattern;
        self.pass = pass;
        self.written = 0;
        self.phase = WipePhase::PassBegun;
        self.chunks = Ghost(Seq::empty());
        self.image = Ghost(Seq::empty());
        proof {
            let b = self.write_buffer@.len();
            assert(self.chunks@ + write_sizes(self.size as nat, b) =~= write_sizes(self.size as nat, b));
            assert(self.image@ =~= pass_content(self.current_pattern(), 0, b));
            assert(0nat % b == 0) by (nonlinear_arith)
                requires b > 0;
        }
        Action::BeginPass { pass }
    }

    /// Hands out the next write of the current pass: as much of the buffer as
    /// the rest of the target needs, refilled first for a random pattern.
    fn issue_write(&mut self) -> (r: Action)
        requires
            old(self).wf(),
            old(self)@.phase == WipePhase::PassBegun || old(self)@.phase is Writing,
            old(self)@.written < old(self)@.size,
        ensures
            final(self).wf(),
            (final(self)@, r) == next_spec(old(self)@),
            final(self).buffer_content().len() == old(self).buffer_content().len(),
            r matches Action::Write { len, .. } ==> {
                &&& final(self).image() == old(self).image() + final(self).buffer_content().take(len as int)
                &&& final(self).chunks() == old(self).chunks().push(len as nat)
            },
            r is Write,
    {
        let remaining = self.size - self.written;
        let b = self.write_buffer.len();
        let len: usize = if (b as u64) < remaining {
            b
        } else {
            remaining as usize
        };
        if let WipePattern::Random = self.pattern {
            fill_random(&mut self.write_buffer, len);
        }
        let offset = self.written;
        proof {
            let bn = b as nat;
            let w = offset as nat;
            let p = self.current_pattern();
            lemma_write_sizes_step((self.size - w) as nat, bn);
            assert(self.chunks@.push(len as nat) + write_sizes((self.size - w - len) as nat, bn)
                =~= self.chunks@ + write_sizes((self.size - w) as nat, bn));
            if len == b {
                lemma_mod_add_block(w, bn);
            }
            if deterministic(p) {
                let new_image = self.image@ + self.write_buffer@.take(len as int);
                assert forall|o: int| 0 <= o < w + len implies #[trigger] new_image[o]
                    == pass_content(p, w + len as nat, bn)[o] by {
                    if o >= w {
                        lemma_mod_within_block(w, (o - w) as nat, bn);
                    }
                }
                assert(new_image =~= pass_content(p, w + len as nat, bn));
            }
        }
        self.image = Ghost(self.image@ + self.write_buffer@.take(len as int));
        self.chunks = Ghost(self.chunks@.push(len as nat));
        self.written = offset + len as u64;
        self.phase = WipePhase::Writing { len };
        Action::Write { offset, len }
    }

    /// Stops the session for `cause`; later calls of `next` return `Halted`.
    pub fn abort(&mut self, cause: Abort) -> (r: WipeError)
        requires
            old(self).wf(),
        ensures
            final(self).wf(),
            final(self)@ == (ContextView { phase: WipePhase::Failed, ..old(self)@ }),
            final(self).image() == old(self).image(),
            final(self).chunks() == old(self).chunks(),
            final(self).buffer_content() == old(self).buffer_content(),
            r == abort_error(old(self)@, cause),
    {
        let done = match self.phase {
            WipePhase::Writing { len } => self.written - len as u64,
            _ => self.written,
        };
        let pass = self.pass;
        self.phase = WipePhase::Failed;
        match cause {
            Abort::WriteFailed => WipeError::Io { pass, bytes_written: done },
            Abort::SyncFailed => WipeError::Sync { pass },
            Abort::Cancelled => WipeError::Cancelled { pass, bytes_written: done },
        }
    }
}

/// What a running session guarantees of the current pass: the writes handed
/// out so far are the first of `write_sizes(size, buffer_len)`, they carry
/// `written` bytes, and for a fixed or cyclic pattern those bytes are the
/// pattern's content. Once `written == size` the pass's writes are exactly
/// `write_sizes(size, buffer_len)`.
pub proof fn lemma_session_pass(ctx: &WipeContext)
    requires
        ctx.wf(),
    ensures
        ctx@.buffer_len > 0,
        ctx@.written <= ctx@.size,
        ctx.image().len() == ctx@.written,
        ctx.chunks() + write_sizes((ctx@.size - ctx@.written) as nat, ctx@.buffer_len) == write_sizes(
            ctx@.size,
            ctx@.buffer_len,
        ),
        ctx@.written == ctx@.size ==> ctx.chunks() == write_sizes(ctx@.size, ctx@.buffer_len),
        ctx@.pass >= 1 && deterministic(ctx.current_pattern()) ==> ctx.image() == pass_content(
            ctx.current_pattern(),
            ctx@.written,
            ctx@.buffer_len,
        ),
        ctx@.phase is Syncing || ctx@.phase is PassEnded ==> ctx@.pass >= 1 && ctx@.written == ctx@.size,
{
    if ctx@.written == ctx@.size {
        assert(write_sizes(0, ctx@.buffer_len) =~= Seq::<nat>::empty());
        assert(ctx.chunks() + Seq::<nat>::empty() =~= ctx.chunks());
    }
}

/// The writes of one pass over `size` bytes with a buffer of `b` bytes add up
/// to exactly `size`; each is at most `b`, all but the last are `b`, and the
/// last is `size % b`, or `b` when that is zero.
pub proof fn lemma_write_sizes(size: nat, b: nat)
    requires
        b > 0,
    ensures
        sum_nat(write_sizes(size, b)) == size,
        forall|i: int| 0 <= i < write_sizes(size, b).len() ==> 0 < #[trigger] write_sizes(size, b)[i] <= b,
        forall|i: int| 0 <= i < write_sizes(size, b).len() - 1 ==> #[trigger] write_sizes(size, b)[i] == b,
        size > 0 ==> write_sizes(size, b).len() > 0 && write_sizes(size, b).last() == (if size % b != 0 {
            size % b
        } else {
            b
        }),
    decreases size,
{
    let ws = write_sizes(size, b);
    if size == 0 {
    } else if size <= b {
        assert(ws.subrange(1, 1) =~= Seq::<nat>::empty());
        assert(sum_nat(ws.subrange(1, 1)) == 0);
        if size < b {
            assert(size % b == size) by (nonlinear_arith)
                requires size < b;
        } else {
            assert(size % b == 0) by (nonlinear_arith)
                requires size == b, b > 0;
        }
    } else {
        let rest = write_sizes((size - b) as nat, b);
        lemma_write_sizes((size - b) as nat, b);
        assert(ws == seq![b] + rest);
        assert(ws.subrange(1, ws.len() as int) =~= rest);
        assert forall|i: int| 0 <= i < ws.len() implies 0 < #[trigger] ws[i] <= b by {
            if i > 0 {
                assert(ws[i] == rest[i - 1]);
            }
        }
        assert forall|i: int| 0 <= i < ws.len() - 1 implies #[trigger] ws[i] == b by {
            if i > 0 {
                assert(ws[i] == rest[i - 1]);
            }
        }
        assert(size % b == ((size - b) as nat) % b) by (nonlinear_arith)
            requires size > b, b > 0;
    }
}

/// DoD 5220.22-M: once pass one has written the whole target its content is
/// all zero bytes, after pass two all 0xFF bytes, and pass three writes
/// random bytes, neither fixed pattern.
pub proof fn lemma_dod_pass_content(ctx: &WipeContext)
    requires
        ctx.wf(),
        ctx@.algorithm == WipeAlgorithm::Dod5220,
        ctx@.pass >= 1,
        ctx@.written == ctx@.size,
    ensures
        ctx@.pass == 1 ==> ctx.image() == Seq::new(ctx@.size, |i: int| 0x00u8),
        ctx@.pass == 2 ==> ctx.image() == Seq::new(ctx@.size, |i: int| 0xFFu8),
        ctx@.pass == 3 ==> ctx.current_pattern() == PatternModel::Random && ctx.image().len() == ctx@.size,
        ctx@.pass <= 3,
{
    lemma_session_pass(ctx);
    if ctx@.pass == 1 {
        assert(ctx.image() =~= Seq::new(ctx@.size, |i: int| 0x00u8));
    }
    if ctx@.pass == 2 {
        assert(ctx.image() =~= Seq::new(ctx@.size, |i: int| 0xFFu8));
    }
}

proof fn lemma_write_sizes_step(remaining: nat, b: nat)
    requires
        remaining > 0,
        b > 0,
    ensures
        write_sizes(remaining, b) == seq![min_nat(b, remaining)] + write_sizes(
            (remaining - min_nat(b, remaining)) as nat,
            b,
        ),
{
    if remaining <= b {
        assert(write_sizes(0, b) =~= Seq::<nat>::empty());
        assert(seq![remaining] + Seq::<nat>::empty() =~= seq![remaining]);
    }
}

proof fn lemma_mod_add_block(w: nat, b: nat)
    requires
        b > 0,
        w % b == 0,
    ensures
        (w + b) % b == 0,
{
    assert((w + b) % b == 0) by (nonlinear_arith)
        requires b > 0, w % b == 0;
}

proof fn lemma_mod_within_block(w: nat, j: nat, b: nat)
    requires
        b > 0,
        w % b == 0,
        j < b,
    ensures
        (w + j) % b == j,
{
    assert((w + j) % b == j) by (nonlinear_arith)
        requires b > 0, w % b == 0, j < b;
}

} // verus!
