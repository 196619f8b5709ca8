use secure_wipe::algorithms::{
    get_algorithm_pass_count, get_pass_pattern, get_pattern_name, gutmann_patterns, WipeAlgorithm,
    WipePattern, GUTMANN_TABLE_LEN,
};
use secure_wipe::errors::WipeError;

fn sequence_of(pattern: &WipePattern) -> Vec<u8> {
    match pattern {
        WipePattern::Gutmann { table, index } => table[*index].clone(),
        other => panic!("not a cyclic pattern: {:?}", other),
    }
}

#[test]
fn pass_counts_follow_the_table() {
    assert_eq!(get_algorithm_pass_count(&WipeAlgorithm::Zero, 7), Ok(1));
    assert_eq!(get_algorithm_pass_count(&WipeAlgorithm::Random, 7), Ok(1));
    assert_eq!(get_algorithm_pass_count(&WipeAlgorithm::Dod5220, 7), Ok(3));
    assert_eq!(get_algorithm_pass_count(&WipeAlgorithm::Gutmann, 7), Ok(35));
    assert_eq!(get_algorithm_pass_count(&WipeAlgorithm::Custom, 7), Ok(7));
    assert_eq!(get_algorithm_pass_count(&WipeAlgorithm::Custom, 1), Ok(1));
}

#[test]
fn custom_zero_passes_is_rejected() {
    assert_eq!(
        get_algorithm_pass_count(&WipeAlgorithm::Custom, 0),
        Err(WipeError::ZeroPasses)
    );
    assert_eq!(get_algorithm_pass_count(&WipeAlgorithm::Zero, 0), Ok(1));
}

#[test]
fn fixed_and_random_patterns() {
    assert!(matches!(get_pass_pattern(&WipeAlgorithm::Zero, 1), WipePattern::Fixed(0x00)));
    assert!(matches!(get_pass_pattern(&WipeAlgorithm::Random, 1), WipePattern::Random));
    assert!(matches!(get_pass_pattern(&WipeAlgorithm::Custom, 4), WipePattern::Random));
    assert!(matches!(get_pass_pattern(&WipeAlgorithm::Dod5220, 1), WipePattern::Fixed(0x00)));
    assert!(matches!(get_pass_pattern(&WipeAlgorithm::Dod5220, 2), WipePattern::Fixed(0xFF)));
    assert!(matches!(get_pass_pattern(&WipeAlgorithm::Dod5220, 3), WipePattern::Random));
}

#[test]
fn gutmann_table_has_29_entries() {
    let table = gutmann_patterns();
    assert_eq!(table.len(), GUTMANN_TABLE_LEN);
    assert_eq!(table[0], vec![0x00]);
    assert_eq!(table[4], vec![0x92, 0x49, 0x24]);
    assert_eq!(table[28], vec![0xDB, 0x6D, 0xB6]);
}

#[test]
fn gutmann_selection_by_pass() {
    assert_eq!(sequence_of(&get_pass_pattern(&WipeAlgorithm::Gutmann, 1)), vec![0x00]);
    assert_eq!(sequence_of(&get_pass_pattern(&WipeAlgorithm::Gutmann, 2)), vec![0xFF]);
    assert_eq!(
        sequence_of(&get_pass_pattern(&WipeAlgorithm::Gutmann, 5)),
        vec![0x92, 0x49, 0x24]
    );
    assert_eq!(
        sequence_of(&get_pass_pattern(&WipeAlgorithm::Gutmann, 29)),
        vec![0xDB, 0x6D, 0xB6]
    );
    assert_eq!(sequence_of(&get_pass_pattern(&WipeAlgorithm::Gutmann, 30)), vec![0x00]);
    assert_eq!(sequence_of(&get_pass_pattern(&WipeAlgorithm::Gutmann, 35)), vec![0x49, 0x24, 0x92]);
}

#[test]
fn gutmann_cycles_every_29_passes() {
    for pass in 1..=6 {
        assert_eq!(
            sequence_of(&get_pass_pattern(&WipeAlgorithm::Gutmann, pass)),
            sequence_of(&get_pass_pattern(&WipeAlgorithm::Gutmann, pass + 29))
        );
    }
}

#[test]
fn pattern_labels() {
    assert_eq!(get_pattern_name(&WipeAlgorithm::Zero, 1), "0x00");
    assert_eq!(get_pattern_name(&WipeAlgorithm::Random, 1), "RAND");
    assert_eq!(get_pattern_name(&WipeAlgorithm::Dod5220, 1), "0x00");
    assert_eq!(get_pattern_name(&WipeAlgorithm::Dod5220, 2), "0xFF");
    assert_eq!(get_pattern_name(&WipeAlgorithm::Dod5220, 3), "RAND");
    assert_eq!(get_pattern_name(&WipeAlgorithm::Dod5220, 4), "????");
    assert_eq!(get_pattern_name(&WipeAlgorithm::Gutmann, 12), "GUTM");
    assert_eq!(get_pattern_name(&WipeAlgorithm::Custom, 2), "RAND");
}
