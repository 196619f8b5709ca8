use vstd::prelude::*;

use crate::errors::WipeError;

verus! {

/// The overwrite schemes the engine knows.
#[derive(Debug, Clone, Copy, PartialEq, Eq, Structural)]
pub enum WipeAlgorithm {
    /// One pass of zero bytes.
    Zero,
    /// One pass of random bytes.
    Random,
    /// DoD 5220.22-M: zeros, then 0xFF, then random bytes.
    Dod5220,
    /// Gutmann: 35 passes cycling through a 29-entry pattern table.
    Gutmann,
    /// A caller-chosen number of random passes.
    Custom,
}

/// What one pass writes.
#[derive(Debug)]
pub enum WipePattern {
    /// The same byte everywhere.
    Fixed(u8),
    /// Fresh random bytes for every write.
    Random,
    /// The byte sequence `table[index]`, repeated.
    Gutmann { table: Vec<Vec<u8>>, index: usize },
}

/// The mathematical content of a pattern.
pub enum PatternModel {
    Fixed(u8),
    Random,
    Cyclic(Seq<u8>),
}

/// Number of entries of the Gutmann table.
pub const GUTMANN_TABLE_LEN: usize = 29;

/// The Gutmann table, in order.
pub open spec fn gutmann_table() -> Seq<Seq<u8>> {
    seq![
        seq![0x00u8],
        seq![0xFFu8],
        seq![0x55u8],
        seq![0xAAu8],
        seq![0x92u8, 0x49u8, 0x24u8],
        seq![0x49u8, 0x24u8, 0x92u8],
        seq![0x24u8, 0x92u8, 0x49u8],
        seq![0x00u8, 0x00u8, 0x00u8],
        seq![0x11u8, 0x11u8, 0x11u8],
        seq![0x22u8, 0x22u8, 0x22u8],
        seq![0x33u8, 0x33u8, 0x33u8],
        seq![0x44u8, 0x44u8, 0x44u8],
        seq![0x55u8, 0x55u8, 0x55u8],
        seq![0x66u8, 0x66u8, 0x66u8],
        seq![0x77u8, 0x77u8, 0x77u8],
        seq![0x88u8, 0x88u8, 0x88u8],
        seq![0x99u8, 0x99u8, 0x99u8],
        seq![0xAAu8, 0xAAu8, 0xAAu8],
        seq![0xBBu8, 0xBBu8, 0xBBu8],
        seq![0xCCu8, 0xCCu8, 0xCCu8],
        seq![0xDDu8, 0xDDu8, 0xDDu8],
        seq![0xEEu8, 0xEEu8, 0xEEu8],
        seq![0xFFu8, 0xFFu8, 0xFFu8],
        seq![0x92u8, 0x49u8, 0x24u8],
        seq![0x49u8, 0x24u8, 0x92u8],
        seq![0x24u8, 0x92u8, 0x49u8],
        seq![0x6Du8, 0xB6u8, 0xDBu8],
        seq![0xB6u8, 0xDBu8, 0x6Du8],
        seq![0xDBu8, 0x6Du8, 0xB6u8],
    ]
}

/// Total passes of an algorithm; `custom` is the pass count of `Custom`.
pub open spec fn pass_count_spec(algorithm: WipeAlgorithm, custom: nat) -> nat {
    match algorithm {
        WipeAlgorithm::Zero => 1,
        WipeAlgorithm::Random => 1,
        WipeAlgorithm::Dod5220 => 3,
        WipeAlgorithm::Gutmann => 35,
        WipeAlgorithm::Custom => custom,
    }
}

/// An algorithm/pass-count pair that a session accepts.
pub open spec fn valid_pass_config(algorithm: WipeAlgorithm, custom: nat) -> bool {
    algorithm == WipeAlgorithm::Custom ==> custom > 0
}

/// Passes of an algorithm that `pattern_spec` speaks of (1-based).
pub open spec fn pattern_defined(algorithm: WipeAlgorithm, pass: nat) -> bool {
    &&& 1 <= pass
    &&& algorithm == WipeAlgorithm::Dod5220 ==> pass <= 3
}

/// The pattern of pass `pass` (1-based).
pub open spec fn pattern_spec(algorithm: WipeAlgorithm, pass: nat) -> PatternModel {
    match algorithm {
        WipeAlgorithm::Zero => PatternModel::Fixed(0x00),
        WipeAlgorithm::Random => PatternModel::Random,
        WipeAlgorithm::Dod5220 => if pass == 1 {
            PatternModel::Fixed(0x00)
        } else if pass == 2 {
            PatternModel::Fixed(0xFF)
        } else {
            PatternModel::Random
        },
        WipeAlgorithm::Gutmann => PatternModel::Cyclic(
            gutmann_table()[((pass - 1) % 29) as int],
        ),
        WipeAlgorithm::Custom => PatternModel::Random,
    }
}

/// The display label of pass `pass`.
pub open spec fn pattern_label(algorithm: WipeAlgorithm, pass: nat) -> Seq<char> {
    match algorithm {
        WipeAlgorithm::Zero => "0x00"@,
        WipeAlgorithm::Random => "RAND"@,
        WipeAlgorithm::Dod5220 => if pass == 1 {
            "0x00"@
        } else if pass == 2 {
            "0xFF"@
        } else if pass == 3 {
            "RAND"@
        } else {
            "????"@
        },
        WipeAlgorithm::Gutmann => "GUTM"@,
        WipeAlgorithm::Custom => "RAND"@,
    }
}

impl WipePattern {
    pub open spec fn model(&self) -> PatternModel {
        match self {
            WipePattern::Fixed(b) => PatternModel::Fixed(*b),
            WipePattern::Random => PatternModel::Random,
            WipePattern::Gutmann { table, index } => PatternModel::Cyclic(table@[*index as int]@),
        }
    }

    /// The table index is in range and the selected sequence is not empty.
    pub open spec fn wf(&self) -> bool {
        match self {
            WipePattern::Gutmann { table, index } => {
                &&& *index < table@.len()
                &&& table@[*index as int]@.len() > 0
            },
            _ => true,
        }
    }
}

/// The Gutmann table as vectors.
pub fn gutmann_patterns() -> (r: Vec<Vec<u8>>)
    ensures
        r@.len() == gutmann_table().len(),
        forall|i: int| 0 <= i < r@.len() ==> (#[trigger] r@[i])@ == gutmann_table()[i],
{
    let r: Vec<Vec<u8>> = vec![
        vec![0x00u8],
        vec![0xFFu8],
        vec![0x55u8],
        vec![0xAAu8],
        vec![0x92u8, 0x49u8, 0x24u8],
        vec![0x49u8, 0x24u8, 0x92u8],
        vec![0x24u8, 0x92u8, 0x49u8],
        vec![0x00u8, 0x00u8, 0x00u8],
        vec![0x11u8, 0x11u8, 0x11u8],
        vec![0x22u8, 0x22u8, 0x22u8],
        vec![0x33u8, 0x33u8, 0x33u8],
        vec![0x44u8, 0x44u8, 0x44u8],
        vec![0x55u8, 0x55u8, 0x55u8],
        vec![0x66u8, 0x66u8, 0x66u8],
        vec![0x77u8, 0x77u8, 0x77u8],
        vec![0x88u8, 0x88u8, 0x88u8],
        vec![0x99u8, 0x99u8, 0x99u8],
        vec![0xAAu8, 0xAAu8, 0xAAu8],
        vec![0xBBu8, 0xBBu8, 0xBBu8],
        vec![0xCCu8, 0xCCu8, 0xCCu8],
        vec![0xDDu8, 0xDDu8, 0xDDu8],
        vec![0xEEu8, 0xEEu8, 0xEEu8],
        vec![0xFFu8, 0xFFu8, 0xFFu8],
        vec![0x92u8, 0x49u8, 0x24u8],
        vec![0x49u8, 0x24u8, 0x92u8],
        vec![0x24u8, 0x92u8, 0x49u8],
        vec![0x6Du8, 0xB6u8, 0xDBu8],
        vec![0xB6u8, 0xDBu8, 0x6Du8],
        vec![0xDBu8, 0x6Du8, 0xB6u8],
    ];
    r
}

/// Total passes of `algorithm`; `custom_passes` is used by `Custom`, which
/// rejects zero.
pub fn get_algorithm_pass_count(algorithm: &WipeAlgorithm, custom_passes: usize) -> (r: Result<
    usize,
    WipeError,
>)
    ensures
        valid_pass_config(*algorithm, custom_passes as nat) ==> r == Ok::<usize, WipeError>(
            pass_count_spec(*algorithm, custom_passes as nat) as usize,
        ),
        !valid_pass_config(*algorithm, custom_passes as nat) ==> r == Err::<usize, WipeError>(
            WipeError::ZeroPasses,
        ),
{
    match algorithm {
        WipeAlgorithm::Zero | WipeAlgorithm::Random => Ok(1),
        WipeAlgorithm::Dod5220 => Ok(3),
        WipeAlgorithm::Gutmann => Ok(35),
        WipeAlgorithm::Custom => {
            if custom_passes == 0 {
                Err(WipeError::ZeroPasses)
            } else {
                Ok(custom_passes)
            }
        },
    }
}

/// The pattern of pass `pass` (1-based) of `algorithm`.
pub fn get_pass_pattern(algorithm: &WipeAlgorithm, pass: usize) -> (r: WipePattern)
    requires
        pattern_defined(*algorithm, pass as nat),
    ensures
        r.model() == pattern_spec(*algorithm, pass as nat),
        r.wf(),
{
    match algorithm {
        WipeAlgorithm::Zero => WipePattern::Fixed(0x00),
        WipeAlgorithm::Random => WipePattern::Random,
        WipeAlgorithm::Dod5220 => {
            if pass == 1 {
                WipePattern::Fixed(0x00)
            } else if pass == 2 {
                WipePattern::Fixed(0xFF)
            } else {
                WipePattern::Random
            }
        },
        WipeAlgorithm::Gutmann => {
            let table = gutmann_patterns();
            let index = (pass - 1) % GUTMANN_TABLE_LEN;
            assert(table@[index as int]@ == gutmann_table()[index as int]);
            WipePattern::Gutmann { table, index }
        },
        WipeAlgorithm::Custom => WipePattern::Random,
    }
}

/// The display label of pass `pass` of `algorithm`.
pub fn get_pattern_name(algorithm: &WipeAlgorithm, pass: usize) -> (r: &'static str)
    ensures
        r@ == pattern_label(*algorithm, pass as nat),
{
    match algorithm {
        WipeAlgorithm::Zero => "0x00",
        WipeAlgorithm::Random => "RAND",
        WipeAlgorithm::Dod5220 => {
            if pass == 1 {
                "0x00"
            } else if pass == 2 {
                "0xFF"
            } else if pass == 3 {
                "RAND"
            } else {
                "????"
            }
        },
        WipeAlgorithm::Gutmann => "GUTM",
        WipeAlgorithm::Custom => "RAND",
    }
}

/// Pass counts follow the fixed table: Zero and Random one pass, Dod5220
/// three, Gutmann thirty-five, and Custom the configured positive count.
pub proof fn lemma_pass_count_table(custom: nat)
    requires
        custom > 0,
    ensures
        pass_count_spec(WipeAlgorithm::Zero, custom) == 1,
        pass_count_spec(WipeAlgorithm::Random, custom) == 1,
        pass_count_spec(WipeAlgorithm::Dod5220, custom) == 3,
        pass_count_spec(WipeAlgorithm::Gutmann, custom) == 35,
        pass_count_spec(WipeAlgorithm::Custom, custom) == custom,
        forall|a: WipeAlgorithm| pass_count_spec(a, custom) > 0,
{
}

/// Gutmann pass selection repeats every 29 passes: pass `p` and pass
/// `p + 29` write the same sequence.
pub proof fn lemma_gutmann_cycle(pass: nat)
    requires
        1 <= pass,
    ensures
        pattern_spec(WipeAlgorithm::Gutmann, pass) == pattern_spec(
            WipeAlgorithm::Gutmann,
            pass + 29,
        ),
{
    assert((pass + 29 - 1) % 29 == (pass - 1) % 29) by (nonlinear_arith)
        requires pass >= 1;
}

/// The DoD 5220.22-M scheme writes zeros on pass one, 0xFF on pass two and
/// random bytes on pass three.
pub proof fn lemma_dod_patterns()
    ensures
        pattern_spec(WipeAlgorithm::Dod5220, 1) == PatternModel::Fixed(0x00),
        pattern_spec(WipeAlgorithm::Dod5220, 2) == PatternModel::Fixed(0xFF),
        pattern_spec(WipeAlgorithm::Dod5220, 3) == PatternModel::Random,
{
}

} // verus!
