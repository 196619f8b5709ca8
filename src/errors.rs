use vstd::prelude::*;

verus! {

/// Why a session was rejected or stopped.
#[derive(Debug, Clone, Copy, PartialEq, Eq, Structural)]
pub enum WipeError {
    /// `Custom` was chosen with zero passes.
    ZeroPasses,
    /// An explicit buffer size of zero KB, or one whose byte count does not fit in `usize`.
    BadBufferSize,
    /// A write failed during pass `pass` after `bytes_written` bytes of that pass.
    Io { pass: usize, bytes_written: u64 },
    /// A flush at the end of pass `pass` failed.
    Sync { pass: usize },
    /// The session was cancelled during pass `pass` after `bytes_written` bytes of that pass.
    Cancelled { pass: usize, bytes_written: u64 },
}

} // verus!
