use vstd::prelude::*;

verus! {

/// Minimum time between two progress reports: 2 s in fast mode, 500 ms for
/// the structured stream, 200 ms for the progress bar.
pub fn progress_interval_ms(fast_mode: bool, json_mode: bool) -> (r: u64)
    ensures
        r == (if fast_mode {
            2000u64
        } else if json_mode {
            500u64
        } else {
            200u64
        }),
{
    if fast_mode {
        2000
    } else if json_mode {
        500
    } else {
        200
    }
}

/// What a progress report covers: the bytes written and the time passed
/// since the previous report (or the start of the pass).
#[derive(Debug, Clone, Copy, PartialEq, Eq, Structural)]
pub struct ProgressSample {
    pub bytes_since: u64,
    pub elapsed_ms: u64,
}

/// Decides when a progress report is due, so that reports come at most once
/// per interval.
#[derive(Debug, Clone, Copy, PartialEq, Eq, Structural)]
pub struct ProgressThrottle {
    pub interval_ms: u64,
    pub last_ms: u64,
    pub last_bytes: u64,
}

pub open spec fn saturating_diff(a: u64, b: u64) -> u64 {
    if a >= b { (a - b) as u64 } else { 0 }
}

impl ProgressThrottle {
    /// A throttle for a pass that starts at `now_ms`.
    pub fn new(interval_ms: u64, now_ms: u64) -> (r: ProgressThrottle)
        ensures
            r == (ProgressThrottle { interval_ms, last_ms: now_ms, last_bytes: 0 }),
    {
        ProgressThrottle { interval_ms, last_ms: now_ms, last_bytes: 0 }
    }

    /// Called after each write with the time and the bytes of the pass
    /// written so far. A report is due once the interval has passed since the
    /// previous one; it then covers what happened since, and the throttle
    /// starts a new interval.
    pub fn observe(&mut self, now_ms: u64, total_written: u64) -> (r: Option<ProgressSample>)
        ensures
            final(self).interval_ms == old(self).interval_ms,
            saturating_diff(now_ms, old(self).last_ms) >= old(self).interval_ms ==> {
                &&& r == Some(
                    ProgressSample {
                        bytes_since: saturating_diff(total_written, old(self).last_bytes),
                        elapsed_ms: saturating_diff(now_ms, old(self).last_ms),
                    },
                )
                &&& final(self).last_ms == now_ms
                &&& final(self).last_bytes == total_written
            },
            saturating_diff(now_ms, old(self).last_ms) < old(self).interval_ms ==> r is None && *final(self) == *old(self),
    {
        let elapsed = if now_ms >= self.last_ms {
            now_ms - self.last_ms
        } else {
            0
        };
        if elapsed < self.interval_ms {
            return None;
        }
        let bytes_since = if total_written >= self.last_bytes {
            total_written - self.last_bytes
        } else {
            0
        };
        self.last_ms = now_ms;
        self.last_bytes = total_written;
        Some(ProgressSample { bytes_since, elapsed_ms: elapsed })
    }
}

} // verus!
