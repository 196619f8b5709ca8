//! Overwrite engine for secure data destruction on files and block devices.
//!
//! - `algorithms`: the catalog of schemes, their pass counts, patterns and labels.
//! - `buffer`: I/O buffer sizing and the available-memory figure it relies on.
//! - `wipe`: the session state machine that fills the buffer and hands out
//!   the seeks, writes and flushes a caller carries out.
//! - `progress`: throttling of progress reports.
//! - `platform`: device-path classification and drive-path lists.
//! - `errors`: why a session is rejected or stopped.

pub mod algorithms;
pub mod buffer;
pub mod errors;
pub mod platform;
pub mod progress;
pub mod wipe;
