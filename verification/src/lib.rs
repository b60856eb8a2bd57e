//! A leveled logging facility: severity levels with a total order for
//! filtering, a write-once configuration handle, verified rendering of log
//! lines, a size-bounded file sink model with truncate-on-exceed rollover,
//! and a retry helper for fallible operations.

pub mod clock;
pub mod level;
pub mod logger;
pub mod render;
pub mod retry;
pub mod sink;
