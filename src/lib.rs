//! A safe, verified surface over the host antimalware scanning interface.
//!
//! The library translates the engine's composite status codes into errors,
//! classifies scan verdicts, marshals text into the null-terminated UTF-16
//! form the engine expects, and ties every scan session to the context it
//! was opened from.
pub mod context;
pub mod error;
pub mod verdict;
pub mod wide;

pub use context::{AmsiContext, AmsiSession};
pub use error::WinError;
pub use verdict::{scan_outcome, AmsiResult};
pub use wide::to_wide;
