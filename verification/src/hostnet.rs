//! The logic behind the guest's `net_*` host functions: errno values and
//! their encodings, Winsock translations, the guest's socket table, the
//! byte layouts of replies and requests, and the per-call decisions.
//!
//! ## Return conventions
//!
//! - **`i32` returns**: non-negative on success (value is op-specific),
//!   negative = `-errno` on error.
//! - **`Vec<u8>` returns**: first 4 bytes are the `i32` status, followed by
//!   packed data on success.

pub mod calls;
pub mod errno;
pub mod table;
pub mod winsock;
pub mod wire;
