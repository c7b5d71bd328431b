//! Resource-access control for a single logical byte target.
//!
//! The library mediates concurrent read/write access to one logical data
//! target and exposes it as a seekable byte stream. Exclusivity is tracked by
//! counting outstanding reader and writer tokens; streams come in two
//! variants, a deterministic synthetic byte-pattern generator and a buffered
//! file-backed reader.

pub mod controller;
pub mod errors;
pub mod pattern;

pub use controller::ReadToken;
pub use controller::TestCaseController;
pub use controller::TestCaseReader;
pub use controller::WriteToken;
pub use controller::TARGET_SIZE;
pub use errors::TestCaseError;
pub use pattern::AsyncMockStream;
pub use pattern::SeekFrom;
