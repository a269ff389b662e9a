//! Integrity checks for sequencing files: per-format validators, the
//! checksum and progress transforms of the byte stream, the batch policies
//! and the report model.

pub mod checker;
pub mod checks;
pub mod progress;
pub mod report;
pub mod sha256;
pub mod text;
