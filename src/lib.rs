//! Streaming download-and-extract pipeline: byte accounting and progress
//! reporting, archive format selection, entry path confinement, and the
//! run's stage machine.
//!
//! Extraction stops at the first failure; entries already written stay on
//! disk, with no rollback.

pub mod extract;
pub mod format;
pub mod entry_path;
pub mod progress;
pub mod run;
