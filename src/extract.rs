use vstd::prelude::*;

use crate::entry_path::{path_stays_inside, stays_inside, PathPart};

verus! {

/// The ways a run can fail, each with what is needed to diagnose it.
#[derive(Clone, Debug)]
pub enum RunError {
    DirectoryCreation { path: String, detail: String },
    Transfer { url: String, detail: String },
    MissingContentLength { url: String },
    UnsupportedFormat { identifier: String },
    Decompression { detail: String },
    ArchiveFormat { detail: String },
    PathTraversal { path: String },
    FilesystemWrite { path: String, detail: String },
}

/// Which part of the extraction an I/O failure came from.
#[derive(Clone, Copy, Debug, PartialEq, Eq, Structural)]
pub enum Phase {
    /// Pulling the next entry header out of the decompressed stream.
    ReadingHeader,
    /// Materializing one entry under the output root.
    WritingEntry,
}

/// The class of an I/O failure, as far as extraction cares.
#[derive(Clone, Copy, Debug, PartialEq, Eq, Structural)]
pub enum Cause {
    /// The bytes could not be decoded.
    InvalidData,
    /// The stream ended before a structure was complete.
    UnexpectedEnd,
    /// Anything else: refused permission, a full disk, a malformed header.
    Other,
}

/// Names the error kind of a failure: undecodable or truncated bytes are a
/// decompression failure wherever they surface; anything else is a malformed
/// archive while reading headers, and a write failure while writing.
pub open spec fn is_decompression(c: Cause) -> bool {
    c == Cause::InvalidData || c == Cause::UnexpectedEnd
}

pub fn classify_failure(phase: Phase, cause: Cause, path: String, detail: String) -> (r: RunError)
    ensures
        is_decompression(cause) ==> (r matches RunError::Decompression { detail: d } && d@ == detail@),
        !is_decompression(cause) && phase == Phase::ReadingHeader
            ==> (r matches RunError::ArchiveFormat { detail: d } && d@ == detail@),
        !is_decompression(cause) && phase == Phase::WritingEntry
            ==> (r matches RunError::FilesystemWrite { path: p, detail: d } && p@ == path@ && d@ == detail@),
{
    match cause {
        Cause::InvalidData | Cause::UnexpectedEnd => RunError::Decompression { detail },
        Cause::Other => match phase {
            Phase::ReadingHeader => RunError::ArchiveFormat { detail },
            Phase::WritingEntry => RunError::FilesystemWrite { path, detail },
        },
    }
}

/// Lets an entry through only when its path stays under the output root;
/// otherwise refuses it, naming the path.
pub fn check_entry(path: String, parts: &Vec<PathPart>) -> (r: Result<(), RunError>)
    ensures
        r is Ok <==> stays_inside(parts@),
        r matches Err(e) ==> (e matches RunError::PathTraversal { path: p } && p@ == path@),
{
    if path_stays_inside(parts) {
        Ok(())
    } else {
        Err(RunError::PathTraversal { path })
    }
}

} // verus!
