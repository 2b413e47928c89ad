//! Reader for AN-style `.dat` game archives: a fixed-size archive header, a
//! master file table (MFT) of entry records, and a reconciled file-id index
//! derived from the raw id table stored in a designated MFT entry.

use vstd::prelude::*;

pub mod archive;
pub mod types;
pub mod le;
pub mod reconcile;

verus! {

/// Failure taxonomy for archive loading and entry fetching.
#[derive(Clone, Copy, Debug, PartialEq, Eq, Structural)]
pub enum ArchiveError {
    /// The file name does not carry the expected `.dat` extension.
    InvalidInput,
    /// The archive header magic does not match.
    FormatError,
    /// The byte source is too short for a requested read.
    IoError,
    /// An entry index or an id-table key is out of range.
    IndexError,
}

} // verus!
