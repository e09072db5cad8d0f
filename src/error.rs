//! Errors of entries and of the decode dispatch.

use vstd::prelude::*;

verus! {

/// What can go wrong while reading, transforming, decoding or encoding an entry.
#[derive(Clone, Copy, Debug, PartialEq, Eq, Structural)]
pub enum PackedFileError {
    /// A path was set to the empty sequence.
    EmptyPath,
    /// Mutable access to the bytes of an entry that is not loaded yet.
    NotResident,
    /// A path classified as a database table names no table.
    NotADatabaseTable,
    /// A compressed stream was malformed.
    DecompressionFailed,
    /// Encoding was asked of a value that has no encoder.
    EncodingNotSupported,
    /// The file or handle behind an entry failed.
    IOError,
    /// A format decoder or encoder refused its input.
    DecodingFailed,
}

} // verus!
