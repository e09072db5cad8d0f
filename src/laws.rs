//! Properties that relate several calls on entries and decoded values.

use vstd::prelude::*;

use crate::decoded::{decode_outcome, Codecs, DecodedPackedFile};
use crate::error::PackedFileError;
use crate::packed_file::{
    data_outcome, is_plain, load_outcome, take_outcome, DataSource, DataTransforms, DataView, PackedFileView,
};
use crate::packed_file_type::{classify, PackedFileType};

verus! {

/// Loading an entry that is already loaded changes nothing and succeeds.
pub proof fn load_of_loaded_is_noop<H: DataSource>(
    before: PackedFileView<H>,
    after: PackedFileView<H>,
    r: Result<(), PackedFileError>,
)
    requires
        before.data is OnMemory,
        load_outcome(before, after, r),
    ensures
        r is Ok,
        after == before,
{
}

/// After a load that succeeded, loading again succeeds and leaves the
/// entry, bytes and flags alike, exactly as the first load left it.
pub proof fn load_twice_is_load_once<H: DataSource>(
    first: PackedFileView<H>,
    second: PackedFileView<H>,
    third: PackedFileView<H>,
    r1: Result<(), PackedFileError>,
    r2: Result<(), PackedFileError>,
)
    requires
        load_outcome(first, second, r1),
        r1 is Ok,
        load_outcome(second, third, r2),
    ensures
        second.data is OnMemory,
        r2 is Ok,
        third == second,
{
}

/// Taking the plain bytes leaves both transform flags cleared, and taking
/// them again returns the same bytes and changes nothing.
pub proof fn take_twice_returns_same_bytes<H: DataSource, T: DataTransforms>(
    transforms: T,
    first: PackedFileView<H>,
    second: PackedFileView<H>,
    third: PackedFileView<H>,
    v: Seq<u8>,
    r2: Result<Seq<u8>, PackedFileError>,
)
    requires
        take_outcome(transforms, first, second, Ok(v)),
        take_outcome(transforms, second, third, r2),
    ensures
        second.data == DataView::<H>::OnMemory(v, false, None),
        is_plain(second.data),
        r2 == Ok::<Seq<u8>, PackedFileError>(v),
        third == second,
{
}

/// On a loaded entry, taking the plain bytes gives what asking for them
/// gives, and asking twice gives the same result twice.
pub proof fn take_agrees_with_peek<H: DataSource, T: DataTransforms>(
    transforms: T,
    before: PackedFileView<H>,
    after: PackedFileView<H>,
    peeked: Result<Seq<u8>, PackedFileError>,
    peeked_again: Result<Seq<u8>, PackedFileError>,
    taken: Result<Seq<u8>, PackedFileError>,
)
    requires
        before.data is OnMemory,
        data_outcome(transforms, before.data, peeked),
        data_outcome(transforms, before.data, peeked_again),
        take_outcome(transforms, before, after, taken),
    ensures
        taken == peeked,
        peeked_again == peeked,
{
}

/// Without a schema, an entry classified as a database table decodes to
/// `Unknown`, and that is no error.
pub proof fn decode_db_without_schema_is_unknown<C: Codecs, H: DataSource, T: DataTransforms>(
    transforms: T,
    data: DataView<H>,
    path: Seq<Seq<char>>,
    r: Result<DecodedPackedFile<C>, PackedFileError>,
)
    requires
        classify(path) == PackedFileType::DB,
        decode_outcome(transforms, data, path, None, r),
    ensures
        r == Ok::<DecodedPackedFile<C>, PackedFileError>(DecodedPackedFile::Unknown),
{
}

/// With the same schema, the two decode entry points agree: on a loaded
/// entry any two decodings give the same result.
pub proof fn decodings_of_loaded_entry_agree<C: Codecs, H: DataSource, T: DataTransforms>(
    transforms: T,
    data: DataView<H>,
    path: Seq<Seq<char>>,
    schema: &C::Schema,
    r1: Result<DecodedPackedFile<C>, PackedFileError>,
    r2: Result<DecodedPackedFile<C>, PackedFileError>,
)
    requires
        data is OnMemory,
        decode_outcome(transforms, data, path, Some(schema), r1),
        decode_outcome(transforms, data, path, Some(schema), r2),
    ensures
        r1 == r2,
{
}

} // verus!
