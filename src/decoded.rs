//! Decoding the bytes of an entry into a typed value by its content type,
//! and encoding such values back into bytes.

use vstd::prelude::*;

use crate::error::PackedFileError;
use crate::packed_file::{bytes_result, data_outcome, DataSource, DataTransforms, DataView, PackedFile};
use crate::packed_file_type::{classify, path_view, PackedFileType};

verus! {

/// The format decoders and encoders, and the schema that table formats need.
///
/// Its spec functions name what an implementation computes; their default
/// bodies are closed, so that nothing is known of them but what the
/// methods' `ensures` state.
pub trait Codecs {
    /// The description of table layouts.
    type Schema;
    /// A decoded database table.
    type Db: Clone + core::fmt::Debug + PartialEq;
    /// A decoded image.
    type Image: Clone + core::fmt::Debug + PartialEq;
    /// A decoded localisation table.
    type Loc: Clone + core::fmt::Debug + PartialEq;
    /// A decoded text file.
    type Text: Clone + core::fmt::Debug + PartialEq;

    /// The database table `table` decoded from `data`.
    closed spec fn db_of(data: Seq<u8>, table: Seq<char>, schema: Self::Schema) -> Result<Self::Db, PackedFileError> {
        arbitrary()
    }

    /// The localisation table decoded from `data`.
    closed spec fn loc_of(data: Seq<u8>, schema: Self::Schema) -> Result<Self::Loc, PackedFileError> {
        arbitrary()
    }

    /// The text file decoded from `data`.
    closed spec fn text_of(data: Seq<u8>) -> Result<Self::Text, PackedFileError> {
        arbitrary()
    }

    /// The image decoded from `data`.
    closed spec fn image_of(data: Seq<u8>) -> Result<Self::Image, PackedFileError> {
        arbitrary()
    }

    /// The bytes of a database table.
    closed spec fn saved_db(value: Self::Db) -> Result<Seq<u8>, PackedFileError> {
        arbitrary()
    }

    /// The bytes of a localisation table.
    closed spec fn saved_loc(value: Self::Loc) -> Result<Seq<u8>, PackedFileError> {
        arbitrary()
    }

    /// The bytes of a text file.
    closed spec fn saved_text(value: Self::Text) -> Result<Seq<u8>, PackedFileError> {
        arbitrary()
    }

    /// Decodes the bytes of the database table `table_name`.
    fn read_db(data: &[u8], table_name: &str, schema: &Self::Schema) -> (r: Result<Self::Db, PackedFileError>)
        ensures
            r == Self::db_of(data@, table_name@, *schema),
    ;

    /// Decodes the bytes of a localisation table.
    fn read_loc(data: &[u8], schema: &Self::Schema) -> (r: Result<Self::Loc, PackedFileError>)
        ensures
            r == Self::loc_of(data@, *schema),
    ;

    /// Decodes the bytes of a text file.
    fn read_text(data: &[u8]) -> (r: Result<Self::Text, PackedFileError>)
        ensures
            r == Self::text_of(data@),
    ;

    /// Decodes the bytes of an image.
    fn read_image(data: &[u8]) -> (r: Result<Self::Image, PackedFileError>)
        ensures
            r == Self::image_of(data@),
    ;

    /// Encodes a database table.
    fn save_db(value: &Self::Db) -> (r: Result<Vec<u8>, PackedFileError>)
        ensures
            bytes_result(r) == Self::saved_db(*value),
    ;

    /// Encodes a localisation table.
    fn save_loc(value: &Self::Loc) -> (r: Result<Vec<u8>, PackedFileError>)
        ensures
            bytes_result(r) == Self::saved_loc(*value),
    ;

    /// Encodes a text file.
    fn save_text(value: &Self::Text) -> (r: Result<Vec<u8>, PackedFileError>)
        ensures
            bytes_result(r) == Self::saved_text(*value),
    ;
}

/// A decoded entry. Only database tables, localisation tables, text and
/// images carry a decoded value; the other kinds are recognised only.
#[derive(Clone, Debug, PartialEq)]
pub enum DecodedPackedFile<C: Codecs> {
    Anim,
    AnimFragment,
    AnimPack,
    AnimTable,
    CEO,
    DB(C::Db),
    Image(C::Image),
    Loc(C::Loc),
    MatchedCombat,
    RigidModel,
    StarPos,
    Text(C::Text),
    Unknown,
}

/// Which decoder the bytes of an entry go to.
#[derive(Clone, Copy, Debug, PartialEq, Eq, Structural)]
pub enum DecodeTarget {
    /// The database decoder, for the table named by the second path segment.
    Db,
    /// The localisation decoder.
    Loc,
    /// The text decoder.
    Text,
    /// The image decoder.
    Image,
    /// No decoder: the entry decodes to `Unknown`.
    Unknown,
}

/// The decoder for an entry at `path`, given whether a schema is at hand.
/// Table formats without a schema decode to `Unknown`, which is no error; a
/// database path must name its table.
pub open spec fn target_of(path: Seq<Seq<char>>, has_schema: bool) -> Result<DecodeTarget, PackedFileError> {
    match classify(path) {
        PackedFileType::DB => if !has_schema {
            Ok(DecodeTarget::Unknown)
        } else if path.len() < 2 {
            Err(PackedFileError::NotADatabaseTable)
        } else {
            Ok(DecodeTarget::Db)
        },
        PackedFileType::Loc => if has_schema {
            Ok(DecodeTarget::Loc)
        } else {
            Ok(DecodeTarget::Unknown)
        },
        PackedFileType::Text => Ok(DecodeTarget::Text),
        PackedFileType::Image => Ok(DecodeTarget::Image),
        _ => Ok(DecodeTarget::Unknown),
    }
}

/// A decoder's result, as a decoded entry of its kind; its error is kept.
pub open spec fn wrap<C: Codecs, V>(r: Result<V, PackedFileError>, f: spec_fn(V) -> DecodedPackedFile<C>) -> Result<DecodedPackedFile<C>, PackedFileError> {
    match r {
        Ok(v) => Ok(f(v)),
        Err(e) => Err(e),
    }
}

/// What the decoder for `target` makes of the plain bytes `data` of the
/// entry at `path`: a database table is named by the second segment.
pub open spec fn decoded_of<C: Codecs>(
    target: DecodeTarget,
    data: Seq<u8>,
    path: Seq<Seq<char>>,
    schema: Option<&C::Schema>,
) -> Result<DecodedPackedFile<C>, PackedFileError> {
    match target {
        DecodeTarget::Db => wrap(C::db_of(data, path[1], *schema->Some_0), |v: C::Db| DecodedPackedFile::<C>::DB(v)),
        DecodeTarget::Loc => wrap(C::loc_of(data, *schema->Some_0), |v: C::Loc| DecodedPackedFile::<C>::Loc(v)),
        DecodeTarget::Text => wrap(C::text_of(data), |v: C::Text| DecodedPackedFile::<C>::Text(v)),
        DecodeTarget::Image => wrap(C::image_of(data), |v: C::Image| DecodedPackedFile::<C>::Image(v)),
        DecodeTarget::Unknown => Ok(DecodedPackedFile::Unknown),
    }
}

/// What decoding an entry at `path` with storage `data` may give: the error
/// of the dispatch itself; `Unknown` where no decoder applies, without a
/// read; or else what the decoder makes of the entry's plain bytes, with
/// any error of the read, the transforms or the decoder kept as it is.
pub open spec fn decode_outcome<C: Codecs, H: DataSource, T: DataTransforms>(
    transforms: T,
    data: DataView<H>,
    path: Seq<Seq<char>>,
    schema: Option<&C::Schema>,
    r: Result<DecodedPackedFile<C>, PackedFileError>,
) -> bool {
    match target_of(path, schema is Some) {
        Err(e) => r == Err::<DecodedPackedFile<C>, PackedFileError>(e),
        Ok(DecodeTarget::Unknown) => r == Ok::<DecodedPackedFile<C>, PackedFileError>(
            DecodedPackedFile::Unknown,
        ),
        Ok(t) => exists|plain: Result<Seq<u8>, PackedFileError>|
            data_outcome(transforms, data, plain) && r == match plain {
                Ok(b) => decoded_of::<C>(t, b, path, schema),
                Err(e) => Err(e),
            },
    }
}

/// The decoder that the bytes of the entry at `path` go to.
pub fn decode_target(path: &[String], has_schema: bool) -> (r: Result<DecodeTarget, PackedFileError>)
    ensures
        r == target_of(path_view(path@), has_schema),
{
    match PackedFileType::get_packed_file_type(path) {
        PackedFileType::DB => if !has_schema {
            Ok(DecodeTarget::Unknown)
        } else if path.len() < 2 {
            Err(PackedFileError::NotADatabaseTable)
        } else {
            Ok(DecodeTarget::Db)
        },
        PackedFileType::Loc => if has_schema {
            Ok(DecodeTarget::Loc)
        } else {
            Ok(DecodeTarget::Unknown)
        },
        PackedFileType::Text => Ok(DecodeTarget::Text),
        PackedFileType::Image => Ok(DecodeTarget::Image),
        _ => Ok(DecodeTarget::Unknown),
    }
}

/// Decodes the plain bytes `data` of the entry at `path` by the decoder for
/// `target`.
pub fn decode_bytes<C: Codecs>(
    target: DecodeTarget,
    data: &[u8],
    path: &[String],
    schema: Option<&C::Schema>,
) -> (r: Result<DecodedPackedFile<C>, PackedFileError>)
    requires
        target is Db ==> path@.len() >= 2 && schema is Some,
        target is Loc ==> schema is Some,
    ensures
        r == decoded_of::<C>(target, data@, path_view(path@), schema),
{
    match target {
        DecodeTarget::Db => match schema {
            Some(schema) => match C::read_db(data, path[1].as_str(), schema) {
                Ok(table) => Ok(DecodedPackedFile::DB(table)),
                Err(e) => Err(e),
            },
            None => Ok(DecodedPackedFile::Unknown),
        },
        DecodeTarget::Loc => match schema {
            Some(schema) => match C::read_loc(data, schema) {
                Ok(table) => Ok(DecodedPackedFile::Loc(table)),
                Err(e) => Err(e),
            },
            None => Ok(DecodedPackedFile::Unknown),
        },
        DecodeTarget::Text => match C::read_text(data) {
            Ok(text) => Ok(DecodedPackedFile::Text(text)),
            Err(e) => Err(e),
        },
        DecodeTarget::Image => match C::read_image(data) {
            Ok(image) => Ok(DecodedPackedFile::Image(image)),
            Err(e) => Err(e),
        },
        DecodeTarget::Unknown => Ok(DecodedPackedFile::Unknown),
    }
}

/// The one dispatch behind both decode entry points: the bytes are read only
/// where a decoder applies.
fn dispatch<C: Codecs, H: DataSource, T: DataTransforms>(
    data: &PackedFile<H>,
    schema: Option<&C::Schema>,
    transforms: &T,
) -> (r: Result<DecodedPackedFile<C>, PackedFileError>)
    ensures
        decode_outcome(*transforms, data@.data, data@.path, schema, r),
{
    let path = data.get_path();
    match decode_target(path, schema.is_some()) {
        Err(e) => Err(e),
        Ok(DecodeTarget::Unknown) => Ok(DecodedPackedFile::Unknown),
        Ok(target) => {
            let plain = data.get_data(transforms);
            let ghost read = bytes_result(plain);
            let r = match plain {
                Ok(bytes) => decode_bytes(target, bytes.as_slice(), path, schema),
                Err(e) => Err(e),
            };
            assert(data_outcome(*transforms, data@.data, read));
            r
        },
    }
}

impl<C: Codecs> DecodedPackedFile<C> {
    /// Decodes an entry by the content type of its path, with the schema if
    /// one has been set. Without a schema, table formats decode to
    /// `Unknown`; a database path without a table name fails with
    /// `NotADatabaseTable`; kinds without a decoder decode to `Unknown`.
    pub fn decode<H: DataSource, T: DataTransforms>(
        data: &PackedFile<H>,
        schema: Option<&C::Schema>,
        transforms: &T,
    ) -> (r: Result<Self, PackedFileError>)
        ensures
            decode_outcome(*transforms, data@.data, data@.path, schema, r),
    {
        dispatch(data, schema, transforms)
    }

    /// Decodes an entry as `decode` does, with a schema the caller already
    /// holds. Image paths go to the image decoder here too.
    pub fn decode_no_locks<H: DataSource, T: DataTransforms>(
        data: &PackedFile<H>,
        schema: &C::Schema,
        transforms: &T,
    ) -> (r: Result<Self, PackedFileError>)
        ensures
            decode_outcome(*transforms, data@.data, data@.path, Some(schema), r),
    {
        dispatch(data, Some(schema), transforms)
    }

    /// Encodes a decoded value with its own encoder. Only database tables,
    /// localisation tables and text have one; every other value fails with
    /// `EncodingNotSupported`, and no bytes come out.
    pub fn encode(&self) -> (r: Result<Vec<u8>, PackedFileError>)
        ensures
            bytes_result(r) == match *self {
                DecodedPackedFile::DB(v) => C::saved_db(v),
                DecodedPackedFile::Loc(v) => C::saved_loc(v),
                DecodedPackedFile::Text(v) => C::saved_text(v),
                _ => Err(PackedFileError::EncodingNotSupported),
            },
    {
        match self {
            DecodedPackedFile::DB(data) => C::save_db(data),
            DecodedPackedFile::Loc(data) => C::save_loc(data),
            DecodedPackedFile::Text(data) => C::save_text(data),
            _ => Err(PackedFileError::EncodingNotSupported),
        }
    }
}

} // verus!
