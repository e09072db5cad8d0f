//! Entries of a game archive: lazily loaded, optionally transformed byte
//! blobs, the classification of an entry by its path, and the dispatch of
//! its bytes to the decoder of its content type.

pub mod decoded;
pub mod error;
pub mod laws;
pub mod packed_file;
pub mod packed_file_type;

pub use decoded::{decode_bytes, decode_target, Codecs, DecodeTarget, DecodedPackedFile};
pub use error::PackedFileError;
pub use packed_file::{plain_from_read, DataSource, DataTransforms, PFHVersion, PackedFile, PackedFileData};
pub use packed_file_type::PackedFileType;
