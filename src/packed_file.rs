//! Entries of an archive: bytes held in memory or read on demand from a
//! handle shared with the other entries of the same archive.

use vstd::prelude::*;

use crate::error::PackedFileError;
use crate::packed_file_type::path_view;

verus! {

/// The archive format version of the game an entry is encrypted for; it
/// selects the cipher parameters.
#[derive(Clone, Copy, Debug, PartialEq, Eq, Structural)]
pub enum PFHVersion {
    PFH6,
    PFH5,
    PFH4,
    PFH3,
    PFH2,
    PFH0,
}

/// A handle on the archive file, shared by the entries that were read from it.
///
/// Its spec functions name what an implementation computes; their default
/// bodies are closed, so that nothing is known of them but what the
/// methods' `ensures` state.
pub trait DataSource {
    /// Whether `r` is a possible outcome of reading `size` bytes at
    /// `position`: what the file holds may change between reads.
    closed spec fn reads(&self, position: u64, size: u32, r: Result<Seq<u8>, PackedFileError>) -> bool {
        arbitrary()
    }

    /// Reads `size` bytes starting at `position`, seeking and reading as one
    /// critical section on the shared handle.
    fn read_exact_at(&self, position: u64, size: u32) -> (r: Result<Vec<u8>, PackedFileError>)
        ensures
            self.reads(position, size, bytes_result(r)),
    ;
}

/// The cipher and the decompressor that an entry's bytes may have gone
/// through. Both are functions of their inputs.
///
/// Its spec functions name what an implementation computes; their default
/// bodies are closed, so that nothing is known of them but what the
/// methods' `ensures` state.
pub trait DataTransforms {
    /// `data` with the encryption of `version` removed.
    closed spec fn decrypted(&self, data: Seq<u8>, version: PFHVersion) -> Seq<u8> {
        arbitrary()
    }

    /// `data` decompressed, or the error of a malformed stream.
    closed spec fn decompressed(&self, data: Seq<u8>) -> Result<Seq<u8>, PackedFileError> {
        arbitrary()
    }

    /// Removes the encryption of the given version from `data`.
    fn decrypt(&self, data: &[u8], version: PFHVersion) -> (r: Vec<u8>)
        ensures
            r@ == self.decrypted(data@, version),
    ;

    /// Decompresses `data`, failing with `DecompressionFailed` on a
    /// malformed stream.
    fn decompress(&self, data: &[u8]) -> (r: Result<Vec<u8>, PackedFileError>)
        ensures
            bytes_result(r) == self.decompressed(data@),
            r is Err ==> r->Err_0 == PackedFileError::DecompressionFailed,
    ;
}

/// The plain bytes of `data`, stored with the given flags: decrypted first
/// where it is encrypted, then decompressed where it is compressed.
pub open spec fn plain_of<T: DataTransforms>(
    transforms: T,
    data: Seq<u8>,
    is_compressed: bool,
    is_encrypted: Option<PFHVersion>,
) -> Result<Seq<u8>, PackedFileError> {
    let decrypted = match is_encrypted {
        Some(version) => transforms.decrypted(data, version),
        None => data,
    };
    if is_compressed {
        transforms.decompressed(decrypted)
    } else {
        Ok(decrypted)
    }
}

/// A read of `size` bytes, refused with `IOError` unless exactly that many
/// came back; a failed read keeps its error.
pub open spec fn checked_read(read: Result<Seq<u8>, PackedFileError>, size: u32) -> Result<Seq<u8>, PackedFileError> {
    match read {
        Ok(b) => if b.len() == size {
            Ok(b)
        } else {
            Err(PackedFileError::IOError)
        },
        Err(e) => Err(e),
    }
}

/// The plain bytes that a read of `size` bytes stored with the given flags
/// gives.
pub open spec fn plain_from_read_spec<T: DataTransforms>(
    transforms: T,
    read: Result<Seq<u8>, PackedFileError>,
    size: u32,
    is_compressed: bool,
    is_encrypted: Option<PFHVersion>,
) -> Result<Seq<u8>, PackedFileError> {
    match checked_read(read, size) {
        Ok(b) => plain_of(transforms, b, is_compressed, is_encrypted),
        Err(e) => Err(e),
    }
}

/// `r` is what asking storage `data` for its plain bytes may give: exactly
/// the plain bytes of loaded storage, and for storage on disk those of some
/// possible read of its handle at its position and size.
pub open spec fn data_outcome<H: DataSource, T: DataTransforms>(
    transforms: T,
    data: DataView<H>,
    r: Result<Seq<u8>, PackedFileError>,
) -> bool {
    if data is OnMemory {
        r == plain_of(transforms, data->OnMemory_0, data->OnMemory_1, data->OnMemory_2)
    } else {
        exists|read: Result<Seq<u8>, PackedFileError>|
            #[trigger] data->OnDisk_0.reads(data->OnDisk_1, data->OnDisk_2, read) && r == plain_from_read_spec(
                transforms,
                read,
                data->OnDisk_2,
                data->OnDisk_3,
                data->OnDisk_4,
            )
    }
}

/// The bytes of an entry in their current state.
#[derive(Clone, Debug)]
pub enum PackedFileData<H> {
    /// Loaded: the bytes, whether they are compressed, and the version they
    /// are encrypted for, if they are.
    OnMemory(Vec<u8>, bool, Option<PFHVersion>),
    /// Not loaded: the handle, the position and size of the bytes in its
    /// file, whether they are compressed, and the version they are encrypted
    /// for, if they are.
    OnDisk(H, u64, u32, bool, Option<PFHVersion>),
}

/// What an entry's storage holds, in mathematical terms.
pub enum DataView<H> {
    OnMemory(Seq<u8>, bool, Option<PFHVersion>),
    OnDisk(H, u64, u32, bool, Option<PFHVersion>),
}

/// The state of an entry, in mathematical terms.
pub struct PackedFileView<H> {
    pub path: Seq<Seq<char>>,
    pub packfile_name: Seq<char>,
    pub timestamp: i64,
    pub should_be_compressed: bool,
    pub should_be_encrypted: Option<PFHVersion>,
    pub data: DataView<H>,
}

/// The storage view of `d`.
pub open spec fn data_view<H>(d: PackedFileData<H>) -> DataView<H> {
    match d {
        PackedFileData::OnMemory(b, c, e) => DataView::OnMemory(b@, c, e),
        PackedFileData::OnDisk(h, p, s, c, e) => DataView::OnDisk(h, p, s, c, e),
    }
}

/// Loaded bytes with no transform applied to them.
pub open spec fn is_plain<H>(d: DataView<H>) -> bool {
    d matches DataView::OnMemory(_, false, None)
}

/// `after` is `before` with its storage replaced by `data`.
pub open spec fn with_data<H>(before: PackedFileView<H>, data: DataView<H>) -> PackedFileView<H> {
    PackedFileView { data, ..before }
}

/// Storage on disk gives the plain bytes of any possible read of its handle.
proof fn disk_outcome_of_read<H: DataSource, T: DataTransforms>(
    transforms: T,
    data: DataView<H>,
    read: Result<Seq<u8>, PackedFileError>,
    r: Result<Seq<u8>, PackedFileError>,
)
    requires
        data is OnDisk,
        data->OnDisk_0.reads(data->OnDisk_1, data->OnDisk_2, read),
        r == plain_from_read_spec(transforms, read, data->OnDisk_2, data->OnDisk_3, data->OnDisk_4),
    ensures
        data_outcome(transforms, data, r),
{
}

/// The entry and the result that loading `before` with the outcome `read`
/// of its read gives: bytes of the recorded size are loaded with the same
/// transform flags; any other outcome is an error and changes nothing. A
/// loaded entry stays as it is.
pub open spec fn loaded<H>(
    before: PackedFileView<H>,
    read: Result<Seq<u8>, PackedFileError>,
) -> (PackedFileView<H>, Result<(), PackedFileError>) {
    match before.data {
        DataView::OnMemory(_, _, _) => (before, Ok(())),
        DataView::OnDisk(_, _, size, c, e) => match checked_read(read, size) {
            Ok(b) => (with_data(before, DataView::OnMemory(b, c, e)), Ok(())),
            Err(x) => (before, Err(x)),
        },
    }
}

/// What loading an entry may lead to: a loaded entry stays as it is; an
/// entry on disk is loaded with some possible read of its handle.
pub open spec fn load_outcome<H: DataSource>(
    before: PackedFileView<H>,
    after: PackedFileView<H>,
    r: Result<(), PackedFileError>,
) -> bool {
    if before.data is OnMemory {
        r is Ok && after == before
    } else {
        exists|read: Result<Seq<u8>, PackedFileError>|
            before.data->OnDisk_0.reads(before.data->OnDisk_1, before.data->OnDisk_2, read) && loaded(
                before,
                read,
            ) == (after, r)
    }
}

/// What taking the plain bytes of an entry may lead to: the plain bytes,
/// as asking its storage for them gives; on success the entry holds exactly
/// those bytes, untransformed; on failure it is unchanged.
pub open spec fn take_outcome<H: DataSource, T: DataTransforms>(
    transforms: T,
    before: PackedFileView<H>,
    after: PackedFileView<H>,
    r: Result<Seq<u8>, PackedFileError>,
) -> bool {
    &&& data_outcome(transforms, before.data, r)
    &&& match r {
        Ok(v) => after == with_data(before, DataView::OnMemory(v, false, None)),
        Err(_) => after == before,
    }
}

/// A copy of `data`.
fn copy_bytes(data: &[u8]) -> (r: Vec<u8>)
    ensures
        r@ == data@,
{
    let mut r: Vec<u8> = Vec::new();
    let mut i: usize = 0;
    while i < data.len()
        invariant
            i <= data@.len(),
            r@ == data@.subrange(0, i as int),
        decreases data@.len() - i,
    {
        r.push(data[i]);
        i = i + 1;
        assert(r@ =~= data@.subrange(0, i as int));
    }
    assert(r@ =~= data@);
    r
}

/// A copy of a path.
fn copy_path(path: &[String]) -> (r: Vec<String>)
    ensures
        path_view(r@) == path_view(path@),
{
    let mut r: Vec<String> = Vec::new();
    let mut i: usize = 0;
    while i < path.len()
        invariant
            i <= path@.len(),
            r@.len() == i,
            forall|j: int| 0 <= j < i ==> #[trigger] r@[j]@ == path@[j]@,
        decreases path@.len() - i,
    {
        r.push(path[i].clone());
        i = i + 1;
    }
    assert(path_view(r@) =~= path_view(path@));
    r
}

/// Bytes after undoing the transforms that the flags record: decryption
/// first, then decompression.
fn plain_bytes<T: DataTransforms>(
    transforms: &T,
    data: &[u8],
    is_compressed: bool,
    is_encrypted: Option<PFHVersion>,
) -> (r: Result<Vec<u8>, PackedFileError>)
    ensures
        bytes_result(r) == plain_of(*transforms, data@, is_compressed, is_encrypted),
        r is Err ==> r->Err_0 == PackedFileError::DecompressionFailed,
{
    let decrypted = match is_encrypted {
        Some(version) => transforms.decrypt(data, version),
        None => copy_bytes(data),
    };
    if is_compressed {
        transforms.decompress(decrypted.as_slice())
    } else {
        Ok(decrypted)
    }
}

/// Loaded storage with the same bytes and flags; storage on disk is the
/// same as nothing.
pub open spec fn same_storage<H>(a: DataView<H>, b: DataView<H>) -> bool {
    match (a, b) {
        (DataView::OnMemory(b1, c1, e1), DataView::OnMemory(b2, c2, e2)) => b1 == b2 && c1 == c2 && e1 == e2,
        _ => false,
    }
}

/// Whether `a` and `b` hold the same bytes.
fn same_bytes(a: &[u8], b: &[u8]) -> (r: bool)
    ensures
        r == (a@ == b@),
{
    if a.len() != b.len() {
        return false;
    }
    let mut i: usize = 0;
    while i < a.len()
        invariant
            i <= a@.len(),
            a@.len() == b@.len(),
            forall|j: int| 0 <= j < i ==> a@[j] == b@[j],
        decreases a@.len() - i,
    {
        if a[i] != b[i] {
            return false;
        }
        i = i + 1;
    }
    assert(a@ =~= b@);
    true
}

/// Whether two encryption states are the same.
fn same_encryption(a: Option<PFHVersion>, b: Option<PFHVersion>) -> (r: bool)
    ensures
        r == (a == b),
{
    match (a, b) {
        (None, None) => true,
        (Some(x), Some(y)) => x == y,
        _ => false,
    }
}

/// Loaded storage is equal to loaded storage with the same bytes and flags;
/// storage on disk is equal to nothing, itself included.
impl<H> PartialEq for PackedFileData<H> {
    fn eq(&self, other: &PackedFileData<H>) -> (r: bool) {
        match (self, other) {
            (
                PackedFileData::OnMemory(data, is_compressed, is_encrypted),
                PackedFileData::OnMemory(data_2, is_compressed_2, is_encrypted_2),
            ) => same_bytes(data.as_slice(), data_2.as_slice()) && *is_compressed == *is_compressed_2
                && same_encryption(*is_encrypted, *is_encrypted_2),
            _ => false,
        }
    }
}

impl<H> vstd::std_specs::cmp::PartialEqSpecImpl for PackedFileData<H> {
    open spec fn obeys_eq_spec() -> bool {
        true
    }

    open spec fn eq_spec(&self, other: &PackedFileData<H>) -> bool {
        same_storage(data_view(*self), data_view(*other))
    }
}

/// An entry of an archive.
#[derive(Clone, Debug)]
pub struct PackedFile<H> {
    /// The path of the entry inside its archive.
    path: Vec<String>,
    /// The name of the archive the entry came from.
    packfile_name: String,
    /// The last-modified time of the entry.
    timestamp: i64,
    /// Whether the bytes should be compressed when written out.
    should_be_compressed: bool,
    /// The version to encrypt for when written out, if the bytes should be.
    should_be_encrypted: Option<PFHVersion>,
    /// The bytes, in their current state.
    data: PackedFileData<H>,
}

impl<H> View for PackedFile<H> {
    type V = PackedFileView<H>;

    closed spec fn view(&self) -> PackedFileView<H> {
        PackedFileView {
            path: path_view(self.path@),
            packfile_name: self.packfile_name@,
            timestamp: self.timestamp,
            should_be_compressed: self.should_be_compressed,
            should_be_encrypted: self.should_be_encrypted,
            data: data_view(self.data),
        }
    }
}

/// The mathematical value of a byte result.
pub open spec fn bytes_result(r: Result<Vec<u8>, PackedFileError>) -> Result<Seq<u8>, PackedFileError> {
    match r {
        Ok(v) => Ok(v@),
        Err(e) => Err(e),
    }
}

/// The plain bytes that the outcome `read` of reading `size` bytes stored
/// with the given flags gives: a read of another length is an `IOError`, a
/// failed read keeps its error, and the bytes of a good read are decrypted,
/// then decompressed, as the flags say.
pub fn plain_from_read<T: DataTransforms>(
    read: Result<Vec<u8>, PackedFileError>,
    size: u32,
    is_compressed: bool,
    is_encrypted: Option<PFHVersion>,
    transforms: &T,
) -> (r: Result<Vec<u8>, PackedFileError>)
    ensures
        bytes_result(r) == plain_from_read_spec(*transforms, bytes_result(read), size, is_compressed, is_encrypted),
{
    match read {
        Ok(bytes) => {
            if bytes.len() == size as usize {
                plain_bytes(transforms, bytes.as_slice(), is_compressed, is_encrypted)
            } else {
                Err(PackedFileError::IOError)
            }
        },
        Err(e) => Err(e),
    }
}

impl<H> PackedFile<H> {
    /// A loaded entry with the given bytes, which are taken to be
    /// compressed exactly when they should be, and not encrypted.
    pub fn read_from_vec(
        path: Vec<String>,
        packfile_name: String,
        timestamp: i64,
        should_be_compressed: bool,
        data: Vec<u8>,
    ) -> (r: Self)
        ensures
            r@ == (PackedFileView {
                path: path_view(path@),
                packfile_name: packfile_name@,
                timestamp,
                should_be_compressed,
                should_be_encrypted: None,
                data: DataView::<H>::OnMemory(data@, should_be_compressed, None),
            }),
    {
        PackedFile {
            path,
            packfile_name,
            timestamp,
            should_be_compressed,
            should_be_encrypted: None,
            data: PackedFileData::OnMemory(data, should_be_compressed, None),
        }
    }

    /// An entry over storage taken from another entry.
    pub fn read_from_data(
        path: Vec<String>,
        packfile_name: String,
        timestamp: i64,
        should_be_compressed: bool,
        should_be_encrypted: Option<PFHVersion>,
        data: PackedFileData<H>,
    ) -> (r: Self)
        ensures
            r@ == (PackedFileView {
                path: path_view(path@),
                packfile_name: packfile_name@,
                timestamp,
                should_be_compressed,
                should_be_encrypted,
                data: data_view(data),
            }),
    {
        PackedFile { path, packfile_name, timestamp, should_be_compressed, should_be_encrypted, data }
    }

    /// Mutable access to the loaded bytes, their current transform flags and
    /// the flags for writing out. An entry on disk is refused, unchanged:
    /// loading it is the caller's explicit step.
    pub fn get_data_and_info_from_memory(&mut self) -> (r: Result<
        (&mut Vec<u8>, &mut bool, &mut Option<PFHVersion>, &mut bool, &mut Option<PFHVersion>),
        PackedFileError,
    >)
        ensures
            old(self)@.data is OnDisk ==> r is Err && r->Err_0 == PackedFileError::NotResident
                && final(self)@ == old(self)@,
            old(self)@.data is OnMemory ==> r is Ok && ({
                let (data, c, e, sc, se) = r->Ok_0;
                &&& data@ == old(self)@.data->OnMemory_0
                &&& *c == old(self)@.data->OnMemory_1
                &&& *e == old(self)@.data->OnMemory_2
                &&& *sc == old(self)@.should_be_compressed
                &&& *se == old(self)@.should_be_encrypted
                &&& final(self)@ == (PackedFileView {
                    should_be_compressed: *final(sc),
                    should_be_encrypted: *final(se),
                    data: DataView::OnMemory(final(data)@, *final(c), *final(e)),
                    ..old(self)@
                })
            }),
    {
        match self.data {
            PackedFileData::OnMemory(ref mut data, ref mut is_compressed, ref mut is_encrypted) => {
                Ok((data, is_compressed, is_encrypted, &mut self.should_be_compressed, &mut self.should_be_encrypted))
            },
            PackedFileData::OnDisk(_, _, _, _, _) => Err(PackedFileError::NotResident),
        }
    }

    /// Replaces the bytes with `data`, which are taken to be plain.
    pub fn set_data(&mut self, data: Vec<u8>)
        ensures
            final(self)@ == with_data(old(self)@, DataView::OnMemory(data@, false, None)),
    {
        self.data = PackedFileData::OnMemory(data, false, None);
    }

    /// The size of the bytes as they are stored: the length of the loaded
    /// buffer, or the recorded size of bytes on disk.
    pub fn get_size(&self) -> (r: u32)
        ensures
            r == match self@.data {
                DataView::OnMemory(b, _, _) => b.len() as u32,
                DataView::OnDisk(_, _, size, _, _) => size,
            },
    {
        match &self.data {
            PackedFileData::OnMemory(data, _, _) => data.len() as u32,
            PackedFileData::OnDisk(_, _, size, _, _) => *size,
        }
    }

    /// Whether the stored bytes are compressed now.
    pub fn get_compression_state(&self) -> (r: bool)
        ensures
            r == match self@.data {
                DataView::OnMemory(_, c, _) => c,
                DataView::OnDisk(_, _, _, c, _) => c,
            },
    {
        match &self.data {
            PackedFileData::OnMemory(_, state, _) => *state,
            PackedFileData::OnDisk(_, _, _, state, _) => *state,
        }
    }

    /// Whether the bytes should be compressed when written out.
    pub fn get_should_be_compressed(&self) -> (r: bool)
        ensures
            r == self@.should_be_compressed,
    {
        self.should_be_compressed
    }

    /// Sets whether the bytes should be compressed when written out.
    pub fn set_should_be_compressed(&mut self, state: bool)
        ensures
            final(self)@ == (PackedFileView { should_be_compressed: state, ..old(self)@ }),
    {
        self.should_be_compressed = state;
    }

    /// The name of the archive the entry came from.
    pub fn get_packfile_name(&self) -> (r: &str)
        ensures
            r@ == self@.packfile_name,
    {
        self.packfile_name.as_str()
    }

    /// Sets the name of the archive the entry came from.
    pub fn set_packfile_name(&mut self, name: &str)
        ensures
            final(self)@ == (PackedFileView { packfile_name: name@, ..old(self)@ }),
    {
        self.packfile_name = name.to_owned();
    }

    /// The version to encrypt for when written out, if the bytes should be.
    pub fn get_should_be_encrypted(&self) -> (r: &Option<PFHVersion>)
        ensures
            *r == self@.should_be_encrypted,
    {
        &self.should_be_encrypted
    }

    /// Sets the version to encrypt for when written out.
    pub fn set_should_be_encrypted(&mut self, state: Option<PFHVersion>)
        ensures
            final(self)@ == (PackedFileView { should_be_encrypted: state, ..old(self)@ }),
    {
        self.should_be_encrypted = state;
    }

    /// The last-modified time of the entry.
    pub fn get_timestamp(&self) -> (r: i64)
        ensures
            r == self@.timestamp,
    {
        self.timestamp
    }

    /// Sets the last-modified time of the entry.
    pub fn set_timestamp(&mut self, timestamp: i64)
        ensures
            final(self)@ == (PackedFileView { timestamp, ..old(self)@ }),
    {
        self.timestamp = timestamp;
    }

    /// The path of the entry inside its archive.
    pub fn get_path(&self) -> (r: &[String])
        ensures
            path_view(r@) == self@.path,
    {
        self.path.as_slice()
    }

    /// Moves the entry to `path`. An empty path is refused and leaves the
    /// entry as it was. Any index of the archive is the caller's to update.
    pub fn set_path(&mut self, path: &[String]) -> (r: Result<(), PackedFileError>)
        ensures
            path@.len() == 0 ==> r == Err::<(), PackedFileError>(PackedFileError::EmptyPath)
                && final(self)@ == old(self)@,
            path@.len() > 0 ==> r is Ok && final(self)@ == (PackedFileView {
                path: path_view(path@),
                ..old(self)@
            }),
    {
        if path.len() == 0 {
            return Err(PackedFileError::EmptyPath);
        }
        self.path = copy_path(path);
        Ok(())
    }
}

impl<H> PackedFile<H> {
    /// Loads the outcome `read` of reading the bytes of an entry on disk:
    /// bytes of the recorded size become the loaded bytes, with the same
    /// transform flags; a read of another length fails with `IOError` and a
    /// failed read with its own error, both leaving the entry unchanged. A
    /// loaded entry is left as it is.
    pub fn load_from_read(&mut self, read: Result<Vec<u8>, PackedFileError>) -> (r: Result<(), PackedFileError>)
        ensures
            (final(self)@, r) == loaded(old(self)@, bytes_result(read)),
    {
        let (size, is_compressed, is_encrypted) = match &self.data {
            PackedFileData::OnDisk(_, _, size, is_compressed, is_encrypted) => (*size, *is_compressed, *is_encrypted),
            PackedFileData::OnMemory(_, _, _) => return Ok(()),
        };
        match read {
            Ok(bytes) => {
                if bytes.len() == size as usize {
                    let ghost before = self@;
                    let ghost b = bytes@;
                    self.data = PackedFileData::OnMemory(bytes, is_compressed, is_encrypted);
                    assert(self@ == with_data(before, DataView::OnMemory(b, is_compressed, is_encrypted)));
                    Ok(())
                } else {
                    Err(PackedFileError::IOError)
                }
            },
            Err(e) => Err(e),
        }
    }
}

impl<H: DataSource> PackedFile<H> {
    /// Loads the bytes of an entry on disk into memory, keeping their
    /// transform flags, as `load_from_read` says for the outcome of one read
    /// of the handle. A loaded entry is left as it is and reads nothing.
    pub fn load_data(&mut self) -> (r: Result<(), PackedFileError>)
        ensures
            load_outcome(old(self)@, final(self)@, r),
    {
        let read = match &self.data {
            PackedFileData::OnDisk(handle, position, size, _, _) => handle.read_exact_at(*position, *size),
            PackedFileData::OnMemory(_, _, _) => return Ok(()),
        };
        self.load_from_read(read)
    }

    /// The plain bytes of the entry, decrypted and then decompressed as its
    /// flags say, without changing the entry. An entry on disk is read again
    /// on every call.
    pub fn get_data<T: DataTransforms>(&self, transforms: &T) -> (r: Result<Vec<u8>, PackedFileError>)
        ensures
            data_outcome(*transforms, self@.data, bytes_result(r)),
            self@.data is OnMemory && r is Err ==> r->Err_0 == PackedFileError::DecompressionFailed,
    {
        match &self.data {
            PackedFileData::OnMemory(data, is_compressed, is_encrypted) => {
                plain_bytes(transforms, data.as_slice(), *is_compressed, *is_encrypted)
            },
            PackedFileData::OnDisk(handle, position, size, is_compressed, is_encrypted) => {
                let read = handle.read_exact_at(*position, *size);
                let ghost outcome = bytes_result(read);
                let plain = plain_from_read(read, *size, *is_compressed, *is_encrypted, transforms);
                proof {
                    disk_outcome_of_read(*transforms, self@.data, outcome, bytes_result(plain));
                }
                plain
            },
        }
    }

    /// The plain bytes of the entry, which it then keeps in memory as its
    /// untransformed bytes, so that later calls need no transform. Each
    /// transform runs at most once; on failure the entry is unchanged.
    pub fn get_data_and_keep_it<T: DataTransforms>(&mut self, transforms: &T) -> (r: Result<Vec<u8>, PackedFileError>)
        ensures
            take_outcome(*transforms, old(self)@, final(self)@, bytes_result(r)),
    {
        let plain = match &self.data {
            PackedFileData::OnMemory(data, is_compressed, is_encrypted) => {
                if !*is_compressed && is_encrypted.is_none() {
                    return Ok(copy_bytes(data.as_slice()));
                }
                plain_bytes(transforms, data.as_slice(), *is_compressed, *is_encrypted)
            },
            PackedFileData::OnDisk(handle, position, size, is_compressed, is_encrypted) => {
                let read = handle.read_exact_at(*position, *size);
                let ghost outcome = bytes_result(read);
                let plain = plain_from_read(read, *size, *is_compressed, *is_encrypted, transforms);
                proof {
                    disk_outcome_of_read(*transforms, self@.data, outcome, bytes_result(plain));
                }
                plain
            },
        };
        match plain {
            Ok(bytes) => {
                self.data = PackedFileData::OnMemory(copy_bytes(bytes.as_slice()), false, None);
                Ok(bytes)
            },
            Err(e) => Err(e),
        }
    }
}

/// Whether two paths have the same segments.
fn same_path(a: &[String], b: &[String]) -> (r: bool)
    ensures
        r == (path_view(a@) == path_view(b@)),
{
    if a.len() != b.len() {
        return false;
    }
    let mut i: usize = 0;
    while i < a.len()
        invariant
            i <= a@.len(),
            a@.len() == b@.len(),
            forall|j: int| 0 <= j < i ==> #[trigger] a@[j]@ == b@[j]@,
        decreases a@.len() - i,
    {
        if a[i] != b[i] {
            assert(path_view(a@)[i as int] != path_view(b@)[i as int]);
            return false;
        }
        i = i + 1;
    }
    assert(path_view(a@) =~= path_view(b@));
    true
}

/// Entries are equal when their paths, archive names, timestamps, flags for
/// writing out and storage are; storage on disk makes an entry equal to nothing.
impl<H> PartialEq for PackedFile<H> {
    fn eq(&self, other: &PackedFile<H>) -> (r: bool) {
        same_path(self.path.as_slice(), other.path.as_slice()) && self.packfile_name == other.packfile_name
            && self.timestamp == other.timestamp && self.should_be_compressed == other.should_be_compressed
            && same_encryption(self.should_be_encrypted, other.should_be_encrypted) && self.data.eq(&other.data)
    }
}

impl<H> vstd::std_specs::cmp::PartialEqSpecImpl for PackedFile<H> {
    open spec fn obeys_eq_spec() -> bool {
        true
    }

    open spec fn eq_spec(&self, other: &PackedFile<H>) -> bool {
        &&& self@.path == other@.path
        &&& self@.packfile_name == other@.packfile_name
        &&& self@.timestamp == other@.timestamp
        &&& self@.should_be_compressed == other@.should_be_compressed
        &&& self@.should_be_encrypted == other@.should_be_encrypted
        &&& same_storage(self@.data, other@.data)
    }
}

} // verus!
