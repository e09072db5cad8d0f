use std::cell::Cell;
use std::rc::Rc;

use rpfm_lib::{DataSource, DataTransforms, PFHVersion, PackedFile, PackedFileData, PackedFileError};

/// A file in memory, shared by entries, that counts its reads.
#[derive(Clone, Debug)]
struct SharedFile {
    bytes: Rc<Vec<u8>>,
    reads: Rc<Cell<usize>>,
    broken: bool,
}

impl SharedFile {
    fn new(bytes: &[u8]) -> Self {
        SharedFile { bytes: Rc::new(bytes.to_vec()), reads: Rc::new(Cell::new(0)), broken: false }
    }
}

impl DataSource for SharedFile {
    fn read_exact_at(&self, position: u64, size: u32) -> Result<Vec<u8>, PackedFileError> {
        self.reads.set(self.reads.get() + 1);
        let start = position as usize;
        let end = start + size as usize;
        if self.broken || end > self.bytes.len() {
            return Err(PackedFileError::IOError);
        }
        Ok(self.bytes[start..end].to_vec())
    }
}

/// A handle whose reads come back one byte short.
#[derive(Clone, Debug)]
struct ShortFile;

impl DataSource for ShortFile {
    fn read_exact_at(&self, _position: u64, size: u32) -> Result<Vec<u8>, PackedFileError> {
        Ok(vec![0; (size as usize).saturating_sub(1)])
    }
}

/// Encryption flips every bit of 0x5A; compression is a leading b'Z'.
struct Stub {
    decrypts: Cell<usize>,
    decompresses: Cell<usize>,
}

impl Stub {
    fn new() -> Self {
        Stub { decrypts: Cell::new(0), decompresses: Cell::new(0) }
    }
}

impl DataTransforms for Stub {
    fn decrypt(&self, data: &[u8], _version: PFHVersion) -> Vec<u8> {
        self.decrypts.set(self.decrypts.get() + 1);
        data.iter().map(|b| b ^ 0x5A).collect()
    }

    fn decompress(&self, data: &[u8]) -> Result<Vec<u8>, PackedFileError> {
        self.decompresses.set(self.decompresses.get() + 1);
        match data.split_first() {
            Some((b'Z', rest)) => Ok(rest.to_vec()),
            _ => Err(PackedFileError::DecompressionFailed),
        }
    }
}

fn path(segments: &[&str]) -> Vec<String> {
    segments.iter().map(|s| s.to_string()).collect()
}

fn encrypt(data: &[u8]) -> Vec<u8> {
    data.iter().map(|b| b ^ 0x5A).collect()
}

fn resident(data: &[u8]) -> PackedFile<SharedFile> {
    PackedFile::read_from_vec(path(&["text", "a.txt"]), "main.pack".to_string(), 7, false, data.to_vec())
}

fn backed(file: &SharedFile, position: u64, size: u32, compressed: bool, encrypted: Option<PFHVersion>) -> PackedFile<SharedFile> {
    PackedFile::read_from_data(
        path(&["text", "b.txt"]),
        "main.pack".to_string(),
        9,
        false,
        None,
        PackedFileData::OnDisk(file.clone(), position, size, compressed, encrypted),
    )
}

#[test]
fn from_vec_takes_compression_from_intent() {
    let entry = PackedFile::<SharedFile>::read_from_vec(path(&["a", "b.lua"]), "x.pack".to_string(), 42, true, b"Zhello".to_vec());
    assert!(entry.get_compression_state());
    assert!(entry.get_should_be_compressed());
    assert_eq!(entry.get_should_be_encrypted(), &None);
    assert_eq!(entry.get_timestamp(), 42);
    assert_eq!(entry.get_packfile_name(), "x.pack");
    assert_eq!(entry.get_path(), &path(&["a", "b.lua"])[..]);
    assert_eq!(entry.get_size(), 6);
}

#[test]
fn load_of_loaded_entry_is_noop() {
    let mut entry = resident(b"abc");
    let copy = entry.clone();
    assert_eq!(entry.load_data(), Ok(()));
    assert!(entry == copy);
    assert_eq!(entry.load_data(), Ok(()));
    assert!(entry == copy);
    assert_eq!(entry.get_data(&Stub::new()), Ok(b"abc".to_vec()));
}

#[test]
fn load_reads_the_bytes_at_the_offset() {
    let file = SharedFile::new(b"0123456789");
    let mut entry = backed(&file, 3, 4, true, Some(PFHVersion::PFH5));
    assert_eq!(entry.get_size(), 4);
    assert!(entry.get_data_and_info_from_memory().is_err());
    assert_eq!(entry.load_data(), Ok(()));
    let (data, compressed, encrypted, _, _) = entry.get_data_and_info_from_memory().unwrap();
    assert_eq!(data, &b"3456".to_vec());
    assert!(*compressed);
    assert_eq!(*encrypted, Some(PFHVersion::PFH5));
    assert_eq!(entry.load_data(), Ok(()));
    assert_eq!(file.reads.get(), 1);
}

#[test]
fn failed_load_leaves_entry_on_disk() {
    let mut file = SharedFile::new(b"0123");
    file.broken = true;
    let mut entry = backed(&file, 0, 4, false, None);
    assert_eq!(entry.load_data(), Err(PackedFileError::IOError));
    assert_eq!(entry.get_data_and_info_from_memory().err(), Some(PackedFileError::NotResident));
    assert_eq!(entry.get_size(), 4);
}

#[test]
fn short_read_is_an_io_error() {
    let mut entry = PackedFile::read_from_data(
        path(&["a"]),
        String::new(),
        0,
        false,
        None,
        PackedFileData::OnDisk(ShortFile, 0, 5, false, None),
    );
    assert_eq!(entry.load_data(), Err(PackedFileError::IOError));
    assert_eq!(entry.get_data(&Stub::new()), Err(PackedFileError::IOError));
}

#[test]
fn get_data_decrypts_then_decompresses() {
    let stored = encrypt(b"Zplain");
    let mut entry = resident(&stored);
    {
        let (_, compressed, encrypted, _, _) = entry.get_data_and_info_from_memory().unwrap();
        *compressed = true;
        *encrypted = Some(PFHVersion::PFH5);
    }
    let stub = Stub::new();
    assert_eq!(entry.get_data(&stub), Ok(b"plain".to_vec()));
    assert_eq!(entry.get_size(), 6);
    assert!(entry.get_compression_state());
}

#[test]
fn get_data_of_backed_entry_reads_every_time() {
    let file = SharedFile::new(b"xxZdatayy");
    let entry = backed(&file, 2, 5, true, None);
    let stub = Stub::new();
    assert_eq!(entry.get_data(&stub), Ok(b"data".to_vec()));
    assert_eq!(entry.get_data(&stub), Ok(b"data".to_vec()));
    assert_eq!(file.reads.get(), 2);
    assert_eq!(stub.decompresses.get(), 2);
    assert_eq!(stub.decrypts.get(), 0);
}

#[test]
fn take_and_keep_transforms_once() {
    let mut stored = b"junk".to_vec();
    stored.extend(encrypt(b"Zpayload"));
    let file = SharedFile::new(&stored);
    let mut entry = backed(&file, 4, 8, true, Some(PFHVersion::PFH4));
    let stub = Stub::new();
    let first = entry.get_data_and_keep_it(&stub);
    let second = entry.get_data_and_keep_it(&stub);
    assert_eq!(first, Ok(b"payload".to_vec()));
    assert_eq!(second, first);
    assert_eq!(stub.decrypts.get(), 1);
    assert_eq!(stub.decompresses.get(), 1);
    assert_eq!(file.reads.get(), 1);
    assert!(!entry.get_compression_state());
    let (data, compressed, encrypted, _, _) = entry.get_data_and_info_from_memory().unwrap();
    assert_eq!(data, &b"payload".to_vec());
    assert!(!*compressed);
    assert_eq!(*encrypted, None);
    assert_eq!(entry.get_data(&stub), Ok(b"payload".to_vec()));
    assert_eq!(stub.decrypts.get(), 1);
}

#[test]
fn take_and_keep_of_loaded_compressed_bytes() {
    let mut entry = PackedFile::<SharedFile>::read_from_vec(path(&["a.txt"]), String::new(), 0, true, b"Zabc".to_vec());
    let stub = Stub::new();
    assert_eq!(entry.get_data_and_keep_it(&stub), Ok(b"abc".to_vec()));
    assert_eq!(entry.get_size(), 3);
    assert!(entry.get_should_be_compressed());
    assert!(!entry.get_compression_state());
}

#[test]
fn malformed_stream_fails_and_keeps_entry() {
    let mut entry = PackedFile::<SharedFile>::read_from_vec(path(&["a.txt"]), String::new(), 0, true, b"broken".to_vec());
    let copy = entry.clone();
    let stub = Stub::new();
    assert_eq!(entry.get_data(&stub), Err(PackedFileError::DecompressionFailed));
    assert_eq!(entry.get_data_and_keep_it(&stub), Err(PackedFileError::DecompressionFailed));
    assert!(entry == copy);
}

#[test]
fn mutable_access_on_backed_entry_is_refused() {
    let file = SharedFile::new(b"abcdef");
    let mut entry = backed(&file, 1, 2, false, None);
    assert_eq!(entry.get_data_and_info_from_memory().err(), Some(PackedFileError::NotResident));
    assert_eq!(entry.get_size(), 2);
    assert_eq!(file.reads.get(), 0);
    assert_eq!(entry.get_data(&Stub::new()), Ok(b"bc".to_vec()));
}

#[test]
fn mutable_access_changes_the_entry() {
    let mut entry = resident(b"abc");
    {
        let (data, _, _, should_compress, should_encrypt) = entry.get_data_and_info_from_memory().unwrap();
        data.push(b'd');
        *should_compress = true;
        *should_encrypt = Some(PFHVersion::PFH6);
    }
    assert_eq!(entry.get_size(), 4);
    assert!(entry.get_should_be_compressed());
    assert_eq!(entry.get_should_be_encrypted(), &Some(PFHVersion::PFH6));
    assert_eq!(entry.get_data(&Stub::new()), Ok(b"abcd".to_vec()));
}

#[test]
fn empty_path_is_refused() {
    let mut entry = resident(b"abc");
    assert_eq!(entry.set_path(&[]), Err(PackedFileError::EmptyPath));
    assert_eq!(entry.get_path(), &path(&["text", "a.txt"])[..]);
    assert_eq!(entry.set_path(&path(&["db", "t"])), Ok(()));
    assert_eq!(entry.get_path(), &path(&["db", "t"])[..]);
}

#[test]
fn set_data_makes_plain_bytes() {
    let file = SharedFile::new(b"abcdef");
    let mut entry = backed(&file, 0, 6, true, Some(PFHVersion::PFH5));
    entry.set_data(b"new".to_vec());
    assert_eq!(entry.get_size(), 3);
    assert!(!entry.get_compression_state());
    assert_eq!(entry.get_data(&Stub::new()), Ok(b"new".to_vec()));
    assert_eq!(file.reads.get(), 0);
}

#[test]
fn setters_change_only_their_field() {
    let mut entry = resident(b"abc");
    entry.set_packfile_name("other.pack");
    entry.set_timestamp(-5);
    entry.set_should_be_compressed(true);
    entry.set_should_be_encrypted(Some(PFHVersion::PFH0));
    assert_eq!(entry.get_packfile_name(), "other.pack");
    assert_eq!(entry.get_timestamp(), -5);
    assert!(entry.get_should_be_compressed());
    assert_eq!(entry.get_should_be_encrypted(), &Some(PFHVersion::PFH0));
    assert!(!entry.get_compression_state());
    assert_eq!(entry.get_path(), &path(&["text", "a.txt"])[..]);
}

#[test]
fn entries_sharing_a_handle_read_their_own_bytes() {
    let file = SharedFile::new(b"AAAABBBBBB");
    let mut first = backed(&file, 0, 4, false, None);
    let mut second = backed(&file, 4, 6, false, None);
    assert_eq!(second.load_data(), Ok(()));
    assert_eq!(first.load_data(), Ok(()));
    assert_eq!(first.get_data(&Stub::new()), Ok(b"AAAA".to_vec()));
    assert_eq!(second.get_data(&Stub::new()), Ok(b"BBBBBB".to_vec()));
    assert_eq!(file.reads.get(), 2);
}

#[test]
fn storage_equality() {
    let file = SharedFile::new(b"ab");
    let on_disk = PackedFileData::OnDisk(file, 0, 2, false, None);
    assert!(on_disk != on_disk.clone());
    let a: PackedFileData<SharedFile> = PackedFileData::OnMemory(b"ab".to_vec(), false, None);
    let b: PackedFileData<SharedFile> = PackedFileData::OnMemory(b"ab".to_vec(), false, None);
    let c: PackedFileData<SharedFile> = PackedFileData::OnMemory(b"ab".to_vec(), true, None);
    let d: PackedFileData<SharedFile> = PackedFileData::OnMemory(b"ab".to_vec(), false, Some(PFHVersion::PFH5));
    assert!(a == b);
    assert!(a != c);
    assert!(a != d);
    assert!(a != on_disk);
}

#[test]
fn plain_from_read_checks_length_and_transforms() {
    let stub = Stub::new();
    let good = rpfm_lib::plain_from_read(Ok(encrypt(b"Zxy")), 3, true, Some(PFHVersion::PFH5), &stub);
    assert_eq!(good, Ok(b"xy".to_vec()));
    assert_eq!(rpfm_lib::plain_from_read(Ok(b"abcd".to_vec()), 3, false, None, &stub), Err(PackedFileError::IOError));
    assert_eq!(rpfm_lib::plain_from_read(Err(PackedFileError::IOError), 3, false, None, &stub), Err(PackedFileError::IOError));
    assert_eq!(rpfm_lib::plain_from_read(Ok(b"abc".to_vec()), 3, true, None, &stub), Err(PackedFileError::DecompressionFailed));
    assert_eq!(rpfm_lib::plain_from_read(Ok(b"abc".to_vec()), 3, false, None, &stub), Ok(b"abc".to_vec()));
}

#[test]
fn load_from_read_takes_only_reads_of_the_recorded_size() {
    let file = SharedFile::new(b"0123456789");
    let mut entry = backed(&file, 2, 3, true, None);
    assert_eq!(entry.load_from_read(Ok(b"ab".to_vec())), Err(PackedFileError::IOError));
    assert_eq!(entry.get_data_and_info_from_memory().err(), Some(PackedFileError::NotResident));
    assert_eq!(entry.load_from_read(Err(PackedFileError::IOError)), Err(PackedFileError::IOError));
    assert_eq!(entry.get_data_and_info_from_memory().err(), Some(PackedFileError::NotResident));
    assert_eq!(entry.load_from_read(Ok(b"Zab".to_vec())), Ok(()));
    assert!(entry.get_compression_state());
    assert_eq!(entry.get_data(&Stub::new()), Ok(b"ab".to_vec()));
    assert_eq!(entry.load_from_read(Ok(b"zzz".to_vec())), Ok(()));
    assert_eq!(entry.get_data(&Stub::new()), Ok(b"ab".to_vec()));
    assert_eq!(file.reads.get(), 0);
}

#[test]
fn decompression_failure_after_decryption() {
    let mut entry = resident(&encrypt(b"not compressed"));
    {
        let (_, compressed, encrypted, _, _) = entry.get_data_and_info_from_memory().unwrap();
        *compressed = true;
        *encrypted = Some(PFHVersion::PFH3);
    }
    let stub = Stub::new();
    assert_eq!(entry.get_data(&stub), Err(PackedFileError::DecompressionFailed));
    assert_eq!(stub.decrypts.get(), 1);
}
