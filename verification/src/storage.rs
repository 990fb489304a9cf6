//! Content-addressed object storage: object kinds, stored objects and references,
//! where objects, references and locks live under a storage root, the SHA-256 name of
//! an object, its gzip framing, and the lock decisions. Reading and writing files is
//! left to the caller; everything here computes on values.

use vstd::prelude::*;
use sha2::Digest;
use std::io::{Read, Write};
use vstd::utf8::{decode_utf8, encode_utf8, is_char_boundary};
use crate::errors::FsError;
use crate::text::{copy_str, str_eq};
use vstd::std_specs::cmp::PartialEqSpecImpl;

verus! {

broadcast use vstd::utf8::encode_utf8_decode_utf8;

/// What kind of entity a stored object holds.
#[derive(Debug, Clone, Copy, PartialEq, Eq, Structural)]
pub enum ObjectType {
    Issue,
    User,
    Team,
    Project,
    Label,
    Remote,
}

/// A stored object with its metadata: the hash of the original bytes, their size,
/// and the size of the data as held (compressed, until it is unpacked).
#[derive(Debug, Clone)]
pub struct StorageObject {
    pub object_type: ObjectType,
    pub hash: String,
    pub size: usize,
    pub compressed_size: usize,
    pub data: Vec<u8>,
}

/// A named pointer to an object.
#[derive(Debug, Clone)]
pub struct ObjectRef {
    pub name: String,
    pub hash: String,
    pub object_type: ObjectType,
}

/// A lock on a named resource, held by a process from a moment on (microseconds
/// since the Unix epoch).
#[derive(Debug, Clone)]
pub struct StorageLock {
    pub name: String,
    pub acquired_at: i64,
    pub process_id: u32,
}

/// A held lock.
pub type Lock = StorageLock;

/// The content address of an object. Two addresses are equal exactly when their texts are.
#[derive(Debug, Clone, Eq, Hash)]
pub struct ObjectHash(pub String);

impl PartialEq for ObjectHash {
    fn eq(&self, other: &Self) -> (r: bool) {
        str_eq(self.0.as_str(), other.0.as_str())
    }
}

impl PartialEqSpecImpl for ObjectHash {
    open spec fn obeys_eq_spec() -> bool {
        true
    }

    open spec fn eq_spec(&self, other: &Self) -> bool {
        self.0@ == other.0@
    }
}

impl ObjectHash {
    /// Wraps a hash text: the same value `From<String>` gives.
    pub fn new(hash: String) -> (h: Self)
        ensures
            h == ObjectHash(hash),
            h.0@ == hash@,
    {
        ObjectHash(hash)
    }

    /// The hash text.
    pub fn as_str(&self) -> (s: &str)
        ensures
            s@ == self.0@,
    {
        self.0.as_str()
    }
}

impl From<String> for ObjectHash {
    fn from(hash: String) -> (h: Self) {
        ObjectHash(hash)
    }
}

impl vstd::std_specs::convert::FromSpecImpl<String> for ObjectHash {
    open spec fn obeys_from_spec() -> bool {
        true
    }

    open spec fn from_spec(hash: String) -> Self {
        ObjectHash(hash)
    }
}

impl<'a> From<&'a str> for ObjectHash {
    fn from(hash: &'a str) -> (h: Self)
        ensures
            h.0@ == hash@,
    {
        ObjectHash(copy_str(hash))
    }
}

impl<'a> vstd::std_specs::convert::FromSpecImpl<&'a str> for ObjectHash {
    /// A spec-level `String` cannot be built from a text, so calls of `from` are
    /// described by the `ensures` of the impl above instead.
    open spec fn obeys_from_spec() -> bool {
        false
    }

    open spec fn from_spec(hash: &'a str) -> Self {
        arbitrary()
    }
}

/// What `Path::join` makes of a base path and one more part, as text. It is fixed by
/// the two texts for the target platform the crate is built for.
pub uninterp spec fn joined_path(base: Seq<char>, part: Seq<char>) -> Seq<char>;

/// Calls `std::path::Path::join` on `base` and `part` and gives the path back as text;
/// the result is [`joined_path`] of the two.
#[verifier::external_body]
pub(crate) fn join_path(base: &str, part: &str) -> (r: String)
    ensures
        r@ == joined_path(base@, part@),
{
    std::path::Path::new(base).join(part).to_string_lossy().into_owned()
}

/// The layout of a storage root: its `objects`, `refs` and `locks` directories.
#[derive(Debug, Clone)]
pub struct FileSystemStorage {
    pub root_path: String,
    pub objects_path: String,
    pub refs_path: String,
    pub locks_path: String,
}

/// A hash can be split into a two-byte directory name and a file name.
pub open spec fn splits_at_two(h: Seq<char>) -> bool {
    is_char_boundary(encode_utf8(h), 2)
}

/// The directory an object with hash `h` lives in: its first two bytes.
pub open spec fn hash_dir(h: Seq<char>) -> Seq<char> {
    decode_utf8(encode_utf8(h).subrange(0, 2))
}

/// The file name of an object with hash `h`: the bytes after the first two.
pub open spec fn hash_file(h: Seq<char>) -> Seq<char> {
    decode_utf8(encode_utf8(h).subrange(2, encode_utf8(h).len() as int))
}

/// The 32 bytes of the SHA-256 digest of `data`.
pub uninterp spec fn sha256_digest(data: Seq<u8>) -> Seq<u8>;

/// Calls `sha2::Sha256::digest`; the result is the named digest of `data`, which is
/// 32 bytes long.
#[verifier::external_body]
fn sha256(data: &[u8]) -> (r: Vec<u8>)
    ensures
        r@ == sha256_digest(data@),
        r@.len() == 32,
{
    sha2::Sha256::digest(data).to_vec()
}

/// The lower-case hexadecimal digits.
pub open spec fn hex_digits() -> Seq<char> {
    "0123456789abcdef"@
}

/// Lower-case hexadecimal text of bytes, two digits per byte, high digit first.
pub open spec fn lower_hex(bytes: Seq<u8>) -> Seq<char> {
    Seq::new(
        2 * bytes.len(),
        |i: int|
            if i % 2 == 0 {
                hex_digits()[(bytes[i / 2] / 16) as int]
            } else {
                hex_digits()[(bytes[i / 2] % 16) as int]
            },
    )
}

/// Writes bytes as lower-case hexadecimal text.
fn to_lower_hex(bytes: &Vec<u8>) -> (r: String)
    requires
        bytes@.len() <= usize::MAX / 2,
    ensures
        r@ == lower_hex(bytes@),
{
    let digits = "0123456789abcdef";
    proof {
        reveal_strlit("0123456789abcdef");
    }
    let mut r = String::new();
    let mut i: usize = 0;
    while i < bytes.len()
        invariant
            digits@ == hex_digits(),
            digits@.len() == 16,
            i <= bytes@.len(),
            r@ =~= lower_hex(bytes@.take(i as int)),
        decreases bytes.len() - i,
    {
        let b = bytes[i];
        let hi = (b / 16) as usize;
        let lo = (b % 16) as usize;
        let ghost before = r@;
        r.append(digits.substring_char(hi, hi + 1));
        r.append(digits.substring_char(lo, lo + 1));
        proof {
            let t = bytes@.take(i + 1);
            assert(t.take(i as int) =~= bytes@.take(i as int));
            assert(r@ =~= lower_hex(t)) by {
                assert(r@.len() == 2 * t.len());
                assert forall|k: int| 0 <= k < r@.len() implies r@[k] == lower_hex(t)[k] by {
                    if k < 2 * i {
                        assert(r@[k] == before[k]);
                        assert(t[k / 2] == bytes@[k / 2]);
                    }
                }
            }
        }
        i = i + 1;
    }
    assert(bytes@.take(bytes@.len() as int) =~= bytes@);
    r
}

/// The name of what gzip framing makes of `data` at the default level. It is fixed by
/// the bytes.
pub uninterp spec fn gzip_compressed(data: Seq<u8>) -> Seq<u8>;

/// The name of what reading `data` as a gzip stream gives: the decoded bytes, or
/// nothing when `data` is no complete stream.
pub uninterp spec fn gzip_decoded(data: Seq<u8>) -> Option<Seq<u8>>;

/// Calls `flate2::write::GzEncoder` on a `Vec` at `Compression::default()`, writes
/// `data` and finishes the stream. Writing into memory does not fail, and what comes
/// out is the named compressed form.
#[verifier::external_body]
fn gzip(data: &[u8]) -> (r: Result<Vec<u8>, String>)
    ensures
        r is Ok,
        r matches Ok(v) ==> v@ == gzip_compressed(data@),
{
    let mut encoder = flate2::write::GzEncoder::new(Vec::new(), flate2::Compression::default());
    match encoder.write_all(data) {
        Ok(()) => {},
        Err(e) => return Err(e.to_string()),
    }
    encoder.finish().map_err(|e| e.to_string())
}

/// Calls `flate2::read::GzDecoder` on `data` and reads it to the end. What comes out is
/// the named decoding of `data`, and decoding fails exactly where the name has
/// nothing; the decoding of a stream that [`gzip`] made is the data it was made from.
#[verifier::external_body]
fn gunzip(data: &[u8]) -> (r: Result<Vec<u8>, String>)
    ensures
        r matches Ok(v) ==> gzip_decoded(data@) == Some(v@),
        r is Err ==> gzip_decoded(data@) is None,
        r is Err ==> forall|x: Seq<u8>| data@ != #[trigger] gzip_compressed(x),
        r matches Ok(v) ==> forall|x: Seq<u8>| data@ == #[trigger] gzip_compressed(x) ==> v@ == x,
{
    let mut decoder = flate2::read::GzDecoder::new(data);
    let mut result = Vec::new();
    match decoder.read_to_end(&mut result) {
        Ok(_) => Ok(result),
        Err(e) => Err(e.to_string()),
    }
}

impl FileSystemStorage {
    /// The layout under `root_path`: `objects`, `refs` and `locks` beneath it.
    pub fn new(root_path: String) -> (s: Self)
        ensures
            s.root_path@ == root_path@,
            s.objects_path@ == joined_path(root_path@, "objects"@),
            s.refs_path@ == joined_path(root_path@, "refs"@),
            s.locks_path@ == joined_path(root_path@, "locks"@),
    {
        let objects_path = join_path(root_path.as_str(), "objects");
        let refs_path = join_path(root_path.as_str(), "refs");
        let locks_path = join_path(root_path.as_str(), "locks");
        FileSystemStorage { root_path, objects_path, refs_path, locks_path }
    }

    /// The layout of the workspace storage, rooted at `.odi`.
    pub fn init() -> (s: Self)
        ensures
            s.root_path@ == ".odi"@,
            s.objects_path@ == joined_path(".odi"@, "objects"@),
            s.refs_path@ == joined_path(".odi"@, "refs"@),
            s.locks_path@ == joined_path(".odi"@, "locks"@),
    {
        Self::new(copy_str(".odi"))
    }

    /// Where the object with `hash` is kept: a directory named by the hash's first two
    /// bytes, and a file named by the rest.
    pub fn get_object_path(&self, hash: &str) -> (r: String)
        requires
            splits_at_two(hash@),
        ensures
            r@ == joined_path(joined_path(self.objects_path@, hash_dir(hash@)), hash_file(hash@)),
    {
        let (dir, file) = hash.split_at(2);
        assert(dir@ == decode_utf8(encode_utf8(dir@)));
        assert(file@ == decode_utf8(encode_utf8(file@)));
        let d = join_path(self.objects_path.as_str(), dir);
        join_path(d.as_str(), file)
    }

    /// Where the reference `name` is kept.
    pub fn ref_path(&self, name: &str) -> (r: String)
        ensures
            r@ == joined_path(self.refs_path@, name@),
    {
        join_path(self.refs_path.as_str(), name)
    }

    /// Where the lock on `name` is kept: `<name>.lock` in the locks directory.
    pub fn lock_path(&self, name: &str) -> (r: String)
        ensures
            r@ == joined_path(self.locks_path@, name@ + ".lock"@),
    {
        let mut file = copy_str(name);
        file.append(".lock");
        join_path(self.locks_path.as_str(), file.as_str())
    }

    /// The content address of `data`: the lower-case hexadecimal SHA-256 digest,
    /// 64 characters long.
    pub fn get_object_hash(data: &[u8]) -> (r: String)
        ensures
            r@ == lower_hex(sha256_digest(data@)),
            r@.len() == 64,
    {
        let digest = sha256(data);
        to_lower_hex(&digest)
    }

    /// Compresses data for storage (gzip at the default level); in memory this always
    /// succeeds.
    pub fn compress_data(data: &[u8]) -> (r: Result<Vec<u8>, FsError>)
        ensures
            r is Ok,
            r matches Ok(v) ==> v@ == gzip_compressed(data@),
    {
        match gzip(data) {
            Ok(v) => Ok(v),
            Err(m) => Err(FsError::Io { message: m }),
        }
    }

    /// Decompresses stored data; data that is no gzip stream is refused.
    pub fn decompress_data(data: &[u8]) -> (r: Result<Vec<u8>, FsError>)
        ensures
            r matches Ok(v) ==> gzip_decoded(data@) == Some(v@),
            r is Err <==> gzip_decoded(data@) is None,
            r matches Err(e) ==> e is Io,
            forall|x: Seq<u8>| data@ == #[trigger] gzip_compressed(x) ==> (r matches Ok(v) && v@ == x),
    {
        match gunzip(data) {
            Ok(v) => Ok(v),
            Err(m) => Err(FsError::Io { message: m }),
        }
    }

    /// The object to store for `data`: named by the hash of `data`, with its size, and
    /// holding the compressed bytes and their size.
    pub fn pack_object(object_type: ObjectType, data: &[u8]) -> (r: Result<StorageObject, FsError>)
        ensures
            r matches Ok(o) ==> {
                &&& o.object_type == object_type
                &&& o.hash@ == lower_hex(sha256_digest(data@))
                &&& o.size == data@.len()
                &&& o.data@ == gzip_compressed(data@)
                &&& o.compressed_size == o.data@.len()
            },
            r is Ok,
    {
        let hash = Self::get_object_hash(data);
        let compressed = Self::compress_data(data)?;
        let compressed_size = compressed.len();
        Ok(StorageObject { object_type, hash, size: data.len(), compressed_size, data: compressed })
    }

    /// A stored object with its data decompressed, its other fields as stored. The data
    /// of an object that [`Self::pack_object`] made comes back as it was packed.
    pub fn unpack_object(stored: StorageObject) -> (r: Result<StorageObject, FsError>)
        ensures
            r matches Ok(o) ==> {
                &&& o.object_type == stored.object_type
                &&& o.hash@ == stored.hash@
                &&& o.size == stored.size
                &&& o.compressed_size == stored.compressed_size
                &&& gzip_decoded(stored.data@) == Some(o.data@)
            },
            r is Err <==> gzip_decoded(stored.data@) is None,
            forall|x: Seq<u8>| stored.data@ == #[trigger] gzip_compressed(x) ==> (r matches Ok(o) && o.data@ == x),
    {
        let data = Self::decompress_data(stored.data.as_slice())?;
        Ok(StorageObject { data, ..stored })
    }

    /// A new lock on `name` for `process_id` from `acquired_at`, unless `name` is
    /// already locked.
    pub fn lock_for(name: &str, already_locked: bool, acquired_at: i64, process_id: u32) -> (r: Result<StorageLock, FsError>)
        ensures
            already_locked ==> (r matches Err(FsError::LockError { message })
                && message@ == "Resource '"@ + name@ + "' is already locked"@),
            !already_locked ==> (r matches Ok(l) && l.name@ == name@ && l.acquired_at == acquired_at
                && l.process_id == process_id),
    {
        if already_locked {
            let mut m = copy_str("Resource '");
            m.append(name);
            m.append("' is already locked");
            return Err(FsError::LockError { message: m });
        }
        Ok(StorageLock { name: copy_str(name), acquired_at, process_id })
    }

    /// A lock may be released only by its holder: the lock found on disk must have the
    /// same process and the same moment as the one being released.
    pub fn check_release(existing: &StorageLock, lock: &StorageLock) -> (r: Result<(), FsError>)
        ensures
            r is Ok <==> (existing.process_id == lock.process_id && existing.acquired_at == lock.acquired_at),
            r matches Err(FsError::LockError { message }) ==> message@ == "Cannot release lock owned by different process"@,
            r is Err ==> r matches Err(FsError::LockError { .. }),
    {
        if existing.process_id != lock.process_id || existing.acquired_at != lock.acquired_at {
            return Err(FsError::LockError { message: copy_str("Cannot release lock owned by different process") });
        }
        Ok(())
    }
}

} // verus!
