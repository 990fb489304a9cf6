use odi::errors::FsError;
use odi::storage::{FileSystemStorage, ObjectHash, ObjectType, StorageLock};

#[test]
fn object_hash_is_lowercase_sha256() {
    assert_eq!(
        FileSystemStorage::get_object_hash(b"hello"),
        "2cf24dba5fb0a30e26e83b2ac5b9e29e1b161e5c1fa7425e73043362938b9824"
    );
    assert_eq!(
        FileSystemStorage::get_object_hash(b""),
        "e3b0c44298fc1c149afbf4c8996fb92427ae41e4649b934ca495991b7852b855"
    );
}

#[test]
fn layout_and_paths() {
    let s = FileSystemStorage::new("/tmp/store".to_string());
    assert_eq!(s.root_path, "/tmp/store");
    assert_eq!(s.objects_path, "/tmp/store/objects");
    assert_eq!(s.refs_path, "/tmp/store/refs");
    assert_eq!(s.locks_path, "/tmp/store/locks");
    assert_eq!(s.get_object_path("abcdef"), "/tmp/store/objects/ab/cdef");
    assert_eq!(s.ref_path("issues/1"), "/tmp/store/refs/issues/1");
    assert_eq!(s.lock_path("index"), "/tmp/store/locks/index.lock");
    let w = FileSystemStorage::init();
    assert_eq!(w.root_path, ".odi");
    assert_eq!(w.objects_path, ".odi/objects");
}

#[test]
fn pack_then_unpack_gives_data_back() {
    let data = b"some issue bytes, some issue bytes, some issue bytes".to_vec();
    let packed = FileSystemStorage::pack_object(ObjectType::Issue, &data).unwrap();
    assert_eq!(packed.object_type, ObjectType::Issue);
    assert_eq!(packed.size, data.len());
    assert_eq!(packed.compressed_size, packed.data.len());
    assert_ne!(packed.data, data);
    assert_eq!(packed.hash, FileSystemStorage::get_object_hash(&data));
    let unpacked = FileSystemStorage::unpack_object(packed).unwrap();
    assert_eq!(unpacked.data, data);
    assert_eq!(unpacked.size, data.len());
}

#[test]
fn compression_round_trip_and_refusal() {
    let data = vec![7u8; 1000];
    let c = FileSystemStorage::compress_data(&data).unwrap();
    assert!(c.len() < data.len());
    assert_eq!(FileSystemStorage::decompress_data(&c).unwrap(), data);
    match FileSystemStorage::decompress_data(b"not gzip at all") {
        Err(FsError::Io { .. }) => {},
        other => panic!("unexpected {:?}", other),
    }
}

#[test]
fn lock_decisions() {
    let lock = FileSystemStorage::lock_for("index", false, 42, 7).unwrap();
    assert_eq!(lock.name, "index");
    assert_eq!(lock.acquired_at, 42);
    assert_eq!(lock.process_id, 7);
    match FileSystemStorage::lock_for("index", true, 42, 7) {
        Err(FsError::LockError { message }) => assert_eq!(message, "Resource 'index' is already locked"),
        other => panic!("unexpected {:?}", other),
    }
    let same = StorageLock { name: "index".to_string(), acquired_at: 42, process_id: 7 };
    assert!(FileSystemStorage::check_release(&same, &lock).is_ok());
    let other = StorageLock { name: "index".to_string(), acquired_at: 42, process_id: 8 };
    match FileSystemStorage::check_release(&other, &lock) {
        Err(FsError::LockError { message }) => {
            assert_eq!(message, "Cannot release lock owned by different process")
        },
        other => panic!("unexpected {:?}", other),
    }
    let later = StorageLock { name: "index".to_string(), acquired_at: 43, process_id: 7 };
    assert!(FileSystemStorage::check_release(&later, &lock).is_err());
}

#[test]
fn object_hash_wrapping() {
    let h = ObjectHash::new("abc".to_string());
    assert_eq!(h.as_str(), "abc");
    assert_eq!(ObjectHash::from("def".to_string()).as_str(), "def");
    assert_eq!(ObjectHash::from("ghi").as_str(), "ghi");
}

#[test]
fn packing_never_fails() {
    assert!(FileSystemStorage::compress_data(&[]).is_ok());
    let o = FileSystemStorage::pack_object(ObjectType::Label, &[]).unwrap();
    assert_eq!(o.size, 0);
    assert_eq!(o.compressed_size, o.data.len());
    assert_eq!(FileSystemStorage::unpack_object(o).unwrap().data, Vec::<u8>::new());
}

#[test]
fn object_hashes_compare_by_text() {
    assert_eq!(ObjectHash::new("abc".to_string()), ObjectHash::from("abc".to_string()));
    assert_eq!(ObjectHash::new("abc".to_string()), ObjectHash::from("abc"));
    assert_ne!(ObjectHash::new("abc".to_string()), ObjectHash::new("abd".to_string()));
    let mut seen = std::collections::HashSet::new();
    assert!(seen.insert(ObjectHash::new("x".to_string())));
    assert!(!seen.insert(ObjectHash::from("x")));
}
