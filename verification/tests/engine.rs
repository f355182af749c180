use constella::cursor::{cursor_step, moved_entry};
use constella::database::{increased_sequence, read_sequence, Database};
use constella::env::{copy_flags, EnvOpenOptions, MapSizeError, OpenSettings};
use constella::error::mdb_outcome;
use constella::mdb_error::mdb_result;
use constella::MdbError;
use constella::registry::EnvRegistry;
use constella::{CodecError, Env, Error, Flags, OwnedType, Str};

const ALL_KINDS: [(MdbError, i32); 20] = [
    (MdbError::KeyExist, lmdb_sys::MDB_KEYEXIST),
    (MdbError::NotFound, lmdb_sys::MDB_NOTFOUND),
    (MdbError::PageNotFound, lmdb_sys::MDB_PAGE_NOTFOUND),
    (MdbError::Corrupted, lmdb_sys::MDB_CORRUPTED),
    (MdbError::Panic, lmdb_sys::MDB_PANIC),
    (MdbError::VersionMismatch, lmdb_sys::MDB_VERSION_MISMATCH),
    (MdbError::Invalid, lmdb_sys::MDB_INVALID),
    (MdbError::MapFull, lmdb_sys::MDB_MAP_FULL),
    (MdbError::DbsFull, lmdb_sys::MDB_DBS_FULL),
    (MdbError::ReadersFull, lmdb_sys::MDB_READERS_FULL),
    (MdbError::TlsFull, lmdb_sys::MDB_TLS_FULL),
    (MdbError::TxnFull, lmdb_sys::MDB_TXN_FULL),
    (MdbError::CursorFull, lmdb_sys::MDB_CURSOR_FULL),
    (MdbError::PageFull, lmdb_sys::MDB_PAGE_FULL),
    (MdbError::MapResized, lmdb_sys::MDB_MAP_RESIZED),
    (MdbError::Incompatible, lmdb_sys::MDB_INCOMPATIBLE),
    (MdbError::BadRslot, lmdb_sys::MDB_BAD_RSLOT),
    (MdbError::BadTxn, lmdb_sys::MDB_BAD_TXN),
    (MdbError::BadValSize, lmdb_sys::MDB_BAD_VALSIZE),
    (MdbError::BadDbi, lmdb_sys::MDB_BAD_DBI),
];

#[test]
fn error_codes_match_the_engine() {
    for (kind, code) in ALL_KINDS {
        assert_eq!(MdbError::from_error_code(code), kind);
        assert_eq!(kind.to_error_code(), code);
    }
    assert_eq!(constella::mdb_error::MDB_SUCCESS, lmdb_sys::MDB_SUCCESS);
}

#[test]
fn other_codes_round_trip() {
    for code in [13, -1, 0, i32::MAX, i32::MIN, -30800, -30779] {
        let kind = MdbError::from_error_code(code);
        assert_eq!(kind, MdbError::Other(code));
        assert_eq!(kind.to_error_code(), code);
    }
}

#[test]
fn other_with_an_engine_code_reads_back_as_its_kind() {
    let e = MdbError::Other(lmdb_sys::MDB_NOTFOUND);
    assert_eq!(MdbError::from_error_code(e.to_error_code()), MdbError::NotFound);
}

#[test]
fn mdb_result_of_codes() {
    assert_eq!(mdb_result(0), Ok(()));
    assert_eq!(mdb_result(lmdb_sys::MDB_NOTFOUND), Err(MdbError::NotFound));
    assert!(MdbError::NotFound.not_found());
    assert!(!MdbError::KeyExist.not_found());
}

#[test]
fn os_errors_become_io_errors() {
    match Error::from(MdbError::Other(13)) {
        Error::Io(e) => assert_eq!(e.raw_os_error(), Some(13)),
        other => panic!("unexpected {:?}", other),
    }
    assert!(matches!(Error::from(MdbError::MapFull), Error::Mdb(MdbError::MapFull)));
    assert!(mdb_outcome(0).is_ok());
    assert!(matches!(mdb_outcome(lmdb_sys::MDB_KEYEXIST), Err(Error::Mdb(MdbError::KeyExist))));
}

#[test]
fn flags_match_the_engine() {
    assert_eq!(Flags::Fixedmap.bits(), lmdb_sys::MDB_FIXEDMAP);
    assert_eq!(Flags::NoSubDir.bits(), lmdb_sys::MDB_NOSUBDIR);
    assert_eq!(Flags::NoSync.bits(), lmdb_sys::MDB_NOSYNC);
    assert_eq!(Flags::RdOnly.bits(), lmdb_sys::MDB_RDONLY);
    assert_eq!(Flags::NoMetaSync.bits(), lmdb_sys::MDB_NOMETASYNC);
    assert_eq!(Flags::WriteMap.bits(), lmdb_sys::MDB_WRITEMAP);
    assert_eq!(Flags::MapAsync.bits(), lmdb_sys::MDB_MAPASYNC);
    assert_eq!(Flags::NoTls.bits(), lmdb_sys::MDB_NOTLS);
    assert_eq!(Flags::NoLock.bits(), lmdb_sys::MDB_NOLOCK);
    assert_eq!(Flags::NoRdAhead.bits(), lmdb_sys::MDB_NORDAHEAD);
    assert_eq!(Flags::NoMemInit.bits(), lmdb_sys::MDB_NOMEMINIT);
    assert_eq!(copy_flags(true), lmdb_sys::MDB_CP_COMPACT);
    assert_eq!(copy_flags(false), 0);
}

#[test]
fn open_options_collect_settings() {
    let mut options = EnvOpenOptions::new();
    options.map_size(10 * 4096).max_readers(7).max_dbs(3);
    options.flags(Flags::NoSync).flags(Flags::NoSubDir);
    let settings = options.settings(4096, false).unwrap();
    assert_eq!(
        settings,
        OpenSettings {
            map_size: Some(40960),
            max_readers: Some(7),
            max_dbs: Some(3),
            flags: lmdb_sys::MDB_NOSYNC | lmdb_sys::MDB_NOSUBDIR,
        }
    );
    let shared = options.settings(4096, true).unwrap();
    assert_eq!(shared.flags, lmdb_sys::MDB_NOSYNC | lmdb_sys::MDB_NOSUBDIR | lmdb_sys::MDB_NOTLS);
}

#[test]
fn default_options_set_nothing() {
    let settings = EnvOpenOptions::default().settings(4096, false).unwrap();
    assert_eq!(settings, OpenSettings { map_size: None, max_readers: None, max_dbs: None, flags: 0 });
}

#[test]
fn map_size_must_be_page_aligned() {
    let mut options = EnvOpenOptions::new();
    options.map_size(4097);
    assert_eq!(options.settings(4096, false), Err(MapSizeError { map_size: 4097, page_size: 4096 }));
}

#[test]
fn registry_lifecycle() {
    let mut registry: EnvRegistry<&str, u8> = EnvRegistry::new();
    let path = b"/tmp/db".to_vec();
    assert!(matches!(registry.lookup_for_open(&path), Ok(None)));
    assert!(registry.closing_signal(&path).is_none());
    registry.register(path.clone(), "env", 1);
    assert!(matches!(registry.lookup_for_open(&path), Ok(Some(&"env"))));
    assert_eq!(registry.closing_signal(&path), Some(&1));
    assert_eq!(registry.take_env(&path), Some(Some("env")));
    assert!(matches!(registry.lookup_for_open(&path), Err(Error::DatabaseClosing)));
    assert_eq!(registry.closing_signal(&path), Some(&1));
    assert_eq!(registry.remove(&path), Some((None, 1)));
    assert!(matches!(registry.lookup_for_open(&path), Ok(None)));
    assert_eq!(registry.remove(&path), None);
    assert_eq!(registry.take_env(b"/elsewhere"), None);
}

#[test]
fn registry_keeps_paths_apart() {
    let mut registry: EnvRegistry<u32, u32> = EnvRegistry::new();
    registry.register(b"/a".to_vec(), 1, 10);
    registry.register(b"/b".to_vec(), 2, 20);
    assert_eq!(registry.take_env(b"/a"), Some(Some(1)));
    assert!(matches!(registry.lookup_for_open(b"/b"), Ok(Some(&2))));
    assert_eq!(registry.remove(b"/a"), Some((None, 10)));
    assert!(matches!(registry.lookup_for_open(b"/b"), Ok(Some(&2))));
    assert_eq!(registry.closing_signal(b"/b"), Some(&20));
}

#[test]
fn only_remove_unregisters() {
    let mut registry: EnvRegistry<u32, u32> = EnvRegistry::new();
    registry.register(b"/a".to_vec(), 1, 10);
    registry.register(b"/b".to_vec(), 2, 20);
    assert_eq!(registry.take_env(b"/a"), Some(Some(1)));
    assert_eq!(registry.take_env(b"/a"), Some(None));
    assert_eq!(registry.closing_signal(b"/a"), Some(&10));
    assert_eq!(registry.take_env(b"/b"), Some(Some(2)));
    assert_eq!(registry.closing_signal(b"/a"), Some(&10));
    assert_eq!(registry.remove(b"/a"), Some((None, 10)));
    assert_eq!(registry.take_env(b"/a"), None);
    assert_eq!(registry.closing_signal(b"/b"), Some(&20));
}

#[test]
fn cursor_steps() {
    assert!(matches!(cursor_step(0), Ok(true)));
    assert!(matches!(cursor_step(lmdb_sys::MDB_NOTFOUND), Ok(false)));
    assert!(matches!(cursor_step(lmdb_sys::MDB_BAD_TXN), Err(Error::Mdb(MdbError::BadTxn))));
    let key = [1u8];
    let data = [2u8, 3];
    let found = moved_entry(0, Some((&key[..], &data[..]))).unwrap();
    assert_eq!(found, Some((&key[..], &data[..])));
    assert_eq!(moved_entry(lmdb_sys::MDB_NOTFOUND, None).unwrap(), None);
    assert!(moved_entry(lmdb_sys::MDB_CORRUPTED, None).is_err());
}

#[test]
fn database_lookups() {
    let db: Database<Str, OwnedType<u32>> = Database::new(42, 3);
    assert_eq!(db.env_ident(), 42);
    assert_eq!(db.dbi(), 3);
    let key: &str = "k";
    let key_bytes = Database::<Str, OwnedType<u32>>::encode_key(&key).unwrap();
    assert_eq!(&key_bytes[..], b"k");
    let data = 5u32.to_ne_bytes();
    let value = Database::<Str, OwnedType<u32>>::found_value(Ok(&data[..])).unwrap();
    assert_eq!(value, Some(5));
    let absent = Database::<Str, OwnedType<u32>>::found_value(Err(MdbError::NotFound)).unwrap();
    assert_eq!(absent, None);
    assert!(matches!(
        Database::<Str, OwnedType<u32>>::found_value(Ok(&data[..3])),
        Err(Error::Decoding(CodecError::PodCast(_)))
    ));
    assert!(matches!(
        Database::<Str, OwnedType<u32>>::found_value(Err(MdbError::BadDbi)),
        Err(Error::Mdb(MdbError::BadDbi))
    ));
}

#[test]
fn database_lower_entries() {
    let key = b"a".to_vec();
    let data = 9u32.to_ne_bytes();
    let entry = Database::<Str, OwnedType<u32>>::lower_entry(Ok(Some((&key[..], &data[..])))).unwrap();
    assert_eq!(entry, Some(("a", 9)));
    assert!(Database::<Str, OwnedType<u32>>::lower_entry(Ok(None)).unwrap().is_none());
    let bad_key = [0xffu8];
    assert!(matches!(
        Database::<Str, OwnedType<u32>>::lower_entry(Ok(Some((&bad_key[..], &data[..])))),
        Err(Error::Decoding(CodecError::Utf8(_)))
    ));
    assert!(matches!(
        Database::<Str, OwnedType<u32>>::lower_entry(Err(Error::DatabaseClosing)),
        Err(Error::DatabaseClosing)
    ));
}

#[test]
fn sequences() {
    assert_eq!(read_sequence(Ok(3)).unwrap(), 3);
    assert_eq!(increased_sequence(Ok(4)).unwrap(), Some(4));
    assert_eq!(increased_sequence(Err(MdbError::Other(i32::MAX))).unwrap(), None);
    assert!(matches!(increased_sequence(Err(MdbError::Other(5))), Err(Error::Io(_))));
    assert!(matches!(increased_sequence(Err(MdbError::MapFull)), Err(Error::Mdb(MdbError::MapFull))));
}

#[test]
fn env_shares_its_path() {
    let env = Env::new(std::path::PathBuf::from("/tmp/x"), 7u32);
    let clone = env.clone();
    assert_eq!(clone.path(), &std::path::PathBuf::from("/tmp/x"));
    assert_eq!(*clone.handle(), 7);
    assert_eq!(env.path(), clone.path());
}

#[test]
fn transactions_end_once() {
    let mut life = constella::txn::TxnLife::begin(5u32);
    assert!(life.is_live());
    assert_eq!(life.finish(), Some(5));
    assert!(!life.is_live());
    assert_eq!(life.finish(), None);
}

#[test]
fn converted_os_errors_report_their_code() {
    assert_eq!(Error::from(MdbError::Other(13)).raw_os_error(), Some(13));
    assert_eq!(Error::from(MdbError::NotFound).raw_os_error(), None);
    assert_eq!(Error::DatabaseClosing.raw_os_error(), None);
}

#[test]
fn open_or_create_shares_and_refuses() {
    let mut registry: EnvRegistry<Env<u32>, u8> = EnvRegistry::new();
    let key = b"/tmp/env".to_vec();
    let (first, unused) =
        registry.open_or_create(key.clone(), || Ok((Env::new(std::path::PathBuf::from("/tmp/env"), 1u32), 9u8)));
    let first = first.unwrap();
    assert!(unused.is_none());
    assert_eq!(*first.handle(), 1);
    let (second, unused) = registry
        .open_or_create(key.clone(), || -> Result<(Env<u32>, u8), Error> { panic!("not created twice") });
    let second = second.unwrap();
    assert!(unused.is_some());
    assert_eq!(*second.handle(), 1);
    assert_eq!(second.path(), first.path());
    assert!(registry.take_env(&key).is_some());
    let (closing, unused) =
        registry.open_or_create(key.clone(), || -> Result<(Env<u32>, u8), Error> { panic!("closing") });
    assert!(matches!(closing, Err(Error::DatabaseClosing)));
    assert!(unused.is_some());
    registry.remove(&key);
    let (failed, unused) = registry
        .open_or_create(key.clone(), || -> Result<(Env<u32>, u8), Error> { Err(Error::InvalidDatabaseTyping) });
    assert!(matches!(failed, Err(Error::InvalidDatabaseTyping)));
    assert!(unused.is_none());
    assert!(matches!(registry.lookup_for_open(&key), Ok(None)));
}

#[test]
fn error_messages() {
    assert_eq!(
        Error::DatabaseClosing.message(""),
        "database is in a closing phase, you can't open it at the same time"
    );
    assert_eq!(
        Error::InvalidDatabaseTyping.message("ignored"),
        "database was previously opened with different types"
    );
    assert_eq!(
        Error::Encoding(CodecError::Serialization("bad".to_string())).message("bad"),
        "error while encoding: bad"
    );
    assert_eq!(
        Error::Decoding(CodecError::Serialization("x".to_string())).message("x"),
        "error while decoding: x"
    );
    assert_eq!(Error::Mdb(MdbError::MapFull).message("full"), "full");
}
