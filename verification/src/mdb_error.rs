//! The error codes of the storage engine and their correspondence with the
//! error kinds that the library reports.
use vstd::prelude::*;

verus! {

/// Successful result.
pub const MDB_SUCCESS: i32 = 0;
/// Key/data pair already exists.
pub const MDB_KEYEXIST: i32 = -30799;
/// Key/data pair not found (EOF).
pub const MDB_NOTFOUND: i32 = -30798;
/// Requested page not found.
pub const MDB_PAGE_NOTFOUND: i32 = -30797;
/// Located page was wrong type.
pub const MDB_CORRUPTED: i32 = -30796;
/// Update of meta page failed or environment had fatal error.
pub const MDB_PANIC: i32 = -30795;
/// Environment version mismatch.
pub const MDB_VERSION_MISMATCH: i32 = -30794;
/// File is not a valid database file.
pub const MDB_INVALID: i32 = -30793;
/// Environment mapsize reached.
pub const MDB_MAP_FULL: i32 = -30792;
/// Environment maxdbs reached.
pub const MDB_DBS_FULL: i32 = -30791;
/// Environment maxreaders reached.
pub const MDB_READERS_FULL: i32 = -30790;
/// Too many TLS keys in use.
pub const MDB_TLS_FULL: i32 = -30789;
/// Txn has too many dirty pages.
pub const MDB_TXN_FULL: i32 = -30788;
/// Cursor stack too deep.
pub const MDB_CURSOR_FULL: i32 = -30787;
/// Page has not enough space.
pub const MDB_PAGE_FULL: i32 = -30786;
/// Database contents grew beyond environment mapsize.
pub const MDB_MAP_RESIZED: i32 = -30785;
/// Operation and DB incompatible, or DB type changed.
pub const MDB_INCOMPATIBLE: i32 = -30784;
/// Invalid reuse of reader locktable slot.
pub const MDB_BAD_RSLOT: i32 = -30783;
/// Transaction must abort, has a child, or is invalid.
pub const MDB_BAD_TXN: i32 = -30782;
/// Unsupported size of key/DB name/data, or wrong DUPFIXED size.
pub const MDB_BAD_VALSIZE: i32 = -30781;
/// The specified DBI was changed unexpectedly.
pub const MDB_BAD_DBI: i32 = -30780;

/// A storage engine error kind.
#[derive(Debug, Copy, Clone, Eq, PartialEq, Structural)]
pub enum Error {
    /// key/data pair already exists.
    KeyExist,
    /// key/data pair not found (EOF).
    NotFound,
    /// Requested page not found - this usually indicates corruption.
    PageNotFound,
    /// Located page was wrong type.
    Corrupted,
    /// Update of meta page failed or environment had fatal error.
    Panic,
    /// Environment version mismatch.
    VersionMismatch,
    /// File is not a valid LMDB file.
    Invalid,
    /// Environment mapsize reached.
    MapFull,
    /// Environment maxdbs reached.
    DbsFull,
    /// Environment maxreaders reached.
    ReadersFull,
    /// Too many TLS keys in use - Windows only.
    TlsFull,
    /// Txn has too many dirty pages.
    TxnFull,
    /// Cursor stack too deep - internal error.
    CursorFull,
    /// Page has not enough space - internal error.
    PageFull,
    /// Database contents grew beyond environment mapsize.
    MapResized,
    /// Operation and DB incompatible, or DB type changed.
    Incompatible,
    /// Invalid reuse of reader locktable slot.
    BadRslot,
    /// Transaction cannot recover - it must be aborted.
    BadTxn,
    /// Unsupported size of key/DB name/data, or wrong DUP_FIXED size.
    BadValSize,
    /// The specified DBI was changed unexpectedly.
    BadDbi,
    /// Other error.
    Other(i32),
}

/// The error kind that a raw error code stands for.
pub open spec fn error_of_code(code: i32) -> Error {
    if code == MDB_KEYEXIST {
        Error::KeyExist
    } else if code == MDB_NOTFOUND {
        Error::NotFound
    } else if code == MDB_PAGE_NOTFOUND {
        Error::PageNotFound
    } else if code == MDB_CORRUPTED {
        Error::Corrupted
    } else if code == MDB_PANIC {
        Error::Panic
    } else if code == MDB_VERSION_MISMATCH {
        Error::VersionMismatch
    } else if code == MDB_INVALID {
        Error::Invalid
    } else if code == MDB_MAP_FULL {
        Error::MapFull
    } else if code == MDB_DBS_FULL {
        Error::DbsFull
    } else if code == MDB_READERS_FULL {
        Error::ReadersFull
    } else if code == MDB_TLS_FULL {
        Error::TlsFull
    } else if code == MDB_TXN_FULL {
        Error::TxnFull
    } else if code == MDB_CURSOR_FULL {
        Error::CursorFull
    } else if code == MDB_PAGE_FULL {
        Error::PageFull
    } else if code == MDB_MAP_RESIZED {
        Error::MapResized
    } else if code == MDB_INCOMPATIBLE {
        Error::Incompatible
    } else if code == MDB_BAD_RSLOT {
        Error::BadRslot
    } else if code == MDB_BAD_TXN {
        Error::BadTxn
    } else if code == MDB_BAD_VALSIZE {
        Error::BadValSize
    } else if code == MDB_BAD_DBI {
        Error::BadDbi
    } else {
        Error::Other(code)
    }
}

/// The raw error code of an error kind.
pub open spec fn code_of_error(e: Error) -> i32 {
    match e {
        Error::KeyExist => MDB_KEYEXIST,
        Error::NotFound => MDB_NOTFOUND,
        Error::PageNotFound => MDB_PAGE_NOTFOUND,
        Error::Corrupted => MDB_CORRUPTED,
        Error::Panic => MDB_PANIC,
        Error::VersionMismatch => MDB_VERSION_MISMATCH,
        Error::Invalid => MDB_INVALID,
        Error::MapFull => MDB_MAP_FULL,
        Error::DbsFull => MDB_DBS_FULL,
        Error::ReadersFull => MDB_READERS_FULL,
        Error::TlsFull => MDB_TLS_FULL,
        Error::TxnFull => MDB_TXN_FULL,
        Error::CursorFull => MDB_CURSOR_FULL,
        Error::PageFull => MDB_PAGE_FULL,
        Error::MapResized => MDB_MAP_RESIZED,
        Error::Incompatible => MDB_INCOMPATIBLE,
        Error::BadRslot => MDB_BAD_RSLOT,
        Error::BadTxn => MDB_BAD_TXN,
        Error::BadValSize => MDB_BAD_VALSIZE,
        Error::BadDbi => MDB_BAD_DBI,
        Error::Other(code) => code,
    }
}

/// The codes that have an error kind of their own: those from
/// `MDB_KEYEXIST` to `MDB_BAD_DBI`.
pub open spec fn is_engine_code(code: i32) -> bool {
    MDB_KEYEXIST <= code <= MDB_BAD_DBI
}

/// The outcome that a raw return code stands for.
pub open spec fn result_of_code(code: i32) -> Result<(), Error> {
    if code == MDB_SUCCESS {
        Ok(())
    } else {
        Err(error_of_code(code))
    }
}

impl Error {
    pub fn not_found(self) -> (r: bool)
        ensures
            r == (self == Error::NotFound),
    {
        match self {
            Error::NotFound => true,
            _ => false,
        }
    }

    /// Converts a raw error code to an `Error`.
    pub fn from_error_code(err_code: i32) -> (r: Self)
        ensures
            r == error_of_code(err_code),
    {
        if err_code == MDB_KEYEXIST {
            Error::KeyExist
        } else if err_code == MDB_NOTFOUND {
            Error::NotFound
        } else if err_code == MDB_PAGE_NOTFOUND {
            Error::PageNotFound
        } else if err_code == MDB_CORRUPTED {
            Error::Corrupted
        } else if err_code == MDB_PANIC {
            Error::Panic
        } else if err_code == MDB_VERSION_MISMATCH {
            Error::VersionMismatch
        } else if err_code == MDB_INVALID {
            Error::Invalid
        } else if err_code == MDB_MAP_FULL {
            Error::MapFull
        } else if err_code == MDB_DBS_FULL {
            Error::DbsFull
        } else if err_code == MDB_READERS_FULL {
            Error::ReadersFull
        } else if err_code == MDB_TLS_FULL {
            Error::TlsFull
        } else if err_code == MDB_TXN_FULL {
            Error::TxnFull
        } else if err_code == MDB_CURSOR_FULL {
            Error::CursorFull
        } else if err_code == MDB_PAGE_FULL {
            Error::PageFull
        } else if err_code == MDB_MAP_RESIZED {
            Error::MapResized
        } else if err_code == MDB_INCOMPATIBLE {
            Error::Incompatible
        } else if err_code == MDB_BAD_RSLOT {
            Error::BadRslot
        } else if err_code == MDB_BAD_TXN {
            Error::BadTxn
        } else if err_code == MDB_BAD_VALSIZE {
            Error::BadValSize
        } else if err_code == MDB_BAD_DBI {
            Error::BadDbi
        } else {
            Error::Other(err_code)
        }
    }

    /// Converts an `Error` to its raw error code.
    pub fn to_error_code(self) -> (r: i32)
        ensures
            r == code_of_error(self),
    {
        match self {
            Error::KeyExist => MDB_KEYEXIST,
            Error::NotFound => MDB_NOTFOUND,
            Error::PageNotFound => MDB_PAGE_NOTFOUND,
            Error::Corrupted => MDB_CORRUPTED,
            Error::Panic => MDB_PANIC,
            Error::VersionMismatch => MDB_VERSION_MISMATCH,
            Error::Invalid => MDB_INVALID,
            Error::MapFull => MDB_MAP_FULL,
            Error::DbsFull => MDB_DBS_FULL,
            Error::ReadersFull => MDB_READERS_FULL,
            Error::TlsFull => MDB_TLS_FULL,
            Error::TxnFull => MDB_TXN_FULL,
            Error::CursorFull => MDB_CURSOR_FULL,
            Error::PageFull => MDB_PAGE_FULL,
            Error::MapResized => MDB_MAP_RESIZED,
            Error::Incompatible => MDB_INCOMPATIBLE,
            Error::BadRslot => MDB_BAD_RSLOT,
            Error::BadTxn => MDB_BAD_TXN,
            Error::BadValSize => MDB_BAD_VALSIZE,
            Error::BadDbi => MDB_BAD_DBI,
            Error::Other(err_code) => err_code,
        }
    }
}

/// Turns a raw return code into `Ok(())` for success and the error kind of
/// the code otherwise.
pub fn mdb_result(err_code: i32) -> (r: Result<(), Error>)
    ensures
        r == result_of_code(err_code),
{
    if err_code == MDB_SUCCESS {
        Ok(())
    } else {
        Err(Error::from_error_code(err_code))
    }
}

/// Reading a code as an error kind and writing the kind back gives the code
/// back, for every code.
pub proof fn lemma_code_round_trip(code: i32)
    ensures
        code_of_error(error_of_code(code)) == code,
{
}

/// Writing an error kind as a code and reading it back gives the kind back,
/// except for an `Other` that carries one of the engine's own codes, which
/// reads back as the kind of that code.
pub proof fn lemma_error_round_trip(e: Error)
    ensures
        !(e matches Error::Other(c) && is_engine_code(c)) ==> error_of_code(code_of_error(e))
            == e,
        e matches Error::Other(c) && is_engine_code(c) ==> !(error_of_code(code_of_error(e)) is Other),
{
}

/// A raw code reads as success exactly when it is `MDB_SUCCESS`, and only
/// `MDB_NOTFOUND` reads as the not-found kind.
pub proof fn lemma_result_of_code(code: i32)
    ensures
        result_of_code(code) is Ok <==> code == MDB_SUCCESS,
        result_of_code(code) == Err::<(), Error>(Error::NotFound) <==> code == MDB_NOTFOUND,
{
}

} // verus!
