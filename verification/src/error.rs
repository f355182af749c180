//! The error that every fallible operation of the library reports.
use vstd::prelude::*;
use vstd::string::StringExecFns;
use crate::codec::CodecError;
use crate::mdb_error::{Error as MdbError, mdb_result, result_of_code};

verus! {

/// `std::io::Error`, which file-system and operating-system failures carry.
#[verifier::external_type_specification]
#[verifier::external_body]
pub struct ExIoError(std::io::Error);

/// The I/O error that `std::io::Error::from_raw_os_error` builds from an
/// operating-system error code.
pub uninterp spec fn io_error_from_os_code(code: i32) -> std::io::Error;

/// Calls `std::io::Error::from_raw_os_error`, which wraps an
/// operating-system error code; the error depends on the code alone.
#[verifier::external_body]
fn from_raw_os_error(code: i32) -> (r: std::io::Error)
    ensures
        r == io_error_from_os_code(code),
{
    std::io::Error::from_raw_os_error(code)
}

/// Calls `std::io::Error::raw_os_error`, which, as its documentation says,
/// reports the code of an error built by `from_raw_os_error` from that code.
/// For other I/O errors the result is not stated.
#[verifier::external_body]
fn io_raw_os_error(e: &std::io::Error) -> (r: Option<i32>)
    ensures
        forall|code: i32| *e == io_error_from_os_code(code) ==> r == Some(code),
{
    e.raw_os_error()
}

#[derive(Debug)]
pub enum Error {
    Io(std::io::Error),
    Mdb(MdbError),
    Encoding(CodecError),
    Decoding(CodecError),
    InvalidDatabaseTyping,
    DatabaseClosing,
}

impl Error {
    /// The operating-system code of an I/O error. An I/O error built from an
    /// operating-system code (as an engine error of the `Other` kind becomes
    /// one) reports that code; an error that is not an I/O error has none.
    pub fn raw_os_error(&self) -> (r: Option<i32>)
        ensures
            match self {
                Error::Io(e) => forall|code: i32| *e == io_error_from_os_code(code) ==> r == Some(code),
                _ => r is None,
            },
    {
        match self {
            Error::Io(e) => io_raw_os_error(e),
            _ => None,
        }
    }
}

/// The message that describes an error, given `detail`, the description of
/// the error it carries (an I/O error, an engine error or a codec error).
pub open spec fn error_message(e: Error, detail: Seq<char>) -> Seq<char> {
    match e {
        Error::Encoding(_) => "error while encoding: "@ + detail,
        Error::Decoding(_) => "error while decoding: "@ + detail,
        Error::InvalidDatabaseTyping => "database was previously opened with different types"@,
        Error::DatabaseClosing => "database is in a closing phase, you can't open it at the same time"@,
        _ => detail,
    }
}

impl Error {
    /// The message that describes the error; `detail` is the description of
    /// the error that it carries, where it carries one.
    pub fn message(&self, detail: &str) -> (r: String)
        ensures
            r@ == error_message(*self, detail@),
    {
        match self {
            Error::Encoding(_) => {
                let mut s = String::from_str("error while encoding: ");
                s.append(detail);
                s
            },
            Error::Decoding(_) => {
                let mut s = String::from_str("error while decoding: ");
                s.append(detail);
                s
            },
            Error::InvalidDatabaseTyping => String::from_str(
                "database was previously opened with different types",
            ),
            Error::DatabaseClosing => String::from_str(
                "database is in a closing phase, you can't open it at the same time",
            ),
            _ => String::from_str(detail),
        }
    }
}

/// The library error that an engine error becomes: a code that is not one
/// of the engine's own is an operating-system error.
pub open spec fn error_of_mdb(error: MdbError) -> Error {
    match error {
        MdbError::Other(e) => Error::Io(io_error_from_os_code(e)),
        _ => Error::Mdb(error),
    }
}

impl From<MdbError> for Error {
    fn from(error: MdbError) -> (r: Self) {
        match error {
            MdbError::Other(e) => Error::Io(from_raw_os_error(e)),
            _ => Error::Mdb(error),
        }
    }
}

impl vstd::std_specs::convert::FromSpecImpl<MdbError> for Error {
    open spec fn obeys_from_spec() -> bool {
        true
    }

    open spec fn from_spec(error: MdbError) -> Error {
        error_of_mdb(error)
    }
}

impl From<std::io::Error> for Error {
    fn from(error: std::io::Error) -> (r: Self) {
        Error::Io(error)
    }
}

impl vstd::std_specs::convert::FromSpecImpl<std::io::Error> for Error {
    open spec fn obeys_from_spec() -> bool {
        true
    }

    open spec fn from_spec(error: std::io::Error) -> Error {
        Error::Io(error)
    }
}

/// The outcome of an engine call with return code `code`, as the library
/// reports it.
pub open spec fn outcome_of_code(code: i32) -> Result<(), Error> {
    match result_of_code(code) {
        Ok(()) => Ok(()),
        Err(e) => Err(error_of_mdb(e)),
    }
}

/// Turns the return code of an engine call into the library's result.
pub fn mdb_outcome(code: i32) -> (r: Result<(), Error>)
    ensures
        r == outcome_of_code(code),
{
    match mdb_result(code) {
        Ok(()) => Ok(()),
        Err(e) => Err(Error::from(e)),
    }
}

/// An engine error with a code outside the engine's own becomes the I/O
/// error of that operating-system code, which reports the code back (see
/// `Error::raw_os_error`); every other kind stays an engine error. So a
/// converted error is never an engine error of the `Other` kind.
pub proof fn lemma_engine_error_conversion(m: MdbError)
    ensures
        m matches MdbError::Other(c) ==> error_of_mdb(m) == Error::Io(io_error_from_os_code(c)),
        !(m is Other) ==> error_of_mdb(m) == Error::Mdb(m),
        !(error_of_mdb(m) matches Error::Mdb(MdbError::Other(_))),
{
}

} // verus!
