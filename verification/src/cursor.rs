//! What a cursor operation amounts to once the engine has answered it.
use vstd::prelude::*;
use crate::error::{Error, error_of_mdb, outcome_of_code};
use crate::mdb_error::{Error as MdbError, error_of_code, mdb_result, result_of_code, MDB_NOTFOUND, MDB_SUCCESS, MDB_MAP_FULL};

verus! {

/// What the return code of a cursor operation means: `Ok(true)` when the
/// operation found its entry, `Ok(false)` when there was no entry to find,
/// and the error otherwise.
pub open spec fn step_outcome(code: i32) -> Result<bool, Error> {
    match result_of_code(code) {
        Ok(()) => Ok(true),
        Err(MdbError::NotFound) => Ok(false),
        Err(e) => Err(error_of_mdb(e)),
    }
}

/// Reads the return code of a cursor operation (a move, a deletion or a
/// replacement of the current entry).
pub fn cursor_step(code: i32) -> (r: Result<bool, Error>)
    ensures
        r == step_outcome(code),
{
    match mdb_result(code) {
        Ok(()) => Ok(true),
        Err(e) => {
            if e.not_found() {
                Ok(false)
            } else {
                Err(Error::from(e))
            }
        },
    }
}

/// The entry that a cursor move lands on: the key and data the engine handed
/// back when the move found an entry, nothing when there was no entry, the
/// error otherwise. `entry` is what the engine wrote, present exactly when
/// the move succeeded.
pub fn moved_entry<'txn>(code: i32, entry: Option<(&'txn [u8], &'txn [u8])>) -> (r: Result<
    Option<(&'txn [u8], &'txn [u8])>,
    Error,
>)
    requires
        entry is Some <==> code == 0,
    ensures
        match step_outcome(code) {
            Ok(true) => r == Ok::<Option<(&'txn [u8], &'txn [u8])>, Error>(entry),
            Ok(false) => r == Ok::<Option<(&'txn [u8], &'txn [u8])>, Error>(None),
            Err(e) => r == Err::<Option<(&'txn [u8], &'txn [u8])>, Error>(e),
        },
{
    match cursor_step(code) {
        Ok(true) => Ok(entry),
        Ok(false) => Ok(None),
        Err(e) => Err(e),
    }
}

/// A cursor step reports an entry exactly on success and no entry exactly
/// on `MDB_NOTFOUND`; every other code is the same error that any other
/// engine call with that code reports. In particular a write that does not
/// fit (`MDB_MAP_FULL`) is an error, never "no entry".
pub proof fn lemma_cursor_step_outcomes(code: i32)
    ensures
        step_outcome(code) == Ok::<bool, Error>(true) <==> code == MDB_SUCCESS,
        step_outcome(code) == Ok::<bool, Error>(false) <==> code == MDB_NOTFOUND,
        code != MDB_SUCCESS && code != MDB_NOTFOUND ==> step_outcome(code) is Err
            && outcome_of_code(code) is Err
            && step_outcome(code)->Err_0 == outcome_of_code(code)->Err_0,
        code != MDB_SUCCESS && code != MDB_NOTFOUND ==> step_outcome(code)
            == Err::<bool, Error>(error_of_mdb(error_of_code(code))),
        step_outcome(MDB_MAP_FULL) == Err::<bool, Error>(Error::Mdb(MdbError::MapFull)),
{
}

} // verus!
