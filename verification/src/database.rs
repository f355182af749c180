//! A typed database: keys are encoded with `K` and values decoded with `V`.
//! The engine's lookups are made by the caller; this module encodes what
//! goes in and decodes what comes back.
use std::borrow::Cow;
use std::marker::PhantomData;
use vstd::prelude::*;
use crate::codec::{BytesDecode, BytesEncode};
use crate::error::{Error, error_of_mdb};
use crate::mdb_error::Error as MdbError;

verus! {

/// A database of an environment, with `K` as the codec of its keys and `V`
/// as the codec of its values.
#[derive(Debug)]
pub struct Database<K, V> {
    env_ident: usize,
    dbi: u32,
    marker: PhantomData<(K, V)>,
}

impl<K, V> Database<K, V> {
    /// The identity of the environment that the database belongs to.
    pub closed spec fn env_ident_spec(&self) -> usize {
        self.env_ident
    }

    /// The engine's handle of the database.
    pub closed spec fn dbi_spec(&self) -> u32 {
        self.dbi
    }

    pub fn new(env_ident: usize, dbi: u32) -> (r: Self)
        ensures
            r.env_ident_spec() == env_ident,
            r.dbi_spec() == dbi,
    {
        Database { env_ident, dbi, marker: PhantomData }
    }

    /// The identity of the environment that the database belongs to.
    pub fn env_ident(&self) -> (r: usize)
        ensures
            r == self.env_ident_spec(),
    {
        self.env_ident
    }

    /// The engine's handle of the database.
    pub fn dbi(&self) -> (r: u32)
        ensures
            r == self.dbi_spec(),
    {
        self.dbi
    }
}

impl<K: BytesEncode, V> Database<K, V> {
    /// Encodes a key with `K`; a failure of `K` is an encoding error.
    pub fn encode_key(key: &K::Item) -> (r: Result<Cow<'_, [u8]>, Error>)
        ensures
            K::encodable(key) ==> r is Ok,
            match r {
                Ok(bytes) => K::encodes_to(key, bytes@),
                Err(e) => e is Encoding,
            },
            r matches Ok(b) ==> call_ensures(K::bytes_encode, (key,), Ok(b)),
            r matches Err(Error::Encoding(e)) ==> call_ensures(K::bytes_encode, (key,), Err(e)),
    {
        match K::bytes_encode(key) {
            Ok(bytes) => Ok(bytes),
            Err(e) => Err(Error::Encoding(e)),
        }
    }
}

/// What a lookup gives back for the engine's answer `found`: the value
/// decoded from the data found (or a decoding error), nothing where the key
/// is absent, the engine's error otherwise.
pub open spec fn lookup_outcome_holds<'txn, V: BytesDecode<'txn>>(
    found: Result<&'txn [u8], MdbError>,
    r: Result<Option<V::Item>, Error>,
) -> bool {
    match found {
        Ok(data) => {
            &&& V::decodable(data@) ==> r is Ok
            &&& match r {
                Ok(Some(item)) => V::decodes_to(data@, item),
                Ok(None) => false,
                Err(e) => e is Decoding,
            }
        },
        Err(MdbError::NotFound) => r == Ok::<Option<V::Item>, Error>(None),
        Err(e) => r == Err::<Option<V::Item>, Error>(error_of_mdb(e)),
    }
}

impl<K, V> Database<K, V> {
    /// Decodes the engine's answer to a lookup: the data of the key when it
    /// was found, or the engine's error.
    pub fn found_value<'txn>(found: Result<&'txn [u8], MdbError>) -> (r: Result<Option<V::Item>, Error>)
        where V: BytesDecode<'txn>,
        ensures
            lookup_outcome_holds::<V>(found, r),
            found matches Ok(data) ==> (r matches Ok(Some(item)) ==> call_ensures(
                V::bytes_decode,
                (data,),
                Ok(item),
            )),
            found matches Ok(data) ==> (r matches Err(Error::Decoding(e)) ==> call_ensures(
                V::bytes_decode,
                (data,),
                Err(e),
            )),
    {
        match found {
            Ok(data) => match V::bytes_decode(data) {
                Ok(item) => Ok(Some(item)),
                Err(e) => Err(Error::Decoding(e)),
            },
            Err(e) => {
                if e.not_found() {
                    Ok(None)
                } else {
                    Err(Error::from(e))
                }
            },
        }
    }

    /// Decodes the entry that a cursor stepped back onto from the first key
    /// at or above the one asked for: the key and the value when both
    /// decode, a decoding error when either does not, nothing when there was
    /// no entry, and the cursor's error otherwise.
    pub fn lower_entry<'txn>(moved: Result<Option<(&'txn [u8], &'txn [u8])>, Error>) -> (r: Result<
        Option<(K::Item, V::Item)>,
        Error,
    >)
        where K: BytesDecode<'txn>, V: BytesDecode<'txn>,
        ensures
            match moved {
                Ok(Some((key, data))) => {
                    &&& K::decodable(key@) && V::decodable(data@) ==> r is Ok
                    &&& match r {
                        Ok(Some((k, v))) => K::decodes_to(key@, k) && V::decodes_to(data@, v),
                        Ok(None) => false,
                        Err(e) => e is Decoding,
                    }
                },
                Ok(None) => r is Ok && r->Ok_0 is None,
                Err(e) => r is Err && r->Err_0 == e,
            },
            moved matches Ok(Some((key, data))) ==> (r matches Ok(Some((k, v))) ==> call_ensures(
                K::bytes_decode,
                (key,),
                Ok(k),
            ) && call_ensures(V::bytes_decode, (data,), Ok(v))),
            moved matches Ok(Some((key, data))) ==> (r matches Err(Error::Decoding(e)) ==> (
            call_ensures(K::bytes_decode, (key,), Err(e)) || (exists|k: K::Item|
                call_ensures(K::bytes_decode, (key,), Ok(k)) && call_ensures(
                V::bytes_decode,
                (data,),
                Err(e),
            )))),
    {
        match moved {
            Ok(Some((key, data))) => match (K::bytes_decode(key), V::bytes_decode(data)) {
                (Ok(key), Ok(data)) => Ok(Some((key, data))),
                (Err(e), _) => Err(Error::Decoding(e)),
                (_, Err(e)) => Err(Error::Decoding(e)),
            },
            Ok(None) => Ok(None),
            Err(e) => Err(e),
        }
    }
}

/// The value that the engine's sequence of a database reads.
pub fn read_sequence(result: Result<u64, MdbError>) -> (r: Result<u64, Error>)
    ensures
        match result {
            Ok(v) => r == Ok::<u64, Error>(v),
            Err(e) => r == Err::<u64, Error>(error_of_mdb(e)),
        },
{
    match result {
        Ok(v) => Ok(v),
        Err(e) => Err(Error::from(e)),
    }
}

/// What increasing the sequence of a database gives: the previous value, or
/// nothing where the engine reports that the sequence would overflow (an
/// `Other` error with the code `i32::MAX`), or the engine's error.
pub fn increased_sequence(result: Result<u64, MdbError>) -> (r: Result<Option<u64>, Error>)
    ensures
        match result {
            Ok(v) => r == Ok::<Option<u64>, Error>(Some(v)),
            Err(MdbError::Other(c)) if c == i32::MAX => r == Ok::<Option<u64>, Error>(None),
            Err(e) => r == Err::<Option<u64>, Error>(error_of_mdb(e)),
        },
{
    match result {
        Ok(v) => Ok(Some(v)),
        Err(MdbError::Other(c)) => {
            if c == i32::MAX {
                Ok(None)
            } else {
                Err(Error::from(MdbError::Other(c)))
            }
        },
        Err(e) => Err(Error::from(e)),
    }
}

} // verus!
