//! The codec of string slices: a `str` is stored as its UTF-8 bytes.
use std::borrow::Cow;
use std::marker::PhantomData;
use vstd::prelude::*;
use vstd::string::*;
use vstd::utf8::*;
use crate::codec::{BytesDecode, BytesEncode, CodecError};
use crate::pod::try_cast_bytes;

verus! {

/// Describes a `str`.
#[derive(Debug, Clone, Copy, PartialEq, Eq, PartialOrd, Ord)]
pub struct Str<'a> {
    _phantom: PhantomData<&'a ()>,
}

/// Calls `std::str::from_utf8`, which, as its documentation says, returns
/// the string that the bytes encode when they are valid UTF-8 and an error
/// when they are not.
#[verifier::external_body]
fn str_from_utf8(bytes: &[u8]) -> (r: Result<&str, core::str::Utf8Error>)
    ensures
        match r {
            Ok(s) => valid_utf8(bytes@) && s.spec_bytes() == bytes@,
            Err(_) => !valid_utf8(bytes@),
        },
{
    std::str::from_utf8(bytes)
}

impl<'a> BytesEncode for Str<'a> {
    type Item = &'a str;

    open spec fn encodable(item: &&'a str) -> bool {
        true
    }

    open spec fn encodes_to(item: &&'a str, bytes: Seq<u8>) -> bool {
        bytes == item.spec_bytes()
    }

    /// Borrows the string's own UTF-8 bytes.
    fn bytes_encode(item: &Self::Item) -> (r: Result<Cow<'_, [u8]>, CodecError>)
        ensures
            r matches Ok(c) && c matches Cow::Borrowed(b) && b@ == item.spec_bytes(),
    {
        let bytes: &[u8] = item.as_bytes();
        match try_cast_bytes(bytes) {
            Ok(b) => Ok(Cow::Borrowed(b)),
            Err(k) => Err(CodecError::PodCast(k)),
        }
    }
}

impl<'a> BytesDecode<'a> for Str<'_> {
    type Item = &'a str;

    open spec fn decodable(bytes: Seq<u8>) -> bool {
        valid_utf8(bytes)
    }

    open spec fn decodes_to(bytes: Seq<u8>, item: &'a str) -> bool {
        item.spec_bytes() == bytes && item@ == decode_utf8(bytes)
    }

    fn bytes_decode(bytes: &'a [u8]) -> (r: Result<&'a str, CodecError>)
        ensures
            r is Err <==> !valid_utf8(bytes@),
            r matches Err(e) ==> e is Utf8,
    {
        match str_from_utf8(bytes) {
            Ok(s) => {
                proof {
                    encode_utf8_decode_utf8(s@);
                }
                Ok(s)
            },
            Err(e) => Err(CodecError::Utf8(e)),
        }
    }
}

/// Whatever `Str` encodes, it decodes back to the same string: the encoded
/// bytes always decode, and every string decoded from them has the view of
/// the original.
pub proof fn lemma_str_round_trip<'a>(item: &'a str, bytes: Seq<u8>, back: &'a str)
    requires
        <Str<'a> as BytesEncode>::encodes_to(&item, bytes),
    ensures
        <Str<'a> as BytesDecode<'a>>::decodable(bytes),
        <Str<'a> as BytesDecode<'a>>::decodes_to(bytes, back) ==> back@ == item@
            && back.spec_bytes() == item.spec_bytes(),
{
    encode_utf8_valid_utf8(item@);
    encode_utf8_decode_utf8(item@);
}

} // verus!
