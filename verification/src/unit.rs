//! The codec of the unit type: it is stored as no bytes at all.
use std::borrow::Cow;
use vstd::prelude::*;
use crate::codec::{BytesDecode, BytesEncode, CodecError, PodCastKind};

verus! {

/// Describes the `()` type.
#[derive(Debug, Clone, Copy, PartialEq, Eq, PartialOrd, Ord)]
pub struct Unit;

impl BytesEncode for Unit {
    type Item = ();

    open spec fn encodable(item: &()) -> bool {
        true
    }

    open spec fn encodes_to(item: &(), bytes: Seq<u8>) -> bool {
        bytes.len() == 0
    }

    fn bytes_encode(item: &()) -> (r: Result<Cow<'_, [u8]>, CodecError>) {
        let empty: &[u8] = &[];
        Ok(Cow::Borrowed(empty))
    }
}

impl<'a> BytesDecode<'a> for Unit {
    type Item = ();

    open spec fn decodable(bytes: Seq<u8>) -> bool {
        bytes.len() == 0
    }

    open spec fn decodes_to(bytes: Seq<u8>, item: ()) -> bool {
        bytes.len() == 0
    }

    fn bytes_decode(bytes: &'a [u8]) -> (r: Result<(), CodecError>)
        ensures
            r is Err ==> r == Err::<(), CodecError>(CodecError::PodCast(PodCastKind::SizeMismatch)),
    {
        if bytes.len() == 0 {
            Ok(())
        } else {
            Err(CodecError::PodCast(PodCastKind::SizeMismatch))
        }
    }
}

} // verus!
