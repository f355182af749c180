//! A plain-data value stored as its bytes, borrowed from the store when the
//! bytes are aligned for the type and copied out when they are not.
use std::borrow::Cow;
use std::marker::PhantomData;
use vstd::prelude::*;
use vstd::layout::size_of;
use crate::codec::{BytesDecode, BytesEncode, CodecError, PodCastKind};
use crate::pod::{Plain, PlainView};

verus! {

/// Describes a plain-data type that is borrowed when the bytes are aligned
/// and copied when they are not.
#[derive(Debug, Copy, PartialEq, Eq, PartialOrd, Ord)]
pub struct CowType<T>(PhantomData<T>);

impl<T> Clone for CowType<T> {
    fn clone(&self) -> (r: Self)
        ensures
            r == *self,
    {
        CowType(PhantomData)
    }
}

/// The value that a decoded item holds, borrowed or copied.
pub open spec fn cow_value<T: Clone>(item: Cow<'_, T>) -> T {
    match item {
        Cow::Borrowed(b) => *b,
        Cow::Owned(v) => v,
    }
}

impl<T: Plain> BytesEncode for CowType<T> {
    type Item = T;

    open spec fn encodable(item: &T) -> bool {
        true
    }

    /// The value is stored as the bytes it is made of.
    open spec fn encodes_to(item: &T, bytes: Seq<u8>) -> bool {
        bytes.len() == size_of::<T>() && bytes == item.plain_view()
    }

    fn bytes_encode(item: &Self::Item) -> (r: Result<Cow<'_, [u8]>, CodecError>) {
        Ok(Cow::Borrowed(item.plain_bytes()))
    }
}

impl<'a, T: Plain> BytesDecode<'a> for CowType<T> {
    type Item = Cow<'a, T>;

    open spec fn decodable(bytes: Seq<u8>) -> bool {
        bytes.len() == size_of::<T>()
    }

    /// The value read is the one made of the bytes.
    open spec fn decodes_to(bytes: Seq<u8>, item: Cow<'a, T>) -> bool {
        bytes.len() == size_of::<T>() && cow_value(item).plain_view() == bytes
    }

    fn bytes_decode(bytes: &'a [u8]) -> (r: Result<Cow<'a, T>, CodecError>)
        ensures
            r is Err ==> r == Err::<Cow<'a, T>, CodecError>(
                CodecError::PodCast(PodCastKind::SizeMismatch),
            ),
    {
        match T::plain_ref_from_bytes(bytes) {
            Ok(item) => Ok(Cow::Borrowed(item)),
            Err(PodCastKind::TargetAlignmentGreaterAndInputNotAligned) => {
                Ok(Cow::Owned(T::plain_read_unaligned(bytes)))
            },
            Err(k) => Err(CodecError::PodCast(k)),
        }
    }
}

} // verus!
