//! A plain-data value stored as its bytes and always copied out.
use std::borrow::Cow;
use std::marker::PhantomData;
use vstd::prelude::*;
use vstd::layout::size_of;
use crate::codec::{BytesDecode, BytesEncode, CodecError, PodCastKind};
use crate::cow_type::CowType;
use crate::pod::{Plain, PlainView};

verus! {

/// Describes a type that is totally owned (doesn't hold any reference to
/// the original slice).
///
/// If you need to store a type that doesn't depend on any memory alignment
/// and that can be big it is recommended to use the `UnalignedType`.
#[derive(Debug, Copy, PartialEq, Eq, PartialOrd, Ord)]
pub struct OwnedType<T>(PhantomData<T>);

impl<T> Clone for OwnedType<T> {
    fn clone(&self) -> (r: Self)
        ensures
            r == *self,
    {
        OwnedType(PhantomData)
    }
}

impl<T: Plain> BytesEncode for OwnedType<T> {
    type Item = T;

    open spec fn encodable(item: &T) -> bool {
        true
    }

    /// The value is stored as the bytes it is made of.
    open spec fn encodes_to(item: &T, bytes: Seq<u8>) -> bool {
        bytes.len() == size_of::<T>() && bytes == item.plain_view()
    }

    fn bytes_encode(item: &Self::Item) -> (r: Result<Cow<'_, [u8]>, CodecError>) {
        CowType::<T>::bytes_encode(item)
    }
}

impl<'a, T: Plain> BytesDecode<'a> for OwnedType<T> {
    type Item = T;

    open spec fn decodable(bytes: Seq<u8>) -> bool {
        bytes.len() == size_of::<T>()
    }

    /// The value read is the one made of the bytes.
    open spec fn decodes_to(bytes: Seq<u8>, item: T) -> bool {
        bytes.len() == size_of::<T>() && item.plain_view() == bytes
    }

    fn bytes_decode(bytes: &'a [u8]) -> (r: Result<T, CodecError>)
        ensures
            r is Err ==> r == Err::<T, CodecError>(CodecError::PodCast(PodCastKind::SizeMismatch)),
    {
        match CowType::<T>::bytes_decode(bytes) {
            Ok(Cow::Borrowed(item)) => Ok(*item),
            Ok(Cow::Owned(item)) => Ok(item),
            Err(e) => Err(e),
        }
    }
}

} // verus!
