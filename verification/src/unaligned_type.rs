//! A plain-data value borrowed straight from the stored bytes.
use std::borrow::Cow;
use std::marker::PhantomData;
use vstd::prelude::*;
use vstd::layout::{align_of, size_of};
use crate::codec::{BytesDecode, BytesEncode, CodecError, PodCastKind};
use crate::pod::{Plain, PlainView};

verus! {

/// Describes a type that is totally borrowed and doesn't depend on any
/// memory alignment.
///
/// If you need to store a type that does depend on memory alignment and
/// that can be big it is recommended to use the `CowType`.
#[derive(Debug, Copy, PartialEq, Eq, PartialOrd, Ord)]
pub struct UnalignedType<T>(PhantomData<T>);

impl<T> Clone for UnalignedType<T> {
    fn clone(&self) -> (r: Self)
        ensures
            r == *self,
    {
        UnalignedType(PhantomData)
    }
}

impl<T: Plain> BytesEncode for UnalignedType<T> {
    type Item = T;

    open spec fn encodable(item: &T) -> bool {
        true
    }

    /// The value is stored as the bytes it is made of.
    open spec fn encodes_to(item: &T, bytes: Seq<u8>) -> bool {
        bytes.len() == size_of::<T>() && bytes == item.plain_view()
    }

    fn bytes_encode(item: &Self::Item) -> (r: Result<Cow<'_, [u8]>, CodecError>) {
        Ok(Cow::Borrowed(item.plain_bytes()))
    }
}

impl<'a, T: Plain + 'a> BytesDecode<'a> for UnalignedType<T> {
    type Item = &'a T;

    /// With alignment 1 every address is aligned; a type with a stricter
    /// alignment decodes only where the stored bytes happen to be aligned.
    open spec fn decodable(bytes: Seq<u8>) -> bool {
        bytes.len() == size_of::<T>() && align_of::<T>() == 1
    }

    /// The value read is the one made of the bytes.
    open spec fn decodes_to(bytes: Seq<u8>, item: &'a T) -> bool {
        bytes.len() == size_of::<T>() && (*item).plain_view() == bytes
    }

    fn bytes_decode(bytes: &'a [u8]) -> (r: Result<&'a T, CodecError>)
        ensures
            match r {
                Ok(_) => true,
                Err(e) => (e == CodecError::PodCast(PodCastKind::SizeMismatch) && bytes@.len()
                    != size_of::<T>()) || (e == CodecError::PodCast(
                    PodCastKind::TargetAlignmentGreaterAndInputNotAligned,
                ) && bytes@.len() == size_of::<T>() && align_of::<T>() > 1),
            },
    {
        match T::plain_ref_from_bytes(bytes) {
            Ok(item) => Ok(item),
            Err(k) => Err(CodecError::PodCast(k)),
        }
    }
}

} // verus!
