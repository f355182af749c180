//! A slice of plain-data values borrowed straight from the stored bytes.
use std::borrow::Cow;
use std::marker::PhantomData;
use vstd::prelude::*;
use vstd::layout::{align_of, size_of};
use crate::codec::{BytesDecode, BytesEncode, CodecError, PodCastKind};
use crate::cow_slice::{encode_slice, slice_byte_len};
use crate::pod::{Plain, plain_concat, whole_elements};

verus! {

/// Describes a slice that is totally borrowed and doesn't depend on any
/// memory alignment.
///
/// If you need to store a slice that does depend on memory alignment and
/// that can be big it is recommended to use the `CowSlice`.
#[derive(Debug, Copy, PartialEq, Eq, PartialOrd, Ord)]
pub struct UnalignedSlice<'a, T>(PhantomData<&'a T>);

impl<'a, T> Clone for UnalignedSlice<'a, T> {
    fn clone(&self) -> (r: Self)
        ensures
            r == *self,
    {
        UnalignedSlice(PhantomData)
    }
}

impl<'a, T: Plain> BytesEncode for UnalignedSlice<'a, T> {
    type Item = &'a [T];

    open spec fn encodable(item: &&'a [T]) -> bool {
        true
    }

    /// The slice is stored as the bytes of its elements, one after the
    /// other.
    open spec fn encodes_to(item: &&'a [T], bytes: Seq<u8>) -> bool {
        bytes.len() == slice_byte_len::<T>(item@.len()) && bytes == plain_concat(item@)
    }

    fn bytes_encode(item: &Self::Item) -> (r: Result<Cow<'_, [u8]>, CodecError>) {
        match encode_slice(*item) {
            Ok(bytes) => Ok(Cow::Borrowed(bytes)),
            Err(e) => Err(e),
        }
    }
}

impl<'a, T: Plain> BytesDecode<'a> for UnalignedSlice<'_, T> {
    type Item = &'a [T];

    /// With alignment 1 every address is aligned; an element type with a
    /// stricter alignment decodes only where the stored bytes happen to be
    /// aligned.
    open spec fn decodable(bytes: Seq<u8>) -> bool {
        whole_elements(bytes.len(), size_of::<T>()) && align_of::<T>() == 1
    }

    open spec fn decodes_to(bytes: Seq<u8>, item: &'a [T]) -> bool {
        whole_elements(bytes.len(), size_of::<T>())
            && item@.len() == (if size_of::<T>() == 0 { 0 } else { bytes.len() / size_of::<T>() })
            && plain_concat(item@) == bytes
    }

    fn bytes_decode(bytes: &'a [u8]) -> (r: Result<&'a [T], CodecError>)
        ensures
            match r {
                Ok(_) => true,
                Err(e) => (e == CodecError::PodCast(PodCastKind::OutputSliceWouldHaveSlop)
                    && !whole_elements(bytes@.len(), size_of::<T>()))
                    || (e == CodecError::PodCast(
                    PodCastKind::TargetAlignmentGreaterAndInputNotAligned,
                ) && align_of::<T>() > 1),
            },
    {
        proof {
            broadcast use vstd::layout::align_of_u8, vstd::layout::layout_of_primitives;
        }
        match T::plain_slice_from_bytes(bytes) {
            Ok(items) => Ok(items),
            Err(k) => Err(CodecError::PodCast(k)),
        }
    }
}

} // verus!
