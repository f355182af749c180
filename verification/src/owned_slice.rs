//! A slice of plain-data values stored as its bytes and always copied out
//! into a vector.
use std::borrow::Cow;
use std::marker::PhantomData;
use vstd::prelude::*;
use crate::codec::{BytesDecode, BytesEncode, CodecError};
use crate::cow_slice::{
    CowSlice, slice_byte_len, slice_decodable, slice_decodes_to_len,
};
use crate::pod::{Plain, plain_concat};

verus! {

/// Describes a `Vec` of types that are totally owned (doesn't hold any
/// reference to the original slice).
///
/// If you need to store a type that doesn't depend on any memory alignment
/// and that can be big it is recommended to use the `UnalignedSlice`.
#[derive(Debug, Copy, PartialEq, Eq, PartialOrd, Ord)]
pub struct OwnedSlice<'a, T>(PhantomData<&'a T>);

impl<'a, T> Clone for OwnedSlice<'a, T> {
    fn clone(&self) -> (r: Self)
        ensures
            r == *self,
    {
        OwnedSlice(PhantomData)
    }
}

impl<'a, T: Plain> BytesEncode for OwnedSlice<'a, T> {
    type Item = &'a [T];

    open spec fn encodable(item: &&'a [T]) -> bool {
        true
    }

    /// The slice is stored as the bytes of its elements, one after the
    /// other.
    open spec fn encodes_to(item: &&'a [T], bytes: Seq<u8>) -> bool {
        bytes.len() == slice_byte_len::<T>(item@.len()) && bytes == plain_concat(item@)
    }

    fn bytes_encode(item: &Self::Item) -> (r: Result<Cow<'_, [u8]>, CodecError>) {
        CowSlice::<'a, T>::bytes_encode(item)
    }
}

impl<'a, T: Plain> BytesDecode<'a> for OwnedSlice<'_, T> {
    type Item = Vec<T>;

    open spec fn decodable(bytes: Seq<u8>) -> bool {
        slice_decodable::<T>(bytes)
    }

    /// The elements read are those that the bytes make one after the
    /// other.
    open spec fn decodes_to(bytes: Seq<u8>, item: Vec<T>) -> bool {
        slice_decodes_to_len::<T>(bytes, item@.len()) && plain_concat(item@) == bytes
    }

    fn bytes_decode(bytes: &'a [u8]) -> (r: Result<Vec<T>, CodecError>)
        ensures
            r matches Err(e) ==> e is PodCast,
    {
        match CowSlice::<T>::bytes_decode(bytes) {
            Ok(Cow::Borrowed(items)) => Ok(vstd::slice::slice_to_vec(items)),
            Ok(Cow::Owned(items)) => Ok(items),
            Err(e) => Err(e),
        }
    }
}

} // verus!
