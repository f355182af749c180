//! A slice of plain-data values stored as its bytes, borrowed from the store
//! when the bytes are aligned for the element type and copied out when they
//! are not.
use std::borrow::Cow;
use std::marker::PhantomData;
use vstd::prelude::*;
use vstd::layout::{align_of, size_of};
use crate::codec::{BytesDecode, BytesEncode, CodecError, PodCastKind};
use crate::pod::{Plain, plain_concat, whole_elements, lemma_concat_len};

verus! {

/// Describes a slice of plain-data values that is borrowed when the bytes
/// are aligned and copied when they are not.
#[derive(Debug, Copy, PartialEq, Eq, PartialOrd, Ord)]
pub struct CowSlice<'a, T>(PhantomData<&'a T>);

impl<'a, T> Clone for CowSlice<'a, T> {
    fn clone(&self) -> (r: Self)
        ensures
            r == *self,
    {
        CowSlice(PhantomData)
    }
}

/// The number of elements that a decoded slice holds.
pub open spec fn cow_slice_len<T: Clone>(item: Cow<'_, [T]>) -> nat {
    match item {
        Cow::Borrowed(b) => b@.len(),
        Cow::Owned(v) => v@.len(),
    }
}

/// The elements that a decoded slice holds, borrowed or copied.
pub open spec fn cow_slice_items<T: Clone>(item: Cow<'_, [T]>) -> Seq<T> {
    match item {
        Cow::Borrowed(b) => b@,
        Cow::Owned(v) => v@,
    }
}

/// The byte length of a slice of `len` elements of `T`.
pub open spec fn slice_byte_len<T>(len: nat) -> nat {
    len * size_of::<T>()
}

/// The bytes of a slice of `T` always decode: they are a whole number of
/// elements, and either the element has a size (a misaligned input is then
/// copied) or any address suits it.
pub open spec fn slice_decodable<T>(bytes: Seq<u8>) -> bool {
    whole_elements(bytes.len(), size_of::<T>()) && (size_of::<T>() > 0 || align_of::<T>() == 1)
}

/// What holds of the number of elements decoded from `bytes`: the bytes make
/// a whole number of elements, and these are the elements, borrowed or
/// copied.
pub open spec fn slice_decodes_to_len<T>(bytes: Seq<u8>, len: nat) -> bool {
    let n = bytes.len();
    let s = size_of::<T>();
    whole_elements(n, s) && len == (if s == 0 { 0 } else { n / s })
}

/// Rounding up a division that leaves no remainder changes nothing.
proof fn lemma_round_up_exact(n: nat, s: nat)
    requires
        s > 0,
        n % s == 0,
    ensures
        (n + s - 1) / (s as int) == n / s,
{
    let k = n / s;
    vstd::arithmetic::div_mod::lemma_fundamental_div_mod(n as int, s as int);
    vstd::arithmetic::div_mod::lemma_fundamental_div_mod_converse(
        (n + s - 1) as int,
        s as int,
        k as int,
        (s - 1) as int,
    );
}

/// Encodes a slice of plain data by casting it to its bytes.
pub(crate) fn encode_slice<T: Plain>(items: &[T]) -> (r: Result<&[u8], CodecError>)
    ensures
        r matches Ok(b) && b@.len() == slice_byte_len::<T>(items@.len()),
        r matches Ok(b) ==> b@ == plain_concat(items@),
{
    proof {
        broadcast use vstd::layout::align_of_u8, vstd::layout::align_nonzero, vstd::layout::layout_of_primitives;
        assert((items@.len() * size_of::<T>()) % 1 == 0);
    }
    match T::plain_slice_to_bytes(items) {
        Ok(bytes) => Ok(bytes),
        Err(k) => Err(CodecError::PodCast(k)),
    }
}

impl<'a, T: Plain> BytesEncode for CowSlice<'a, T> {
    type Item = &'a [T];

    open spec fn encodable(item: &&'a [T]) -> bool {
        true
    }

    /// The slice is stored as the bytes of its elements, one after the
    /// other.
    open spec fn encodes_to(item: &&'a [T], bytes: Seq<u8>) -> bool {
        bytes.len() == slice_byte_len::<T>(item@.len()) && bytes == plain_concat(item@)
    }

    fn bytes_encode(item: &Self::Item) -> (r: Result<Cow<'_, [u8]>, CodecError>) {
        match encode_slice(*item) {
            Ok(bytes) => Ok(Cow::Borrowed(bytes)),
            Err(e) => Err(e),
        }
    }
}

impl<'a, T: Plain> BytesDecode<'a> for CowSlice<'_, T> {
    type Item = Cow<'a, [T]>;

    open spec fn decodable(bytes: Seq<u8>) -> bool {
        slice_decodable::<T>(bytes)
    }

    /// The elements read are those that the bytes make one after the
    /// other.
    open spec fn decodes_to(bytes: Seq<u8>, item: Cow<'a, [T]>) -> bool {
        slice_decodes_to_len::<T>(bytes, cow_slice_len(item)) && plain_concat(
            cow_slice_items(item),
        ) == bytes
    }

    /// Borrows the elements when the bytes are aligned for `T`; when they
    /// are not, copies them into an owned vector, provided that they make a
    /// whole number of elements; misaligned bytes that do not, and a
    /// zero-sized `T` with a stricter alignment than the bytes have, are an
    /// alignment error.
    fn bytes_decode(bytes: &'a [u8]) -> (r: Result<Cow<'a, [T]>, CodecError>)
        ensures
            r matches Err(e) ==> e is PodCast,
            !whole_elements(bytes@.len(), size_of::<T>()) ==> r is Err,
            !whole_elements(bytes@.len(), size_of::<T>()) && size_of::<T>() > 0 ==> (r == Err::<
                Cow<'a, [T]>,
                CodecError,
            >(CodecError::PodCast(PodCastKind::OutputSliceWouldHaveSlop)) || (r == Err::<
                Cow<'a, [T]>,
                CodecError,
            >(CodecError::PodCast(PodCastKind::TargetAlignmentGreaterAndInputNotAligned))
                && align_of::<T>() > 1)),
    {
        proof {
            broadcast use vstd::layout::align_of_u8, vstd::layout::layout_of_primitives;
        }
        match T::plain_slice_from_bytes(bytes) {
            Ok(items) => Ok(Cow::Borrowed(items)),
            Err(PodCastKind::TargetAlignmentGreaterAndInputNotAligned) => {
                let size = core::mem::size_of::<T>();
                if size == 0 {
                    Err(CodecError::PodCast(PodCastKind::TargetAlignmentGreaterAndInputNotAligned))
                } else if bytes.len() % size != 0 {
                    Err(CodecError::PodCast(PodCastKind::TargetAlignmentGreaterAndInputNotAligned))
                } else {
                    let items = T::plain_collect_from_bytes(bytes);
                    proof {
                        let n = bytes@.len();
                        let k = size as nat;
                        lemma_round_up_exact(n, k);
                        lemma_concat_len(items@);
                        vstd::arithmetic::div_mod::lemma_fundamental_div_mod(n as int, k as int);
                        vstd::arithmetic::mul::lemma_mul_is_commutative(k as int, (n / k) as int);
                        let c = plain_concat(items@);
                        assert(c =~= c.subrange(0, n as int));
                    }
                    Ok(Cow::Owned(items))
                }
            },
            Err(k) => Err(CodecError::PodCast(k)),
        }
    }
}

} // verus!
