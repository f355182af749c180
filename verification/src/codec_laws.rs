//! What the codecs promise across an encoding and a decoding: whatever a
//! codec encodes, it can read back.
use std::borrow::Cow;
use vstd::prelude::*;
use vstd::layout::{align_of, size_of};
use crate::codec::{BytesDecode, BytesEncode};
use crate::cow_slice::{CowSlice, cow_slice_items, cow_slice_len};
use crate::cow_type::{CowType, cow_value};
use crate::owned_slice::OwnedSlice;
use crate::owned_type::OwnedType;
use crate::pod::{Plain, PlainView, lemma_concat_same_bytes, plain_concat};
use crate::unaligned_slice::UnalignedSlice;
use crate::unaligned_type::UnalignedType;
use crate::unit::Unit;
use vstd::bytes::{spec_u128_to_le_bytes, spec_u16_to_le_bytes, spec_u32_to_le_bytes, spec_u64_to_le_bytes};
use vstd::endian::{Endian, endianness};

verus! {

/// `k` elements of size `s > 0` make exactly `k * s` bytes, which divide
/// back into `k` elements, rounded up or down.
proof fn lemma_whole_elements(k: nat, s: nat)
    requires
        s > 0,
    ensures
        (k * s) % s == 0,
        (k * s) / s == k,
        (k * s + s - 1) / (s as int) == k,
{
    vstd::arithmetic::div_mod::lemma_fundamental_div_mod_converse((k * s) as int, s as int, k as int, 0);
    vstd::arithmetic::div_mod::lemma_fundamental_div_mod_converse(
        (k * s + s - 1) as int,
        s as int,
        k as int,
        (s - 1) as int,
    );
}

/// The unit value encodes to bytes that decode.
pub proof fn lemma_unit_round_trip(bytes: Seq<u8>)
    requires
        <Unit as BytesEncode>::encodes_to(&(), bytes),
    ensures
        <Unit as BytesDecode<'static>>::decodable(bytes),
{
}

/// The bytes of a plain-data value always decode with `CowType` and
/// `OwnedType`, whatever the address they are read at.
pub proof fn lemma_type_round_trip<T: Plain>(item: T, bytes: Seq<u8>)
    requires
        <CowType<T> as BytesEncode>::encodes_to(&item, bytes),
    ensures
        <OwnedType<T> as BytesEncode>::encodes_to(&item, bytes),
        <UnalignedType<T> as BytesEncode>::encodes_to(&item, bytes),
        <CowType<T> as BytesDecode<'static>>::decodable(bytes),
        <OwnedType<T> as BytesDecode<'static>>::decodable(bytes),
        align_of::<T>() == 1 ==> <UnalignedType<T> as BytesDecode<'static>>::decodable(bytes),
{
}

/// The bytes of a slice of plain data with sized elements always decode
/// with `CowSlice` and `OwnedSlice`, and every decoding of them, with any of
/// the three slice codecs, holds as many elements as the encoded slice.
pub proof fn lemma_slice_round_trip<'a, T: Plain>(
    items: &'a [T],
    bytes: Seq<u8>,
    cow: Cow<'a, [T]>,
    owned: Vec<T>,
    unaligned: &'a [T],
)
    requires
        size_of::<T>() > 0,
        <CowSlice<'a, T> as BytesEncode>::encodes_to(&items, bytes),
    ensures
        <OwnedSlice<'a, T> as BytesEncode>::encodes_to(&items, bytes),
        <UnalignedSlice<'a, T> as BytesEncode>::encodes_to(&items, bytes),
        <CowSlice<'a, T> as BytesDecode<'a>>::decodable(bytes),
        <OwnedSlice<'a, T> as BytesDecode<'a>>::decodable(bytes),
        align_of::<T>() == 1 ==> <UnalignedSlice<'a, T> as BytesDecode<'a>>::decodable(bytes),
        <CowSlice<'a, T> as BytesDecode<'a>>::decodes_to(bytes, cow) ==> cow_slice_len(cow)
            == items@.len(),
        <OwnedSlice<'a, T> as BytesDecode<'a>>::decodes_to(bytes, owned) ==> owned@.len()
            == items@.len(),
        <UnalignedSlice<'a, T> as BytesDecode<'a>>::decodes_to(bytes, unaligned)
            ==> unaligned@.len() == items@.len(),
{
    lemma_whole_elements(items@.len(), size_of::<T>());
}

/// A plain-data value is stored as the bytes it is made of in memory, the
/// same bytes whichever of `UnalignedType`, `CowType` and `OwnedType` stores
/// it, and reading those bytes back with any of the three gives the value
/// back.
pub proof fn lemma_plain_value_round_trip<T: Plain>(
    item: T,
    bytes: Seq<u8>,
    cow: Cow<'static, T>,
    owned: T,
    unaligned: &'static T,
)
    requires
        <UnalignedType<T> as BytesEncode>::encodes_to(&item, bytes),
    ensures
        bytes == item.plain_view(),
        <CowType<T> as BytesEncode>::encodes_to(&item, bytes),
        <OwnedType<T> as BytesEncode>::encodes_to(&item, bytes),
        <CowType<T> as BytesDecode<'static>>::decodes_to(bytes, cow) ==> cow_value(cow) == item,
        <OwnedType<T> as BytesDecode<'static>>::decodes_to(bytes, owned) ==> owned == item,
        <UnalignedType<T> as BytesDecode<'static>>::decodes_to(bytes, unaligned) ==> *unaligned
            == item,
{
    T::lemma_plain_view(cow_value(cow), item);
    T::lemma_plain_view(owned, item);
    T::lemma_plain_view(*unaligned, item);
}

/// Two plain-data values are stored as the same bytes only if they are the
/// same value.
pub proof fn lemma_plain_value_encoding_injective<T: Plain>(a: T, b: T, bytes: Seq<u8>)
    requires
        <UnalignedType<T> as BytesEncode>::encodes_to(&a, bytes),
        <CowType<T> as BytesEncode>::encodes_to(&b, bytes),
    ensures
        a == b,
{
    T::lemma_plain_view(a, b);
}

/// A slice of plain data with sized elements is stored as the bytes of its
/// elements one after the other, the same bytes whichever of
/// `UnalignedSlice`, `CowSlice` and `OwnedSlice` stores it, and reading them
/// back with any of the three gives the same elements in the same order.
pub proof fn lemma_plain_slice_round_trip<'a, T: Plain>(
    items: &'a [T],
    bytes: Seq<u8>,
    cow: Cow<'a, [T]>,
    owned: Vec<T>,
    unaligned: &'a [T],
)
    requires
        size_of::<T>() > 0,
        <UnalignedSlice<'a, T> as BytesEncode>::encodes_to(&items, bytes),
    ensures
        bytes == plain_concat(items@),
        <CowSlice<'a, T> as BytesEncode>::encodes_to(&items, bytes),
        <OwnedSlice<'a, T> as BytesEncode>::encodes_to(&items, bytes),
        <CowSlice<'a, T> as BytesDecode<'a>>::decodes_to(bytes, cow) ==> cow_slice_items(cow)
            == items@,
        <OwnedSlice<'a, T> as BytesDecode<'a>>::decodes_to(bytes, owned) ==> owned@ == items@,
        <UnalignedSlice<'a, T> as BytesDecode<'a>>::decodes_to(bytes, unaligned) ==> unaligned@
            == items@,
{
    if <CowSlice<'a, T> as BytesDecode<'a>>::decodes_to(bytes, cow) {
        lemma_concat_same_bytes(cow_slice_items(cow), items@);
    }
    if <OwnedSlice<'a, T> as BytesDecode<'a>>::decodes_to(bytes, owned) {
        lemma_concat_same_bytes(owned@, items@);
    }
    if <UnalignedSlice<'a, T> as BytesDecode<'a>>::decodes_to(bytes, unaligned) {
        lemma_concat_same_bytes(unaligned@, items@);
    }
}

/// Two slices of plain data with sized elements are stored as the same
/// bytes only if they hold the same elements.
pub proof fn lemma_plain_slice_encoding_injective<'a, T: Plain>(
    a: &'a [T],
    b: &'a [T],
    bytes: Seq<u8>,
)
    requires
        size_of::<T>() > 0,
        <UnalignedSlice<'a, T> as BytesEncode>::encodes_to(&a, bytes),
        <CowSlice<'a, T> as BytesEncode>::encodes_to(&b, bytes),
    ensures
        a@ == b@,
{
    lemma_concat_same_bytes(a@, b@);
}

/// An integer is stored as its native bytes: a byte as itself, and a wider
/// integer as its little-endian bytes on a little-endian machine and those
/// bytes reversed on a big-endian one.
pub proof fn lemma_integer_native_bytes(
    x8: u8,
    b8: Seq<u8>,
    x16: u16,
    b16: Seq<u8>,
    x32: u32,
    b32: Seq<u8>,
    x64: u64,
    b64: Seq<u8>,
    x128: u128,
    b128: Seq<u8>,
)
    requires
        <UnalignedType<u8> as BytesEncode>::encodes_to(&x8, b8),
        <UnalignedType<u16> as BytesEncode>::encodes_to(&x16, b16),
        <UnalignedType<u32> as BytesEncode>::encodes_to(&x32, b32),
        <UnalignedType<u64> as BytesEncode>::encodes_to(&x64, b64),
        <UnalignedType<u128> as BytesEncode>::encodes_to(&x128, b128),
    ensures
        b8 == seq![x8],
        endianness() == Endian::Little ==> b16 == spec_u16_to_le_bytes(x16) && b32
            == spec_u32_to_le_bytes(x32) && b64 == spec_u64_to_le_bytes(x64) && b128
            == spec_u128_to_le_bytes(x128),
        endianness() == Endian::Big ==> b16 == spec_u16_to_le_bytes(x16).reverse() && b32
            == spec_u32_to_le_bytes(x32).reverse() && b64 == spec_u64_to_le_bytes(x64).reverse()
            && b128 == spec_u128_to_le_bytes(x128).reverse(),
{
}

} // verus!
