//! The plain-data byte casts of `bytemuck` that the slice and value codecs use.
//!
//! A plain-data value is made of the bytes that lie in memory for it: for a
//! fixed-width integer, its little-endian bytes in the machine's byte order.
//! Whether a cast fails on alignment depends on the input's address, so the
//! contracts say only where an alignment error can come.
use vstd::prelude::*;
use vstd::layout::{align_of, size_of};
use vstd::bytes::{
    lemma_auto_spec_u128_to_from_le_bytes, lemma_auto_spec_u16_to_from_le_bytes,
    lemma_auto_spec_u32_to_from_le_bytes, lemma_auto_spec_u64_to_from_le_bytes,
    spec_u128_to_le_bytes, spec_u16_to_le_bytes, spec_u32_to_le_bytes, spec_u64_to_le_bytes,
};
use vstd::endian::{Endian, endianness};
use bytemuck::{Pod, PodCastError};
use crate::codec::PodCastKind;
use crate::codec::PodCastKind as K;

verus! {

/// The bytes that a plain-data value is made of in memory. The library
/// implements it for the fixed-width integers, which Rust lays out in memory
/// as their native-endian bytes (`to_ne_bytes`): the little-endian bytes of
/// the value (of its two's-complement form, for a signed type) in the
/// machine's byte order.
pub trait PlainView: Sized {
    /// The bytes that the value is made of in memory.
    spec fn plain_view(&self) -> Seq<u8>;

    /// Every value is made of `size_of::<Self>()` bytes, and two values made
    /// of the same bytes are the same value.
    proof fn lemma_plain_view(a: Self, b: Self)
        ensures
            a.plain_view().len() == size_of::<Self>(),
            a.plain_view() == b.plain_view() ==> a == b,
    ;
}

/// The plain-data types whose values the slice and value codecs store as
/// their bytes. Each method is one of the `bytemuck` casts, instantiated at
/// `Self`; the library implements it for the fixed-width integers. A type
/// of plain data outside this library implements it by making the same
/// casts, and its contracts are then taken on trust.
pub trait Plain: PlainView + Copy + Sized + 'static {
    /// `bytemuck::bytes_of` at `Self`: the bytes the value is made of.
    fn plain_bytes(&self) -> (r: &[u8])
        ensures
            r@.len() == size_of::<Self>(),
            r@ == self.plain_view(),
    ;

    /// `bytemuck::try_from_bytes` at `Self`: the value made of the bytes.
    fn plain_ref_from_bytes(bytes: &[u8]) -> (r: Result<&Self, PodCastKind>)
        ensures
            from_bytes_outcome::<Self>(bytes@.len(), r),
            r matches Ok(x) ==> x.plain_view() == bytes@,
    ;

    /// `bytemuck::pod_read_unaligned` at `Self`: the value made of the bytes.
    fn plain_read_unaligned(bytes: &[u8]) -> (r: Self)
        requires
            bytes@.len() == size_of::<Self>(),
        ensures
            r.plain_view() == bytes@,
    ;

    /// `bytemuck::try_cast_slice` from bytes to `Self`: the values that the
    /// bytes make one after the other.
    fn plain_slice_from_bytes(bytes: &[u8]) -> (r: Result<&[Self], PodCastKind>)
        ensures
            cast_outcome::<u8, Self>(bytes@.len(), r),
            r matches Ok(items) ==> plain_concat(items@) == bytes@,
    ;

    /// `bytemuck::try_cast_slice` from `Self` to bytes: the bytes of the
    /// values one after the other.
    fn plain_slice_to_bytes(items: &[Self]) -> (r: Result<&[u8], PodCastKind>)
        ensures
            cast_outcome::<Self, u8>(items@.len(), r),
            r matches Ok(b) ==> b@ == plain_concat(items@),
    ;

    /// `bytemuck::pod_collect_to_vec` from bytes to `Self`: the values that
    /// the bytes make, the last one filled up with zero bytes.
    fn plain_collect_from_bytes(bytes: &[u8]) -> (r: Vec<Self>)
        requires
            size_of::<Self>() > 0,
        ensures
            r@.len() == (bytes@.len() + size_of::<Self>() - 1) / (size_of::<Self>() as int),
            collected_from(bytes@, plain_concat(r@)),
    ;
}

/// The bytes of the values of `items`, one after the other.
pub open spec fn plain_concat<T: PlainView>(items: Seq<T>) -> Seq<u8>
    decreases items.len(),
{
    if items.len() == 0 {
        Seq::empty()
    } else {
        items[0].plain_view() + plain_concat(items.drop_first())
    }
}

/// `collected` starts with `bytes` and holds only zero bytes after them.
pub open spec fn collected_from(bytes: Seq<u8>, collected: Seq<u8>) -> bool {
    &&& bytes.len() <= collected.len()
    &&& collected.subrange(0, bytes.len() as int) == bytes
    &&& forall|i: int| bytes.len() <= i < collected.len() ==> #[trigger] collected[i] == 0
}

/// Little-endian bytes laid out in the byte order of the machine.
pub open spec fn in_machine_order(le: Seq<u8>) -> Seq<u8> {
    match endianness() {
        Endian::Little => le,
        Endian::Big => le.reverse(),
    }
}

/// Laying bytes out in the machine's order keeps their number and loses
/// nothing.
pub proof fn lemma_machine_order(a: Seq<u8>, b: Seq<u8>)
    ensures
        in_machine_order(a).len() == a.len(),
        in_machine_order(a) == in_machine_order(b) ==> a == b,
{
    assert(a.reverse().reverse() =~= a);
    assert(b.reverse().reverse() =~= b);
}

/// The bytes of `n` values make `n` times the size of one value.
pub proof fn lemma_concat_len<T: PlainView>(items: Seq<T>)
    ensures
        plain_concat(items).len() == items.len() * size_of::<T>(),
    decreases items.len(),
{
    if items.len() > 0 {
        T::lemma_plain_view(items[0], items[0]);
        lemma_concat_len(items.drop_first());
        let n = items.len() as int;
        let k = size_of::<T>() as int;
        assert(k + (n - 1) * k == n * k) by (nonlinear_arith);
    }
}

/// Two runs of values of equal length made of the same bytes hold the same
/// values.
pub proof fn lemma_concat_injective<T: PlainView>(a: Seq<T>, b: Seq<T>)
    requires
        a.len() == b.len(),
        plain_concat(a) == plain_concat(b),
    ensures
        a == b,
    decreases a.len(),
{
    if a.len() > 0 {
        T::lemma_plain_view(a[0], b[0]);
        T::lemma_plain_view(b[0], a[0]);
        let k = size_of::<T>() as int;
        let ca = plain_concat(a);
        assert(ca.subrange(0, k) =~= a[0].plain_view());
        assert(ca.subrange(0, k) =~= b[0].plain_view());
        assert(ca.subrange(k, ca.len() as int) =~= plain_concat(a.drop_first()));
        assert(ca.subrange(k, ca.len() as int) =~= plain_concat(b.drop_first()));
        lemma_concat_injective(a.drop_first(), b.drop_first());
        assert(a =~= b) by {
            assert forall|i: int| 0 <= i < a.len() implies a[i] == b[i] by {
                if i > 0 {
                    assert(a[i] == a.drop_first()[i - 1]);
                    assert(b[i] == b.drop_first()[i - 1]);
                }
            }
        }
    } else {
        assert(a =~= b);
    }
}

/// Runs of values of a sized type made of the same bytes hold the same
/// values.
pub proof fn lemma_concat_same_bytes<T: PlainView>(a: Seq<T>, b: Seq<T>)
    requires
        size_of::<T>() > 0,
        plain_concat(a) == plain_concat(b),
    ensures
        a == b,
{
    lemma_concat_len(a);
    lemma_concat_len(b);
    let k = size_of::<T>() as int;
    let n = a.len() as int;
    let m = b.len() as int;
    assert(n * k == m * k && k > 0 ==> n == m) by (nonlinear_arith);
    lemma_concat_injective(a, b);
}

/// Bytes taken as bytes are themselves.
pub proof fn lemma_byte_concat(s: Seq<u8>)
    ensures
        plain_concat(s) == s,
    decreases s.len(),
{
    if s.len() > 0 {
        lemma_byte_concat(s.drop_first());
        assert(s[0].plain_view() + s.drop_first() =~= s);
    } else {
        assert(plain_concat(s) =~= s);
    }
}

/// What `bytemuck::try_from_bytes` at `T` can give back for an input of
/// `len` bytes: success only at `size_of::<T>()` bytes; `SizeMismatch`
/// exactly at any other length; the alignment error only where `T` needs an
/// alignment above 1 (whether it comes then depends on the input's address).
pub open spec fn from_bytes_outcome<T>(len: nat, r: Result<&T, PodCastKind>) -> bool {
    match r {
        Ok(_) => len == size_of::<T>(),
        Err(k) => (k == PodCastKind::SizeMismatch && len != size_of::<T>())
            || (k == PodCastKind::TargetAlignmentGreaterAndInputNotAligned
            && len == size_of::<T>() && align_of::<T>() > 1),
    }
}

/// What `bytemuck::try_cast_slice` from `A` to `B` can give back for an
/// input of `len` elements, the result taken by the length of the output:
/// success exactly when `cast_fits`, with the length `cast_len`; the slop
/// error exactly when it does not fit; the alignment error only where `B`
/// needs a stricter alignment than `A` (whether it comes then depends on the
/// input's address).
pub open spec fn cast_outcome<A, B>(len: nat, r: Result<&[B], PodCastKind>) -> bool {
    match r {
        Ok(b) => cast_fits(len, size_of::<A>(), size_of::<B>())
            && b@.len() == cast_len(len, size_of::<A>(), size_of::<B>()),
        Err(k) => (k == PodCastKind::TargetAlignmentGreaterAndInputNotAligned
            && align_of::<B>() > align_of::<A>())
            || (k == PodCastKind::OutputSliceWouldHaveSlop
            && !cast_fits(len, size_of::<A>(), size_of::<B>())),
    }
}

/// The number of elements of size `size` that `bytes` bytes make when the
/// division leaves no remainder.
pub open spec fn whole_elements(bytes: nat, size: nat) -> bool {
    (size != 0 && bytes % size == 0) || (size == 0 && bytes == 0)
}

/// Length of the slice that a successful element-type cast of `len`
/// elements of size `from` into elements of size `to` produces.
pub open spec fn cast_len(len: nat, from: nat, to: nat) -> nat {
    if from == to {
        len
    } else if to == 0 {
        0
    } else {
        (len * from) / to
    }
}

/// What `bytemuck::try_cast_slice` decides, apart from the alignment of the
/// input's address: the cast succeeds when the element sizes agree or when
/// the input's bytes make a whole number of target elements.
pub open spec fn cast_fits(len: nat, from: nat, to: nat) -> bool {
    from == to || whole_elements(len * from, to)
}

/// Calls `bytemuck::try_cast_slice`, which reinterprets a slice of `A` as a
/// slice of `B`. As its source shows: it fails with
/// `TargetAlignmentGreaterAndInputNotAligned` only where `B` needs a
/// stricter alignment than `A` (whether it then fails depends on the
/// input's address); otherwise it succeeds exactly when `cast_fits` holds,
/// with the length `cast_len`, and fails with `OutputSliceWouldHaveSlop`
/// when it does not. The output lies over the input's memory, so it is made
/// of the same bytes (`plain_view` of the element types that the library
/// casts between is what lies in memory for them).
#[verifier::external_body]
pub(crate) fn try_cast_slice<A: Pod + PlainView, B: Pod + PlainView>(a: &[A]) -> (r: Result<&[B], PodCastKind>)
    ensures
        r matches Ok(b) ==> plain_concat(b@) == plain_concat(a@),
        match r {
            Ok(b) => cast_fits(a@.len(), size_of::<A>(), size_of::<B>())
                && b@.len() == cast_len(a@.len(), size_of::<A>(), size_of::<B>()),
            Err(k) => (k == PodCastKind::TargetAlignmentGreaterAndInputNotAligned
                && align_of::<B>() > align_of::<A>())
                || (k == PodCastKind::OutputSliceWouldHaveSlop
                && !cast_fits(a@.len(), size_of::<A>(), size_of::<B>())),
        },
{
    bytemuck::try_cast_slice::<A, B>(a).map_err(|e| match e {
        PodCastError::TargetAlignmentGreaterAndInputNotAligned => K::TargetAlignmentGreaterAndInputNotAligned,
        PodCastError::OutputSliceWouldHaveSlop => K::OutputSliceWouldHaveSlop,
        PodCastError::SizeMismatch => K::SizeMismatch,
        PodCastError::AlignmentMismatch => K::AlignmentMismatch,
    })
}

/// Calls `bytemuck::try_cast_slice` from bytes to bytes. A cast between two
/// slices of the same element type always succeeds and hands back the same
/// slice: the source returns `from_raw_parts` over the input's pointer and
/// length.
#[verifier::external_body]
pub(crate) fn try_cast_bytes(a: &[u8]) -> (r: Result<&[u8], PodCastKind>)
    ensures
        r is Ok,
        r is Ok ==> r->Ok_0@ == a@,
{
    bytemuck::try_cast_slice::<u8, u8>(a).map_err(|e| match e {
        PodCastError::TargetAlignmentGreaterAndInputNotAligned => K::TargetAlignmentGreaterAndInputNotAligned,
        PodCastError::OutputSliceWouldHaveSlop => K::OutputSliceWouldHaveSlop,
        PodCastError::SizeMismatch => K::SizeMismatch,
        PodCastError::AlignmentMismatch => K::AlignmentMismatch,
    })
}

/// Calls `bytemuck::try_from_bytes`, which reinterprets bytes as a `&T`. As
/// its source shows: it fails with `SizeMismatch` exactly when the length is
/// not `size_of::<T>()`, and otherwise fails with
/// `TargetAlignmentGreaterAndInputNotAligned` when the input's address is
/// not aligned for `T` (never when `T` has alignment 1). The value it hands
/// out lies over the input, so it is made of the input's bytes.
#[verifier::external_body]
pub(crate) fn try_from_bytes<T: Pod + PlainView>(s: &[u8]) -> (r: Result<&T, PodCastKind>)
    ensures
        r matches Ok(x) ==> x.plain_view() == s@,
        match r {
            Ok(_) => s@.len() == size_of::<T>(),
            Err(k) => (k == PodCastKind::SizeMismatch && s@.len() != size_of::<T>())
                || (k == PodCastKind::TargetAlignmentGreaterAndInputNotAligned
                && s@.len() == size_of::<T>() && align_of::<T>() > 1),
        },
{
    bytemuck::try_from_bytes::<T>(s).map_err(|e| match e {
        PodCastError::TargetAlignmentGreaterAndInputNotAligned => K::TargetAlignmentGreaterAndInputNotAligned,
        PodCastError::OutputSliceWouldHaveSlop => K::OutputSliceWouldHaveSlop,
        PodCastError::SizeMismatch => K::SizeMismatch,
        PodCastError::AlignmentMismatch => K::AlignmentMismatch,
    })
}

/// Calls `bytemuck::bytes_of`: the bytes that lie in memory for a plain-data
/// value, exactly `size_of::<T>()` of them.
#[verifier::external_body]
pub(crate) fn bytes_of<T: Pod + PlainView>(t: &T) -> (r: &[u8])
    ensures
        r@ == t.plain_view(),
        r@.len() == size_of::<T>(),
{
    bytemuck::bytes_of(t)
}

/// Calls `bytemuck::pod_read_unaligned`, which copies `size_of::<T>()` bytes
/// at any address into a `T`; it panics on any other length, which the
/// `requires` leaves out. The value read is made of those bytes.
#[verifier::external_body]
pub(crate) fn pod_read_unaligned<T: Pod + PlainView>(bytes: &[u8]) -> (r: T)
    requires
        bytes@.len() == size_of::<T>(),
    ensures
        r.plain_view() == bytes@,
{
    bytemuck::pod_read_unaligned::<T>(bytes)
}

/// Calls `bytemuck::pod_collect_to_vec`, which copies bytes into a freshly
/// allocated vector of `T`, rounding the element count up (the tail of the
/// last element is zero). It divides by `size_of::<T>()`, so zero-sized `T`
/// is left out by the `requires`. The source allocates zeroed elements and
/// copies the input over their first bytes.
#[verifier::external_body]
pub(crate) fn pod_collect_to_vec<T: Pod + PlainView>(bytes: &[u8]) -> (r: Vec<T>)
    requires
        size_of::<T>() > 0,
    ensures
        collected_from(bytes@, plain_concat(r@)),
        r@.len() == (bytes@.len() + size_of::<T>() - 1) / (size_of::<T>() as int),
{
    bytemuck::pod_collect_to_vec::<u8, T>(bytes)
}

impl PlainView for u8 {
    /// A byte is made of itself.
    open spec fn plain_view(&self) -> Seq<u8> {
        seq![*self]
    }

    proof fn lemma_plain_view(a: u8, b: u8) {
        broadcast use vstd::layout::layout_of_primitives;
        assert(a.plain_view()[0] == a);
        assert(b.plain_view()[0] == b);
    }
}

impl Plain for u8 {
    fn plain_bytes(&self) -> &[u8] {
        bytes_of::<u8>(self)
    }

    fn plain_ref_from_bytes(bytes: &[u8]) -> Result<&u8, PodCastKind> {
        try_from_bytes::<u8>(bytes)
    }

    /// A byte is stored as itself: the one byte read is the value.
    fn plain_read_unaligned(bytes: &[u8]) -> (r: u8)
        ensures
            r == bytes@[0],
    {
        proof {
            broadcast use vstd::layout::layout_of_primitives;
        }
        let r = bytes[0];
        assert(r.plain_view() =~= bytes@);
        r
    }

    /// A cast from bytes to bytes hands back the same bytes.
    fn plain_slice_from_bytes(bytes: &[u8]) -> (r: Result<&[u8], PodCastKind>)
        ensures
            r is Ok,
            r is Ok ==> r->Ok_0@ == bytes@,
    {
        proof {
            lemma_byte_concat(bytes@);
        }
        try_cast_bytes(bytes)
    }

    /// A cast from bytes to bytes hands back the same bytes.
    fn plain_slice_to_bytes(items: &[u8]) -> (r: Result<&[u8], PodCastKind>)
        ensures
            r is Ok,
            r is Ok ==> r->Ok_0@ == items@,
    {
        proof {
            lemma_byte_concat(items@);
        }
        try_cast_bytes(items)
    }

    fn plain_collect_from_bytes(bytes: &[u8]) -> Vec<u8> {
        pod_collect_to_vec::<u8>(bytes)
    }
}

impl PlainView for u16 {
    /// A value is made of its little-endian bytes, in the machine's byte
    /// order.
    open spec fn plain_view(&self) -> Seq<u8> {
        in_machine_order(spec_u16_to_le_bytes(*self))
    }

    proof fn lemma_plain_view(a: u16, b: u16) {
        broadcast use vstd::layout::layout_of_primitives;
        lemma_auto_spec_u16_to_from_le_bytes();
        lemma_machine_order(spec_u16_to_le_bytes(a), spec_u16_to_le_bytes(b));
    }
}

impl Plain for u16 {
    fn plain_bytes(&self) -> &[u8] {
        bytes_of::<u16>(self)
    }

    fn plain_ref_from_bytes(bytes: &[u8]) -> Result<&u16, PodCastKind> {
        try_from_bytes::<u16>(bytes)
    }

    fn plain_read_unaligned(bytes: &[u8]) -> u16 {
        pod_read_unaligned::<u16>(bytes)
    }

    fn plain_slice_from_bytes(bytes: &[u8]) -> Result<&[u16], PodCastKind> {
        proof {
            lemma_byte_concat(bytes@);
        }
        try_cast_slice::<u8, u16>(bytes)
    }

    fn plain_slice_to_bytes(items: &[u16]) -> Result<&[u8], PodCastKind> {
        let r = try_cast_slice::<u16, u8>(items);
        proof {
            if let Ok(b) = r {
                lemma_byte_concat(b@);
            }
        }
        r
    }

    fn plain_collect_from_bytes(bytes: &[u8]) -> Vec<u16> {
        pod_collect_to_vec::<u16>(bytes)
    }
}

impl PlainView for u32 {
    /// A value is made of its little-endian bytes, in the machine's byte
    /// order.
    open spec fn plain_view(&self) -> Seq<u8> {
        in_machine_order(spec_u32_to_le_bytes(*self))
    }

    proof fn lemma_plain_view(a: u32, b: u32) {
        broadcast use vstd::layout::layout_of_primitives;
        lemma_auto_spec_u32_to_from_le_bytes();
        lemma_machine_order(spec_u32_to_le_bytes(a), spec_u32_to_le_bytes(b));
    }
}

impl Plain for u32 {
    fn plain_bytes(&self) -> &[u8] {
        bytes_of::<u32>(self)
    }

    fn plain_ref_from_bytes(bytes: &[u8]) -> Result<&u32, PodCastKind> {
        try_from_bytes::<u32>(bytes)
    }

    fn plain_read_unaligned(bytes: &[u8]) -> u32 {
        pod_read_unaligned::<u32>(bytes)
    }

    fn plain_slice_from_bytes(bytes: &[u8]) -> Result<&[u32], PodCastKind> {
        proof {
            lemma_byte_concat(bytes@);
        }
        try_cast_slice::<u8, u32>(bytes)
    }

    fn plain_slice_to_bytes(items: &[u32]) -> Result<&[u8], PodCastKind> {
        let r = try_cast_slice::<u32, u8>(items);
        proof {
            if let Ok(b) = r {
                lemma_byte_concat(b@);
            }
        }
        r
    }

    fn plain_collect_from_bytes(bytes: &[u8]) -> Vec<u32> {
        pod_collect_to_vec::<u32>(bytes)
    }
}

impl PlainView for u64 {
    /// A value is made of its little-endian bytes, in the machine's byte
    /// order.
    open spec fn plain_view(&self) -> Seq<u8> {
        in_machine_order(spec_u64_to_le_bytes(*self))
    }

    proof fn lemma_plain_view(a: u64, b: u64) {
        broadcast use vstd::layout::layout_of_primitives;
        lemma_auto_spec_u64_to_from_le_bytes();
        lemma_machine_order(spec_u64_to_le_bytes(a), spec_u64_to_le_bytes(b));
    }
}

impl Plain for u64 {
    fn plain_bytes(&self) -> &[u8] {
        bytes_of::<u64>(self)
    }

    fn plain_ref_from_bytes(bytes: &[u8]) -> Result<&u64, PodCastKind> {
        try_from_bytes::<u64>(bytes)
    }

    fn plain_read_unaligned(bytes: &[u8]) -> u64 {
        pod_read_unaligned::<u64>(bytes)
    }

    fn plain_slice_from_bytes(bytes: &[u8]) -> Result<&[u64], PodCastKind> {
        proof {
            lemma_byte_concat(bytes@);
        }
        try_cast_slice::<u8, u64>(bytes)
    }

    fn plain_slice_to_bytes(items: &[u64]) -> Result<&[u8], PodCastKind> {
        let r = try_cast_slice::<u64, u8>(items);
        proof {
            if let Ok(b) = r {
                lemma_byte_concat(b@);
            }
        }
        r
    }

    fn plain_collect_from_bytes(bytes: &[u8]) -> Vec<u64> {
        pod_collect_to_vec::<u64>(bytes)
    }
}

impl PlainView for u128 {
    /// A value is made of its little-endian bytes, in the machine's byte
    /// order.
    open spec fn plain_view(&self) -> Seq<u8> {
        in_machine_order(spec_u128_to_le_bytes(*self))
    }

    proof fn lemma_plain_view(a: u128, b: u128) {
        broadcast use vstd::layout::layout_of_primitives;
        lemma_auto_spec_u128_to_from_le_bytes();
        lemma_machine_order(spec_u128_to_le_bytes(a), spec_u128_to_le_bytes(b));
    }
}

impl Plain for u128 {
    fn plain_bytes(&self) -> &[u8] {
        bytes_of::<u128>(self)
    }

    fn plain_ref_from_bytes(bytes: &[u8]) -> Result<&u128, PodCastKind> {
        try_from_bytes::<u128>(bytes)
    }

    fn plain_read_unaligned(bytes: &[u8]) -> u128 {
        pod_read_unaligned::<u128>(bytes)
    }

    fn plain_slice_from_bytes(bytes: &[u8]) -> Result<&[u128], PodCastKind> {
        proof {
            lemma_byte_concat(bytes@);
        }
        try_cast_slice::<u8, u128>(bytes)
    }

    fn plain_slice_to_bytes(items: &[u128]) -> Result<&[u8], PodCastKind> {
        let r = try_cast_slice::<u128, u8>(items);
        proof {
            if let Ok(b) = r {
                lemma_byte_concat(b@);
            }
        }
        r
    }

    fn plain_collect_from_bytes(bytes: &[u8]) -> Vec<u128> {
        pod_collect_to_vec::<u128>(bytes)
    }
}

impl PlainView for i8 {
    /// A signed byte is made of its two's-complement byte.
    open spec fn plain_view(&self) -> Seq<u8> {
        seq![*self as u8]
    }

    proof fn lemma_plain_view(a: i8, b: i8) {
        broadcast use vstd::layout::layout_of_primitives;
        assert(a.plain_view()[0] == a as u8);
        assert(b.plain_view()[0] == b as u8);
        assert(a as u8 == b as u8 ==> a == b) by (bit_vector);
    }
}

impl Plain for i8 {
    fn plain_bytes(&self) -> &[u8] {
        bytes_of::<i8>(self)
    }

    fn plain_ref_from_bytes(bytes: &[u8]) -> Result<&i8, PodCastKind> {
        try_from_bytes::<i8>(bytes)
    }

    /// A signed byte is stored as its two's-complement byte: the one byte
    /// read, taken as signed, is the value.
    fn plain_read_unaligned(bytes: &[u8]) -> (r: i8)
        ensures
            r == bytes@[0] as i8,
    {
        proof {
            broadcast use vstd::layout::layout_of_primitives;
        }
        let b = bytes[0];
        let r = b as i8;
        assert(r as u8 == b) by (bit_vector)
            requires
                r == b as i8,
        ;
        assert(r.plain_view() =~= bytes@);
        r
    }

    fn plain_slice_from_bytes(bytes: &[u8]) -> Result<&[i8], PodCastKind> {
        proof {
            lemma_byte_concat(bytes@);
        }
        try_cast_slice::<u8, i8>(bytes)
    }

    fn plain_slice_to_bytes(items: &[i8]) -> Result<&[u8], PodCastKind> {
        let r = try_cast_slice::<i8, u8>(items);
        proof {
            if let Ok(b) = r {
                lemma_byte_concat(b@);
            }
        }
        r
    }

    fn plain_collect_from_bytes(bytes: &[u8]) -> Vec<i8> {
        pod_collect_to_vec::<i8>(bytes)
    }
}

impl PlainView for i16 {
    /// A value is made of the little-endian bytes of its two's-complement
    /// form, in the machine's byte order.
    open spec fn plain_view(&self) -> Seq<u8> {
        in_machine_order(spec_u16_to_le_bytes(*self as u16))
    }

    proof fn lemma_plain_view(a: i16, b: i16) {
        broadcast use vstd::layout::layout_of_primitives;
        lemma_auto_spec_u16_to_from_le_bytes();
        lemma_machine_order(spec_u16_to_le_bytes(a as u16), spec_u16_to_le_bytes(b as u16));
        assert(a as u16 == b as u16 ==> a == b) by (bit_vector);
    }
}

impl Plain for i16 {
    fn plain_bytes(&self) -> &[u8] {
        bytes_of::<i16>(self)
    }

    fn plain_ref_from_bytes(bytes: &[u8]) -> Result<&i16, PodCastKind> {
        try_from_bytes::<i16>(bytes)
    }

    fn plain_read_unaligned(bytes: &[u8]) -> i16 {
        pod_read_unaligned::<i16>(bytes)
    }

    fn plain_slice_from_bytes(bytes: &[u8]) -> Result<&[i16], PodCastKind> {
        proof {
            lemma_byte_concat(bytes@);
        }
        try_cast_slice::<u8, i16>(bytes)
    }

    fn plain_slice_to_bytes(items: &[i16]) -> Result<&[u8], PodCastKind> {
        let r = try_cast_slice::<i16, u8>(items);
        proof {
            if let Ok(b) = r {
                lemma_byte_concat(b@);
            }
        }
        r
    }

    fn plain_collect_from_bytes(bytes: &[u8]) -> Vec<i16> {
        pod_collect_to_vec::<i16>(bytes)
    }
}

impl PlainView for i32 {
    /// A value is made of the little-endian bytes of its two's-complement
    /// form, in the machine's byte order.
    open spec fn plain_view(&self) -> Seq<u8> {
        in_machine_order(spec_u32_to_le_bytes(*self as u32))
    }

    proof fn lemma_plain_view(a: i32, b: i32) {
        broadcast use vstd::layout::layout_of_primitives;
        lemma_auto_spec_u32_to_from_le_bytes();
        lemma_machine_order(spec_u32_to_le_bytes(a as u32), spec_u32_to_le_bytes(b as u32));
        assert(a as u32 == b as u32 ==> a == b) by (bit_vector);
    }
}

impl Plain for i32 {
    fn plain_bytes(&self) -> &[u8] {
        bytes_of::<i32>(self)
    }

    fn plain_ref_from_bytes(bytes: &[u8]) -> Result<&i32, PodCastKind> {
        try_from_bytes::<i32>(bytes)
    }

    fn plain_read_unaligned(bytes: &[u8]) -> i32 {
        pod_read_unaligned::<i32>(bytes)
    }

    fn plain_slice_from_bytes(bytes: &[u8]) -> Result<&[i32], PodCastKind> {
        proof {
            lemma_byte_concat(bytes@);
        }
        try_cast_slice::<u8, i32>(bytes)
    }

    fn plain_slice_to_bytes(items: &[i32]) -> Result<&[u8], PodCastKind> {
        let r = try_cast_slice::<i32, u8>(items);
        proof {
            if let Ok(b) = r {
                lemma_byte_concat(b@);
            }
        }
        r
    }

    fn plain_collect_from_bytes(bytes: &[u8]) -> Vec<i32> {
        pod_collect_to_vec::<i32>(bytes)
    }
}

impl PlainView for i64 {
    /// A value is made of the little-endian bytes of its two's-complement
    /// form, in the machine's byte order.
    open spec fn plain_view(&self) -> Seq<u8> {
        in_machine_order(spec_u64_to_le_bytes(*self as u64))
    }

    proof fn lemma_plain_view(a: i64, b: i64) {
        broadcast use vstd::layout::layout_of_primitives;
        lemma_auto_spec_u64_to_from_le_bytes();
        lemma_machine_order(spec_u64_to_le_bytes(a as u64), spec_u64_to_le_bytes(b as u64));
        assert(a as u64 == b as u64 ==> a == b) by (bit_vector);
    }
}

impl Plain for i64 {
    fn plain_bytes(&self) -> &[u8] {
        bytes_of::<i64>(self)
    }

    fn plain_ref_from_bytes(bytes: &[u8]) -> Result<&i64, PodCastKind> {
        try_from_bytes::<i64>(bytes)
    }

    fn plain_read_unaligned(bytes: &[u8]) -> i64 {
        pod_read_unaligned::<i64>(bytes)
    }

    fn plain_slice_from_bytes(bytes: &[u8]) -> Result<&[i64], PodCastKind> {
        proof {
            lemma_byte_concat(bytes@);
        }
        try_cast_slice::<u8, i64>(bytes)
    }

    fn plain_slice_to_bytes(items: &[i64]) -> Result<&[u8], PodCastKind> {
        let r = try_cast_slice::<i64, u8>(items);
        proof {
            if let Ok(b) = r {
                lemma_byte_concat(b@);
            }
        }
        r
    }

    fn plain_collect_from_bytes(bytes: &[u8]) -> Vec<i64> {
        pod_collect_to_vec::<i64>(bytes)
    }
}

impl PlainView for i128 {
    /// A value is made of the little-endian bytes of its two's-complement
    /// form, in the machine's byte order.
    open spec fn plain_view(&self) -> Seq<u8> {
        in_machine_order(spec_u128_to_le_bytes(*self as u128))
    }

    proof fn lemma_plain_view(a: i128, b: i128) {
        broadcast use vstd::layout::layout_of_primitives;
        lemma_auto_spec_u128_to_from_le_bytes();
        lemma_machine_order(spec_u128_to_le_bytes(a as u128), spec_u128_to_le_bytes(b as u128));
        assert(a as u128 == b as u128 ==> a == b) by (bit_vector);
    }
}

impl Plain for i128 {
    fn plain_bytes(&self) -> &[u8] {
        bytes_of::<i128>(self)
    }

    fn plain_ref_from_bytes(bytes: &[u8]) -> Result<&i128, PodCastKind> {
        try_from_bytes::<i128>(bytes)
    }

    fn plain_read_unaligned(bytes: &[u8]) -> i128 {
        pod_read_unaligned::<i128>(bytes)
    }

    fn plain_slice_from_bytes(bytes: &[u8]) -> Result<&[i128], PodCastKind> {
        proof {
            lemma_byte_concat(bytes@);
        }
        try_cast_slice::<u8, i128>(bytes)
    }

    fn plain_slice_to_bytes(items: &[i128]) -> Result<&[u8], PodCastKind> {
        let r = try_cast_slice::<i128, u8>(items);
        proof {
            if let Ok(b) = r {
                lemma_byte_concat(b@);
            }
        }
        r
    }

    fn plain_collect_from_bytes(bytes: &[u8]) -> Vec<i128> {
        pod_collect_to_vec::<i128>(bytes)
    }
}

} // verus!
