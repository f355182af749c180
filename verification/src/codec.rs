//! The two codec traits through which keys and values are turned into bytes
//! and read back, and the error that a codec reports.
use std::borrow::Cow;
use vstd::prelude::*;

verus! {

/// Why a byte cast between plain-data types failed.
#[derive(Debug, Clone, Copy, PartialEq, Eq, Structural)]
pub enum PodCastKind {
    /// The target type needs a stricter alignment than the input has.
    TargetAlignmentGreaterAndInputNotAligned,
    /// The output slice would not be a whole number of elements.
    OutputSliceWouldHaveSlop,
    /// The input does not have exactly the size of the target type.
    SizeMismatch,
    /// Alignments of an allocated cast differ.
    AlignmentMismatch,
}

/// `core::str::Utf8Error`, which `std::str::from_utf8` reports.
#[verifier::external_type_specification]
#[verifier::external_body]
pub struct ExUtf8Error(core::str::Utf8Error);

/// The error that an encoder or a decoder reports.
#[derive(Debug)]
pub enum CodecError {
    /// A plain-data byte cast failed.
    PodCast(PodCastKind),
    /// The bytes are not UTF-8.
    Utf8(core::str::Utf8Error),
    /// A serialization framework could not serialize or deserialize the
    /// item; the message is the one it gave.
    Serialization(String),
}

/// A type that describes how an item is turned into bytes.
pub trait BytesEncode {
    type Item: ?Sized;

    /// The items that this codec always encodes successfully; by default,
    /// none is promised.
    open spec fn encodable(item: &Self::Item) -> bool {
        false
    }

    /// What holds of the bytes of every successful encoding of `item`; by
    /// default, nothing is promised.
    open spec fn encodes_to(item: &Self::Item, bytes: Seq<u8>) -> bool {
        true
    }

    fn bytes_encode(item: &Self::Item) -> (r: Result<Cow<'_, [u8]>, CodecError>)
        ensures
            Self::encodable(item) ==> r is Ok,
            r matches Ok(b) ==> Self::encodes_to(item, b@),
    ;
}

/// A type that describes how bytes are read back into an item.
pub trait BytesDecode<'a> {
    type Item: 'a;

    /// The byte strings that this codec always decodes successfully; by
    /// default, none is promised.
    open spec fn decodable(bytes: Seq<u8>) -> bool {
        false
    }

    /// What holds of every item decoded from `bytes`; by default, nothing
    /// is promised.
    open spec fn decodes_to(bytes: Seq<u8>, item: Self::Item) -> bool {
        true
    }

    fn bytes_decode(bytes: &'a [u8]) -> (r: Result<Self::Item, CodecError>)
        ensures
            Self::decodable(bytes@) ==> r is Ok,
            r matches Ok(item) ==> Self::decodes_to(bytes@, item),
    ;
}

} // verus!
