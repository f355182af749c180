use std::borrow::Cow;

use constella::codec::{BytesDecode, BytesEncode, CodecError, PodCastKind};
use constella::lazy_decode::{Lazy, LazyDecode};
use constella::Plain;
use constella::{CowSlice, CowType, OwnedSlice, OwnedType, Str, UnalignedSlice, UnalignedType, Unit};

fn pod_kind<T>(r: Result<T, CodecError>) -> Option<PodCastKind> {
    match r {
        Err(CodecError::PodCast(k)) => Some(k),
        _ => None,
    }
}

#[test]
fn unit_encodes_to_nothing() {
    let bytes = Unit::bytes_encode(&()).unwrap();
    assert!(bytes.is_empty());
}

#[test]
fn unit_decodes_only_empty_bytes() {
    assert!(Unit::bytes_decode(&[]).is_ok());
    assert_eq!(pod_kind(Unit::bytes_decode(&[0u8])), Some(PodCastKind::SizeMismatch));
}

#[test]
fn str_encodes_to_utf8_bytes() {
    let s: &str = "héllo";
    let bytes = Str::bytes_encode(&s).unwrap();
    assert_eq!(&bytes[..], "héllo".as_bytes());
    assert_eq!(bytes.len(), 6);
}

#[test]
fn str_round_trip() {
    let s: &str = "key/ünïcode";
    let bytes = Str::bytes_encode(&s).unwrap();
    let back = <Str as BytesDecode>::bytes_decode(&bytes).unwrap();
    assert_eq!(back, s);
}

#[test]
fn str_rejects_invalid_utf8() {
    let bytes = [0x66u8, 0xff, 0x66];
    match <Str as BytesDecode>::bytes_decode(&bytes) {
        Err(CodecError::Utf8(e)) => assert_eq!(e.valid_up_to(), 1),
        other => panic!("unexpected {:?}", other),
    }
}

#[test]
fn cow_type_round_trip() {
    let value: u32 = 0xdead_beef;
    let bytes = CowType::<u32>::bytes_encode(&value).unwrap().into_owned();
    assert_eq!(bytes.len(), 4);
    let back = CowType::<u32>::bytes_decode(&bytes).unwrap();
    assert_eq!(*back, value);
}

#[test]
fn cow_type_copies_misaligned_bytes() {
    let value: u32 = 0x0102_0304;
    let mut buffer = vec![0u8; 8];
    buffer[1..5].copy_from_slice(&value.to_ne_bytes());
    // One of the two offsets is misaligned for u32; both decode to the value
    // written there.
    let at_one = CowType::<u32>::bytes_decode(&buffer[1..5]).unwrap();
    assert_eq!(*at_one, value);
}

#[test]
fn cow_type_rejects_wrong_size() {
    let bytes = [1u8, 2, 3];
    assert_eq!(pod_kind(CowType::<u32>::bytes_decode(&bytes)), Some(PodCastKind::SizeMismatch));
}

#[test]
fn owned_type_round_trip() {
    let value: i64 = -42;
    let bytes = OwnedType::<i64>::bytes_encode(&value).unwrap().into_owned();
    assert_eq!(bytes.len(), 8);
    assert_eq!(OwnedType::<i64>::bytes_decode(&bytes).unwrap(), value);
    assert_eq!(pod_kind(OwnedType::<i64>::bytes_decode(&bytes[..7])), Some(PodCastKind::SizeMismatch));
}

#[test]
fn unaligned_type_of_bytes() {
    let value: u8 = 7;
    let bytes = UnalignedType::<u8>::bytes_encode(&value).unwrap().into_owned();
    assert_eq!(bytes, vec![7u8]);
    assert_eq!(*UnalignedType::<u8>::bytes_decode(&bytes).unwrap(), 7);
    assert_eq!(pod_kind(UnalignedType::<u8>::bytes_decode(&[])), Some(PodCastKind::SizeMismatch));
}

#[test]
fn unaligned_type_needs_alignment() {
    let words: [u64; 2] = [0x1111, 0x2222];
    let bytes = CowSlice::<u64>::bytes_encode(&&words[..]).unwrap().into_owned();
    let aligned: Vec<u64> = vec![0; 3];
    let slice = &aligned[..];
    let raw = CowSlice::<u64>::bytes_encode(&slice).unwrap();
    // An aligned slice of the right length decodes; a slice one byte further
    // on is misaligned for u64.
    assert!(UnalignedType::<u64>::bytes_decode(&raw[0..8]).is_ok());
    assert_eq!(
        pod_kind(UnalignedType::<u64>::bytes_decode(&raw[1..9])),
        Some(PodCastKind::TargetAlignmentGreaterAndInputNotAligned)
    );
    assert_eq!(bytes.len(), 16);
}

#[test]
fn cow_slice_round_trip() {
    let items: [u16; 3] = [1, 2, 0xffff];
    let bytes = CowSlice::<u16>::bytes_encode(&&items[..]).unwrap().into_owned();
    assert_eq!(bytes.len(), 6);
    let back = <CowSlice<u16> as BytesDecode>::bytes_decode(&bytes).unwrap();
    assert_eq!(&back[..], &items[..]);
}

#[test]
fn cow_slice_rejects_slop() {
    let aligned: Vec<u16> = vec![0; 4];
    let slice = &aligned[..];
    let raw = CowSlice::<u16>::bytes_encode(&slice).unwrap();
    assert_eq!(
        pod_kind(<CowSlice<u16> as BytesDecode>::bytes_decode(&raw[0..3])),
        Some(PodCastKind::OutputSliceWouldHaveSlop)
    );
}

#[test]
fn cow_slice_copies_misaligned_bytes() {
    let items: [u32; 2] = [10, 20];
    let encoded = CowSlice::<u32>::bytes_encode(&&items[..]).unwrap().into_owned();
    let mut buffer: Vec<u32> = vec![0; 4];
    let raw: &mut [u8] = bytemuck::cast_slice_mut(&mut buffer[..]);
    raw[1..9].copy_from_slice(&encoded);
    let back = <CowSlice<u32> as BytesDecode>::bytes_decode(&raw[1..9]).unwrap();
    assert!(matches!(back, Cow::Owned(_)));
    assert_eq!(&back[..], &items[..]);
}

#[test]
fn owned_slice_round_trip() {
    let items: [i32; 2] = [-1, 5];
    let bytes = OwnedSlice::<i32>::bytes_encode(&&items[..]).unwrap().into_owned();
    let back: Vec<i32> = <OwnedSlice<i32> as BytesDecode>::bytes_decode(&bytes).unwrap();
    assert_eq!(back, vec![-1, 5]);
}

#[test]
fn unaligned_slice_of_bytes() {
    let items: [u8; 3] = [9, 8, 7];
    let bytes = UnalignedSlice::<u8>::bytes_encode(&&items[..]).unwrap().into_owned();
    let back = <UnalignedSlice<u8> as BytesDecode>::bytes_decode(&bytes).unwrap();
    assert_eq!(back, &[9u8, 8, 7][..]);
}

#[test]
fn unaligned_slice_rejects_slop() {
    let aligned: Vec<u32> = vec![0; 2];
    let slice = &aligned[..];
    let raw = UnalignedSlice::<u32>::bytes_encode(&slice).unwrap();
    assert_eq!(
        pod_kind(<UnalignedSlice<u32> as BytesDecode>::bytes_decode(&raw[0..6])),
        Some(PodCastKind::OutputSliceWouldHaveSlop)
    );
}

#[test]
fn lazy_decode_defers_decoding() {
    let bytes = [1u8, 0, 0, 0];
    let lazy: Lazy<OwnedType<u32>> = LazyDecode::<OwnedType<u32>>::bytes_decode(&bytes).unwrap();
    assert_eq!(lazy.decode().unwrap(), u32::from_ne_bytes([1, 0, 0, 0]));
    let short: Lazy<OwnedType<u32>> = LazyDecode::<OwnedType<u32>>::bytes_decode(&bytes[..2]).unwrap();
    assert!(matches!(short.decode(), Err(constella::Error::Decoding(CodecError::PodCast(PodCastKind::SizeMismatch)))));
}

#[test]
fn single_bytes_read_as_themselves() {
    assert_eq!(u8::plain_read_unaligned(&[200]), 200);
    assert_eq!(i8::plain_read_unaligned(&[200]), -56);
    assert_eq!(u8::plain_slice_from_bytes(&[1, 2, 3]).unwrap(), &[1u8, 2, 3][..]);
    assert_eq!(u8::plain_slice_to_bytes(&[4, 5]).unwrap(), &[4u8, 5][..]);
}

#[test]
fn cow_slice_rejects_misaligned_slop() {
    let mut buffer: Vec<u32> = vec![0; 4];
    let raw: &mut [u8] = bytemuck::cast_slice_mut(&mut buffer[..]);
    assert_eq!(
        pod_kind(<CowSlice<u32> as BytesDecode>::bytes_decode(&raw[1..8])),
        Some(PodCastKind::TargetAlignmentGreaterAndInputNotAligned)
    );
    assert_eq!(
        pod_kind(<OwnedSlice<u32> as BytesDecode>::bytes_decode(&raw[1..8])),
        Some(PodCastKind::TargetAlignmentGreaterAndInputNotAligned)
    );
    assert_eq!(
        pod_kind(<CowSlice<u32> as BytesDecode>::bytes_decode(&raw[0..7])),
        Some(PodCastKind::OutputSliceWouldHaveSlop)
    );
}

#[test]
fn str_encoding_borrows() {
    let s: &str = "abc";
    let bytes = Str::bytes_encode(&s).unwrap();
    assert!(matches!(bytes, Cow::Borrowed(b) if b.as_ptr() == s.as_ptr()));
}
