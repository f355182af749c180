//! A value whose decoding is put off until it is asked for.
use std::marker::PhantomData;
use vstd::prelude::*;
use crate::codec::{BytesDecode, CodecError};
use crate::error::Error;

verus! {

/// A codec that decodes nothing at first: it hands out the bytes wrapped in
/// a `Lazy`, to be decoded with `C` later.
#[derive(Debug)]
pub struct LazyDecode<C>(PhantomData<C>);

impl<C> Default for LazyDecode<C> {
    fn default() -> (r: Self) {
        LazyDecode(PhantomData)
    }
}

/// Bytes that are to be decoded with the codec `C`.
#[derive(Debug, Copy)]
pub struct Lazy<'a, C> {
    data: &'a [u8],
    _marker: PhantomData<C>,
}

impl<'a, C> Clone for Lazy<'a, C> {
    fn clone(&self) -> (r: Self)
        ensures
            r.bytes() == self.bytes(),
    {
        Lazy { data: self.data, _marker: PhantomData }
    }
}

impl<'a, C> Lazy<'a, C> {
    /// The bytes that the value will be decoded from.
    pub closed spec fn bytes(&self) -> Seq<u8> {
        self.data@
    }

    /// The slice of bytes that the value will be decoded from.
    pub closed spec fn bytes_ref(&self) -> &'a [u8] {
        self.data
    }
}

impl<'a, C: 'static> BytesDecode<'a> for LazyDecode<C> {
    type Item = Lazy<'a, C>;

    open spec fn decodable(bytes: Seq<u8>) -> bool {
        true
    }

    open spec fn decodes_to(bytes: Seq<u8>, item: Lazy<'a, C>) -> bool {
        item.bytes() == bytes
    }

    fn bytes_decode(bytes: &'a [u8]) -> (r: Result<Lazy<'a, C>, CodecError>)
        ensures
            r matches Ok(l) && l.bytes_ref() == bytes,
    {
        Ok(Lazy { data: bytes, _marker: PhantomData })
    }
}

impl<'a, C: BytesDecode<'a>> Lazy<'a, C> {
    /// Decodes the bytes with `C`; a failure of `C` is a decoding error.
    pub fn decode(&self) -> (r: Result<C::Item, Error>)
        ensures
            C::decodable(self.bytes()) ==> r is Ok,
            match r {
                Ok(item) => C::decodes_to(self.bytes(), item),
                Err(e) => e is Decoding,
            },
            r matches Ok(item) ==> call_ensures(C::bytes_decode, (self.bytes_ref(),), Ok(item)),
            r matches Err(Error::Decoding(e)) ==> call_ensures(
                C::bytes_decode,
                (self.bytes_ref(),),
                Err(e),
            ),
    {
        match C::bytes_decode(self.data) {
            Ok(item) => Ok(item),
            Err(e) => Err(Error::Decoding(e)),
        }
    }
}

} // verus!
