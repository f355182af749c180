//! Typed access to an LMDB key/value store: byte codecs for keys and
//! values, the error model of the storage engine, the options an environment
//! is opened with, the registry of opened environments, and the decoding of
//! what the engine hands back from lookups and cursors. Values of other
//! types can be stored in a form of their own through `Transformer`.
use vstd::prelude::*;

pub mod codec;
mod pod;
pub mod unit;
pub mod str_codec;
pub mod cow_type;
pub mod owned_type;
pub mod unaligned_type;
pub mod cow_slice;
pub mod owned_slice;
pub mod unaligned_slice;
pub mod codec_laws;
pub mod lazy_decode;
pub mod mdb_error;
pub mod error;
pub mod flags;
pub mod env;
pub mod registry;
pub mod cursor;
pub mod database;
pub mod txn;
pub mod transform;
pub mod implementors;

pub use codec::{BytesDecode, BytesEncode, CodecError, PodCastKind};
pub use pod::Plain;
pub use unit::Unit;
pub use str_codec::Str;
pub use cow_type::CowType;
pub use owned_type::OwnedType;
pub use unaligned_type::UnalignedType;
pub use cow_slice::CowSlice;
pub use owned_slice::OwnedSlice;
pub use unaligned_slice::UnalignedSlice;
pub use lazy_decode::{Lazy, LazyDecode};
pub use mdb_error::Error as MdbError;
pub use error::Error;
pub use flags::Flags;
pub use env::{Env, EnvOpenOptions};
pub use database::Database;
pub use transform::{DataHolder, Transformer};

verus! {

/// The result of a fallible operation of the library.
pub type Result<T> = std::result::Result<T, Error>;

/// The holder of the stored form of a `V`.
pub type DataTransformer<V> = DataHolder<<V as Transformer>::DataType, V>;

} // verus!
