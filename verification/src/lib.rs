//! A codec for the MessagePack wire format: a marker byte says what follows,
//! lengths and payloads are big-endian, and a `Value` tree stands for any
//! decoded message.
//!
//! `wire` and `grammar` state the format as mathematics; `laws` proves that
//! what the encoder writes the decoder reads back. The executable code is
//! verified against these: `codec` holds the two entry points, `msgpack` one
//! encoder and one decoder for each type, `reader` the bounds-checked cursor,
//! `encode` a packer that writes headers and scalars one call at a time.

pub mod bytes;
pub mod codec;
pub mod constants;
pub mod conversions;
pub mod encode;
pub mod error;
pub mod family;
pub mod grammar;
pub mod laws;
pub mod marker;
pub mod msgpack;
pub mod reader;
mod utf8;
pub mod value;
pub mod wire;

pub use crate::codec::{decode, decode_with_limit, encode};
pub use crate::error::{DecodeError, EncodeError};
pub use crate::msgpack::{ReadFrom, WriteTo};
pub use crate::reader::Reader;
pub use crate::value::{Extension, Float32, Float64, Value};
