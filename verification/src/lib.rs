//! Blosc2 bindings: the parameter models, the chunk-header reader and the
//! decision logic around every call into the Blosc2 engine, each with its contract.

pub mod buffer;
pub mod codec;
pub mod error;
pub mod params;
pub mod schunk;
pub mod text;

pub use buffer::{
    compress_ctx, len, max_compress_len, max_compress_len_bytes, CompressedBufferInfo, Step,
};
pub use codec::{CLevel, Codec, Filter};
pub use error::{Blosc2Error, Error, Result};
pub use params::{CParams, Context, DParams};
