//! Compressed buffers: the chunk header, buffer sizes, and the decisions the library
//! takes before and after each de/compression that the engine performs.
//!
//! Each engine operation is split in two: a function that takes the caller's
//! arguments and either answers at once or says what to ask the engine (a `Step`),
//! and a `..._finish` function that turns what the engine returned into the result.

use crate::codec::{CLevel, Codec, Filter};
use crate::error::{code_error, is_code_err, is_error_code, is_other_err, Error, Result};
use crate::params::Context;
use vstd::prelude::*;
use vstd::string::*;

verus! {

/// Length of the minimal chunk header.
pub const BLOSC_MIN_HEADER_LENGTH: usize = 16;

/// Length of the extended chunk header.
pub const BLOSC_EXTENDED_HEADER_LENGTH: usize = 32;

/// The most that compression adds to the size of its input.
pub const BLOSC2_MAX_OVERHEAD: usize = 32;

/// The largest block size that a chunk header may hold.
pub const BLOSC2_MAXBLOCKSIZE: i32 = 536866816;

/// The newest chunk format version that the engine reads.
pub const BLOSC2_VERSION_FORMAT: u8 = 5;

/// Default buffer size for intermediate de/compression results when required
pub const BUFSIZE: usize = 8196;

/// The engine's version.
pub const BLOSC2_VERSION_STRING: &'static str = "2.14.5.dev";

pub const BLOSC2_VERSION_MAJOR: u32 = 2;

pub const BLOSC2_VERSION_MINOR: u32 = 14;

pub const BLOSC2_VERSION_RELEASE: u32 = 5;

/// The largest number of dimensions of an n-dimensional array.
pub const BLOSC2_MAX_DIM: u32 = 8;

/// What the library does next: answer at once, or ask the engine.
pub enum Step<R, Q> {
    /// The result, with no call into the engine.
    Done(Result<R>),
    /// The call to make into the engine.
    Call(Q),
}

/// The 32-bit little-endian integer at `at` in `b`.
pub open spec fn le_i32(b: Seq<u8>, at: int) -> i32 {
    (b[at] as int + b[at + 1] as int * 256 + b[at + 2] as int * 65536 + b[at + 3] as int
        * 16777216) as u32 as i32
}

/// The uncompressed size that a chunk header holds.
pub open spec fn header_nbytes(b: Seq<u8>) -> i32 {
    le_i32(b, 4)
}

/// The block size that a chunk header holds.
pub open spec fn header_blocksize(b: Seq<u8>) -> i32 {
    le_i32(b, 8)
}

/// The compressed size that a chunk header holds.
pub open spec fn header_cbytes(b: Seq<u8>) -> i32 {
    le_i32(b, 12)
}

/// The engine's verdict on the chunk header at the start of `b`: 0 when it can be
/// read, else the code of the error that reading it gives.
pub open spec fn header_code(b: Seq<u8>) -> int {
    if b.len() < 16 {
        -5
    } else if header_cbytes(b) < 16 {
        -11
    } else if b[0] > 5 {
        -10
    } else if header_blocksize(b) <= 0 || (header_nbytes(b) > 0 && header_blocksize(b)
        > header_nbytes(b)) {
        -11
    } else if header_blocksize(b) > 536866816 {
        -11
    } else if b[3] == 0 {
        -11
    } else {
        0
    }
}

/// A header that can be read holds a compressed size of at least the header's
/// length, and a positive block size, no larger than the largest block size nor
/// than a positive uncompressed size.
pub proof fn law_header_sizes(b: Seq<u8>)
    requires
        header_code(b) == 0,
    ensures
        header_cbytes(b) >= 16,
        0 < header_blocksize(b) <= BLOSC2_MAXBLOCKSIZE,
        header_nbytes(b) > 0 ==> header_blocksize(b) <= header_nbytes(b),
        b[3] != 0,
        b[0] <= BLOSC2_VERSION_FORMAT,
{
}

/// A header is readable exactly when it is at least the minimal header's length,
/// its format version is one the engine reads (up to and including the current
/// one), its compressed size is at least the minimal header's length, its block
/// size is positive, no larger than the largest block size nor than a positive
/// uncompressed size, and its type size byte is not zero.
pub proof fn law_header_readable(b: Seq<u8>)
    ensures
        header_code(b) == 0 <==> {
            &&& b.len() >= BLOSC_MIN_HEADER_LENGTH
            &&& b[0] <= BLOSC2_VERSION_FORMAT
            &&& header_cbytes(b) >= BLOSC_MIN_HEADER_LENGTH
            &&& 0 < header_blocksize(b) <= BLOSC2_MAXBLOCKSIZE
            &&& (header_nbytes(b) > 0 ==> header_blocksize(b) <= header_nbytes(b))
            &&& b[3] != 0
        },
{
}

/// Four bytes that hold `v` in little-endian order (lowest byte first) read back
/// as `v`, for every 32-bit value `v`: all four bytes count.
pub proof fn law_le_i32_decodes(b: Seq<u8>, at: int, v: i32)
    requires
        holds_le(b, at, v),
    ensures
        le_i32(b, at) == v,
{
    let u: int = v as u32 as int;
    assert(0 <= u < 4294967296);
    assert(u == u % 256 + ((u / 256) % 256) * 256 + ((u / 65536) % 256) * 65536 + (u / 16777216)
        * 16777216) by (nonlinear_arith)
        requires
            0 <= u < 4294967296,
    ;
    let w: u32 = v as u32;
    assert(w as i32 == v) by (bit_vector)
        requires
            w == v as u32,
    ;
}

/// Whether the four bytes of `b` at `at` hold `v` in little-endian order.
pub open spec fn holds_le(b: Seq<u8>, at: int, v: i32) -> bool {
    &&& 0 <= at
    &&& at + 4 <= b.len()
    &&& b[at] as int == (v as u32 as int) % 256
    &&& b[at + 1] as int == ((v as u32 as int) / 256) % 256
    &&& b[at + 2] as int == ((v as u32 as int) / 65536) % 256
    &&& b[at + 3] as int == (v as u32 as int) / 16777216
}

/// A header that holds the uncompressed size `nbytes` at byte 4, the block size
/// `blocksize` at byte 8 and the compressed size `cbytes` at byte 12, each in
/// little-endian order, reads back as those three sizes.
pub proof fn law_header_fields(b: Seq<u8>, nbytes: i32, blocksize: i32, cbytes: i32)
    requires
        holds_le(b, 4, nbytes),
        holds_le(b, 8, blocksize),
        holds_le(b, 12, cbytes),
    ensures
        header_nbytes(b) == nbytes,
        header_blocksize(b) == blocksize,
        header_cbytes(b) == cbytes,
{
    law_le_i32_decodes(b, 4, nbytes);
    law_le_i32_decodes(b, 8, blocksize);
    law_le_i32_decodes(b, 12, cbytes);
}

/// Info about a compressed buffer
/// Normal construction via `CompressedBufferInfo::try_from(&[u8])?`
#[derive(Debug, Copy, Clone, PartialEq, Eq, Structural)]
pub struct CompressedBufferInfo {
    /// Number of bytes decompressed
    nbytes: usize,
    /// Number of bytes to be read from compressed buffer
    cbytes: usize,
    /// Used internally by blosc2 when compressing the blocks, exposed here for completion.
    blocksize: usize,
}

impl CompressedBufferInfo {
    pub closed spec fn spec_nbytes(self) -> usize {
        self.nbytes
    }

    pub closed spec fn spec_cbytes(self) -> usize {
        self.cbytes
    }

    pub closed spec fn spec_blocksize(self) -> usize {
        self.blocksize
    }

    /// The info that the header at the start of `b` holds.
    pub open spec fn spec_of_header(b: Seq<u8>, info: CompressedBufferInfo) -> bool {
        &&& info.spec_nbytes() == header_nbytes(b) as usize
        &&& info.spec_cbytes() == header_cbytes(b) as usize
        &&& info.spec_blocksize() == header_blocksize(b) as usize
    }

    /// Number of bytes decompressed
    pub fn nbytes(&self) -> (n: usize)
        ensures
            n == self.spec_nbytes(),
    {
        self.nbytes
    }

    /// Number of bytes to be read from compressed buffer
    pub fn cbytes(&self) -> (n: usize)
        ensures
            n == self.spec_cbytes(),
    {
        self.cbytes
    }

    /// The block size of the buffer
    pub fn blocksize(&self) -> (n: usize)
        ensures
            n == self.spec_blocksize(),
    {
        self.blocksize
    }

    /// Reads the sizes from the chunk header at the start of `buf`.
    pub fn try_from(buf: &[u8]) -> (r: Result<CompressedBufferInfo>)
        ensures
            header_code(buf@) == 0 ==> r is Ok && Self::spec_of_header(buf@, r->Ok_0),
            header_code(buf@) != 0 ==> is_code_err(r, header_code(buf@)),
            r is Ok ==> header_code(buf@) == 0,
    {
        let (nbytes, blocksize, cbytes) = read_header(buf)?;
        Ok(
            CompressedBufferInfo {
                nbytes: nbytes as usize,
                cbytes: cbytes as usize,
                blocksize: blocksize as usize,
            },
        )
    }
}

/// The uncompressed size, block size and compressed size in the chunk header at the
/// start of `buf`, or the error that reading it gives.
pub fn read_header(buf: &[u8]) -> (r: Result<(i32, i32, i32)>)
    ensures
        header_code(buf@) == 0 ==> r == Ok::<(i32, i32, i32), Error>(
            (header_nbytes(buf@), header_blocksize(buf@), header_cbytes(buf@)),
        ),
        header_code(buf@) != 0 ==> is_code_err(r, header_code(buf@)),
{
    if buf.len() < BLOSC_MIN_HEADER_LENGTH {
        return Err(code_error(-5));
    }
    let nbytes = read_le_i32(buf, 4);
    let blocksize = read_le_i32(buf, 8);
    let cbytes = read_le_i32(buf, 12);
    if cbytes < 16 {
        return Err(code_error(-11));
    }
    if buf[0] > BLOSC2_VERSION_FORMAT {
        return Err(code_error(-10));
    }
    if blocksize <= 0 || (nbytes > 0 && blocksize > nbytes) {
        return Err(code_error(-11));
    }
    if blocksize > BLOSC2_MAXBLOCKSIZE {
        return Err(code_error(-11));
    }
    if buf[3] == 0 {
        return Err(code_error(-11));
    }
    Ok((nbytes, blocksize, cbytes))
}

/// The 32-bit little-endian integer at `at` in `buf`.
fn read_le_i32(buf: &[u8], at: usize) -> (v: i32)
    requires
        at + 4 <= buf@.len(),
    ensures
        v == le_i32(buf@, at as int),
{
    let b0 = buf[at] as u32;
    let b1 = buf[at + 1] as u32;
    let b2 = buf[at + 2] as u32;
    let b3 = buf[at + 3] as u32;
    let u: u32 = b0 + b1 * 256 + b2 * 65536 + b3 * 16777216;
    u as i32
}

/// The largest compressed size of `n` bytes.
pub open spec fn spec_max_compress_len_bytes(n: int) -> int {
    n + 32
}

/// Return the max size a compressed buffer needs to be to hold `src`: its items
/// counted at `typesize` bytes each, or at the size of `T` without one.
pub fn max_compress_len<T>(src: &[T], typesize: Option<usize>) -> (n: usize)
    requires
        src@.len() * (match typesize {
            Some(t) => t as int,
            None => size_of::<T>() as int,
        }) + 32 <= usize::MAX,
    ensures
        n == spec_max_compress_len_bytes(
            src@.len() * (match typesize {
                Some(t) => t as int,
                None => size_of::<T>() as int,
            }),
        ),
{
    let t = match typesize {
        Some(t) => t,
        None => core::mem::size_of::<T>(),
    };
    src.len() * t + BLOSC2_MAX_OVERHEAD
}

/// The largest compressed size of `len_bytes` bytes.
pub fn max_compress_len_bytes(len_bytes: usize) -> (n: usize)
    requires
        len_bytes + 32 <= usize::MAX,
    ensures
        n == spec_max_compress_len_bytes(len_bytes as int),
{
    len_bytes + BLOSC2_MAX_OVERHEAD
}

/// The number of items of `T` that the uncompressed bytes of the chunk `src` make.
pub open spec fn items_in<T>(src: Seq<u8>) -> usize {
    header_nbytes(src) as usize / size_of::<T>() as usize
}

/// The items of `T` counted in a chunk are the whole items in its uncompressed
/// bytes: that many fit in them, and one more does not.
pub proof fn law_items_in_whole<T>(src: Seq<u8>)
    requires
        header_nbytes(src) >= 0,
        size_of::<T>() > 0,
    ensures
        items_in::<T>(src) * size_of::<T>() <= header_nbytes(src),
        header_nbytes(src) < (items_in::<T>(src) + 1) * size_of::<T>(),
{
    let n: int = header_nbytes(src) as int;
    let t: int = size_of::<T>() as int;
    assert(n as usize as int == n);
    assert(t as usize as int == t);
    assert((n / t) * t <= n < (n / t + 1) * t) by (nonlinear_arith)
        requires
            n >= 0,
            t > 0,
    ;
}

/// Get the number of elements `T` in the compressed chunk
pub fn len<T>(src: &[u8]) -> (r: Result<usize>)
    requires
        size_of::<T>() > 0,
    ensures
        header_code(src@) == 0 ==> r is Ok && r->Ok_0 == items_in::<T>(src@),
        header_code(src@) != 0 ==> is_code_err(r, header_code(src@)),
{
    let info = CompressedBufferInfo::try_from(src)?;
    Ok(info.nbytes() / core::mem::size_of::<T>())
}

/// What the engine is asked to compress, as `compress` and `compress_into` ask it.
pub struct CompressCall {
    /// The codec, whose name is set first as the engine's compressor.
    pub codec: Codec,
    /// The compression level.
    pub clevel: u8,
    /// The filter's code.
    pub doshuffle: u8,
    /// The size of one item.
    pub typesize: usize,
    /// How many bytes of the source to compress.
    pub src_size: i32,
    /// How many bytes the destination holds.
    pub dst_capacity: usize,
}

/// The type size that `compress` uses: the given one, else the size of `T`.
pub open spec fn chosen_typesize<T>(typesize: Option<usize>) -> int {
    match typesize {
        Some(t) => t as int,
        None => size_of::<T>() as int,
    }
}

/// The number of bytes that `compress` hands on for `src_len` items: one each
/// for bytes, else the type size each.
pub open spec fn compress_src_bytes<T>(src_len: int, typesize: Option<usize>, src_is_bytes: bool) -> int {
    src_len * (if src_is_bytes {
        1
    } else {
        chosen_typesize::<T>(typesize)
    })
}

/// What `compress` and `compress_into` ask the engine, when they ask it.
pub open spec fn compress_call_of<T>(
    src_len: int,
    typesize: Option<usize>,
    clevel: Option<CLevel>,
    filter: Option<Filter>,
    codec: Option<Codec>,
    src_is_bytes: bool,
    dst_capacity: int,
    c: CompressCall,
) -> bool {
    &&& c.codec == (match codec {
        Some(c) => c,
        None => Codec::BloscLz,
    })
    &&& c.clevel == (match clevel {
        Some(l) => l.spec_code(),
        None => 9u8,
    })
    &&& c.doshuffle == (match filter {
        Some(f) => f.spec_code(),
        None => 1u8,
    })
    &&& c.typesize == chosen_typesize::<T>(typesize)
    &&& c.src_size == compress_src_bytes::<T>(src_len, typesize, src_is_bytes) as i32
    &&& c.dst_capacity == dst_capacity
}

/// The engine is told the source's length in bytes: for a byte source its number
/// of items, whatever the type size; otherwise its number of items times the type
/// size (the given one, else the size of `T`).
pub proof fn law_compress_src_size<T>(
    src_len: int,
    typesize: Option<usize>,
    clevel: Option<CLevel>,
    filter: Option<Filter>,
    codec: Option<Codec>,
    src_is_bytes: bool,
    dst_capacity: int,
    c: CompressCall,
)
    requires
        compress_call_of::<T>(
            src_len,
            typesize,
            clevel,
            filter,
            codec,
            src_is_bytes,
            dst_capacity,
            c,
        ),
    ensures
        src_is_bytes ==> c.src_size == src_len as i32,
        !src_is_bytes && typesize is Some ==> c.src_size == (src_len * typesize->0) as i32,
        !src_is_bytes && typesize is None ==> c.src_size == (src_len * size_of::<T>()) as i32,
        c.typesize == (match typesize {
            Some(t) => t,
            None => size_of::<T>(),
        }),
{
}

/// The call for compressing `src` into `dst_capacity` bytes.
fn compress_call<T>(
    src: &[T],
    typesize: Option<usize>,
    clevel: Option<CLevel>,
    filter: Option<Filter>,
    codec: Option<Codec>,
    src_is_bytes: bool,
    dst_capacity: usize,
) -> (c: CompressCall)
    requires
        compress_src_bytes::<T>(src@.len() as int, typesize, src_is_bytes) <= usize::MAX,
    ensures
        compress_call_of::<T>(
            src@.len() as int,
            typesize,
            clevel,
            filter,
            codec,
            src_is_bytes,
            dst_capacity as int,
            c,
        ),
{
    let t = match typesize {
        Some(t) => t,
        None => core::mem::size_of::<T>(),
    };
    let codec = match codec {
        Some(c) => c,
        None => Codec::BloscLz,
    };
    let multiplier = if src_is_bytes {
        1
    } else {
        t
    };
    let clevel = match clevel {
        Some(l) => l.code(),
        None => 9u8,
    };
    let doshuffle = match filter {
        Some(f) => f.code(),
        None => 1u8,
    };
    CompressCall {
        codec,
        clevel,
        doshuffle,
        typesize: t,
        src_size: (src.len() * multiplier) as i32,
        dst_capacity,
    }
}

/// Compress `src` with the given settings (each defaults as `Default` does; the
/// type size to the size of `T`). `src_is_bytes` says whether `T` is `u8`: then
/// every item counts as one byte. An empty `src` compresses to nothing; otherwise
/// the engine is asked to compress into the largest compressed size of `src`.
pub fn compress<T>(
    src: &[T],
    typesize: Option<usize>,
    clevel: Option<CLevel>,
    filter: Option<Filter>,
    codec: Option<Codec>,
    src_is_bytes: bool,
) -> (s: Step<Vec<u8>, CompressCall>)
    requires
        src@.len() * chosen_typesize::<T>(typesize) + 32 <= usize::MAX,
    ensures
        src@.len() == 0 ==> s is Done && s->Done_0 is Ok && s->Done_0->Ok_0@.len() == 0,
        src@.len() > 0 ==> s is Call && compress_call_of::<T>(
            src@.len() as int,
            typesize,
            clevel,
            filter,
            codec,
            src_is_bytes,
            spec_max_compress_len_bytes(src@.len() * chosen_typesize::<T>(typesize)),
            s->Call_0,
        ),
{
    if src.len() == 0 {
        return Step::Done(Ok(Vec::new()));
    }
    let capacity = max_compress_len(src, typesize);
    Step::Call(compress_call(src, typesize, clevel, filter, codec, src_is_bytes, capacity))
}

/// Compress `src` into a destination of `dst_len` bytes, as `compress` does.
pub fn compress_into<T>(
    src: &[T],
    dst_len: usize,
    typesize: Option<usize>,
    clevel: Option<CLevel>,
    filter: Option<Filter>,
    codec: Option<Codec>,
    src_is_bytes: bool,
) -> (s: Step<usize, CompressCall>)
    requires
        compress_src_bytes::<T>(src@.len() as int, typesize, src_is_bytes) <= usize::MAX,
    ensures
        src@.len() == 0 ==> s is Done && s->Done_0 == Ok::<usize, Error>(0),
        src@.len() > 0 ==> s is Call && compress_call_of::<T>(
            src@.len() as int,
            typesize,
            clevel,
            filter,
            codec,
            src_is_bytes,
            dst_len as int,
            s->Call_0,
        ),
{
    if src.len() == 0 {
        return Step::Done(Ok(0));
    }
    Step::Call(compress_call(src, typesize, clevel, filter, codec, src_is_bytes, dst_len))
}

/// What a compression that returned `n_bytes` gives, for the engine's return value
/// of a compression: an error code, 0 (nothing compressed), or the compressed size.
pub open spec fn compress_result(n_bytes: i32, msg: Seq<char>) -> spec_fn(Result<usize>) -> bool {
    |r: Result<usize>|
        if n_bytes < 0 {
            is_code_err(r, n_bytes as int)
        } else if n_bytes == 0 {
            is_other_err(r, msg)
        } else {
            r == Ok::<usize, Error>(n_bytes as usize)
        }
}

/// The result of `compress_into`, once the engine returned `n_bytes`.
pub fn compress_into_finish(n_bytes: i32) -> (r: Result<usize>)
    requires
        n_bytes < 0 ==> is_error_code(n_bytes as int),
    ensures
        (compress_result(n_bytes, "Data is not compressable."@))(r),
{
    if n_bytes < 0 {
        Err(code_error(n_bytes))
    } else if n_bytes == 0 {
        Err(Error::other("Data is not compressable."))
    } else {
        Ok(n_bytes as usize)
    }
}

/// The result of `compress`, once the engine returned `n_bytes` and wrote `written`:
/// the first `n_bytes` bytes that it wrote.
pub fn compress_finish(n_bytes: i32, written: Vec<u8>) -> (r: Result<Vec<u8>>)
    requires
        n_bytes < 0 ==> is_error_code(n_bytes as int),
        n_bytes <= written@.len(),
    ensures
        n_bytes < 0 ==> is_code_err(r, n_bytes as int),
        n_bytes == 0 ==> is_other_err(r, "Data is not compressable."@),
        n_bytes > 0 ==> r is Ok && r->Ok_0@ == written@.take(n_bytes as int),
{
    let n = compress_into_finish(n_bytes)?;
    let mut dst = written;
    dst.truncate(n);
    Ok(dst)
}

/// Compress `src` into a destination of `dst_len` bytes with the context `ctx`: an
/// empty `src` gives 0; otherwise the engine is asked to compress `src`'s items at
/// the context's type size, which needs a created context.
pub fn compress_into_ctx<T>(src: &[T], dst_len: usize, ctx: &Context) -> (s: Step<usize, i32>)
    requires
        ctx.spec_typesize() is Some ==> src@.len() * ctx.spec_typesize()->0
            <= usize::MAX,
    ensures
        src@.len() == 0 ==> s is Done && s->Done_0 == Ok::<usize, Error>(0),
        src@.len() > 0 && ctx.spec_typesize() is None ==> s is Done && is_other_err(
            s->Done_0,
            "Context pointer is null"@,
        ),
        src@.len() > 0 && ctx.spec_typesize() is Some ==> s is Call && s->Call_0 == (src@.len()
            * ctx.spec_typesize()->0) as i32,
{
    if src.len() == 0 {
        return Step::Done(Ok(0));
    }
    match ctx.get_cparams() {
        Ok(c) => Step::Call((src.len() * c.get_typesize()) as i32),
        Err(e) => Step::Done(Err(e)),
    }
}

/// The result of `compress_into_ctx`, once the engine returned `size`.
pub fn compress_into_ctx_finish(size: i32) -> (r: Result<usize>)
    requires
        size < 0 ==> is_error_code(size as int),
    ensures
        (compress_result(size, "Buffer is incompressible"@))(r),
{
    if size == 0 {
        Err(Error::other("Buffer is incompressible"))
    } else if size < 0 {
        Err(code_error(size))
    } else {
        Ok(size as usize)
    }
}

/// What the engine is asked when compressing with a context.
pub struct CtxCompressCall {
    /// How many bytes of the source to compress.
    pub src_size: i32,
    /// The zeroed destination, of the largest compressed size of the source.
    pub dst: Vec<u8>,
}

/// Context interface to compression: an empty `src` compresses to nothing;
/// otherwise the engine compresses into a zeroed buffer of the largest compressed
/// size of `src` (its items counted at the context's type size), which needs a
/// created context.
pub fn compress_ctx<T>(src: &[T], ctx: &Context) -> (s: Step<Vec<u8>, CtxCompressCall>)
    requires
        ctx.spec_typesize() is Some ==> src@.len() * ctx.spec_typesize()->0
            + 32 <= usize::MAX,
        ctx.spec_typesize() is None ==> src@.len() * size_of::<T>() + 32 <= usize::MAX,
    ensures
        src@.len() == 0 ==> s is Done && s->Done_0 is Ok && s->Done_0->Ok_0@.len() == 0,
        src@.len() > 0 && ctx.spec_typesize() is None ==> s is Done && is_other_err(
            s->Done_0,
            "Context pointer is null"@,
        ),
        src@.len() > 0 && ctx.spec_typesize() is Some ==> s is Call && s->Call_0.src_size == (
        src@.len() * ctx.spec_typesize()->0) as i32 && s->Call_0.dst@
            == Seq::new(
            spec_max_compress_len_bytes(
                src@.len() * ctx.spec_typesize()->0,
            ) as nat,
            |i: int| 0u8,
        ),
{
    if src.len() == 0 {
        return Step::Done(Ok(Vec::new()));
    }
    let typesize = match ctx.get_cparams() {
        Ok(c) => Some(c.get_typesize()),
        Err(_) => None,
    };
    let capacity = max_compress_len(src, typesize);
    let dst: Vec<u8> = vec![0u8; capacity];
    match compress_into_ctx(src, capacity, ctx) {
        Step::Done(r) => Step::Done(
            match r {
                Ok(_) => Ok(dst),
                Err(e) => Err(e),
            },
        ),
        Step::Call(src_size) => Step::Call(CtxCompressCall { src_size, dst }),
    }
}

/// The result of `compress_ctx`, once the engine returned `size` and wrote `dst`:
/// the first `size` bytes of `dst`.
pub fn compress_ctx_finish(dst: Vec<u8>, size: i32) -> (r: Result<Vec<u8>>)
    requires
        size < 0 ==> is_error_code(size as int),
        size <= dst@.len(),
    ensures
        size < 0 ==> is_code_err(r, size as int),
        size == 0 ==> is_other_err(r, "Buffer is incompressible"@),
        size > 0 ==> r is Ok && r->Ok_0@ == dst@.take(size as int),
{
    let n = compress_into_ctx_finish(size)?;
    let mut dst = dst;
    if dst.len() > n {
        dst.truncate(n);
    }
    Ok(dst)
}

/// What the engine is asked when decompressing.
pub struct DecompressCall {
    /// The length of the compressed source.
    pub src_size: i32,
    /// How many bytes the destination may receive.
    pub dst_size: i32,
    /// How many items of the destination type the decompressed bytes make.
    pub n_items: usize,
}

/// What `decompress` asks the engine for the source bytes `src`.
pub open spec fn decompress_call_of<T>(src: Seq<u8>, c: DecompressCall) -> bool {
    &&& c.src_size == src.len() as i32
    &&& c.dst_size == header_nbytes(src)
    &&& c.n_items == items_in::<T>(src)
}

/// Decompress `src` into items of `T`: an empty `src` gives nothing; a `src` whose
/// header cannot be read gives the engine's error; otherwise the engine is asked
/// for the header's uncompressed size.
pub fn decompress<T>(src: &[u8]) -> (s: Step<Vec<T>, DecompressCall>)
    requires
        size_of::<T>() > 0,
    ensures
        src@.len() == 0 ==> s is Done && s->Done_0 is Ok && s->Done_0->Ok_0@.len() == 0,
        src@.len() > 0 && header_code(src@) != 0 ==> s is Done && is_code_err(
            s->Done_0,
            header_code(src@),
        ),
        src@.len() > 0 && header_code(src@) == 0 ==> s is Call && decompress_call_of::<T>(
            src@,
            s->Call_0,
        ),
{
    if src.len() == 0 {
        return Step::Done(Ok(Vec::new()));
    }
    match read_header(src) {
        Err(e) => Step::Done(Err(e)),
        Ok((nbytes, _, _)) => Step::Call(
            DecompressCall {
                src_size: src.len() as i32,
                dst_size: nbytes,
                n_items: nbytes as usize / core::mem::size_of::<T>(),
            },
        ),
    }
}

/// Decompress `src` with a context; the same decisions as `decompress`.
pub fn decompress_ctx<T>(src: &[u8]) -> (s: Step<Vec<T>, DecompressCall>)
    requires
        size_of::<T>() > 0,
    ensures
        src@.len() == 0 ==> s is Done && s->Done_0 is Ok && s->Done_0->Ok_0@.len() == 0,
        src@.len() > 0 && header_code(src@) != 0 ==> s is Done && is_code_err(
            s->Done_0,
            header_code(src@),
        ),
        src@.len() > 0 && header_code(src@) == 0 ==> s is Call && decompress_call_of::<T>(
            src@,
            s->Call_0,
        ),
{
    decompress::<T>(src)
}

/// The number of items that `decompress` keeps, once the engine returned `n_bytes`
/// for the call `call`.
pub fn decompress_finish(n_bytes: i32, call: &DecompressCall) -> (r: Result<usize>)
    requires
        n_bytes < 0 ==> is_error_code(n_bytes as int),
    ensures
        n_bytes < 0 ==> is_code_err(r, n_bytes as int),
        n_bytes >= 0 ==> r == Ok::<usize, Error>(call.n_items),
{
    if n_bytes < 0 {
        return Err(code_error(n_bytes));
    }
    Ok(call.n_items)
}

/// The destination size handed to the engine: the header's uncompressed size, or
/// the destination's size where that is smaller.
pub open spec fn dst_size_of(src: Seq<u8>, dst_bytes: usize) -> i32 {
    if (dst_bytes as int) < header_nbytes(src) {
        dst_bytes as i32
    } else {
        header_nbytes(src)
    }
}

/// The smaller of `dst_bytes` and `nbytes`.
fn capped_size(dst_bytes: usize, nbytes: i32) -> (r: i32)
    ensures
        r == (if (dst_bytes as int) < nbytes {
            dst_bytes as i32
        } else {
            nbytes
        }),
{
    if nbytes > 0 && dst_bytes < nbytes as usize {
        dst_bytes as i32
    } else {
        nbytes
    }
}

/// Decompress `src` into a destination of `dst_bytes` bytes: an empty `src` gives
/// 0; a `src` whose header cannot be read gives the engine's error; otherwise the
/// engine decompresses the header's uncompressed size, capped at `dst_bytes`.
pub fn decompress_into(src: &[u8], dst_bytes: usize) -> (s: Step<usize, (i32, i32)>)
    ensures
        src@.len() == 0 ==> s is Done && s->Done_0 == Ok::<usize, Error>(0),
        src@.len() > 0 && header_code(src@) != 0 ==> s is Done && is_code_err(
            s->Done_0,
            header_code(src@),
        ),
        src@.len() > 0 && header_code(src@) == 0 ==> s is Call && s->Call_0 == (
            src@.len() as i32,
            dst_size_of(src@, dst_bytes),
        ),
{
    if src.len() == 0 {
        return Step::Done(Ok(0));
    }
    match read_header(src) {
        Err(e) => Step::Done(Err(e)),
        Ok((nbytes, _, _)) => Step::Call((src.len() as i32, capped_size(dst_bytes, nbytes))),
    }
}

/// Decompress `src`, whose bytes are `src_bytes` and which holds `src_items` items,
/// into a destination of `dst_bytes` bytes with a context: the same decisions as
/// `decompress_into`, with the source's length handed on as its number of items.
pub fn decompress_into_ctx(src_bytes: &[u8], src_items: usize, dst_bytes: usize) -> (s: Step<
    usize,
    (i32, i32),
>)
    ensures
        src_items == 0 ==> s is Done && s->Done_0 == Ok::<usize, Error>(0),
        src_items > 0 && header_code(src_bytes@) != 0 ==> s is Done && is_code_err(
            s->Done_0,
            header_code(src_bytes@),
        ),
        src_items > 0 && header_code(src_bytes@) == 0 ==> s is Call && s->Call_0 == (
            src_items as i32,
            dst_size_of(src_bytes@, dst_bytes),
        ),
{
    if src_items == 0 {
        return Step::Done(Ok(0));
    }
    match read_header(src_bytes) {
        Err(e) => Step::Done(Err(e)),
        Ok((nbytes, _, _)) => Step::Call((src_items as i32, capped_size(dst_bytes, nbytes))),
    }
}

/// The result of `decompress_into`: the number of bytes the engine wrote, or its error.
pub fn decompress_into_finish(n_bytes: i32) -> (r: Result<usize>)
    requires
        n_bytes < 0 ==> is_error_code(n_bytes as int),
    ensures
        n_bytes < 0 ==> is_code_err(r, n_bytes as int),
        n_bytes >= 0 ==> r == Ok::<usize, Error>(n_bytes as usize),
{
    if n_bytes < 0 {
        return Err(code_error(n_bytes));
    }
    Ok(n_bytes as usize)
}

/// What the engine is asked when retrieving items from a compressed buffer:
/// the source length, the first item, the number of items, the destination bytes.
pub struct GetItemsCall {
    pub src_size: i32,
    pub start: i32,
    pub nitems: i32,
    pub dst_size: i32,
}

/// Retrieve `n_items` items of `T` from item `offset` of the compressed `src`.
pub fn getitems<T>(src: &[u8], offset: usize, n_items: usize) -> (c: GetItemsCall)
    requires
        n_items * size_of::<T>() <= usize::MAX,
    ensures
        c.src_size == src@.len() as i32,
        c.start == offset as i32,
        c.nitems == n_items as i32,
        c.dst_size == (n_items * size_of::<T>()) as i32,
{
    GetItemsCall {
        src_size: src.len() as i32,
        start: offset as i32,
        nitems: n_items as i32,
        dst_size: (n_items * core::mem::size_of::<T>()) as i32,
    }
}

/// The number of items of `T` that `getitems` gives, once the engine returned `nbytes`.
pub fn getitems_finish<T>(nbytes: i32) -> (r: Result<usize>)
    requires
        nbytes < 0 ==> is_error_code(nbytes as int),
        size_of::<T>() > 0,
    ensures
        nbytes < 0 ==> is_code_err(r, nbytes as int),
        nbytes >= 0 ==> r == Ok::<usize, Error>(nbytes as usize / size_of::<T>() as usize),
{
    if nbytes < 0 {
        return Err(code_error(nbytes));
    }
    Ok(nbytes as usize / core::mem::size_of::<T>())
}

/// The name that `set_compressor` hands to the engine for `codec`, once the
/// engine's name lookup for its code returned `rc` and the name `name`.
pub fn set_compressor(codec: Codec, rc: i32, name: &str) -> (r: Result<String>)
    ensures
        rc == -1 ==> is_other_err(r, "Unsupported Codec "@ + codec.spec_debug()),
        rc != -1 ==> r is Ok && r->Ok_0@ == name@,
{
    codec.to_name(rc, name)
}

/// The result of `set_compressor`, once the engine returned `rc`.
pub fn set_compressor_finish(rc: i32) -> (r: Result<()>)
    requires
        rc < 0 ==> is_error_code(rc as int),
    ensures
        rc < 0 ==> is_code_err(r, rc as int),
        rc >= 0 ==> r is Ok,
{
    if rc < 0 {
        Err(code_error(rc))
    } else {
        Ok(())
    }
}

/// The result of `free_resources`, once the engine returned `ret`.
pub fn free_resources_finish(ret: i32) -> (r: Result<()>)
    requires
        ret != 0 ==> is_error_code(ret as int),
    ensures
        ret != 0 ==> is_code_err(r, ret as int),
        ret == 0 ==> r is Ok,
{
    if ret != 0 {
        Err(code_error(ret))
    } else {
        Ok(())
    }
}

/// Whether `get_complib_info` goes on, once the engine's name lookup for the
/// codec's code returned `rc`: -1 means that the engine knows no such codec.
pub fn get_complib_info(rc: i32) -> (r: Result<()>)
    ensures
        rc == -1 ==> is_other_err(r, "Codec not recognized"@),
        rc != -1 ==> r is Ok,
{
    if rc == -1 {
        return Err(Error::other("Codec not recognized"));
    }
    Ok(())
}

/// The codec library's information: `complib: version`, or the error that the
/// engine reported when it did not know the library (`rc == -1`).
pub fn get_complib_info_finish(rc: i32, complib: &str, version: &str) -> (r: Result<String>)
    ensures
        rc == -1 ==> is_other_err(r, "Codec not supported"@),
        rc != -1 ==> r is Ok && r->Ok_0@ == complib@ + ": "@ + version@,
{
    if rc == -1 {
        return Err(Error::other("Codec not supported"));
    }
    let mut info = String::from_str(complib);
    info.append(": ");
    info.append(version);
    Ok(info)
}

/// Get the Blosc2 version string
pub fn get_version_string() -> (r: Result<String>)
    ensures
        r is Ok && r->Ok_0@ == BLOSC2_VERSION_STRING@,
{
    Ok(String::from_str(BLOSC2_VERSION_STRING))
}

/// The index of the first comma in `s`, or -1 where it has none.
pub open spec fn first_comma(s: Seq<char>) -> int
    decreases s.len(),
{
    if s.len() == 0 {
        -1
    } else if s[0] == ',' {
        0
    } else {
        let k = first_comma(s.skip(1));
        if k < 0 {
            -1
        } else {
            k + 1
        }
    }
}

/// `first_comma` finds the first comma, or says that there is none.
pub proof fn lemma_first_comma(s: Seq<char>)
    ensures
        -1 <= first_comma(s) < s.len(),
        first_comma(s) >= 0 ==> s[first_comma(s)] == ',',
        forall|j: int| 0 <= j < s.len() && (first_comma(s) < 0 || j < first_comma(s)) ==> s[j] != ',',
    decreases s.len(),
{
    if s.len() > 0 && s[0] != ',' {
        lemma_first_comma(s.skip(1));
        assert forall|j: int| 0 <= j < s.len() && (first_comma(s) < 0 || j < first_comma(s)) implies s[j] != ',' by {
            if j > 0 {
                assert(s[j] == s.skip(1)[j - 1]);
            }
        }
    }
}

/// The pieces of `s` between its commas, in order (one piece where it has none).
pub open spec fn pieces(s: Seq<char>) -> Seq<Seq<char>>
    decreases s.len(),
{
    let k = first_comma(s);
    if k < 0 {
        seq![s]
    } else {
        proof {
            lemma_first_comma(s);
        }
        seq![s.take(k)] + pieces(s.skip(k + 1))
    }
}

/// The codecs that the names `names` give from index `i` on, once the engine
/// returned the code `codes[j]` for each name `names[j]`; or the message of the
/// first that gives none.
pub open spec fn codec_list_from(names: Seq<Seq<char>>, codes: Seq<i32>, i: int) -> core::result::Result<
    Seq<Codec>,
    Seq<char>,
>
    decreases names.len() - i,
{
    if i < 0 || i >= names.len() {
        Ok(Seq::empty())
    } else {
        match Codec::spec_from_name_code(names[i], codes[i] as int) {
            Err(msg) => Err(msg),
            Ok(c) => match codec_list_from(names, codes, i + 1) {
                Ok(rest) => Ok(seq![c] + rest),
                Err(msg) => Err(msg),
            },
        }
    }
}

/// The char index of the first comma in `s`, if any.
fn find_comma(s: &str) -> (r: Option<usize>)
    ensures
        r is None <==> first_comma(s@) < 0,
        r is Some ==> r->0 == first_comma(s@),
{
    proof {
        lemma_first_comma(s@);
    }
    let n = s.unicode_len();
    let mut i: usize = 0;
    while i < n
        invariant
            n == s@.len(),
            i <= n,
            forall|j: int| 0 <= j < i ==> s@[j] != ',',
            -1 <= first_comma(s@) < s@.len(),
            first_comma(s@) >= 0 ==> s@[first_comma(s@)] == ',',
            forall|j: int| 0 <= j < s@.len() && (first_comma(s@) < 0 || j < first_comma(s@)) ==> s@[j] != ',',
        decreases n - i,
    {
        if s.get_char(i) == ',' {
            return Some(i);
        }
        i = i + 1;
    }
    None
}

/// The names in the engine's comma-separated list `names`, in order.
pub fn compressor_names(names: &str) -> (v: Vec<String>)
    ensures
        v@.map_values(|x: String| x@) == pieces(names@),
{
    let mut out: Vec<String> = Vec::new();
    let mut rest: &str = names;
    loop
        invariant
            out@.map_values(|x: String| x@) + pieces(rest@) == pieces(names@),
        decreases rest@.len(),
    {
        let n = rest.unicode_len();
        proof {
            lemma_first_comma(rest@);
        }
        let ghost before = out@.map_values(|x: String| x@);
        match find_comma(rest) {
            None => {
                out.push(String::from_str(rest));
                assert(out@.map_values(|x: String| x@) =~= before + pieces(rest@));
                return out;
            },
            Some(k) => {
                let piece = rest.substring_char(0, k);
                let next = rest.substring_char(k + 1, n);
                assert(piece@ =~= rest@.take(k as int));
                assert(next@ =~= rest@.skip(k + 1));
                out.push(String::from_str(piece));
                assert(out@.map_values(|x: String| x@) =~= before + seq![piece@]);
                assert(pieces(rest@) =~= seq![piece@] + pieces(next@));
                assert(before + pieces(rest@) =~= (before + seq![piece@]) + pieces(next@));
                rest = next;
            },
        }
    }
}

/// Get a list of supported compressors, from the engine's comma-separated list of
/// their names `names`, once the engine returned the code `codes[i]` for the `i`th
/// name: -1 where it knows no such name.
pub fn list_compressors(names: &str, codes: &[i32]) -> (r: Result<Vec<Codec>>)
    requires
        codes@.len() == pieces(names@).len(),
    ensures
        match codec_list_from(pieces(names@), codes@, 0) {
            Ok(codecs) => r is Ok && r->Ok_0@ == codecs,
            Err(msg) => is_other_err(r, msg),
        },
{
    let list = compressor_names(names);
    let ghost ps = pieces(names@);
    assert(list@.len() == ps.len());
    let mut codecs: Vec<Codec> = Vec::new();
    let mut i: usize = 0;
    while i < list.len()
        invariant
            list@.map_values(|x: String| x@) == ps,
            ps == pieces(names@),
            codes@.len() == ps.len(),
            list@.len() == ps.len(),
            i <= list@.len(),
            match codec_list_from(ps, codes@, i as int) {
                Ok(t) => codec_list_from(ps, codes@, 0) == Ok::<Seq<Codec>, Seq<char>>(codecs@ + t),
                Err(msg) => codec_list_from(ps, codes@, 0) == Err::<Seq<Codec>, Seq<char>>(msg),
            },
        decreases list@.len() - i,
    {
        assert(list@[i as int]@ == ps[i as int]);
        match Codec::try_from_finish(list[i].as_str(), codes[i]) {
            Ok(c) => {
                let ghost before = codecs@;
                codecs.push(c);
                proof {
                    match codec_list_from(ps, codes@, i + 1) {
                        Ok(t) => assert(before + (seq![c] + t) =~= codecs@ + t),
                        Err(_) => {},
                    }
                }
            },
            Err(e) => {
                return Err(e);
            },
        }
        i = i + 1;
    }
    assert(codecs@ + Seq::<Codec>::empty() =~= codecs@);
    Ok(codecs)
}

} // verus!
