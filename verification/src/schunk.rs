//! Storage settings, chunks, super-chunks and the reader that decodes a super-chunk
//! chunk by chunk.

use crate::buffer::{
    decompress, getitems, header_cbytes, header_code, header_nbytes, items_in, CompressedBufferInfo,
    DecompressCall, GetItemsCall, Step,
};
use crate::codec::{find_nul, first_nul, nul_error};
use crate::error::{code_error, is_code_err, is_error_code, is_other_err, Error, Result};
use crate::params::{CParams, DParams};
use crate::text::{int_text, push_u64};
use vstd::prelude::*;
use vstd::slice::slice_subrange;
use vstd::string::*;

verus! {

/// Settings of a super-chunk: where it is stored, whether its frame is contiguous,
/// and its de/compression parameters.
pub struct Storage {
    contiguous: bool,
    urlpath: Option<String>,
    cparams: CParams,
    dparams: DParams,
}

impl Storage {
    pub closed spec fn spec_contiguous(&self) -> bool {
        self.contiguous
    }

    /// The file path, if file backed.
    pub closed spec fn spec_urlpath(&self) -> Option<Seq<char>> {
        match self.urlpath {
            Some(s) => Some(s@),
            None => None,
        }
    }

    pub closed spec fn spec_cparams(&self) -> CParams {
        self.cparams
    }

    pub closed spec fn spec_dparams(&self) -> DParams {
        self.dparams
    }

    /// Set url/file path to specify a file-backed `schunk`.
    /// if not set, defaults to an in-memory `schunk`
    pub fn set_urlpath(self, urlpath: &str) -> (r: Result<Self>)
        ensures
            match first_nul(urlpath.spec_bytes()) {
                Some(pos) => is_other_err(
                    r,
                    "nul byte found in provided data at position: "@ + int_text(pos),
                ),
                None => r is Ok && r->Ok_0.spec_urlpath() == Some(urlpath@) && r->Ok_0.spec_contiguous()
                    == self.spec_contiguous() && r->Ok_0.spec_cparams() == self.spec_cparams()
                    && r->Ok_0.spec_dparams() == self.spec_dparams(),
            },
    {
        match find_nul(urlpath) {
            Some(pos) => Err(nul_error(pos)),
            None => {
                let mut s = self;
                s.urlpath = Some(String::from_str(urlpath));
                Ok(s)
            },
        }
    }

    /// Reference to the urlpath (if any)
    pub fn get_urlpath(&self) -> (r: Result<Option<&str>>)
        ensures
            r is Ok,
            match r->Ok_0 {
                Some(s) => self.spec_urlpath() == Some(s@),
                None => self.spec_urlpath() is None,
            },
    {
        match &self.urlpath {
            Some(s) => Ok(Some(s.as_str())),
            None => Ok(None),
        }
    }

    /// Set the contiguous nature of the `schunk`.
    pub fn set_contiguous(self, contiguous: bool) -> (s: Self)
        ensures
            s.spec_contiguous() == contiguous,
            s.spec_urlpath() == self.spec_urlpath(),
            s.spec_cparams() == self.spec_cparams(),
            s.spec_dparams() == self.spec_dparams(),
    {
        let mut s = self;
        s.contiguous = contiguous;
        s
    }

    /// Whether the `schunk` is contiguous.
    pub fn get_contiguous(&self) -> (b: bool)
        ensures
            b == self.spec_contiguous(),
    {
        self.contiguous
    }

    /// Set compression parameters
    pub fn set_cparams(self, cparams: CParams) -> (s: Self)
        ensures
            s.spec_cparams() == cparams,
            s.spec_contiguous() == self.spec_contiguous(),
            s.spec_urlpath() == self.spec_urlpath(),
            s.spec_dparams() == self.spec_dparams(),
    {
        let mut s = self;
        s.cparams = cparams;
        s
    }

    /// Get compression parameters
    pub fn get_cparams(&self) -> (c: &CParams)
        ensures
            *c == self.spec_cparams(),
    {
        &self.cparams
    }

    /// Set decompression parameters
    pub fn set_dparams(self, dparams: DParams) -> (s: Self)
        ensures
            s.spec_dparams() == dparams,
            s.spec_contiguous() == self.spec_contiguous(),
            s.spec_urlpath() == self.spec_urlpath(),
            s.spec_cparams() == self.spec_cparams(),
    {
        let mut s = self;
        s.dparams = dparams;
        s
    }

    /// Get decompression parameters
    pub fn get_dparams(&self) -> (d: &DParams)
        ensures
            *d == self.spec_dparams(),
    {
        &self.dparams
    }
}

impl Default for Storage {
    fn default() -> (s: Self)
        ensures
            !s.spec_contiguous(),
            s.spec_urlpath() is None,
            s.spec_cparams() == CParams::spec_default(),
            s.spec_dparams() == DParams::spec_default(),
    {
        Storage {
            contiguous: false,
            urlpath: None,
            cparams: CParams::default(),
            dparams: DParams::default(),
        }
    }
}

/// Whether `v` is a chunk: it starts with a readable chunk header.
pub open spec fn is_chunk(v: Seq<u8>) -> bool {
    header_code(v) == 0
}

/// Whether `v` holds all the compressed bytes that its header gives.
pub open spec fn holds_all(v: Seq<u8>) -> bool {
    header_cbytes(v) as int <= v.len()
}

/// The bytes of a chunk up to its compressed size are a chunk with the same header.
pub proof fn lemma_chunk_prefix(b: Seq<u8>)
    requires
        is_chunk(b),
        holds_all(b),
    ensures
        is_chunk(b.take(header_cbytes(b) as int)),
        b.take(header_cbytes(b) as int).subrange(0, 16) == b.subrange(0, 16),
        header_nbytes(b.take(header_cbytes(b) as int)) == header_nbytes(b),
        header_cbytes(b.take(header_cbytes(b) as int)) == header_cbytes(b),
{
    let t = b.take(header_cbytes(b) as int);
    assert(t.subrange(0, 16) =~= b.subrange(0, 16));
    assert forall|i: int| 0 <= i < 16 implies t[i] == b[i] by {
        assert(t.subrange(0, 16)[i] == b.subrange(0, 16)[i]);
    }
}

/// A chunk buffer that holds exactly its compressed size comes back whole from
/// `Chunk::from_vec` and `Chunk::into_vec`: the bytes that `into_vec` gives of such a
/// buffer are all of it.
pub proof fn law_chunk_vec_roundtrip(v: Seq<u8>)
    requires
        is_chunk(v),
        header_cbytes(v) as int == v.len(),
    ensures
        holds_all(v),
        v.take(header_cbytes(v) as int) == v,
{
    assert(v.take(header_cbytes(v) as int) =~= v);
}

/// A single compressed chunk: a buffer that starts with a readable chunk header.
pub struct Chunk {
    buf: Vec<u8>,
    info: CompressedBufferInfo,
}

impl Chunk {
    #[verifier::type_invariant]
    spec fn inv(self) -> bool {
        &&& is_chunk(self.buf@)
        &&& CompressedBufferInfo::spec_of_header(self.buf@, self.info)
    }

    /// The chunk's buffer.
    pub closed spec fn spec_buf(self) -> Seq<u8> {
        self.buf@
    }

    /// The chunk's bytes: as many as its header says it holds.
    pub open spec fn bytes(self) -> Seq<u8> {
        self.spec_buf().take(header_cbytes(self.spec_buf()) as int)
    }

    /// Construct a Chunk from a vector of bytes: it must start with a readable
    /// chunk header.
    pub fn from_vec(v: Vec<u8>) -> (r: Result<Chunk>)
        ensures
            is_chunk(v@) ==> r is Ok && r->Ok_0.spec_buf() == v@,
            !is_chunk(v@) ==> is_other_err(r, "Appears this buffer is not a valid blosc2 chunk"@),
    {
        match CompressedBufferInfo::try_from(v.as_slice()) {
            Ok(info) => Ok(Chunk { buf: v, info }),
            Err(_) => Err(Error::other("Appears this buffer is not a valid blosc2 chunk")),
        }
    }

    /// Whether the buffer holds all the compressed bytes that the header gives.
    pub fn holds_all(&self) -> (b: bool)
        ensures
            b == holds_all(self.spec_buf()),
    {
        proof {
            use_type_invariant(self);
        }
        self.info.cbytes() <= self.buf.len()
    }

    /// The chunk's whole buffer.
    pub fn into_buf(self) -> (v: Vec<u8>)
        ensures
            v@ == self.spec_buf(),
    {
        self.buf
    }

    /// Export this Chunk into a `Vec<u8>`: its compressed bytes.
    pub fn into_vec(self) -> (r: Result<Vec<u8>>)
        requires
            holds_all(self.spec_buf()),
        ensures
            r is Ok && r->Ok_0@ == self.bytes(),
    {
        proof {
            use_type_invariant(&self);
        }
        let n = self.info.cbytes();
        let mut v = self.buf;
        v.truncate(n);
        Ok(v)
    }

    /// Get the raw buffer of this chunk: its compressed bytes.
    pub fn as_slice(&self) -> (r: Result<&[u8]>)
        requires
            holds_all(self.spec_buf()),
        ensures
            r is Ok && r->Ok_0@ == self.bytes(),
    {
        proof {
            use_type_invariant(self);
        }
        Ok(slice_subrange(self.buf.as_slice(), 0, self.info.cbytes()))
    }

    /// Get `CompressedBufferInfo` for this chunk: the sizes in its header.
    pub fn info(&self) -> (r: Result<CompressedBufferInfo>)
        ensures
            is_chunk(self.spec_buf()),
            r is Ok && CompressedBufferInfo::spec_of_header(self.spec_buf(), r->Ok_0),
    {
        proof {
            use_type_invariant(self);
        }
        Ok(self.info)
    }

    /// Uncompressed bytes in this Chunk
    pub fn nbytes(&self) -> (r: Result<usize>)
        ensures
            r == Ok::<usize, Error>(header_nbytes(self.spec_buf()) as usize),
    {
        proof {
            use_type_invariant(self);
        }
        Ok(self.info.nbytes())
    }

    /// Compressed bytes in this Chunk
    pub fn cbytes(&self) -> (r: Result<usize>)
        ensures
            r == Ok::<usize, Error>(header_cbytes(self.spec_buf()) as usize),
    {
        proof {
            use_type_invariant(self);
        }
        Ok(self.info.cbytes())
    }

    /// Return the number of elements of `T` in the compressed Chunk
    pub fn len<T>(&self) -> (r: Result<usize>)
        requires
            size_of::<T>() > 0,
        ensures
            r == Ok::<usize, Error>(
                items_in::<T>(self.spec_buf()),
            ),
    {
        proof {
            use_type_invariant(self);
        }
        Ok(self.info.nbytes() / core::mem::size_of::<T>())
    }

    /// Retrieve `n_items` items of `T` from item `offset`: refused where the chunk
    /// holds fewer than `offset + n_items` items.
    pub fn getitems<T>(&self, offset: usize, n_items: usize) -> (r: Result<GetItemsCall>)
        requires
            size_of::<T>() > 0,
            offset + n_items <= usize::MAX,
            n_items * size_of::<T>() <= usize::MAX,
            holds_all(self.spec_buf()),
        ensures
            ({
                let len = items_in::<T>(self.spec_buf());
                &&& len < offset + n_items ==> is_other_err(
                    r,
                    "Would be out of bounds. Chunk contains "@ + int_text(len as int) + " elements"@,
                )
                &&& len >= offset + n_items ==> r is Ok && r->Ok_0.src_size
                    == self.bytes().len() as i32 && r->Ok_0.start == offset as i32
                    && r->Ok_0.nitems == n_items as i32 && r->Ok_0.dst_size == (n_items
                    * size_of::<T>()) as i32
            }),
    {
        proof {
            use_type_invariant(self);
        }
        let len = self.info.nbytes() / core::mem::size_of::<T>();
        if len < offset + n_items {
            let mut msg = String::from_str("Would be out of bounds. Chunk contains ");
            push_u64(&mut msg, len as u64);
            msg.append(" elements");
            return Err(Error::Other(msg));
        }
        let src = slice_subrange(self.buf.as_slice(), 0, self.info.cbytes());
        Ok(getitems::<T>(src, offset, n_items))
    }

    /// Decompress the chunk into items of `T`.
    pub fn decompress<T>(&self) -> (s: Step<Vec<T>, DecompressCall>)
        requires
            size_of::<T>() > 0,
            holds_all(self.spec_buf()),
        ensures
            s is Call,
            s->Call_0.src_size == self.bytes().len() as i32,
            s->Call_0.dst_size == header_nbytes(self.spec_buf()),
            s->Call_0.n_items == items_in::<T>(self.spec_buf()),
    {
        proof {
            use_type_invariant(self);
            lemma_chunk_prefix(self.buf@);
        }
        let src = slice_subrange(self.buf.as_slice(), 0, self.info.cbytes());
        decompress::<T>(src)
    }
}

/// What the engine is asked when it makes a special chunk (uninitialized, zeros,
/// or one repeated value) of items of `T`.
pub struct ChunkInitCall {
    /// The parameters, with the type size of `T`.
    pub cparams: CParams,
    /// The number of uncompressed bytes.
    pub nbytes: i32,
    /// The capacity of the destination.
    pub capacity: usize,
}

impl Chunk {
    /// The call that makes a special chunk of `len` items of `T` with `cparams`,
    /// whose type size becomes that of `T`.
    pub fn init_call<T>(cparams: CParams, len: usize) -> (c: ChunkInitCall)
        requires
            size_of::<T>() <= i32::MAX,
            i32::MIN <= (len as i32) * (size_of::<T>() as i32) <= i32::MAX,
            len * size_of::<T>() + 32 <= usize::MAX,
        ensures
            c.cparams == (CParams { typesize: size_of::<T>() as i32, ..cparams }),
            c.nbytes == (len as i32) * (size_of::<T>() as i32),
            c.capacity == len * size_of::<T>() + 32,
    {
        let size = core::mem::size_of::<T>();
        let mut cparams = cparams;
        cparams.typesize = size as i32;
        ChunkInitCall {
            cparams,
            nbytes: (len as i32) * cparams.typesize,
            capacity: len * (cparams.typesize as usize) + crate::buffer::BLOSC_EXTENDED_HEADER_LENGTH,
        }
    }

    /// The chunk that the engine made, of the first `nbytes` bytes it wrote.
    fn made_chunk(nbytes: i32, written: Vec<u8>) -> (r: Result<Chunk>)
        requires
            0 <= nbytes <= written@.len(),
        ensures
            is_chunk(written@.take(nbytes as int)) ==> r is Ok && r->Ok_0.spec_buf()
                == written@.take(nbytes as int),
            !is_chunk(written@.take(nbytes as int)) ==> is_other_err(
                r,
                "Appears this buffer is not a valid blosc2 chunk"@,
            ),
    {
        let mut dst = written;
        dst.truncate(nbytes as usize);
        Chunk::from_vec(dst)
    }

    /// The chunk of uninitialized values, once the engine returned `nbytes` and wrote `written`.
    pub fn uninit_finish(nbytes: i32, written: Vec<u8>) -> (r: Result<Chunk>)
        requires
            nbytes <= written@.len(),
        ensures
            nbytes < 0 ==> is_other_err(r, "Failed to create uninitialized chunk"@),
            nbytes >= 0 && is_chunk(written@.take(nbytes as int)) ==> r is Ok && r->Ok_0.spec_buf()
                == written@.take(nbytes as int),
            nbytes >= 0 && !is_chunk(written@.take(nbytes as int)) ==> is_other_err(
                r,
                "Appears this buffer is not a valid blosc2 chunk"@,
            ),
    {
        if nbytes < 0 {
            return Err(Error::other("Failed to create uninitialized chunk"));
        }
        Self::made_chunk(nbytes, written)
    }

    /// The chunk of one repeated value, once the engine returned `nbytes` and wrote `written`.
    pub fn repeatval_finish(nbytes: i32, written: Vec<u8>) -> (r: Result<Chunk>)
        requires
            nbytes <= written@.len(),
        ensures
            nbytes < 0 ==> is_other_err(r, "Failed to create chunk"@),
            nbytes >= 0 && is_chunk(written@.take(nbytes as int)) ==> r is Ok && r->Ok_0.spec_buf()
                == written@.take(nbytes as int),
            nbytes >= 0 && !is_chunk(written@.take(nbytes as int)) ==> is_other_err(
                r,
                "Appears this buffer is not a valid blosc2 chunk"@,
            ),
    {
        if nbytes < 0 {
            return Err(Error::other("Failed to create chunk"));
        }
        Self::made_chunk(nbytes, written)
    }

    /// The chunk of zeros, once the engine returned `nbytes` and wrote `written`.
    pub fn zeros_finish(nbytes: i32, written: Vec<u8>) -> (r: Result<Chunk>)
        requires
            nbytes <= written@.len(),
            nbytes < 0 ==> is_error_code(nbytes as int),
        ensures
            nbytes < 0 ==> is_code_err(r, nbytes as int),
            nbytes >= 0 && is_chunk(written@.take(nbytes as int)) ==> r is Ok && r->Ok_0.spec_buf()
                == written@.take(nbytes as int),
            nbytes >= 0 && !is_chunk(written@.take(nbytes as int)) ==> is_other_err(
                r,
                "Appears this buffer is not a valid blosc2 chunk"@,
            ),
    {
        if nbytes < 0 {
            return Err(code_error(nbytes));
        }
        Self::made_chunk(nbytes, written)
    }
}

/// The result of asking the engine for a chunk of a super-chunk, once it returned `rc`.
pub fn get_chunk_finish(rc: i32) -> (r: Result<()>)
    requires
        rc < 0 ==> is_error_code(rc as int),
    ensures
        rc < 0 ==> is_code_err(r, rc as int),
        rc >= 0 ==> r is Ok,
{
    if rc < 0 {
        Err(code_error(rc))
    } else {
        Ok(())
    }
}

/// `a / b` rounded toward zero, as integer division does.
pub open spec fn trunc_div(a: int, b: int) -> int {
    let ma = if a < 0 {
        -a
    } else {
        a
    };
    let mb = if b < 0 {
        -b
    } else {
        b
    };
    let q = ma / mb;
    if (a < 0) != (b < 0) {
        -q
    } else {
        q
    }
}

/// What the library reads of a super-chunk: the sizes and settings that the
/// engine keeps for it.
pub struct SChunk {
    typesize: i32,
    nchunks: i64,
    chunksize: i32,
    blocksize: i32,
    nbytes: i64,
    cbytes: i64,
    contiguous: bool,
    urlpath: Option<String>,
    has_frame: bool,
}

impl SChunk {
    pub closed spec fn spec_typesize(self) -> int {
        self.typesize as int
    }

    pub closed spec fn spec_nchunks(self) -> int {
        self.nchunks as int
    }

    pub closed spec fn spec_chunksize(self) -> int {
        self.chunksize as int
    }

    pub closed spec fn spec_blocksize(self) -> int {
        self.blocksize as int
    }

    pub closed spec fn spec_nbytes(self) -> int {
        self.nbytes as int
    }

    pub closed spec fn spec_cbytes(self) -> int {
        self.cbytes as int
    }

    pub closed spec fn spec_contiguous(self) -> bool {
        self.contiguous
    }

    pub closed spec fn spec_urlpath(self) -> Option<Seq<char>> {
        match self.urlpath {
            Some(s) => Some(s@),
            None => None,
        }
    }

    pub closed spec fn spec_has_frame(self) -> bool {
        self.has_frame
    }

    /// Whether the items can be counted: the type size is positive and the
    /// uncompressed size is not negative, as the engine keeps them.
    pub open spec fn spec_can_count(self) -> bool {
        self.spec_typesize() > 0 && self.spec_nbytes() >= 0
    }

    /// Whether the items can be counted.
    pub fn can_count(&self) -> (b: bool)
        ensures
            b == self.spec_can_count(),
    {
        self.typesize > 0 && self.nbytes >= 0
    }

    /// The number of items: uncompressed bytes over the type size.
    pub open spec fn spec_len(self) -> usize {
        (self.spec_nbytes() / self.spec_typesize()) as usize
    }

    /// The number of items counts the whole items in the uncompressed bytes: that
    /// many items fit in them, and one more does not.
    pub proof fn law_len_counts_whole_items(self)
        requires
            self.spec_can_count(),
            self.spec_nbytes() <= usize::MAX,
        ensures
            self.spec_len() * self.spec_typesize() <= self.spec_nbytes(),
            self.spec_nbytes() < (self.spec_len() + 1) * self.spec_typesize(),
    {
        let n = self.spec_nbytes();
        let t = self.spec_typesize();
        assert(0 <= n / t <= n) by (nonlinear_arith)
            requires
                n >= 0,
                t > 0,
        ;
        assert((n / t) * t <= n < (n / t + 1) * t) by (nonlinear_arith)
            requires
                n >= 0,
                t > 0,
        ;
    }

    /// The super-chunk whose engine state holds these values.
    pub fn new(
        typesize: i32,
        nchunks: i64,
        chunksize: i32,
        blocksize: i32,
        nbytes: i64,
        cbytes: i64,
        contiguous: bool,
        urlpath: Option<String>,
        has_frame: bool,
    ) -> (s: SChunk)
        ensures
            s.spec_typesize() == typesize,
            s.spec_nchunks() == nchunks,
            s.spec_chunksize() == chunksize,
            s.spec_blocksize() == blocksize,
            s.spec_nbytes() == nbytes,
            s.spec_cbytes() == cbytes,
            s.spec_contiguous() == contiguous,
            s.spec_urlpath() == match urlpath {
                Some(u) => Some(u@),
                None => None::<Seq<char>>,
            },
            s.spec_has_frame() == has_frame,
    {
        SChunk {
            typesize,
            nchunks,
            chunksize,
            blocksize,
            nbytes,
            cbytes,
            contiguous,
            urlpath,
            has_frame,
        }
    }

    /// Check if storage of Schunk is contiguous.
    pub fn is_contiguous(&self) -> (b: bool)
        ensures
            b == self.spec_contiguous(),
    {
        self.contiguous
    }

    /// Check typesize
    pub fn typesize(&self) -> (n: usize)
        ensures
            n == self.spec_typesize() as usize,
    {
        self.typesize as usize
    }

    /// Number of chunks
    pub fn n_chunks(&self) -> (n: usize)
        ensures
            n == self.spec_nchunks() as usize,
    {
        self.nchunks as usize
    }

    /// Chunk shape: items per chunk, the chunk size over the type size rounded
    /// toward zero.
    pub fn chunk_shape(&self) -> (n: usize)
        requires
            self.spec_typesize() != 0,
            !(self.spec_chunksize() == i32::MIN && self.spec_typesize() == -1),
        ensures
            n == trunc_div(self.spec_chunksize(), self.spec_typesize()) as usize,
    {
        let a: i64 = self.chunksize as i64;
        let b: i64 = self.typesize as i64;
        let ua: u64 = if a < 0 { (-a) as u64 } else { a as u64 };
        let ub: u64 = if b < 0 { (-b) as u64 } else { b as u64 };
        let q: u64 = ua / ub;
        assert(q <= ua) by (nonlinear_arith)
            requires q == ua / ub, ub > 0;
        let r: i64 = if (a < 0) != (b < 0) { -(q as i64) } else { q as i64 };
        r as usize
    }

    /// blocksize
    pub fn blocksize(&self) -> (n: usize)
        ensures
            n == self.spec_blocksize() as usize,
    {
        self.blocksize as usize
    }

    /// Count of uncompressed bytes
    pub fn nbytes(&self) -> (n: usize)
        ensures
            n == self.spec_nbytes() as usize,
    {
        self.nbytes as usize
    }

    /// Count of compressed bytes
    pub fn cbytes(&self) -> (n: usize)
        ensures
            n == self.spec_cbytes() as usize,
    {
        self.cbytes as usize
    }

    /// Path where the Schunk is stored, if file backed.
    pub fn path(&self) -> (p: Option<&str>)
        ensures
            match p {
                Some(s) => self.spec_urlpath() == Some(s@),
                None => self.spec_urlpath() is None,
            },
    {
        match &self.urlpath {
            Some(s) => Some(s.as_str()),
            None => None,
        }
    }

    /// Returns number of elements in Schunk (nbytes / typesize)
    pub fn len(&self) -> (n: usize)
        requires
            self.spec_can_count(),
        ensures
            n == self.spec_len(),
    {
        (self.nbytes as u64 / self.typesize as u64) as usize
    }

    /// Whether the Schunk holds no element
    pub fn is_empty(&self) -> (b: bool)
        requires
            self.spec_can_count(),
        ensures
            b == (self.spec_len() == 0),
    {
        self.len() == 0
    }

    /// Whether the Schunk's frame can be read: refused where it has none.
    pub fn frame(&self) -> (r: Result<()>)
        ensures
            self.spec_has_frame() ==> r is Ok,
            !self.spec_has_frame() ==> is_other_err(r, "schunk frame is null"@),
    {
        if !self.has_frame {
            return Err(Error::other("schunk frame is null"));
        }
        Ok(())
    }

    /// Append `data`: nothing to append gives the number of chunks; otherwise its
    /// bytes must be a whole number of items of the Schunk's type size, and the
    /// engine is asked to append that many bytes.
    pub fn append_buffer<T>(&self, data: &[T]) -> (s: Step<usize, i32>)
        requires
            data@.len() > 0 ==> self.spec_typesize() != 0,
            size_of::<T>() * data@.len() <= usize::MAX,
        ensures
            ({
                let nbytes = size_of::<T>() * data@.len();
                let typesize = (#[verifier::truncate] (self.spec_typesize() as usize)) as int;
                &&& data@.len() == 0 ==> s is Done && s->Done_0 == Ok::<usize, Error>(
                    self.spec_nchunks() as usize,
                )
                &&& data@.len() > 0 && nbytes % typesize != 0 ==> s is Done && is_other_err(
                    s->Done_0,
                    "Buffer ("@ + int_text(nbytes) + ") not evenly divisible by typesize: "@
                        + int_text(typesize),
                )
                &&& data@.len() > 0 && nbytes % typesize == 0 ==> s is Call && s->Call_0
                    == nbytes as i32
            }),
    {
        if data.len() == 0 {
            return Step::Done(Ok(self.n_chunks()));
        }
        let nbytes = core::mem::size_of::<T>() * data.len();
        let typesize = self.typesize();
        let t: i32 = self.typesize;
        assert(t as usize != 0) by (bit_vector)
            requires
                t != 0,
        ;
        if nbytes % typesize != 0 {
            let mut msg = String::from_str("Buffer (");
            push_u64(&mut msg, nbytes as u64);
            msg.append(") not evenly divisible by typesize: ");
            push_u64(&mut msg, typesize as u64);
            return Step::Done(Err(Error::Other(msg)));
        }
        Step::Call(nbytes as i32)
    }

    /// The result of appending, once the engine returned the number of chunks `nchunks`.
    pub fn append_buffer_finish(nchunks: i64) -> (r: Result<usize>)
        requires
            nchunks < 0 ==> is_error_code(nchunks as int),
        ensures
            nchunks < 0 ==> is_code_err(r, nchunks as int),
            nchunks >= 0 ==> r == Ok::<usize, Error>(nchunks as usize),
    {
        if nchunks < 0 {
            return Err(code_error(nchunks as i32));
        }
        Ok(nchunks as usize)
    }

    /// Decompress the chunk `nchunk`, whose header sizes are `info`, into a
    /// destination of `dst_len` items of `T`: refused where the destination holds
    /// fewer bytes than the chunk decompresses to; otherwise the engine is asked to
    /// decompress that many bytes.
    pub fn decompress_chunk<T>(
        &self,
        nchunk: usize,
        info: &CompressedBufferInfo,
        dst_len: usize,
    ) -> (r: Result<i32>)
        requires
            dst_len * size_of::<T>() <= usize::MAX,
        ensures
            ({
                let have = dst_len * size_of::<T>();
                &&& have < info.spec_nbytes() ==> is_other_err(
                    r,
                    "Not large enough, need "@ + int_text(info.spec_nbytes() as int)
                        + " bytes but got buffer w/ "@ + int_text(have) + " bytes of storage"@,
                )
                &&& have >= info.spec_nbytes() ==> r == Ok::<i32, Error>(
                    info.spec_nbytes() as i32,
                )
            }),
    {
        let have = dst_len * core::mem::size_of::<T>();
        if have < info.nbytes() {
            let mut msg = String::from_str("Not large enough, need ");
            push_u64(&mut msg, info.nbytes() as u64);
            msg.append(" bytes but got buffer w/ ");
            push_u64(&mut msg, have as u64);
            msg.append(" bytes of storage");
            return Err(Error::Other(msg));
        }
        Ok(info.nbytes() as i32)
    }

    /// The number of items of `T` written when decompressing chunk `nchunk`, once
    /// the engine returned `size`.
    pub fn decompress_chunk_finish<T>(nchunk: usize, size: i32) -> (r: Result<usize>)
        requires
            0 < size_of::<T>() <= i32::MAX,
            size < 0 ==> is_error_code(size as int),
        ensures
            size < 0 ==> is_code_err(r, size as int),
            size == 0 ==> is_other_err(
                r,
                "Non-initialized error decompressing chunk '"@ + int_text(nchunk as int) + "'"@,
            ),
            size > 0 ==> r == Ok::<usize, Error>((size / (size_of::<T>() as i32)) as usize),
    {
        if size < 0 {
            Err(code_error(size))
        } else if size == 0 {
            let mut msg = String::from_str("Non-initialized error decompressing chunk '");
            push_u64(&mut msg, nchunk as u64);
            msg.append("'");
            Err(Error::Other(msg))
        } else {
            let t = core::mem::size_of::<T>() as i32;
            Ok((size / t) as usize)
        }
    }

    /// Set the items from `start` to `stop` from `buf_len` bytes: refused where
    /// `stop` is past the end, or the bytes are not a whole number of items.
    pub fn set_slice_buffer(&self, start: usize, stop: usize, buf_len: usize) -> (r: Result<()>)
        requires
            self.spec_can_count(),
        ensures
            stop > self.spec_len() ==> is_other_err(
                r,
                "`stop`: "@ + int_text(stop as int) + " must be less than len: "@ + int_text(
                    self.spec_len() as int,
                ),
            ),
            stop <= self.spec_len() && (buf_len as int) % self.spec_typesize() != 0 ==> is_other_err(
                r,
                "Buffer is not evenly divisible by SChunk typesize"@,
            ),
            stop <= self.spec_len() && (buf_len as int) % self.spec_typesize() == 0 ==> r is Ok,
    {
        let len = self.len();
        if stop > len {
            let mut msg = String::from_str("`stop`: ");
            push_u64(&mut msg, stop as u64);
            msg.append(" must be less than len: ");
            push_u64(&mut msg, len as u64);
            return Err(Error::Other(msg));
        }
        if buf_len % self.typesize() != 0 {
            return Err(Error::other("Buffer is not evenly divisible by SChunk typesize"));
        }
        Ok(())
    }

    /// The result of setting a slice, once the engine returned `rc`.
    pub fn slice_finish(rc: i32) -> (r: Result<()>)
        requires
            rc != 0 ==> is_error_code(rc as int),
        ensures
            rc != 0 ==> is_code_err(r, rc as int),
            rc == 0 ==> r is Ok,
    {
        if rc != 0 {
            return Err(code_error(rc));
        }
        Ok(())
    }

    /// Get the items from `start` to `stop`, as bytes: refused where `stop` is past
    /// the end or not after `start`; otherwise a zeroed buffer of their bytes, for
    /// the engine to fill.
    pub fn get_slice_buffer(&self, start: usize, stop: usize) -> (r: Result<Vec<u8>>)
        requires
            self.spec_can_count(),
            stop <= self.spec_len() && start < stop ==> (stop - start) * self.spec_typesize()
                <= usize::MAX,
        ensures
            stop > self.spec_len() ==> is_other_err(
                r,
                "Out of bounds. `stop`="@ + int_text(stop as int) + ", is more than length="@
                    + int_text(self.spec_len() as int),
            ),
            stop <= self.spec_len() && stop <= start ==> is_other_err(
                r,
                "start must be less than stop"@,
            ),
            stop <= self.spec_len() && start < stop ==> r is Ok && r->Ok_0@ == Seq::new(
                ((stop - start) * self.spec_typesize()) as nat,
                |i: int| 0u8,
            ),
    {
        let len = self.len();
        if stop > len {
            let mut msg = String::from_str("Out of bounds. `stop`=");
            push_u64(&mut msg, stop as u64);
            msg.append(", is more than length=");
            push_u64(&mut msg, len as u64);
            return Err(Error::Other(msg));
        }
        if stop <= start {
            return Err(Error::other("start must be less than stop"));
        }
        let nbytes = (stop - start) * self.typesize();
        let buf: Vec<u8> = vec![0u8; nbytes];
        Ok(buf)
    }

    /// As `get_slice_buffer`, for items of `T`, which must be of the Schunk's type size.
    pub fn get_slice_buffer_as_type<T>(&self, start: usize, stop: usize) -> (r: Result<Vec<u8>>)
        requires
            self.spec_can_count(),
            stop <= self.spec_len() && start < stop ==> (stop - start) * self.spec_typesize()
                <= usize::MAX,
        ensures
            size_of::<T>() != self.spec_typesize() ==> is_other_err(
                r,
                "Size of T does not match schunk typesize"@,
            ),
            size_of::<T>() == self.spec_typesize() && stop > self.spec_len() ==> is_other_err(
                r,
                "Out of bounds. `stop`="@ + int_text(stop as int) + ", is more than length="@
                    + int_text(self.spec_len() as int),
            ),
            size_of::<T>() == self.spec_typesize() && stop <= self.spec_len() && stop <= start
                ==> is_other_err(r, "start must be less than stop"@),
            size_of::<T>() == self.spec_typesize() && stop <= self.spec_len() && start < stop ==> r is Ok
                && r->Ok_0@ == Seq::new(
                ((stop - start) * self.spec_typesize()) as nat,
                |i: int| 0u8,
            ),
    {
        if core::mem::size_of::<T>() != self.typesize() {
            return Err(Error::other("Size of T does not match schunk typesize"));
        }
        self.get_slice_buffer(start, stop)
    }

    /// Export the Schunk into a buffer: an empty one gives nothing, otherwise the
    /// engine is asked for its frame.
    pub fn into_vec(&self) -> (s: Step<Vec<u8>, ()>)
        requires
            self.spec_can_count(),
        ensures
            self.spec_len() == 0 ==> s is Done && s->Done_0 is Ok && s->Done_0->Ok_0@.len() == 0,
            self.spec_len() != 0 ==> s is Call,
    {
        if self.is_empty() {
            return Step::Done(Ok(Vec::new()));
        }
        Step::Call(())
    }

    /// The exported buffer, once the engine returned `len` and the frame `frame`.
    pub fn into_vec_finish(len: i64, frame: Vec<u8>) -> (r: Result<Vec<u8>>)
        requires
            len < 0 ==> is_error_code(len as int),
        ensures
            len < 0 ==> is_code_err(r, len as int),
            len >= 0 ==> r is Ok && r->Ok_0@ == frame@,
    {
        if len < 0 {
            return Err(code_error(len as i32));
        }
        Ok(frame)
    }

    /// The result of making a Schunk from a buffer, given whether the engine made one.
    pub fn from_vec_finish(made: bool) -> (r: Result<()>)
        ensures
            made ==> r is Ok,
            !made ==> is_other_err(
                r,
                "Failed to get schunk from buffer; might not be valid buffer for schunk"@,
            ),
    {
        if !made {
            return Err(
                Error::other("Failed to get schunk from buffer; might not be valid buffer for schunk"),
            );
        }
        Ok(())
    }
}


/// Where a read of the decoder stands between its calls.
#[derive(Debug, Clone, Copy, PartialEq, Eq, Structural)]
pub enum ReadPhase {
    /// No read under way.
    Idle,
    /// Waiting for the uncompressed size of the chunk to fetch.
    AwaitInfo,
    /// Waiting for the chunk of this many bytes to be decompressed into the caller's buffer.
    AwaitDirect(usize),
    /// Waiting for the chunk to be decompressed into the reader's buffer.
    AwaitFill,
}

/// What happened since the decoder's last answer.
pub enum ReadEvent {
    /// A read begins, on a super-chunk of `n_chunks` chunks.
    Begin { n_chunks: usize },
    /// The chunk to fetch decompresses to `nbytes` bytes.
    ChunkInfo { nbytes: usize },
    /// The chunk was decompressed into the caller's buffer.
    Decompressed,
    /// The chunk was decompressed into this buffer.
    Filled(Vec<u8>),
}

/// What the decoder asks for next.
pub enum ReadAction {
    /// The read is over and gives this many bytes.
    Return(usize),
    /// Find out how many bytes chunk `nchunk` decompresses to.
    FetchInfo(usize),
    /// Decompress chunk `nchunk`, of `nbytes` bytes, into the caller's buffer.
    DecompressDirect { nchunk: usize, nbytes: usize },
    /// Decompress chunk `nchunk` into `buf`.
    DecompressBuffered { nchunk: usize, buf: Vec<u8> },
}

/// `after` is `before` with the first `k` bytes of `pending` copied in, where `k`
/// is as many as fit.
pub open spec fn copied_in(pending: Seq<u8>, before: Seq<u8>, after: Seq<u8>, k: int) -> bool {
    &&& k == if before.len() < pending.len() { before.len() as int } else { pending.len() as int }
    &&& after.len() == before.len()
    &&& after.take(k) == pending.take(k)
    &&& after.skip(k) == before.skip(k)
}

/// The state of a reader that decodes a super-chunk chunk by chunk: the chunk it
/// holds, how far it has handed it out, the next chunk to fetch, and where the
/// read under way stands.
pub struct SChunkDecoder {
    buf: Vec<u8>,
    pos: usize,
    nchunk: usize,
    phase: ReadPhase,
    fetched: Ghost<Seq<u8>>,
    delivered: Ghost<Seq<u8>>,
}

impl SChunkDecoder {
    /// The reader is well formed: it has handed out at most what it holds, and what
    /// it handed out, followed by what it still holds, is what it fetched.
    pub closed spec fn wf(self) -> bool {
        &&& self.pos <= self.buf@.len()
        &&& self.delivered@ + self.buf@.skip(self.pos as int) == self.fetched@
        &&& self.phase != ReadPhase::Idle ==> self.pos == self.buf@.len()
    }

    /// The bytes of the chunk the reader holds.
    pub closed spec fn spec_buf(self) -> Seq<u8> {
        self.buf@
    }

    /// How many of them it has handed out.
    pub closed spec fn spec_pos(self) -> usize {
        self.pos
    }

    /// The number of the next chunk to fetch.
    pub closed spec fn spec_nchunk(self) -> usize {
        self.nchunk
    }

    /// Where the read under way stands.
    pub closed spec fn spec_phase(self) -> ReadPhase {
        self.phase
    }

    /// Every byte of the chunks fetched so far, in order.
    pub closed spec fn spec_fetched(self) -> Seq<u8> {
        self.fetched@
    }

    /// Every byte handed out so far, in order.
    pub closed spec fn spec_delivered(self) -> Seq<u8> {
        self.delivered@
    }

    /// The bytes held but not yet handed out.
    pub open spec fn spec_pending(self) -> Seq<u8> {
        self.spec_buf().skip(self.spec_pos() as int)
    }

    /// Whether the decoder, in its present phase, can take `event` with the
    /// caller's buffer of `out_len` bytes: a read can always begin; the other
    /// events answer the decoder's last request.
    pub open spec fn expects(self, event: ReadEvent, out_len: int) -> bool {
        match event {
            ReadEvent::Begin { .. } => true,
            ReadEvent::ChunkInfo { .. } => self.spec_phase() == ReadPhase::AwaitInfo,
            ReadEvent::Decompressed => match self.spec_phase() {
                ReadPhase::AwaitDirect(n) => n <= out_len && self.spec_nchunk() < usize::MAX,
                _ => false,
            },
            ReadEvent::Filled(_) => self.spec_phase() == ReadPhase::AwaitFill
                && self.spec_nchunk() < usize::MAX,
        }
    }

    /// A reader at the first chunk.
    pub fn new() -> (d: Self)
        ensures
            d.wf(),
            d.spec_buf().len() == 0,
            d.spec_pos() == 0,
            d.spec_nchunk() == 0,
            d.spec_phase() == ReadPhase::Idle,
            d.spec_fetched().len() == 0,
            d.spec_delivered().len() == 0,
    {
        let d = SChunkDecoder {
            buf: Vec::new(),
            pos: 0,
            nchunk: 0,
            phase: ReadPhase::Idle,
            fetched: Ghost(Seq::empty()),
            delivered: Ghost(Seq::empty()),
        };
        assert(d.delivered@ + d.buf@.skip(0) =~= d.fetched@);
        d
    }

    /// Takes the next event of a read into `out` and says what to do next.
    ///
    /// A read begins by handing out what the reader holds; when all is handed out,
    /// it ends after the last chunk (giving 0), or drops the held chunk and asks how
    /// large the next chunk is. A chunk that fits in `out` is decompressed straight
    /// into it and the read gives its size; a larger one is decompressed into a
    /// zeroed buffer of its size, which the reader then holds and hands out from.
    pub fn read(&mut self, out: &mut [u8], event: ReadEvent) -> (a: ReadAction)
        requires
            old(self).wf(),
            old(self).expects(event, old(out)@.len() as int),
        ensures
            final(self).wf(),
            match event {
                ReadEvent::Begin { n_chunks } => {
                    let k = a->Return_0;
                    if old(self).spec_pos() < old(self).spec_buf().len() {
                        &&& a is Return
                        &&& copied_in(
                            old(self).spec_pending(),
                            old(out)@,
                            final(out)@,
                            k as int,
                        )
                        &&& final(self).spec_buf() == old(self).spec_buf()
                        &&& final(self).spec_pos() == old(self).spec_pos() + k
                        &&& final(self).spec_nchunk() == old(self).spec_nchunk()
                        &&& final(self).spec_phase() == ReadPhase::Idle
                        &&& final(self).spec_fetched() == old(self).spec_fetched()
                        &&& final(self).spec_delivered() == old(self).spec_delivered()
                            + old(self).spec_pending().take(k as int)
                    } else if old(self).spec_nchunk() >= n_chunks {
                        &&& a is Return
                        &&& k == 0
                        &&& final(out)@ == old(out)@
                        &&& final(self).spec_buf() == old(self).spec_buf()
                        &&& final(self).spec_pos() == old(self).spec_pos()
                        &&& final(self).spec_nchunk() == old(self).spec_nchunk()
                        &&& final(self).spec_phase() == ReadPhase::Idle
                        &&& final(self).spec_fetched() == old(self).spec_fetched()
                        &&& final(self).spec_delivered() == old(self).spec_delivered()
                    } else {
                        &&& a is FetchInfo
                        &&& a->FetchInfo_0 == old(self).spec_nchunk()
                        &&& final(out)@ == old(out)@
                        &&& final(self).spec_buf().len() == 0
                        &&& final(self).spec_pos() == 0
                        &&& final(self).spec_nchunk() == old(self).spec_nchunk()
                        &&& final(self).spec_phase() == ReadPhase::AwaitInfo
                        &&& final(self).spec_fetched() == old(self).spec_fetched()
                        &&& final(self).spec_delivered() == old(self).spec_delivered()
                    }
                },
                ReadEvent::ChunkInfo { nbytes } => {
                    &&& final(out)@ == old(out)@
                    &&& final(self).spec_buf() == old(self).spec_buf()
                    &&& final(self).spec_pos() == old(self).spec_pos()
                    &&& final(self).spec_nchunk() == old(self).spec_nchunk()
                    &&& final(self).spec_fetched() == old(self).spec_fetched()
                    &&& final(self).spec_delivered() == old(self).spec_delivered()
                    &&& nbytes <= old(out)@.len() ==> a is DecompressDirect
                        && a->DecompressDirect_nchunk == old(self).spec_nchunk()
                        && a->DecompressDirect_nbytes == nbytes
                        && final(self).spec_phase() == ReadPhase::AwaitDirect(nbytes)
                    &&& nbytes > old(out)@.len() ==> a is DecompressBuffered
                        && a->DecompressBuffered_nchunk == old(self).spec_nchunk()
                        && a->DecompressBuffered_buf@ == Seq::new(nbytes as nat, |i: int| 0u8)
                        && final(self).spec_phase() == ReadPhase::AwaitFill
                },
                ReadEvent::Decompressed => {
                    let n = old(self).spec_phase()->AwaitDirect_0;
                    &&& a is Return
                    &&& a->Return_0 == n
                    &&& final(out)@ == old(out)@
                    &&& final(self).spec_buf() == old(self).spec_buf()
                    &&& final(self).spec_pos() == old(self).spec_pos()
                    &&& final(self).spec_nchunk() == old(self).spec_nchunk() + 1
                    &&& final(self).spec_phase() == ReadPhase::Idle
                    &&& final(self).spec_fetched() == old(self).spec_fetched() + old(out)@.take(n as int)
                    &&& final(self).spec_delivered() == old(self).spec_delivered() + old(out)@.take(
                        n as int,
                    )
                },
                ReadEvent::Filled(data) => {
                    let k = a->Return_0;
                    &&& a is Return
                    &&& copied_in(
                        data@,
                        old(out)@,
                        final(out)@,
                        k as int,
                    )
                    &&& final(self).spec_buf() == data@
                    &&& final(self).spec_pos() == k
                    &&& final(self).spec_nchunk() == old(self).spec_nchunk() + 1
                    &&& final(self).spec_phase() == ReadPhase::Idle
                    &&& final(self).spec_fetched() == old(self).spec_fetched() + data@
                    &&& final(self).spec_delivered() == old(self).spec_delivered() + data@.take(
                        k as int,
                    )
                },
            },
    {
        match event {
            ReadEvent::Begin { n_chunks } => {
                self.phase = ReadPhase::Idle;
                if self.pos < self.buf.len() {
                    let k = self.read_buffered(out);
                    return ReadAction::Return(k);
                }
                if self.nchunk >= n_chunks {
                    return ReadAction::Return(0);
                }
                self.buf.clear();
                self.pos = 0;
                self.phase = ReadPhase::AwaitInfo;
                proof {
                    assert(self.buf@.skip(0) =~= Seq::<u8>::empty());
                    assert(old(self).buf@.skip(old(self).pos as int) =~= Seq::<u8>::empty());
                    assert(self.delivered@ + self.buf@.skip(0) =~= self.fetched@);
                }
                ReadAction::FetchInfo(self.nchunk)
            },
            ReadEvent::ChunkInfo { nbytes } => {
                if nbytes <= out.len() {
                    self.phase = ReadPhase::AwaitDirect(nbytes);
                    ReadAction::DecompressDirect { nchunk: self.nchunk, nbytes }
                } else {
                    self.phase = ReadPhase::AwaitFill;
                    ReadAction::DecompressBuffered { nchunk: self.nchunk, buf: vec![0u8; nbytes] }
                }
            },
            ReadEvent::Decompressed => {
                let n = match self.phase {
                    ReadPhase::AwaitDirect(n) => n,
                    _ => 0,
                };
                let written = slice_subrange(&*out, 0, n);
                self.nchunk = self.nchunk + 1;
                self.phase = ReadPhase::Idle;
                proof {
                    let p = self.buf@.skip(self.pos as int);
                    assert(p =~= Seq::<u8>::empty());
                    self.fetched = Ghost(self.fetched@ + written@);
                    self.delivered = Ghost(self.delivered@ + written@);
                    assert(self.delivered@ + p =~= self.fetched@);
                }
                ReadAction::Return(n)
            },
            ReadEvent::Filled(data) => {
                proof {
                    assert(self.buf@.skip(self.pos as int) =~= Seq::<u8>::empty());
                    assert(self.delivered@ =~= self.fetched@);
                }
                let ghost d = data@;
                self.buf = data;
                self.pos = 0;
                self.nchunk = self.nchunk + 1;
                self.phase = ReadPhase::Idle;
                proof {
                    self.fetched = Ghost(self.fetched@ + d);
                    assert(self.buf@.skip(0) =~= d);
                    assert(self.delivered@ + self.buf@.skip(0) =~= self.fetched@);
                }
                let k = self.read_buffered(out);
                ReadAction::Return(k)
            },
        }
    }

    /// Hand out held bytes into `out`: as many as fit, from where the last read stopped.
    fn read_buffered(&mut self, out: &mut [u8]) -> (n: usize)
        requires
            old(self).wf(),
            old(self).spec_phase() == ReadPhase::Idle,
        ensures
            final(self).wf(),
            copied_in(old(self).spec_pending(), old(out)@, final(out)@, n as int),
            final(self).spec_buf() == old(self).spec_buf(),
            final(self).spec_pos() == old(self).spec_pos() + n,
            final(self).spec_nchunk() == old(self).spec_nchunk(),
            final(self).spec_phase() == old(self).spec_phase(),
            final(self).spec_fetched() == old(self).spec_fetched(),
            final(self).spec_delivered() == old(self).spec_delivered() + old(self).spec_pending().take(n as int),
    {
        let rest = self.buf.len() - self.pos;
        let n = if out.len() < rest {
            out.len()
        } else {
            rest
        };
        let ghost pending = self.buf@.skip(self.pos as int);
        let ghost out0 = out@;
        let mut i: usize = 0;
        while i < n
            invariant
                n <= out@.len(),
                out@.len() == out0.len(),
                self.pos + n <= self.buf@.len(),
                self.buf@.len() == self.buf.len(),
                pending == self.buf@.skip(self.pos as int),
                i <= n,
                forall|j: int| 0 <= j < i ==> out@[j] == pending[j],
                forall|j: int| i <= j < out@.len() ==> out@[j] == out0[j],
            decreases n - i,
        {
            out[i] = self.buf[self.pos + i];
            i = i + 1;
        }
        self.pos = self.pos + n;
        proof {
            assert(out@.take(n as int) =~= pending.take(n as int));
            assert(out@.skip(n as int) =~= out0.skip(n as int));
            self.delivered = Ghost(self.delivered@ + pending.take(n as int));
            assert(pending =~= pending.take(n as int) + self.buf@.skip(self.pos as int));
            assert(self.delivered@ + self.buf@.skip(self.pos as int) =~= self.fetched@);
        }
        n
    }

    /// Whatever the reader has handed out, followed by what it still holds, is every
    /// byte of the chunks it fetched, in order: at the end of a super-chunk it has
    /// handed out all of them.
    pub proof fn law_reads_in_order(d: SChunkDecoder)
        requires
            d.wf(),
        ensures
            d.spec_delivered() + d.spec_pending() == d.spec_fetched(),
            d.spec_pos() <= d.spec_buf().len(),
    {
    }
}

} // verus!
