//! Compression and decompression parameters, and the engine contexts made from them.

use crate::codec::{CLevel, Codec, Filter};
use crate::error::{Error, Result};
use vstd::prelude::*;
use vstd::std_specs::convert::FromSpecImpl;

verus! {

/// Compression parameters: the engine's `blosc2_cparams`, as plain values.
///
/// A normal way to construct this is `CParams::new::<T>()` or `CParams::from(&value)`,
/// which take the default parameters with the `typesize` of `T`.
#[derive(Debug, Clone, Copy)]
pub struct CParams {
    /// The codec's engine code.
    pub compcode: u8,
    /// Metadata for the codec.
    pub compcode_meta: u8,
    /// The compression level, 0 to 9; defaults to 9.
    pub clevel: u8,
    /// Whether a dictionary is used.
    pub use_dict: i32,
    /// The size of one item, in bytes.
    pub typesize: i32,
    /// The number of threads.
    pub nthreads: i16,
    /// The block size; 0 lets the engine choose.
    pub blocksize: i32,
    /// How blocks are split.
    pub splitmode: i32,
    /// The filter pipeline; the last one applies the filter set by `set_filter`.
    pub filters: [u8; 6],
    /// Metadata for each filter.
    pub filters_meta: [u8; 6],
}

impl CParams {
    /// The engine's default compression parameters.
    pub open spec fn spec_default() -> CParams {
        CParams {
            compcode: 0,
            compcode_meta: 0,
            clevel: 9,
            use_dict: 0,
            typesize: 8,
            nthreads: 1,
            blocksize: 0,
            splitmode: 4,
            filters: [0, 0, 0, 0, 0, 1],
            filters_meta: [0, 0, 0, 0, 0, 0],
        }
    }

    /// The default parameters with the type size of `T`.
    pub open spec fn spec_for_type<T>() -> CParams {
        CParams { typesize: size_of::<T>() as i32, ..Self::spec_default() }
    }

    /// Default parameters for items of type `T`.
    pub fn new<T>() -> (c: Self)
        ensures
            c == Self::spec_for_type::<T>(),
    {
        Self::default().set_typesize::<T>()
    }

    /// Default parameters with the type size `typesize` (kept as the engine's
    /// 32-bit integer).
    pub fn from_typesize(typesize: usize) -> (c: Self)
        ensures
            c == (CParams { typesize: typesize as i32, ..Self::spec_default() }),
    {
        let mut cparams = Self::default();
        cparams.typesize = typesize as i32;
        cparams
    }

    /// Set codec, defaults to [Codec::BloscLz]
    pub fn set_codec(self, codec: Codec) -> (c: Self)
        ensures
            c == (CParams { compcode: codec.spec_code(), ..self }),
    {
        let mut s = self;
        s.compcode = codec.code();
        s
    }

    /// Set clevel, defaults to [CLevel::Nine]
    pub fn set_clevel(self, clevel: CLevel) -> (c: Self)
        ensures
            c == (CParams { clevel: clevel.spec_code(), ..self }),
    {
        let mut s = self;
        s.clevel = clevel.code();
        s
    }

    /// Set the last filter of the pipeline, defaults to [Filter::Shuffle]
    pub fn set_filter(self, filter: Filter) -> (c: Self)
        ensures
            c == (CParams { filters: c.filters, ..self }),
            c.filters@ == self.filters@.update(5, filter.spec_code()),
    {
        let mut s = self;
        s.filters[5] = filter.code();
        s
    }

    /// Set number of threads, defaults to 1 (kept as the engine's 16-bit integer)
    pub fn set_nthreads(self, n: usize) -> (c: Self)
        ensures
            c == (CParams { nthreads: n as i16, ..self }),
    {
        let mut s = self;
        s.nthreads = n as i16;
        s
    }

    /// Get number of threads
    pub fn get_nthreads(&self) -> (n: usize)
        ensures
            n == self.nthreads as usize,
    {
        self.nthreads as usize
    }

    /// Set the type size to that of `T`
    pub fn set_typesize<T>(self) -> (c: Self)
        ensures
            c == (CParams { typesize: size_of::<T>() as i32, ..self }),
    {
        let mut s = self;
        s.typesize = core::mem::size_of::<T>() as i32;
        s
    }

    /// Get the type size
    pub fn get_typesize(&self) -> (n: usize)
        ensures
            n == self.typesize as usize,
    {
        self.typesize as usize
    }
}

impl Default for CParams {
    fn default() -> (c: Self)
        ensures
            c == Self::spec_default(),
    {
        CParams {
            compcode: 0,
            compcode_meta: 0,
            clevel: 9,
            use_dict: 0,
            typesize: 8,
            nthreads: 1,
            blocksize: 0,
            splitmode: 4,
            filters: [0, 0, 0, 0, 0, 1],
            filters_meta: [0, 0, 0, 0, 0, 0],
        }
    }
}

/// Create CParams from a reference to the type being compressed: the default
/// parameters with the type size of `T`.
impl<T> From<&T> for CParams {
    fn from(_value: &T) -> (c: Self) {
        CParams::new::<T>()
    }
}

impl<T> FromSpecImpl<&T> for CParams {
    open spec fn obeys_from_spec() -> bool {
        true
    }

    open spec fn from_spec(_value: &T) -> Self {
        CParams::spec_for_type::<T>()
    }
}

/// Decompression parameters: the engine's `blosc2_dparams`, as plain values.
#[derive(Debug, Clone, Copy, PartialEq, Eq, Structural)]
pub struct DParams {
    /// The number of threads.
    pub nthreads: i16,
}

impl DParams {
    /// The engine's default decompression parameters.
    pub open spec fn spec_default() -> DParams {
        DParams { nthreads: 1 }
    }

    /// Set number of theads for decompression, defaults to 1
    pub fn set_nthreads(self, n: usize) -> (d: Self)
        ensures
            d == (DParams { nthreads: n as i16 }),
    {
        DParams { nthreads: n as i16 }
    }

    /// Get number of threads
    pub fn get_nthreads(&self) -> (n: usize)
        ensures
            n == self.nthreads as usize,
    {
        self.nthreads as usize
    }
}

impl Default for DParams {
    fn default() -> (d: Self)
        ensures
            d == Self::spec_default(),
    {
        DParams { nthreads: 1 }
    }
}

/// What a de/compression context holds: the parameters that the engine reports for
/// it, or nothing where the engine could not create it.
#[derive(Debug, Clone, Copy)]
pub struct Context {
    params: Option<(CParams, DParams)>,
}

impl Context {
    /// The parameters the context holds; `None` for a context that was not created.
    pub closed spec fn spec_params(self) -> Option<(CParams, DParams)> {
        self.params
    }

    /// The compression parameters the context holds, if it was created.
    pub open spec fn spec_cparams(self) -> Option<CParams> {
        match self.spec_params() {
            Some((c, _)) => Some(c),
            None => None,
        }
    }

    /// The context's type size, if it was created.
    pub open spec fn spec_typesize(self) -> Option<usize> {
        match self.spec_params() {
            Some((c, _)) => Some(c.typesize as usize),
            None => None,
        }
    }

    /// The context that holds `cparams` and `dparams`, as the engine reports them.
    pub fn new(cparams: CParams, dparams: DParams) -> (ctx: Self)
        ensures
            ctx.spec_params() == Some((cparams, dparams)),
    {
        Context { params: Some((cparams, dparams)) }
    }

    /// The context that the engine failed to create.
    pub fn null() -> (ctx: Self)
        ensures
            ctx.spec_params() is None,
    {
        Context { params: None }
    }

    /// Get the CParams from this context
    pub fn get_cparams(&self) -> (r: Result<CParams>)
        ensures
            match self.spec_params() {
                Some((c, _)) => r == Ok::<CParams, Error>(c),
                None => r is Err && r->Err_0 is Other && r->Err_0->Other_0@ == "Context pointer is null"@,
            },
    {
        match self.params {
            Some((c, _)) => Ok(c),
            None => Err(Error::other("Context pointer is null")),
        }
    }

    /// Get the DParams from this context
    pub fn get_dparams(&self) -> (r: Result<DParams>)
        ensures
            match self.spec_params() {
                Some((_, d)) => r == Ok::<DParams, Error>(d),
                None => r is Err && r->Err_0 is Other && r->Err_0->Other_0@ == "Context pointer is null"@,
            },
    {
        match self.params {
            Some((_, d)) => Ok(d),
            None => Err(Error::other("Context pointer is null")),
        }
    }
}

/// Each setter changes its own field and leaves the others, and a getter reads back
/// what its setter wrote (within the engine's integer widths).
pub proof fn law_cparams_set_get(c: CParams, n: usize, t: usize)
    requires
        n <= i16::MAX,
        t <= i32::MAX,
    ensures
        (CParams { nthreads: n as i16, ..c }).nthreads as usize == n,
        (CParams { typesize: t as i32, ..c }).typesize as usize == t,
{
}

/// The default compression level is `CLevel::Nine`: setting it on the defaults
/// leaves them as they are.
pub proof fn law_default_clevel()
    ensures
        CParams::spec_default() == (CParams {
            clevel: CLevel::Nine.spec_code(),
            ..CParams::spec_default()
        }),
{
}

} // verus!
