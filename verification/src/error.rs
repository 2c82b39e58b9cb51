//! Errors of the library and the engine's error codes.

use vstd::prelude::*;
use vstd::std_specs::convert::FromSpecImpl;

verus! {

/// Result type used in this library
pub type Result<T> = core::result::Result<T, Error>;

/// An error of the library.
#[derive(Debug)]
pub enum Error {
    /// A Blosc2 library specific error. Often mapped to the
    /// raw error return code
    Blosc2(Blosc2Error),
    /// Any other error, converted into a string
    Other(String),
}

impl Error {
    /// An `Error::Other` that carries `msg`.
    pub fn other(msg: &str) -> (e: Error)
        ensures
            e is Other,
            e->Other_0@ == msg@,
    {
        Error::Other(String::from_str(msg))
    }
}

impl From<Blosc2Error> for Error {
    fn from(err: Blosc2Error) -> (e: Self) {
        Error::Blosc2(err)
    }
}

impl FromSpecImpl<Blosc2Error> for Error {
    open spec fn obeys_from_spec() -> bool {
        true
    }

    open spec fn from_spec(err: Blosc2Error) -> Self {
        Error::Blosc2(err)
    }
}

impl From<String> for Error {
    fn from(err: String) -> (e: Self) {
        Error::Other(err)
    }
}

impl FromSpecImpl<String> for Error {
    open spec fn obeys_from_spec() -> bool {
        true
    }

    open spec fn from_spec(err: String) -> Self {
        Error::Other(err)
    }
}

/// `r` is an `Error::Other` whose message is `msg`.
pub open spec fn is_other_err<T>(r: Result<T>, msg: Seq<char>) -> bool {
    r is Err && r->Err_0 is Other && r->Err_0->Other_0@ == msg
}

/// `r` is the engine's error of code `code`.
pub open spec fn is_code_err<T>(r: Result<T>, code: int) -> bool {
    r is Err && r->Err_0 is Blosc2 && r->Err_0->Blosc2_0.spec_code() == code
}

/// The engine's error of code `code`, which must be one of its error codes.
pub fn code_error(code: i32) -> (e: Error)
    requires
        is_error_code(code as int),
    ensures
        e is Blosc2,
        e->Blosc2_0.spec_code() == code,
{
    Error::Blosc2(Blosc2Error::from(code))
}

/// Whether `code` is one of the engine's error codes (`-34..=-1`).
pub open spec fn is_error_code(code: int) -> bool {
    -34 <= code <= -1
}

/// Possible errors arising from Blosc2 library
#[derive(Debug, Clone, Copy, PartialEq, Eq, Structural)]
pub enum Blosc2Error {
    /// Generic failure
    Failure,
    /// Bad stream
    Stream,
    /// Invalid data
    Data,
    /// Memory alloc/realloc failure
    MemoryAlloc,
    /// Not enough space to read
    ReadBuffer,
    /// Not enough space to write
    WriteBuffer,
    /// Codec not supported
    CodecSupport,
    /// Invalid parameter supplied to codec
    CodecParam,
    /// Codec dictionary error
    CodecDict,
    /// Version not supported
    VersionSupport,
    /// Invalid value in header
    InvalidHeader,
    /// Invalid parameter supplied to function
    InvalidParam,
    /// File read failure
    FileRead,
    /// File write failure
    FileWrite,
    /// File open failure
    FileOpen,
    /// Not found
    NotFound,
    /// Bad run length encoding
    RunLength,
    /// Filter pipeline error
    FilterPipeline,
    /// Chunk insert failure
    ChunkInsert,
    /// Chunk append failure
    ChunkAppend,
    /// Chunk update failure
    ChunkUpdate,
    /// Sizes larger than 2gb not supported
    TwoGBLimit,
    /// Super-chunk copy failure
    SchunkCopy,
    /// Wrong type for frame
    FrameType,
    /// File truncate failure
    FileTruncate,
    /// Thread or thread context creation failure
    ThreadCreate,
    /// Postfilter failure
    PostFilter,
    /// Special frame failure
    FrameSpecial,
    /// Special super-chunk failure
    SchunkSpecial,
    /// IO plugin error
    PluginIO,
    /// Remove file failure
    FileRemove,
    /// Pointer is null
    NullPointer,
    /// Invalid index
    InvalidIndex,
    /// Metalayer has not been found
    MetalayerNotFound,
}

impl Blosc2Error {
    /// The engine's code of this error.
    pub open spec fn spec_code(self) -> i32 {
        match self {
            Blosc2Error::Failure => -1i32,
            Blosc2Error::Stream => -2i32,
            Blosc2Error::Data => -3i32,
            Blosc2Error::MemoryAlloc => -4i32,
            Blosc2Error::ReadBuffer => -5i32,
            Blosc2Error::WriteBuffer => -6i32,
            Blosc2Error::CodecSupport => -7i32,
            Blosc2Error::CodecParam => -8i32,
            Blosc2Error::CodecDict => -9i32,
            Blosc2Error::VersionSupport => -10i32,
            Blosc2Error::InvalidHeader => -11i32,
            Blosc2Error::InvalidParam => -12i32,
            Blosc2Error::FileRead => -13i32,
            Blosc2Error::FileWrite => -14i32,
            Blosc2Error::FileOpen => -15i32,
            Blosc2Error::NotFound => -16i32,
            Blosc2Error::RunLength => -17i32,
            Blosc2Error::FilterPipeline => -18i32,
            Blosc2Error::ChunkInsert => -19i32,
            Blosc2Error::ChunkAppend => -20i32,
            Blosc2Error::ChunkUpdate => -21i32,
            Blosc2Error::TwoGBLimit => -22i32,
            Blosc2Error::SchunkCopy => -23i32,
            Blosc2Error::FrameType => -24i32,
            Blosc2Error::FileTruncate => -25i32,
            Blosc2Error::ThreadCreate => -26i32,
            Blosc2Error::PostFilter => -27i32,
            Blosc2Error::FrameSpecial => -28i32,
            Blosc2Error::SchunkSpecial => -29i32,
            Blosc2Error::PluginIO => -30i32,
            Blosc2Error::FileRemove => -31i32,
            Blosc2Error::NullPointer => -32i32,
            Blosc2Error::InvalidIndex => -33i32,
            Blosc2Error::MetalayerNotFound => -34i32,
        }
    }

    /// The engine's code of this error.
    pub fn code(&self) -> (c: i32)
        ensures
            c == self.spec_code(),
            is_error_code(c as int),
    {
        match self {
            Blosc2Error::Failure => -1i32,
            Blosc2Error::Stream => -2i32,
            Blosc2Error::Data => -3i32,
            Blosc2Error::MemoryAlloc => -4i32,
            Blosc2Error::ReadBuffer => -5i32,
            Blosc2Error::WriteBuffer => -6i32,
            Blosc2Error::CodecSupport => -7i32,
            Blosc2Error::CodecParam => -8i32,
            Blosc2Error::CodecDict => -9i32,
            Blosc2Error::VersionSupport => -10i32,
            Blosc2Error::InvalidHeader => -11i32,
            Blosc2Error::InvalidParam => -12i32,
            Blosc2Error::FileRead => -13i32,
            Blosc2Error::FileWrite => -14i32,
            Blosc2Error::FileOpen => -15i32,
            Blosc2Error::NotFound => -16i32,
            Blosc2Error::RunLength => -17i32,
            Blosc2Error::FilterPipeline => -18i32,
            Blosc2Error::ChunkInsert => -19i32,
            Blosc2Error::ChunkAppend => -20i32,
            Blosc2Error::ChunkUpdate => -21i32,
            Blosc2Error::TwoGBLimit => -22i32,
            Blosc2Error::SchunkCopy => -23i32,
            Blosc2Error::FrameType => -24i32,
            Blosc2Error::FileTruncate => -25i32,
            Blosc2Error::ThreadCreate => -26i32,
            Blosc2Error::PostFilter => -27i32,
            Blosc2Error::FrameSpecial => -28i32,
            Blosc2Error::SchunkSpecial => -29i32,
            Blosc2Error::PluginIO => -30i32,
            Blosc2Error::FileRemove => -31i32,
            Blosc2Error::NullPointer => -32i32,
            Blosc2Error::InvalidIndex => -33i32,
            Blosc2Error::MetalayerNotFound => -34i32,
        }
    }

    /// The variant's name, which is how the error displays.
    pub open spec fn spec_name(self) -> Seq<char> {
        match self {
            Blosc2Error::Failure => "Failure"@,
            Blosc2Error::Stream => "Stream"@,
            Blosc2Error::Data => "Data"@,
            Blosc2Error::MemoryAlloc => "MemoryAlloc"@,
            Blosc2Error::ReadBuffer => "ReadBuffer"@,
            Blosc2Error::WriteBuffer => "WriteBuffer"@,
            Blosc2Error::CodecSupport => "CodecSupport"@,
            Blosc2Error::CodecParam => "CodecParam"@,
            Blosc2Error::CodecDict => "CodecDict"@,
            Blosc2Error::VersionSupport => "VersionSupport"@,
            Blosc2Error::InvalidHeader => "InvalidHeader"@,
            Blosc2Error::InvalidParam => "InvalidParam"@,
            Blosc2Error::FileRead => "FileRead"@,
            Blosc2Error::FileWrite => "FileWrite"@,
            Blosc2Error::FileOpen => "FileOpen"@,
            Blosc2Error::NotFound => "NotFound"@,
            Blosc2Error::RunLength => "RunLength"@,
            Blosc2Error::FilterPipeline => "FilterPipeline"@,
            Blosc2Error::ChunkInsert => "ChunkInsert"@,
            Blosc2Error::ChunkAppend => "ChunkAppend"@,
            Blosc2Error::ChunkUpdate => "ChunkUpdate"@,
            Blosc2Error::TwoGBLimit => "TwoGBLimit"@,
            Blosc2Error::SchunkCopy => "SchunkCopy"@,
            Blosc2Error::FrameType => "FrameType"@,
            Blosc2Error::FileTruncate => "FileTruncate"@,
            Blosc2Error::ThreadCreate => "ThreadCreate"@,
            Blosc2Error::PostFilter => "PostFilter"@,
            Blosc2Error::FrameSpecial => "FrameSpecial"@,
            Blosc2Error::SchunkSpecial => "SchunkSpecial"@,
            Blosc2Error::PluginIO => "PluginIO"@,
            Blosc2Error::FileRemove => "FileRemove"@,
            Blosc2Error::NullPointer => "NullPointer"@,
            Blosc2Error::InvalidIndex => "InvalidIndex"@,
            Blosc2Error::MetalayerNotFound => "MetalayerNotFound"@,
        }
    }

    /// The variant's name, which is how the error displays.
    pub fn name(&self) -> (s: &'static str)
        ensures
            s@ == self.spec_name(),
    {
        match self {
            Blosc2Error::Failure => "Failure",
            Blosc2Error::Stream => "Stream",
            Blosc2Error::Data => "Data",
            Blosc2Error::MemoryAlloc => "MemoryAlloc",
            Blosc2Error::ReadBuffer => "ReadBuffer",
            Blosc2Error::WriteBuffer => "WriteBuffer",
            Blosc2Error::CodecSupport => "CodecSupport",
            Blosc2Error::CodecParam => "CodecParam",
            Blosc2Error::CodecDict => "CodecDict",
            Blosc2Error::VersionSupport => "VersionSupport",
            Blosc2Error::InvalidHeader => "InvalidHeader",
            Blosc2Error::InvalidParam => "InvalidParam",
            Blosc2Error::FileRead => "FileRead",
            Blosc2Error::FileWrite => "FileWrite",
            Blosc2Error::FileOpen => "FileOpen",
            Blosc2Error::NotFound => "NotFound",
            Blosc2Error::RunLength => "RunLength",
            Blosc2Error::FilterPipeline => "FilterPipeline",
            Blosc2Error::ChunkInsert => "ChunkInsert",
            Blosc2Error::ChunkAppend => "ChunkAppend",
            Blosc2Error::ChunkUpdate => "ChunkUpdate",
            Blosc2Error::TwoGBLimit => "TwoGBLimit",
            Blosc2Error::SchunkCopy => "SchunkCopy",
            Blosc2Error::FrameType => "FrameType",
            Blosc2Error::FileTruncate => "FileTruncate",
            Blosc2Error::ThreadCreate => "ThreadCreate",
            Blosc2Error::PostFilter => "PostFilter",
            Blosc2Error::FrameSpecial => "FrameSpecial",
            Blosc2Error::SchunkSpecial => "SchunkSpecial",
            Blosc2Error::PluginIO => "PluginIO",
            Blosc2Error::FileRemove => "FileRemove",
            Blosc2Error::NullPointer => "NullPointer",
            Blosc2Error::InvalidIndex => "InvalidIndex",
            Blosc2Error::MetalayerNotFound => "MetalayerNotFound",
        }
    }

    /// The variant's name as an owned string.
    pub fn to_string(&self) -> (s: String)
        ensures
            s@ == self.spec_name(),
    {
        String::from_str(self.name())
    }

    /// The error of the engine's error code `code`. The engine reports no other
    /// negative codes; any other value is refused.
    pub fn from(code: i32) -> (e: Blosc2Error)
        requires
            is_error_code(code as int),
        ensures
            e.spec_code() == code,
    {
        match code {
            -1i32 => Blosc2Error::Failure,
            -2i32 => Blosc2Error::Stream,
            -3i32 => Blosc2Error::Data,
            -4i32 => Blosc2Error::MemoryAlloc,
            -5i32 => Blosc2Error::ReadBuffer,
            -6i32 => Blosc2Error::WriteBuffer,
            -7i32 => Blosc2Error::CodecSupport,
            -8i32 => Blosc2Error::CodecParam,
            -9i32 => Blosc2Error::CodecDict,
            -10i32 => Blosc2Error::VersionSupport,
            -11i32 => Blosc2Error::InvalidHeader,
            -12i32 => Blosc2Error::InvalidParam,
            -13i32 => Blosc2Error::FileRead,
            -14i32 => Blosc2Error::FileWrite,
            -15i32 => Blosc2Error::FileOpen,
            -16i32 => Blosc2Error::NotFound,
            -17i32 => Blosc2Error::RunLength,
            -18i32 => Blosc2Error::FilterPipeline,
            -19i32 => Blosc2Error::ChunkInsert,
            -20i32 => Blosc2Error::ChunkAppend,
            -21i32 => Blosc2Error::ChunkUpdate,
            -22i32 => Blosc2Error::TwoGBLimit,
            -23i32 => Blosc2Error::SchunkCopy,
            -24i32 => Blosc2Error::FrameType,
            -25i32 => Blosc2Error::FileTruncate,
            -26i32 => Blosc2Error::ThreadCreate,
            -27i32 => Blosc2Error::PostFilter,
            -28i32 => Blosc2Error::FrameSpecial,
            -29i32 => Blosc2Error::SchunkSpecial,
            -30i32 => Blosc2Error::PluginIO,
            -31i32 => Blosc2Error::FileRemove,
            -32i32 => Blosc2Error::NullPointer,
            -33i32 => Blosc2Error::InvalidIndex,
            -34i32 => Blosc2Error::MetalayerNotFound,
            _ => Blosc2Error::MetalayerNotFound,
        }
    }
}

/// Every error has an engine code, and no two errors share one: `Blosc2Error::from`
/// and `Blosc2Error::code` undo each other.
pub proof fn law_error_code_bijective(e1: Blosc2Error, e2: Blosc2Error)
    ensures
        is_error_code(e1.spec_code() as int),
        e1.spec_code() == e2.spec_code() ==> e1 == e2,
{
}

} // verus!
