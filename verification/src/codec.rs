//! The filters, codecs and compression levels that the engine knows.

use crate::buffer::Step;
use crate::error::{is_other_err, Error, Result};
use crate::text::{int_text, push_i64, push_u64};
use vstd::prelude::*;
use vstd::string::*;

verus! {

/// Possible Filters
#[derive(Debug, Copy, Clone, PartialEq, Eq, Structural)]
pub enum Filter {
    NoFilter,
    Shuffle,
    BitShuffle,
    Delta,
    TruncPrec,
    LastFilter,
    LastRegisteredFilter,
}

impl Filter {
    /// The engine's code of the filter.
    pub open spec fn spec_code(self) -> u8 {
        match self {
            Filter::NoFilter => 0,
            Filter::Shuffle => 1,
            Filter::BitShuffle => 2,
            Filter::Delta => 3,
            Filter::TruncPrec => 4,
            Filter::LastFilter => 5,
            Filter::LastRegisteredFilter => 36,
        }
    }

    /// The engine's code of the filter.
    pub fn code(&self) -> (c: u8)
        ensures
            c == self.spec_code(),
    {
        match self {
            Filter::NoFilter => 0,
            Filter::Shuffle => 1,
            Filter::BitShuffle => 2,
            Filter::Delta => 3,
            Filter::TruncPrec => 4,
            Filter::LastFilter => 5,
            Filter::LastRegisteredFilter => 36,
        }
    }

    /// The filter's name, as `to_string` gives it.
    pub open spec fn spec_name(self) -> Seq<char> {
        match self {
            Filter::NoFilter => "nofilter"@,
            Filter::Shuffle => "shuffle"@,
            Filter::BitShuffle => "bitshuffle"@,
            Filter::Delta => "delta"@,
            Filter::TruncPrec => "truncprec"@,
            Filter::LastFilter => "lastfilter"@,
            Filter::LastRegisteredFilter => "lastregisteredfilter"@,
        }
    }

    /// The filter's name.
    pub fn to_string(&self) -> (s: String)
        ensures
            s@ == self.spec_name(),
    {
        let name = match self {
            Filter::NoFilter => "nofilter",
            Filter::Shuffle => "shuffle",
            Filter::BitShuffle => "bitshuffle",
            Filter::Delta => "delta",
            Filter::TruncPrec => "truncprec",
            Filter::LastFilter => "lastfilter",
            Filter::LastRegisteredFilter => "lastregisteredfilter",
        };
        String::from_str(name)
    }

    /// The filter that `try_from` reads from the lower-cased name `lower`, if any.
    /// (The name it accepts for `TruncPrec` is spelled "trunctprec".)
    pub open spec fn spec_parse(lower: Seq<char>) -> Option<Filter> {
        if lower == "nofilter"@ {
            Some(Filter::NoFilter)
        } else if lower == "shuffle"@ {
            Some(Filter::Shuffle)
        } else if lower == "bitshuffle"@ {
            Some(Filter::BitShuffle)
        } else if lower == "delta"@ {
            Some(Filter::Delta)
        } else if lower == "trunctprec"@ {
            Some(Filter::TruncPrec)
        } else if lower == "lastfilter"@ {
            Some(Filter::LastFilter)
        } else if lower == "lastregisteredfilter"@ {
            Some(Filter::LastRegisteredFilter)
        } else {
            None
        }
    }

    /// The filter named `val`, compared without regard to case.
    pub fn try_from(val: &str) -> (r: Result<Filter>)
        ensures
            match Self::spec_parse(ascii_lower(val@)) {
                Some(f) => r == Ok::<Filter, Error>(f),
                None => r is Err && r->Err_0 is Other && r->Err_0->Other_0@ == "No matching filter for '"@
                    + val@ + "'"@,
            },
    {
        if eq_ignore_ascii_case(val, "nofilter") {
            Ok(Filter::NoFilter)
        } else if eq_ignore_ascii_case(val, "shuffle") {
            Ok(Filter::Shuffle)
        } else if eq_ignore_ascii_case(val, "bitshuffle") {
            Ok(Filter::BitShuffle)
        } else if eq_ignore_ascii_case(val, "delta") {
            Ok(Filter::Delta)
        } else if eq_ignore_ascii_case(val, "trunctprec") {
            Ok(Filter::TruncPrec)
        } else if eq_ignore_ascii_case(val, "lastfilter") {
            Ok(Filter::LastFilter)
        } else if eq_ignore_ascii_case(val, "lastregisteredfilter") {
            Ok(Filter::LastRegisteredFilter)
        } else {
            let mut msg = String::from_str("No matching filter for '");
            msg.append(val);
            msg.append("'");
            Err(Error::Other(msg))
        }
    }
}

impl Default for Filter {
    fn default() -> (f: Self)
        ensures
            f == Filter::Shuffle,
    {
        Filter::Shuffle
    }
}

/// `c` with an ASCII capital turned into its small letter.
pub open spec fn ascii_lower_char(c: char) -> char {
    if 'A' <= c <= 'Z' {
        ((c as int) + 32) as char
    } else {
        c
    }
}

/// `s` with every ASCII capital turned into its small letter. For the ASCII names
/// that this library compares against, this decides equality as `to_lowercase` does.
pub open spec fn ascii_lower(s: Seq<char>) -> Seq<char> {
    Seq::new(s.len(), |i: int| ascii_lower_char(s[i]))
}

fn lower_char(c: char) -> (r: char)
    ensures
        r == ascii_lower_char(c),
{
    if 'A' <= c && c <= 'Z' {
        let v: u8 = ((c as u32) + 32) as u8;
        v as char
    } else {
        c
    }
}

/// Whether `s`, lower-cased, is `lower`.
fn eq_ignore_ascii_case(s: &str, lower: &str) -> (r: bool)
    ensures
        r == (ascii_lower(s@) == lower@),
{
    let n = s.unicode_len();
    if n != lower.unicode_len() {
        assert(ascii_lower(s@).len() != lower@.len());
        return false;
    }
    let mut i: usize = 0;
    while i < n
        invariant
            n == s@.len(),
            n == lower@.len(),
            i <= n,
            forall|j: int| 0 <= j < i ==> ascii_lower_char(s@[j]) == lower@[j],
        decreases n - i,
    {
        if lower_char(s.get_char(i)) != lower.get_char(i) {
            assert(ascii_lower(s@)[i as int] != lower@[i as int]);
            return false;
        }
        i = i + 1;
    }
    assert(ascii_lower(s@) =~= lower@);
    true
}

/// Possible compression codecs
#[derive(Debug, Copy, Clone, PartialEq, Eq, Structural)]
pub enum Codec {
    BloscLz,
    LZ4,
    LZ4HC,
    ZLIB,
    ZSTD,
    LastCodec,
    LastRegisteredCodec,
}

impl Codec {
    /// The engine's code of the codec.
    pub open spec fn spec_code(self) -> u8 {
        match self {
            Codec::BloscLz => 0,
            Codec::LZ4 => 1,
            Codec::LZ4HC => 2,
            Codec::ZLIB => 4,
            Codec::ZSTD => 5,
            Codec::LastCodec => 6,
            Codec::LastRegisteredCodec => 36,
        }
    }

    /// The engine's code of the codec.
    pub fn code(&self) -> (c: u8)
        ensures
            c == self.spec_code(),
    {
        match self {
            Codec::BloscLz => 0,
            Codec::LZ4 => 1,
            Codec::LZ4HC => 2,
            Codec::ZLIB => 4,
            Codec::ZSTD => 5,
            Codec::LastCodec => 6,
            Codec::LastRegisteredCodec => 36,
        }
    }

    /// How `{:?}` renders the codec.
    pub open spec fn spec_debug(self) -> Seq<char> {
        match self {
            Codec::BloscLz => "BloscLz"@,
            Codec::LZ4 => "LZ4"@,
            Codec::LZ4HC => "LZ4HC"@,
            Codec::ZLIB => "ZLIB"@,
            Codec::ZSTD => "ZSTD"@,
            Codec::LastCodec => "LastCodec"@,
            Codec::LastRegisteredCodec => "LastRegisteredCodec"@,
        }
    }

    fn debug_name(&self) -> (s: &'static str)
        ensures
            s@ == self.spec_debug(),
    {
        match self {
            Codec::BloscLz => "BloscLz",
            Codec::LZ4 => "LZ4",
            Codec::LZ4HC => "LZ4HC",
            Codec::ZLIB => "ZLIB",
            Codec::ZSTD => "ZSTD",
            Codec::LastCodec => "LastCodec",
            Codec::LastRegisteredCodec => "LastRegisteredCodec",
        }
    }

    /// The codec's name, once the engine's name lookup for its code returned `rc`
    /// and the name `name`: -1 means that the engine knows no such codec.
    pub fn to_name(&self, rc: i32, name: &str) -> (r: Result<String>)
        ensures
            rc == -1 ==> is_other_err(r, "Unsupported Codec "@ + self.spec_debug()),
            rc != -1 ==> r is Ok && r->Ok_0@ == name@,
    {
        if rc == -1 {
            let mut msg = String::from_str("Unsupported Codec ");
            msg.append(self.debug_name());
            return Err(Error::Other(msg));
        }
        Ok(String::from_str(name))
    }

    /// The codec's name as a `String` (the same as `to_name`).
    pub fn try_into(self, rc: i32, name: &str) -> (r: Result<String>)
        ensures
            rc == -1 ==> is_other_err(r, "Unsupported Codec "@ + self.spec_debug()),
            rc != -1 ==> r is Ok && r->Ok_0@ == name@,
    {
        self.to_name(rc, name)
    }

    /// The codec whose engine code is `compcode`.
    pub open spec fn spec_from_code(compcode: int) -> Option<Codec> {
        if compcode == 0 {
            Some(Codec::BloscLz)
        } else if compcode == 1 {
            Some(Codec::LZ4)
        } else if compcode == 2 {
            Some(Codec::LZ4HC)
        } else if compcode == 4 {
            Some(Codec::ZLIB)
        } else if compcode == 5 {
            Some(Codec::ZSTD)
        } else if compcode == 6 {
            Some(Codec::LastCodec)
        } else if compcode == 36 {
            Some(Codec::LastRegisteredCodec)
        } else {
            None
        }
    }

    /// The codec whose engine code is `compcode`.
    pub fn try_from_code(compcode: i32) -> (r: Result<Codec>)
        ensures
            match Self::spec_from_code(compcode as int) {
                Some(c) => r == Ok::<Codec, Error>(c),
                None => r is Err && r->Err_0 is Other && r->Err_0->Other_0@ == "Not match for compcode "@
                    + int_text(compcode as int),
            },
    {
        if compcode == 0 {
            Ok(Codec::BloscLz)
        } else if compcode == 1 {
            Ok(Codec::LZ4)
        } else if compcode == 2 {
            Ok(Codec::LZ4HC)
        } else if compcode == 4 {
            Ok(Codec::ZLIB)
        } else if compcode == 5 {
            Ok(Codec::ZSTD)
        } else if compcode == 6 {
            Ok(Codec::LastCodec)
        } else if compcode == 36 {
            Ok(Codec::LastRegisteredCodec)
        } else {
            let mut msg = String::from_str("Not match for compcode ");
            push_i64(&mut msg, compcode as i64);
            Err(Error::Other(msg))
        }
    }

    /// The codec named `value`: a name with a NUL in it is refused; otherwise the
    /// engine is asked for the code of the name.
    pub fn try_from(value: &str) -> (s: Step<Codec, ()>)
        ensures
            match first_nul(value.spec_bytes()) {
                Some(pos) => s is Done && is_other_err(
                    s->Done_0,
                    "nul byte found in provided data at position: "@ + int_text(pos),
                ),
                None => s is Call,
            },
    {
        match find_nul(value) {
            Some(pos) => Step::Done(Err(nul_error(pos))),
            None => Step::Call(()),
        }
    }

    /// What the name `value` gives, once the engine returned the code `compcode`
    /// for it: -1 means that the engine knows no such name.
    pub open spec fn spec_from_name_code(value: Seq<char>, compcode: int) -> core::result::Result<
        Codec,
        Seq<char>,
    > {
        if compcode == -1 {
            Err("Compcode "@ + value + " not recognized"@)
        } else {
            match Self::spec_from_code(compcode) {
                Some(c) => Ok(c),
                None => Err("Not match for compcode "@ + int_text(compcode)),
            }
        }
    }

    /// The codec named `value`, once the engine returned the code `compcode` for it.
    pub fn try_from_finish(value: &str, compcode: i32) -> (r: Result<Codec>)
        ensures
            match Self::spec_from_name_code(value@, compcode as int) {
                Ok(c) => r == Ok::<Codec, Error>(c),
                Err(msg) => is_other_err(r, msg),
            },
    {
        if compcode == -1 {
            let mut msg = String::from_str("Compcode ");
            msg.append(value);
            msg.append(" not recognized");
            return Err(Error::Other(msg));
        }
        Self::try_from_code(compcode)
    }
}

impl Default for Codec {
    fn default() -> (c: Self)
        ensures
            c == Codec::BloscLz,
    {
        Codec::BloscLz
    }
}

/// The index of the first zero byte of `bytes`, if any.
pub open spec fn first_nul(bytes: Seq<u8>) -> Option<int> {
    if exists|i: int| 0 <= i < bytes.len() && bytes[i] == 0 {
        Some(choose|i: int| 0 <= i < bytes.len() && bytes[i] == 0 && forall|j: int| 0 <= j < i ==> bytes[j] != 0)
    } else {
        None
    }
}

/// The byte index of the first NUL in `s`, if any.
pub fn find_nul(s: &str) -> (r: Option<usize>)
    ensures
        r == match first_nul(s.spec_bytes()) {
            Some(p) => Some(p as usize),
            None => None::<usize>,
        },
        r is Some ==> r->0 < s.spec_bytes().len() && first_nul(s.spec_bytes()) == Some(r->0 as int),
{
    let bytes = s.as_bytes();
    let mut i: usize = 0;
    while i < bytes.len()
        invariant
            bytes@ == s.spec_bytes(),
            i <= bytes@.len(),
            forall|j: int| 0 <= j < i ==> bytes@[j] != 0,
        decreases bytes@.len() - i,
    {
        if bytes[i] == 0 {
            let ghost b = bytes@;
            assert(exists|k: int| 0 <= k < b.len() && b[k] == 0);
            let ghost c = choose|k: int| 0 <= k < b.len() && b[k] == 0 && forall|j: int| 0 <= j < k ==> b[j] != 0;
            assert(0 <= i < b.len() && b[i as int] == 0 && forall|j: int| 0 <= j < i ==> b[j] != 0);
            assert(c == i) by {
                if c < i {
                    assert(b[c] != 0);
                } else if c > i {
                    assert(b[i as int] != 0);
                }
            }
            return Some(i);
        }
        i = i + 1;
    }
    None
}

/// The error that turning a string with a NUL at byte `pos` into a C string gives.
pub fn nul_error(pos: usize) -> (e: Error)
    ensures
        e is Other,
        e->Other_0@ == "nul byte found in provided data at position: "@ + int_text(pos as int),
{
    let mut msg = String::from_str("nul byte found in provided data at position: ");
    push_u64(&mut msg, pos as u64);
    Err::<(), Error>(Error::Other(msg)).unwrap_err()
}

/// Possible CLevel settings
#[derive(Debug, Copy, Clone, PartialEq, Eq, Structural)]
pub enum CLevel {
    Zero,
    One,
    Two,
    Three,
    Four,
    Five,
    Six,
    Seven,
    Eight,
    Nine,
}

impl CLevel {
    /// The level as a number.
    pub open spec fn spec_code(self) -> u8 {
        match self {
            CLevel::Zero => 0,
            CLevel::One => 1,
            CLevel::Two => 2,
            CLevel::Three => 3,
            CLevel::Four => 4,
            CLevel::Five => 5,
            CLevel::Six => 6,
            CLevel::Seven => 7,
            CLevel::Eight => 8,
            CLevel::Nine => 9,
        }
    }

    /// The level as a number.
    pub fn code(&self) -> (c: u8)
        ensures
            c == self.spec_code(),
    {
        match self {
            CLevel::Zero => 0,
            CLevel::One => 1,
            CLevel::Two => 2,
            CLevel::Three => 3,
            CLevel::Four => 4,
            CLevel::Five => 5,
            CLevel::Six => 6,
            CLevel::Seven => 7,
            CLevel::Eight => 8,
            CLevel::Nine => 9,
        }
    }

    /// The level whose number is `val`: 0 to 9.
    pub fn try_from(val: usize) -> (r: Result<CLevel>)
        ensures
            val <= 9 ==> r is Ok && r->Ok_0.spec_code() == val,
            val > 9 ==> r is Err && r->Err_0 is Other && r->Err_0->Other_0@
                == "Compression level must be 0-9, got "@ + int_text(val as int),
    {
        match val {
            0 => Ok(CLevel::Zero),
            1 => Ok(CLevel::One),
            2 => Ok(CLevel::Two),
            3 => Ok(CLevel::Three),
            4 => Ok(CLevel::Four),
            5 => Ok(CLevel::Five),
            6 => Ok(CLevel::Six),
            7 => Ok(CLevel::Seven),
            8 => Ok(CLevel::Eight),
            9 => Ok(CLevel::Nine),
            _ => {
                let mut msg = String::from_str("Compression level must be 0-9, got ");
                push_u64(&mut msg, val as u64);
                Err(Error::Other(msg))
            },
        }
    }
}

impl Default for CLevel {
    fn default() -> (c: Self)
        ensures
            c == CLevel::Nine,
    {
        CLevel::Nine
    }
}

/// A level's number gives the level back, and every number from 0 to 9 is a level.
pub proof fn law_clevel_code(c1: CLevel, c2: CLevel)
    ensures
        c1.spec_code() <= 9,
        c1.spec_code() == c2.spec_code() ==> c1 == c2,
{
}

/// Each level's number is the one its name says: `Zero` is 0 (no compression)
/// up to `Nine`, which is 9.
pub proof fn law_clevel_numbers()
    ensures
        CLevel::Zero.spec_code() == 0,
        CLevel::One.spec_code() == 1,
        CLevel::Two.spec_code() == 2,
        CLevel::Three.spec_code() == 3,
        CLevel::Four.spec_code() == 4,
        CLevel::Five.spec_code() == 5,
        CLevel::Six.spec_code() == 6,
        CLevel::Seven.spec_code() == 7,
        CLevel::Eight.spec_code() == 8,
        CLevel::Nine.spec_code() == 9,
{
}

/// Reading a codec back from its engine code gives the codec.
pub proof fn law_codec_code_roundtrip(c: Codec)
    ensures
        Codec::spec_from_code(c.spec_code() as int) == Some(c),
{
}

/// A filter's name read back gives the filter, for every filter but `TruncPrec`
/// (whose name is written "truncprec" and read as "trunctprec").
pub proof fn law_filter_name_roundtrip(f: Filter)
    requires
        f != Filter::TruncPrec,
    ensures
        Filter::spec_parse(ascii_lower(f.spec_name())) == Some(f),
{
    broadcast use vstd::string::group_string_axioms;

    reveal_strlit("nofilter");
    reveal_strlit("shuffle");
    reveal_strlit("bitshuffle");
    reveal_strlit("delta");
    reveal_strlit("trunctprec");
    reveal_strlit("lastfilter");
    reveal_strlit("lastregisteredfilter");
    assert("nofilter"@.len() == 8);
    assert("shuffle"@.len() == 7);
    assert("bitshuffle"@.len() == 10);
    assert("delta"@.len() == 5);
    assert("trunctprec"@.len() == 10);
    assert("lastfilter"@.len() == 10);
    assert("lastregisteredfilter"@.len() == 20);
    assert("bitshuffle"@[0] != "trunctprec"@[0]);
    assert("bitshuffle"@[0] != "lastfilter"@[0]);
    assert("trunctprec"@[0] != "lastfilter"@[0]);
    let n = f.spec_name();
    assert forall|i: int| 0 <= i < n.len() implies ascii_lower_char(#[trigger] n[i]) == n[i] by {
        assert('a' <= n[i] <= 'z');
    }
    assert(ascii_lower(n) =~= n);
}

} // verus!
