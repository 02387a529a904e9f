//! The fixed 88-byte header at the start of every `.olean` file.
use vstd::prelude::*;

use crate::hash::{le_word, read_le};
use crate::olean_error::{push_number, push_text, OleanError};
use crate::text::{chars_of, decimal, string_from_chars, string_from_utf8_lossy, utf8_lossy};

verus! {

/// Total header size: 5 + 1 + 1 + 33 + 40 + 8 = 88 bytes on 64-bit.
pub const HEADER_SIZE: usize = 88;

/// The format version this reader understands.
pub const OLEAN_VERSION: u8 = 2;

/// `s` without its trailing NUL characters.
pub open spec fn trim_trailing_nul(s: Seq<char>) -> Seq<char>
    decreases s.len(),
{
    if s.len() > 0 && s.last() == '\0' {
        trim_trailing_nul(s.drop_last())
    } else {
        s
    }
}

/// Whether `data` starts with the five magic bytes `olean`.
pub open spec fn has_magic(data: Seq<u8>) -> bool {
    &&& data.len() >= 5
    &&& data[0] == 0x6f
    &&& data[1] == 0x6c
    &&& data[2] == 0x65
    &&& data[3] == 0x61
    &&& data[4] == 0x6e
}

/// Text of the error for a file shorter than the header.
pub open spec fn too_small_text(n: nat) -> Seq<char> {
    "file too small: "@ + decimal(n) + " bytes (need at least 88)"@
}

/// Parsed `.olean` file header.
#[derive(Debug)]
pub struct OleanHeader {
    pub version: u8,
    pub flags: u8,
    pub lean_version: String,
    pub githash: String,
    pub base_addr: u64,
}

/// Strip trailing NUL characters.
fn trim_nul_end(s: &str) -> (r: String)
    ensures
        r@ == trim_trailing_nul(s@),
{
    let cs = chars_of(s);
    let mut n: usize = cs.len();
    proof {
        assert(cs@.subrange(0, n as int) == cs@);
    }
    while n > 0 && cs[n - 1] == '\0'
        invariant
            n <= cs@.len(),
            trim_trailing_nul(cs@.subrange(0, n as int)) == trim_trailing_nul(cs@),
        decreases n,
    {
        proof {
            assert(cs@.subrange(0, n as int).drop_last() == cs@.subrange(0, n - 1));
        }
        n = n - 1;
    }
    proof {
        assert(cs@ == s@);
    }
    string_from_chars(vstd::slice::slice_subrange(cs.as_slice(), 0, n))
}

/// The text field stored in `data[lo..hi]`, decoded and without trailing NULs.
fn text_field(data: &[u8], lo: usize, hi: usize) -> (r: String)
    requires
        lo <= hi <= data@.len(),
    ensures
        r@ == trim_trailing_nul(utf8_lossy(data@.subrange(lo as int, hi as int))),
        vstd::utf8::valid_utf8(data@.subrange(lo as int, hi as int)) ==> r@ == trim_trailing_nul(
            vstd::utf8::decode_utf8(data@.subrange(lo as int, hi as int)),
        ),
{
    let raw = string_from_utf8_lossy(vstd::slice::slice_subrange(data, lo, hi));
    trim_nul_end(raw.as_str())
}

impl OleanHeader {
    /// Parse the header from the first 88 bytes of an `.olean` file. The two
    /// text fields are decoded (invalid UTF-8 lossily) and lose their trailing
    /// NULs.
    pub fn parse(data: &[u8]) -> (r: Result<OleanHeader, OleanError>)
        ensures
            data@.len() < HEADER_SIZE ==> (r matches Err(OleanError::InvalidHeader(m)) && m@
                == too_small_text(data@.len())),
            data@.len() >= HEADER_SIZE && !has_magic(data@) ==> (r matches Err(
                OleanError::InvalidHeader(m),
            ) && m@ == "bad magic bytes"@),
            data@.len() >= HEADER_SIZE && has_magic(data@) && data@[5] != OLEAN_VERSION ==> r
                == Err::<OleanHeader, OleanError>(OleanError::UnsupportedVersion(data@[5])),
            r is Ok <==> (data@.len() >= HEADER_SIZE && has_magic(data@) && data@[5]
                == OLEAN_VERSION),
            r matches Ok(h) ==> {
                &&& h.version == data@[5]
                &&& h.flags == data@[6]
                &&& h.lean_version@ == trim_trailing_nul(utf8_lossy(data@.subrange(7, 40)))
                &&& h.githash@ == trim_trailing_nul(utf8_lossy(data@.subrange(40, 80)))
                &&& h.base_addr == le_word(data@, 80, 8)
                &&& vstd::utf8::valid_utf8(data@.subrange(7, 40)) ==> h.lean_version@
                    == trim_trailing_nul(vstd::utf8::decode_utf8(data@.subrange(7, 40)))
                &&& vstd::utf8::valid_utf8(data@.subrange(40, 80)) ==> h.githash@
                    == trim_trailing_nul(vstd::utf8::decode_utf8(data@.subrange(40, 80)))
            },
    {
        if data.len() < HEADER_SIZE {
            let mut out: Vec<char> = Vec::new();
            push_text(&mut out, "file too small: ");
            push_number(&mut out, data.len() as u64);
            push_text(&mut out, " bytes (need at least 88)");
            return Err(OleanError::InvalidHeader(string_from_chars(out.as_slice())));
        }
        if !(data[0] == 0x6f && data[1] == 0x6c && data[2] == 0x65 && data[3] == 0x61 && data[4]
            == 0x6e) {
            let m = string_from_chars(chars_of("bad magic bytes").as_slice());
            return Err(OleanError::InvalidHeader(m));
        }
        let version = data[5];
        if version != OLEAN_VERSION {
            return Err(OleanError::UnsupportedVersion(version));
        }
        let flags = data[6];
        let lean_version = text_field(data, 7, 40);
        let githash = text_field(data, 40, 80);
        let base_addr = read_le(data, 80, 8);
        Ok(OleanHeader { version, flags, lean_version, githash, base_addr })
    }

    /// Whether bignums use GMP encoding (vs Lean-native).
    pub fn uses_gmp(&self) -> (b: bool)
        ensures
            b == (self.flags & 1 != 0),
    {
        self.flags & 1 != 0
    }
}

} // verus!
