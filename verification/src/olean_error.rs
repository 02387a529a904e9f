//! Errors of the `.olean` reader.
use vstd::prelude::*;

use crate::text::{chars_of, decimal, push_all, string_from_chars, u64_to_decimal};

verus! {

/// What went wrong while reading an `.olean` file.
#[derive(Debug)]
pub enum OleanError {
    InvalidHeader(String),
    UnsupportedVersion(u8),
    Deserialize(String),
    InvalidTag { tag: u8, pos: usize },
    OutOfBounds { pos: usize, size: usize },
    MpzNotSupported,
}

/// Result of reading an `.olean` file.
pub type OleanResult<T> = Result<T, OleanError>;

pub(crate) fn push_text(out: &mut Vec<char>, s: &str)
    ensures
        final(out)@ == old(out)@ + s@,
{
    let cs = chars_of(s);
    push_all(out, cs.as_slice());
}

pub(crate) fn push_number(out: &mut Vec<char>, n: u64)
    ensures
        final(out)@ == old(out)@ + decimal(n as nat),
{
    let d = u64_to_decimal(n);
    push_text(out, d.as_str());
}

/// The message of an error, as the reader's users see it.
pub open spec fn error_message(e: OleanError) -> Seq<char> {
    match e {
        OleanError::InvalidHeader(s) => "invalid .olean header: "@ + s@,
        OleanError::UnsupportedVersion(v) => "unsupported .olean version: "@ + decimal(v as nat)
            + " (expected 2)"@,
        OleanError::Deserialize(s) => "deserialization error: "@ + s@,
        OleanError::InvalidTag { tag, pos } => "invalid object tag "@ + decimal(tag as nat)
            + " at position "@ + decimal(pos as nat),
        OleanError::OutOfBounds { pos, size } => "out of bounds read at position "@ + decimal(
            pos as nat,
        ) + ", region size "@ + decimal(size as nat),
        OleanError::MpzNotSupported => "MPZ values not yet supported"@,
    }
}

impl OleanError {
    /// The message of the error (what `Display` prints).
    pub fn message(&self) -> (r: String)
        ensures
            r@ == error_message(*self),
    {
        let mut out: Vec<char> = Vec::new();
        match self {
            OleanError::InvalidHeader(s) => {
                push_text(&mut out, "invalid .olean header: ");
                push_text(&mut out, s.as_str());
            },
            OleanError::UnsupportedVersion(v) => {
                push_text(&mut out, "unsupported .olean version: ");
                push_number(&mut out, *v as u64);
                push_text(&mut out, " (expected 2)");
            },
            OleanError::Deserialize(s) => {
                push_text(&mut out, "deserialization error: ");
                push_text(&mut out, s.as_str());
            },
            OleanError::InvalidTag { tag, pos } => {
                push_text(&mut out, "invalid object tag ");
                push_number(&mut out, *tag as u64);
                push_text(&mut out, " at position ");
                push_number(&mut out, *pos as u64);
            },
            OleanError::OutOfBounds { pos, size } => {
                push_text(&mut out, "out of bounds read at position ");
                push_number(&mut out, *pos as u64);
                push_text(&mut out, ", region size ");
                push_number(&mut out, *size as u64);
            },
            OleanError::MpzNotSupported => {
                push_text(&mut out, "MPZ values not yet supported");
            },
        }
        string_from_chars(out.as_slice())
    }
}

} // verus!
