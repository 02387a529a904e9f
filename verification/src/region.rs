//! Low-level reader for the compacted object region of an `.olean` file.
use vstd::prelude::*;

use crate::hash::{le_word, read_le};
use crate::olean_error::{push_number, push_text, OleanError};
use crate::olean_header::HEADER_SIZE;
use crate::text::{chars_of, decimal, string_from_chars};

verus! {

/// Largest constructor tag.
pub const LEAN_MAX_CTOR_TAG: u8 = 243;

/// Tag of closures.
pub const LEAN_TAG_CLOSURE: u8 = 245;

/// Tag of arrays of objects.
pub const LEAN_TAG_ARRAY: u8 = 246;

/// Tag of structure arrays.
pub const LEAN_TAG_STRUCT_ARRAY: u8 = 247;

/// Tag of scalar arrays.
pub const LEAN_TAG_SCALAR_ARRAY: u8 = 248;

/// Tag of strings.
pub const LEAN_TAG_STRING: u8 = 249;

/// Tag of big naturals.
pub const LEAN_TAG_MPZ: u8 = 250;

/// A reference to a Lean object: null, a scalar, or a position in the region.
#[derive(Clone, Copy, Debug, PartialEq, Eq, Structural, Hash)]
pub enum ObjRef {
    /// Null pointer (0).
    Null,
    /// A scalar value (the stored raw value was `(val << 1) | 1`).
    Scalar(u64),
    /// An object at a byte position within the region data.
    Ptr(usize),
}

/// `a - b` modulo 2^64.
pub open spec fn wrapping_sub_u64(a: u64, b: u64) -> u64 {
    if a >= b {
        (a - b) as u64
    } else {
        (a - b + 0x1_0000_0000_0000_0000int) as u64
    }
}

/// The reference that the raw stored word `raw` denotes in a region of
/// `len` bytes whose first byte sits at address `base`.
pub open spec fn resolve_raw(raw: u64, base: u64, len: nat) -> ObjRef {
    if raw == 0 {
        ObjRef::Null
    } else if raw & 1 != 0 {
        ObjRef::Scalar(raw >> 1)
    } else {
        let pos = wrapping_sub_u64(raw, base) as usize;
        if pos >= len {
            ObjRef::Null
        } else {
            ObjRef::Ptr(pos)
        }
    }
}

/// A scalar `v` stored as `(v << 1) | 1` reads back as `Scalar(v)`.
pub proof fn law_resolve_scalar(v: u64, base: u64, len: nat)
    requires
        v < 0x8000_0000_0000_0000u64,
    ensures
        resolve_raw((v << 1u64) | 1u64, base, len) == ObjRef::Scalar(v),
{
    assert(((v << 1u64) | 1u64) != 0u64 && ((v << 1u64) | 1u64) & 1u64 != 0u64 && ((v << 1u64)
        | 1u64) >> 1u64 == v) by (bit_vector)
        requires
            v < 0x8000_0000_0000_0000u64,
    ;
}

/// An even address `base + pos` inside the region reads back as `Ptr(pos)`.
pub proof fn law_resolve_ptr(pos: usize, base: u64, len: nat)
    requires
        pos < len,
        base + pos <= u64::MAX,
        (base + pos) % 2 == 0,
        base + pos != 0,
    ensures
        resolve_raw((base + pos) as u64, base, len) == ObjRef::Ptr(pos),
{
    let raw = (base + pos) as u64;
    assert(raw & 1u64 == 0u64) by (bit_vector)
        requires
            raw % 2 == 0,
    ;
    assert(wrapping_sub_u64(raw, base) == pos as u64);
}

/// A wrapped string message of the library's own.
fn message(s: &str) -> (r: String)
    ensures
        r@ == s@,
{
    string_from_chars(chars_of(s).as_slice())
}

/// The characters std `str::from_utf8` puts in its error for invalid `bytes`.
pub uninterp spec fn utf8_error_text(bytes: Seq<u8>) -> Seq<char>;

/// std `str::from_utf8`: succeeds exactly on valid UTF-8 and then decodes it;
/// on failure hands back the error's `Display` text.
#[verifier::external_body]
fn str_from_utf8(bytes: &[u8]) -> (r: Result<&str, String>)
    ensures
        r is Ok <==> vstd::utf8::valid_utf8(bytes@),
        r matches Ok(s) ==> s@ == vstd::utf8::decode_utf8(bytes@),
        r matches Err(m) ==> m@ == utf8_error_text(bytes@),
{
    match std::str::from_utf8(bytes) {
        Ok(s) => Ok(s),
        Err(e) => Err(e.to_string()),
    }
}

/// Reader for a compacted object region.
///
/// Objects are stored contiguously. Pointers within objects are encoded as
/// offsets from a base address. Scalar values have bit 0 set.
pub struct CompactedRegion {
    /// Raw bytes of the region (everything after the 88-byte header).
    data: Vec<u8>,
    /// Base address for offset computation: `header.base_addr + HEADER_SIZE`.
    base_addr: u64,
    /// Whether bignums use GMP encoding.
    pub uses_gmp: bool,
}

/// Text of the error for a negative big number.
pub open spec fn negative_mpz_text() -> Seq<char> {
    "negative MPZ not supported as u64"@
}

impl CompactedRegion {
    /// The region's bytes.
    pub closed spec fn bytes(&self) -> Seq<u8> {
        self.data@
    }

    /// The address of the region's first byte.
    pub closed spec fn base(&self) -> u64 {
        self.base_addr
    }

    /// The region holds at most `usize::MAX` bytes.
    proof fn lemma_len_fits(&self)
        ensures
            self.bytes().len() <= usize::MAX,
    {
        assert(self.data@.len() == self.data.len());
    }

    /// Whether big numbers are stored in GMP format.
    pub closed spec fn gmp(&self) -> bool {
        self.uses_gmp
    }

    /// Little-endian word of `n` bytes at `pos`.
    pub open spec fn word(&self, pos: int, n: nat) -> u64 {
        le_word(self.bytes(), pos, n)
    }

    /// What a raw stored word denotes in this region.
    pub open spec fn resolved(&self, raw: u64) -> ObjRef {
        resolve_raw(raw, self.base(), self.bytes().len())
    }

    pub fn new(data: Vec<u8>, file_base_addr: u64, uses_gmp: bool) -> (r: Self)
        requires
            file_base_addr + HEADER_SIZE <= u64::MAX,
        ensures
            r.bytes() == data@,
            r.base() == file_base_addr + HEADER_SIZE,
            r.gmp() == uses_gmp,
    {
        CompactedRegion { data, base_addr: file_base_addr + HEADER_SIZE as u64, uses_gmp }
    }

    /// Get the root object reference (first 8 bytes of region data).
    pub fn root(&self) -> (r: ObjRef)
        ensures
            self.bytes().len() < 8 ==> r == ObjRef::Null,
            self.bytes().len() >= 8 ==> r == self.resolved(self.word(0, 8)),
    {
        if self.data.len() < 8 {
            return ObjRef::Null;
        }
        let raw = self.read_u64(0);
        self.resolve(raw)
    }

    /// Convert a raw stored pointer/offset value to an `ObjRef`.
    pub fn resolve(&self, raw: u64) -> (r: ObjRef)
        ensures
            r == self.resolved(raw),
    {
        if raw == 0 {
            ObjRef::Null
        } else if raw & 1 != 0 {
            ObjRef::Scalar(raw >> 1)
        } else {
            let pos = raw.wrapping_sub(self.base_addr) as usize;
            if pos >= self.data.len() {
                ObjRef::Null
            } else {
                ObjRef::Ptr(pos)
            }
        }
    }

    /// `Ok` when `len` bytes from `pos` lie inside the region.
    fn check_bounds(&self, pos: usize, len: usize) -> (r: Result<(), OleanError>)
        ensures
            r is Ok <==> pos + len <= self.bytes().len(),
            r is Err ==> r == Err::<(), OleanError>(
                OleanError::OutOfBounds { pos, size: self.bytes().len() as usize },
            ),
    {
        if len > self.data.len() || pos > self.data.len() - len {
            Err(OleanError::OutOfBounds { pos, size: self.data.len() })
        } else {
            Ok(())
        }
    }

    pub fn read_u8(&self, pos: usize) -> (r: u8)
        requires
            pos < self.bytes().len(),
        ensures
            r == self.bytes()[pos as int],
    {
        self.data[pos]
    }

    pub fn read_u16(&self, pos: usize) -> (r: u16)
        requires
            pos + 2 <= self.bytes().len(),
        ensures
            r == self.word(pos as int, 2) as u16,
    {
        read_le(self.data.as_slice(), pos, 2) as u16
    }

    pub fn read_u32(&self, pos: usize) -> (r: u32)
        requires
            pos + 4 <= self.bytes().len(),
        ensures
            r == self.word(pos as int, 4) as u32,
    {
        read_le(self.data.as_slice(), pos, 4) as u32
    }

    pub fn read_u64(&self, pos: usize) -> (r: u64)
        requires
            pos + 8 <= self.bytes().len(),
        ensures
            r == self.word(pos as int, 8),
    {
        read_le(self.data.as_slice(), pos, 8)
    }

    // Object header layout: [m_rc: i32 (4)] [m_cs_sz: u16 (2)] [m_other: u8 (1)] [m_tag: u8 (1)]
    /// Constructor tag (byte 7 of the object header).
    pub fn obj_tag(&self, pos: usize) -> (r: u8)
        requires
            pos + 8 <= self.bytes().len(),
        ensures
            r == self.bytes()[pos + 7],
    {
        proof {
            self.lemma_len_fits();
        }
        self.data[pos + 7]
    }

    /// Number of object (pointer) fields (byte 6 of the object header).
    pub fn obj_num_objs(&self, pos: usize) -> (r: u8)
        requires
            pos + 7 <= self.bytes().len(),
        ensures
            r == self.bytes()[pos + 6],
    {
        proof {
            self.lemma_len_fits();
        }
        self.data[pos + 6]
    }

    /// Compact size (`m_cs_sz`): total byte size for small objects.
    pub fn obj_cs_sz(&self, pos: usize) -> (r: u16)
        requires
            pos + 6 <= self.bytes().len(),
        ensures
            r == self.word(pos + 4, 2) as u16,
    {
        proof {
            self.lemma_len_fits();
        }
        self.read_u16(pos + 4)
    }

    /// Read the i-th object (pointer) field of a constructor at `pos`.
    pub fn ctor_obj_field(&self, pos: usize, i: usize) -> (r: ObjRef)
        requires
            pos + 8 + i * 8 + 8 <= self.bytes().len(),
        ensures
            r == self.resolved(self.word(pos + 8 + i * 8, 8)),
    {
        proof {
            self.lemma_len_fits();
        }
        let field_pos = pos + 8 + i * 8;
        let raw = self.read_u64(field_pos);
        self.resolve(raw)
    }

    /// Read a u8 scalar field; `scalar_offset` is relative to the start of
    /// the scalar area (after all object fields).
    pub fn ctor_scalar_u8(&self, pos: usize, num_objs: usize, scalar_offset: usize) -> (r: u8)
        requires
            pos + 8 + num_objs * 8 + scalar_offset < self.bytes().len(),
        ensures
            r == self.bytes()[pos + 8 + num_objs * 8 + scalar_offset],
    {
        proof {
            self.lemma_len_fits();
        }
        self.read_u8(pos + 8 + num_objs * 8 + scalar_offset)
    }

    /// Read a u32 scalar field.
    pub fn ctor_scalar_u32(&self, pos: usize, num_objs: usize, scalar_offset: usize) -> (r: u32)
        requires
            pos + 8 + num_objs * 8 + scalar_offset + 4 <= self.bytes().len(),
        ensures
            r == self.word(pos + 8 + num_objs * 8 + scalar_offset, 4) as u32,
    {
        proof {
            self.lemma_len_fits();
        }
        self.read_u32(pos + 8 + num_objs * 8 + scalar_offset)
    }

    /// Read a u64 scalar field.
    pub fn ctor_scalar_u64(&self, pos: usize, num_objs: usize, scalar_offset: usize) -> (r: u64)
        requires
            pos + 8 + num_objs * 8 + scalar_offset + 8 <= self.bytes().len(),
        ensures
            r == self.word(pos + 8 + num_objs * 8 + scalar_offset, 8),
    {
        proof {
            self.lemma_len_fits();
        }
        self.read_u64(pos + 8 + num_objs * 8 + scalar_offset)
    }

    // Array layout: [header: 8] [m_size: u64] [m_capacity: u64] [elements: m_size x u64]
    /// Number of elements of the array at `pos`.
    pub fn array_size(&self, pos: usize) -> (r: usize)
        requires
            pos + 16 <= self.bytes().len(),
        ensures
            r == self.word(pos + 8, 8) as usize,
    {
        proof {
            self.lemma_len_fits();
        }
        self.read_u64(pos + 8) as usize
    }

    /// The i-th element of the array at `pos`.
    pub fn array_elem(&self, pos: usize, i: usize) -> (r: ObjRef)
        requires
            pos + 24 + i * 8 + 8 <= self.bytes().len(),
        ensures
            r == self.resolved(self.word(pos + 24 + i * 8, 8)),
    {
        proof {
            self.lemma_len_fits();
        }
        let elem_pos = pos + 24 + i * 8;
        let raw = self.read_u64(elem_pos);
        self.resolve(raw)
    }

    // String layout: [header: 8] [m_size: u64] [m_capacity: u64] [m_length: u64] [data: m_size bytes]
    /// Byte size of the string at `pos`, its NUL terminator included.
    pub fn string_byte_size(&self, pos: usize) -> (r: usize)
        requires
            pos + 16 <= self.bytes().len(),
        ensures
            r == self.word(pos + 8, 8) as usize,
    {
        proof {
            self.lemma_len_fits();
        }
        self.read_u64(pos + 8) as usize
    }

    /// Read a string value (UTF-8, not including the NUL terminator).
    pub fn string_value(&self, pos: usize) -> (r: Result<&str, OleanError>)
        requires
            pos + 16 <= self.bytes().len(),
            pos + 32 <= usize::MAX,
        ensures
            ({
                let size = self.word(pos + 8, 8) as usize as int;
                let lo = pos + 32;
                let body = self.bytes().subrange(lo, lo + size - 1);
                &&& size == 0 ==> r == Ok::<&str, OleanError>("")
                &&& size != 0 && lo + size > self.bytes().len() ==> r == Err::<&str, OleanError>(
                    OleanError::OutOfBounds { pos: (pos + 32) as usize, size: self.bytes().len() as usize },
                )
                &&& size != 0 && lo + size <= self.bytes().len() ==> {
                    &&& r is Ok <==> vstd::utf8::valid_utf8(body)
                    &&& r matches Ok(s) ==> s@ == vstd::utf8::decode_utf8(body)
                    &&& r matches Err(e) ==> e matches OleanError::Deserialize(m) && m@
                        == "invalid UTF-8 string: "@ + utf8_error_text(body)
                }
            }),
    {
        proof {
            self.lemma_len_fits();
        }
        let byte_size = self.string_byte_size(pos);
        if byte_size == 0 {
            return Ok("");
        }
        let data_pos = pos + 32;
        match self.check_bounds(data_pos, byte_size) {
            Err(e) => {
                return Err(e);
            },
            Ok(()) => {},
        }
        let bytes = vstd::slice::slice_subrange(
            self.data.as_slice(),
            data_pos,
            data_pos + byte_size - 1,
        );
        match str_from_utf8(bytes) {
            Ok(s) => Ok(s),
            Err(m) => {
                let mut out: Vec<char> = Vec::new();
                push_text(&mut out, "invalid UTF-8 string: ");
                push_text(&mut out, m.as_str());
                Err(OleanError::Deserialize(string_from_chars(out.as_slice())))
            },
        }
    }

    /// The GMP-format big number at `pos` can be read without leaving the region.
    pub open spec fn gmp_readable(&self, pos: usize) -> bool {
        &&& pos + 24 <= self.bytes().len()
        &&& (self.word(pos + 12, 4) as u32 as i32 == 1 ==> (self.resolved(self.word(pos + 16, 8))
            matches ObjRef::Ptr(lpos) ==> lpos + 8 <= self.bytes().len()))
    }

    /// `r` is what reading the GMP-format big number at `pos` gives.
    pub open spec fn reads_gmp_mpz(&self, pos: usize, r: Result<u64, OleanError>) -> bool {
        let size = self.word(pos + 12, 4) as u32 as i32;
        let limbs = self.resolved(self.word(pos + 16, 8));
        &&& size < 0 ==> (r matches Err(OleanError::Deserialize(m)) && m@ == negative_mpz_text())
        &&& size == 0 ==> r == Ok::<u64, OleanError>(0)
        &&& size > 0 && !(limbs is Ptr) ==> (r matches Err(OleanError::Deserialize(m)) && m@
            == "invalid MPZ limb pointer"@)
        &&& size == 1 ==> (limbs matches ObjRef::Ptr(lpos) ==> r == Ok::<u64, OleanError>(
            self.word(lpos as int, 8),
        ))
        &&& size > 1 && limbs is Ptr ==> (r matches Err(OleanError::Deserialize(m)) && m@
            == "MPZ with "@ + decimal(size as nat) + " limbs too large for u64"@)
    }

    /// The Lean-native big number at `pos` can be read without leaving the region.
    pub open spec fn native_readable(&self, pos: usize) -> bool {
        &&& pos + 25 <= self.bytes().len()
        &&& (self.word(pos + 16, 8) as usize == 1 && self.bytes()[pos + 24] == 0 ==> pos + 40
            <= self.bytes().len())
    }

    /// `r` is what reading the Lean-native big number at `pos` gives.
    pub open spec fn reads_native_mpz(&self, pos: usize, r: Result<u64, OleanError>) -> bool {
        let size = self.word(pos + 16, 8) as usize;
        let sign = self.bytes()[pos + 24];
        &&& sign != 0 ==> (r matches Err(OleanError::Deserialize(m)) && m@ == negative_mpz_text())
        &&& sign == 0 && size == 0 ==> r == Ok::<u64, OleanError>(0)
        &&& sign == 0 && size == 1 ==> r == Ok::<u64, OleanError>(self.word(pos + 32, 8))
        &&& sign == 0 && size > 1 ==> (r matches Err(OleanError::Deserialize(m)) && m@
            == "MPZ with "@ + decimal(size as nat) + " digits too large for u64"@)
    }

    /// Read a GMP-format MPZ as u64; `Err` for values that don't fit.
    ///
    /// Layout after the 8-byte object header: `_mp_alloc: i32`, `_mp_size: i32`
    /// (number of limbs, negative for negative numbers), `_mp_d` (limb pointer).
    pub fn mpz_to_u64_gmp(&self, pos: usize) -> (r: Result<u64, OleanError>)
        requires
            self.gmp_readable(pos),
        ensures
            self.reads_gmp_mpz(pos, r),
    {
        proof {
            self.lemma_len_fits();
        }
        let mp_size = self.read_u32(pos + 12) as i32;
        let limb_ptr_raw = self.read_u64(pos + 16);
        if mp_size < 0 {
            return Err(OleanError::Deserialize(message("negative MPZ not supported as u64")));
        }
        if mp_size == 0 {
            return Ok(0);
        }
        let limb_pos = self.resolve(limb_ptr_raw);
        match limb_pos {
            ObjRef::Ptr(lpos) => {
                if mp_size == 1 {
                    Ok(self.read_u64(lpos))
                } else {
                    let mut out: Vec<char> = Vec::new();
                    push_text(&mut out, "MPZ with ");
                    push_number(&mut out, mp_size as u64);
                    push_text(&mut out, " limbs too large for u64");
                    Err(OleanError::Deserialize(string_from_chars(out.as_slice())))
                }
            },
            _ => Err(OleanError::Deserialize(message("invalid MPZ limb pointer"))),
        }
    }

    /// Read a non-GMP (Lean-native) MPZ as u64.
    ///
    /// Layout after the 8-byte object header: `m_digits` (pointer), `m_size: u64`,
    /// `m_sign: u8`, padding; the digits follow the 32-byte struct.
    pub fn mpz_to_u64_native(&self, pos: usize) -> (r: Result<u64, OleanError>)
        requires
            self.native_readable(pos),
        ensures
            self.reads_native_mpz(pos, r),
    {
        proof {
            self.lemma_len_fits();
        }
        let m_size = self.read_u64(pos + 16) as usize;
        let m_sign = self.read_u8(pos + 24);
        if m_sign != 0 {
            return Err(OleanError::Deserialize(message("negative MPZ not supported as u64")));
        }
        if m_size == 0 {
            return Ok(0);
        }
        if m_size == 1 {
            let digit_pos = pos + 32;
            Ok(self.read_u64(digit_pos))
        } else {
            let mut out: Vec<char> = Vec::new();
            push_text(&mut out, "MPZ with ");
            push_number(&mut out, m_size as u64);
            push_text(&mut out, " digits too large for u64");
            Err(OleanError::Deserialize(string_from_chars(out.as_slice())))
        }
    }

    /// Read an MPZ value as u64, choosing GMP or native format.
    pub fn mpz_to_u64(&self, pos: usize) -> (r: Result<u64, OleanError>)
        requires
            self.gmp() ==> self.gmp_readable(pos),
            !self.gmp() ==> self.native_readable(pos),
        ensures
            self.gmp() ==> self.reads_gmp_mpz(pos, r),
            !self.gmp() ==> self.reads_native_mpz(pos, r),
    {
        if self.uses_gmp {
            self.mpz_to_u64_gmp(pos)
        } else {
            self.mpz_to_u64_native(pos)
        }
    }

    /// Whether big numbers are stored in GMP format (the `uses_gmp` field).
    pub fn gmp_format(&self) -> (b: bool)
        ensures
            b == self.gmp(),
    {
        self.uses_gmp
    }

    pub fn data_len(&self) -> (r: usize)
        ensures
            r == self.bytes().len(),
    {
        self.data.len()
    }
}

} // verus!
