//! Sign- and zero-extension primitives, and the wrapping arithmetic used by
//! the instruction behaviors. Every decoder and behavior widens immediates
//! through these functions.
use vstd::prelude::*;

verus! {

/// The mask of all bit positions at or above `width`: zero for `width == 32`,
/// otherwise `0xFFFF_FFFF << width`.
pub open spec fn high_mask(width: u32) -> u32 {
    if width == 32 {
        0u32
    } else {
        0xFFFF_FFFFu32 << width
    }
}

/// Whether bit `width - 1` of `val` — the sign bit of a `width`-bit payload —
/// is set.
pub open spec fn sign_bit_set(val: u32, width: u32) -> bool {
    (val >> ((width - 1) as u32)) & 1 == 1
}

/// A `width`-bit payload reinterpreted as a signed quantity and widened to 32
/// bits: every bit at or above `width - 1` takes the value of the payload's
/// sign bit.
pub open spec fn sign_extend_spec(val: u32, width: u32) -> u32 {
    if sign_bit_set(val, width) {
        val | high_mask(width)
    } else {
        val & !high_mask(width)
    }
}

/// The low `width` bits of `val`, with every bit at or above `width` cleared.
pub open spec fn zero_extend_spec(val: u32, width: u32) -> u32 {
    val & !high_mask(width)
}

/// Addition modulo 2^32, the defined semantics of all address and register
/// arithmetic in RV32I.
pub open spec fn wrap_add32(a: u32, b: u32) -> u32 {
    if a + b > u32::MAX {
        (a + b - 0x1_0000_0000) as u32
    } else {
        (a + b) as u32
    }
}

/// Subtraction modulo 2^32.
pub open spec fn wrap_sub32(a: u32, b: u32) -> u32 {
    if a - b < 0 {
        (a - b + 0x1_0000_0000) as u32
    } else {
        (a - b) as u32
    }
}

/// The two's-complement reading of a 32-bit word: values with bit 31 set
/// denote negatives.
pub open spec fn to_signed32(a: u32) -> int {
    if a >= 0x8000_0000 {
        a - 0x1_0000_0000
    } else {
        a as int
    }
}

/// The shift amount of a register-controlled shift: the low 5 bits of the
/// controlling value.
pub open spec fn shamt5(amt: u32) -> u32 {
    amt & 0x1F
}

/// An arithmetic right shift: the payload that survives a right shift by
/// `shamt` is `32 - shamt` bits wide, and its sign bit — the original bit 31
/// — fills the vacated upper bits. Expects `shamt < 32`.
pub open spec fn sra32(val: u32, shamt: u32) -> u32 {
    sign_extend_spec(val >> shamt, (32 - shamt) as u32)
}

/// The low 5 bits of a word are below 32: a register-controlled shift amount
/// is always a legal shift.
pub proof fn lemma_shamt5_bound(amt: u32)
    ensures
        shamt5(amt) < 32,
{
    assert(amt & 0x1F < 32) by (bit_vector);
}

/// Reinterprets bit `width - 1` of `val` as a sign bit and fills all higher
/// bits with its value. Width 0 has no sign bit to test and is rejected by
/// the precondition.
pub fn signExtend(val: u32, width: u32) -> (r: u32)
    requires
        1 <= width <= 32,
    ensures
        r == sign_extend_spec(val, width),
{
    if width == 32 {
        proof {
            assert(val | 0u32 == val && val & !0u32 == val) by (bit_vector);
        }
        val
    } else {
        let mask: u32 = 0xFFFF_FFFFu32 << width;
        if (val >> (width - 1)) & 1 == 1 {
            val | mask
        } else {
            val & !mask
        }
    }
}

/// Clears all bits of `val` at positions at or above `width`, leaving the low
/// `width` bits unchanged. Width 0 is rejected as for `signExtend`.
pub fn zeroExtend(val: u32, width: u32) -> (r: u32)
    requires
        1 <= width <= 32,
    ensures
        r == zero_extend_spec(val, width),
{
    if width == 32 {
        proof {
            assert(val & !0u32 == val) by (bit_vector);
        }
        val
    } else {
        val & !(0xFFFF_FFFFu32 << width)
    }
}

/// Sign extension is faithful to its payload: masking the result back to
/// `width` bits returns the original low `width` bits; when the payload's
/// sign bit is set, every bit at or above `width - 1` of the result is one;
/// when it is clear, every bit at or above `width` is zero.
pub proof fn lemma_sign_extend_properties(val: u32, width: u32)
    by (bit_vector)
    requires
        1 <= width <= 32,
    ensures
        zero_extend_spec(sign_extend_spec(val, width), width) == zero_extend_spec(val, width),
        sign_bit_set(val, width) ==> sign_extend_spec(val, width) >> ((width - 1) as u32)
            == 0xFFFF_FFFFu32 >> ((width - 1) as u32),
        !sign_bit_set(val, width) && width < 32 ==> sign_extend_spec(val, width) >> width == 0,
{
}

/// Zero extension clears every bit at or above `width` and never alters a
/// lower bit.
pub proof fn lemma_zero_extend_properties(val: u32, width: u32)
    by (bit_vector)
    requires
        1 <= width <= 32,
    ensures
        width < 32 ==> zero_extend_spec(val, width) >> width == 0,
        forall|i: u32| i < width ==> (zero_extend_spec(val, width) >> i) & 1 == (val >> i) & 1,
{
}

/// Comparing two words through `as i32` casts is the signed comparison of
/// their two's-complement readings.
pub proof fn lemma_signed_cmp(a: u32, b: u32)
    ensures
        ((a as i32) < (b as i32)) == (to_signed32(a) < to_signed32(b)),
{
    assert(((a as i32) < (b as i32)) == ((if a >= 0x8000_0000 {
        a - 0x1_0000_0000
    } else {
        a as int
    }) < (if b >= 0x8000_0000 {
        b - 0x1_0000_0000
    } else {
        b as int
    }))) by (bit_vector);
}

/// Narrowing a masked half-word to `u16` and widening it back is the identity
/// on the low 16 bits.
pub proof fn lemma_u16_round(w: u32)
    ensures
        ((w & 0xFFFF) as u16) as u32 == w & 0xFFFF,
{
    assert(((w & 0xFFFF) as u16) as u32 == w & 0xFFFF) by (bit_vector);
}

/// Narrowing a masked byte to `u8` and widening it back is the identity on
/// the low 8 bits.
pub proof fn lemma_u8_round(w: u32)
    ensures
        ((w & 0xFF) as u8) as u32 == w & 0xFF,
{
    assert(((w & 0xFF) as u8) as u32 == w & 0xFF) by (bit_vector);
}

/// Truncating a word to `u16` keeps exactly its low 16 bits.
pub proof fn lemma_u32_to_u16(v: u32)
    ensures
        (v as u16) as u32 == v & 0xFFFF,
{
    assert((v as u16) as u32 == v & 0xFFFF) by (bit_vector);
}

/// Truncating a word to `u8` keeps exactly its low 8 bits.
pub proof fn lemma_u32_to_u8(v: u32)
    ensures
        (v as u8) as u32 == v & 0xFF,
{
    assert((v as u8) as u32 == v & 0xFF) by (bit_vector);
}

} // verus!
