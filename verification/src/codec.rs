//! Bit-exact decomposition and reconstruction of IEEE-754 binary32 values.
//!
//! A binary32 value is handled here through its 32-bit pattern: sign in
//! bit 31, exponent field in bits 30 down to 23, fraction field in bits
//! 22 down to 0. Decoding turns a field triple into a tagged semantic
//! value — normal, subnormal, infinite or not-a-number — and
//! reconstruction maps the tagged value back to the bit pattern, bit for
//! bit, for every one of the four classes.
//!
//! The mantissa of a decoded value is kept as an integer significand
//! scaled by 2^23: a normal number's mantissa in [1.0, 2.0) becomes a
//! significand in [2^23, 2^24) carrying the implicit leading one bit,
//! and a subnormal's mantissa in [0.0, 1.0) becomes a significand below
//! 2^23 with no implicit bit. The scaling is exact, so nothing of the
//! value is lost.

use vstd::prelude::*;

verus! {

/// Exponent bias of the binary32 format.
pub const BIAS: u32 = 127;

/// The three raw bit fields of a binary32 pattern, each in its
/// documented range.
#[derive(Clone, Copy, Debug, PartialEq, Eq, Structural)]
pub struct FieldTriple {
    /// Bit 31: 0 for positive, 1 for negative.
    pub sign: u32,
    /// Bits 30..23: the biased exponent field.
    pub exponent: u32,
    /// Bits 22..0: the fraction field.
    pub fraction: u32,
}

impl FieldTriple {
    /// Each field fits its bit width: 1, 8 and 23 bits.
    pub open spec fn wf(self) -> bool {
        self.sign <= 1 && self.exponent <= 255 && self.fraction <= 0x7fffff
    }
}

/// Sign field of a bit pattern: bit 31.
pub open spec fn sign_of(bits: u32) -> u32 {
    (bits >> 31u32) & 1u32
}

/// Exponent field of a bit pattern: bits 30 down to 23.
pub open spec fn exponent_of(bits: u32) -> u32 {
    (bits >> 23u32) & 0xffu32
}

/// Fraction field of a bit pattern: bits 22 down to 0.
pub open spec fn fraction_of(bits: u32) -> u32 {
    bits & 0x7fffffu32
}

/// The field triple that a bit pattern splits into.
pub open spec fn extracted_of(bits: u32) -> FieldTriple {
    FieldTriple {
        sign: sign_of(bits),
        exponent: exponent_of(bits),
        fraction: fraction_of(bits),
    }
}

/// The bit pattern that three fields assemble to by shifting and OR-ing.
pub open spec fn assembled(sign: u32, exponent: u32, fraction: u32) -> u32 {
    ((sign << 31u32) | (exponent << 23u32)) | fraction
}

/// Splitting a pattern into its three fields keeps each field in its
/// bit width, and assembling the fields again gives the pattern back.
proof fn lemma_split_assemble(bits: u32)
    by (bit_vector)
    ensures
        sign_of(bits) <= 1,
        exponent_of(bits) <= 255,
        fraction_of(bits) <= 0x7fffff,
        assembled(sign_of(bits), exponent_of(bits), fraction_of(bits)) == bits,
{
}

/// Extract the three raw bit fields of a binary32 pattern.
///
/// Total over all 32-bit patterns. The fields land in their documented
/// ranges, and reassembling them by shifting and OR-ing reproduces the
/// original pattern exactly.
pub fn extract_fields(bits: u32) -> (f: FieldTriple)
    ensures
        f == extracted_of(bits),
        f.wf(),
        assembled(f.sign, f.exponent, f.fraction) == bits,
{
    proof {
        lemma_split_assemble(bits);
    }
    FieldTriple {
        sign: (bits >> 31) & 1,
        exponent: (bits >> 23) & 0xff,
        fraction: bits & 0x7fffff,
    }
}

/// Assemble a field triple back into the bit pattern it came from.
pub fn fields_to_bits(f: &FieldTriple) -> (bits: u32)
    requires
        f.wf(),
    ensures
        bits == assembled(f.sign, f.exponent, f.fraction),
{
    ((f.sign << 31) | (f.exponent << 23)) | f.fraction
}

/// A decoded binary32 value, tagged by class.
///
/// The mantissa is the significand divided by 2^23: a normal value's
/// significand carries the implicit leading one bit and lies in
/// [2^23, 2^24); a subnormal's significand has no implicit bit and lies
/// below 2^23. The infinite and not-a-number classes are kept apart as
/// tags rather than forced into a numeric reading.
#[derive(Clone, Copy, Debug, PartialEq, Eq, Structural)]
pub enum Decoded {
    /// Exponent field strictly between 0 and 255; the mantissa has an
    /// implicit leading one bit.
    Normal { sign_factor: i32, exponent: i32, significand: u32 },
    /// Exponent field 0: a subnormal or zero. The effective exponent is
    /// 1 - 127 = -126 and the mantissa has no implicit leading bit.
    Subnormal { sign_factor: i32, exponent: i32, significand: u32 },
    /// Exponent field 255 with fraction 0: a signed infinity.
    Infinite { sign_factor: i32 },
    /// Exponent field 255 with a nonzero fraction; the fraction is kept
    /// as the payload so that nothing of the pattern is lost.
    NaN { sign_factor: i32, payload: u32 },
}

impl Decoded {
    /// Range invariants of a decoded value: the sign factor is +1 or
    /// -1, a normal exponent lies in [-126, 127] with a significand in
    /// [2^23, 2^24), a subnormal has exponent -126 and a significand
    /// below 2^23, and a not-a-number payload is a nonzero 23-bit
    /// value.
    pub open spec fn wf(self) -> bool {
        match self {
            Decoded::Normal { sign_factor, exponent, significand } => {
                &&& sign_factor == 1 || sign_factor == -1
                &&& -126 <= exponent <= 127
                &&& 0x800000 <= significand <= 0xffffff
            },
            Decoded::Subnormal { sign_factor, exponent, significand } => {
                &&& sign_factor == 1 || sign_factor == -1
                &&& exponent == -126
                &&& significand <= 0x7fffff
            },
            Decoded::Infinite { sign_factor } => sign_factor == 1 || sign_factor == -1,
            Decoded::NaN { sign_factor, payload } => {
                &&& sign_factor == 1 || sign_factor == -1
                &&& 1 <= payload <= 0x7fffff
            },
        }
    }
}

/// The multiplicative sign factor a sign bit decodes to: 0 gives +1,
/// 1 gives -1.
pub open spec fn sign_factor_of(sign: u32) -> i32 {
    if sign == 0 {
        1
    } else {
        -1i32
    }
}

/// The sign bit a sign factor encodes to: +1 gives 0, anything else
/// gives 1.
pub open spec fn sign_bit_of(sign_factor: i32) -> u32 {
    if sign_factor == 1 {
        0
    } else {
        1
    }
}

/// The tagged value a well-formed field triple decodes to.
pub open spec fn decoded_of(f: FieldTriple) -> Decoded {
    if f.exponent == 255 {
        if f.fraction == 0 {
            Decoded::Infinite { sign_factor: sign_factor_of(f.sign) }
        } else {
            Decoded::NaN { sign_factor: sign_factor_of(f.sign), payload: f.fraction }
        }
    } else if f.exponent == 0 {
        Decoded::Subnormal {
            sign_factor: sign_factor_of(f.sign),
            exponent: -126i32,
            significand: f.fraction,
        }
    } else {
        Decoded::Normal {
            sign_factor: sign_factor_of(f.sign),
            exponent: (f.exponent - BIAS) as i32,
            significand: (0x800000 + f.fraction) as u32,
        }
    }
}

/// Decode a field triple into its tagged semantic value.
///
/// A sign bit of 0 becomes the factor +1 and a sign bit of 1 the factor
/// -1. An exponent field strictly between 0 and 255 yields a normal
/// value with effective exponent `field - 127` and the implicit leading
/// one bit added to the significand. An exponent field of 0 yields a
/// subnormal with effective exponent -126 and no implicit bit. An
/// exponent field of 255 yields the infinite tag when the fraction is 0
/// and the not-a-number tag otherwise.
pub fn decode(f: &FieldTriple) -> (d: Decoded)
    requires
        f.wf(),
    ensures
        d == decoded_of(*f),
        d.wf(),
{
    let sign_factor: i32 = if f.sign == 0 {
        1
    } else {
        -1
    };
    if f.exponent == 255 {
        if f.fraction == 0 {
            Decoded::Infinite { sign_factor }
        } else {
            Decoded::NaN { sign_factor, payload: f.fraction }
        }
    } else if f.exponent == 0 {
        Decoded::Subnormal { sign_factor, exponent: -126, significand: f.fraction }
    } else {
        Decoded::Normal {
            sign_factor,
            exponent: (f.exponent as i32) - (BIAS as i32),
            significand: 0x800000 + f.fraction,
        }
    }
}

/// The bit pattern a well-formed decoded value reconstructs to.
pub open spec fn bits_of(d: Decoded) -> u32 {
    match d {
        Decoded::Normal { sign_factor, exponent, significand } => assembled(
            sign_bit_of(sign_factor),
            (exponent + BIAS) as u32,
            (significand - 0x800000) as u32,
        ),
        Decoded::Subnormal { sign_factor, exponent: _, significand } => assembled(
            sign_bit_of(sign_factor),
            0,
            significand,
        ),
        Decoded::Infinite { sign_factor } => assembled(sign_bit_of(sign_factor), 255, 0),
        Decoded::NaN { sign_factor, payload } => assembled(sign_bit_of(sign_factor), 255, payload),
    }
}

/// The sign field a sign factor encodes to.
fn sign_bit(sign_factor: i32) -> (sign: u32)
    ensures
        sign == sign_bit_of(sign_factor),
{
    if sign_factor == 1 {
        0
    } else {
        1
    }
}

/// Reconstruct the binary32 bit pattern of a decoded value.
///
/// A normal value gets exponent field `exponent + 127` and its
/// significand stripped of the implicit leading bit; a subnormal gets
/// exponent field 0; the infinite and not-a-number tags get exponent
/// field 255 with fraction 0 or the kept payload. The three fields are
/// then assembled by shifting and OR-ing.
pub fn from_parts(d: &Decoded) -> (bits: u32)
    requires
        d.wf(),
    ensures
        bits == bits_of(*d),
{
    let f = match *d {
        Decoded::Normal { sign_factor, exponent, significand } => FieldTriple {
            sign: sign_bit(sign_factor),
            exponent: (exponent + (BIAS as i32)) as u32,
            fraction: significand - 0x800000,
        },
        Decoded::Subnormal { sign_factor, exponent: _, significand } => FieldTriple {
            sign: sign_bit(sign_factor),
            exponent: 0,
            fraction: significand,
        },
        Decoded::Infinite { sign_factor } => FieldTriple {
            sign: sign_bit(sign_factor),
            exponent: 255,
            fraction: 0,
        },
        Decoded::NaN { sign_factor, payload } => FieldTriple {
            sign: sign_bit(sign_factor),
            exponent: 255,
            fraction: payload,
        },
    };
    fields_to_bits(&f)
}

/// Round trip: extracting the fields of any 32-bit pattern, decoding
/// them, and reconstructing a pattern from the decoded value yields the
/// original pattern, bit for bit. In particular every finite normal
/// binary32 value round-trips exactly, and so do subnormals, zeros,
/// infinities and not-a-number patterns.
pub proof fn lemma_round_trip(bits: u32)
    ensures
        bits_of(decoded_of(extracted_of(bits))) == bits,
{
    lemma_split_assemble(bits);
    let f = extracted_of(bits);
    assert(sign_bit_of(sign_factor_of(f.sign)) == f.sign);
    if f.exponent == 255 {
    } else if f.exponent == 0 {
    } else {
        assert((((f.exponent - BIAS) as i32) + BIAS) as u32 == f.exponent);
        assert((((0x800000 + f.fraction) as u32) - 0x800000) as u32 == f.fraction);
    }
}

} // verus!
