//! The priority of a page relative to the other pages of its site.
//!
//! A priority is a single-precision number. This module holds such a number
//! as its IEEE 754 bit pattern, an unsigned integer of 32 bits: one sign
//! bit, eight exponent bits and twenty-three fraction bits. The pattern says
//! exactly which number is meant, and integers are all that is needed to
//! tell on which side of zero and of one it lies.
use vstd::arithmetic::power2::lemma2_to64;
use vstd::arithmetic::power2::lemma_pow2_adds;
use vstd::arithmetic::power2::lemma_pow2_pos;
use vstd::arithmetic::power2::lemma_pow2_strictly_increases;
use vstd::arithmetic::power2::pow2;
use vstd::prelude::*;

verus! {

/// `std::num::ParseFloatError`, the reason why a text is no number. It is
/// carried as it is: nothing of its inside is looked at here.
#[verifier::external_type_specification]
#[verifier::external_body]
pub struct ExParseFloatError(std::num::ParseFloatError);

/// The clone of a `std::num::ParseFloatError` is the same error. Not
/// verified here: the standard library derives it.
pub assume_specification[ <std::num::ParseFloatError as Clone>::clone ](
    error: &std::num::ParseFloatError,
) -> (res: std::num::ParseFloatError)
    ensures
        res == *error,
;

/// Whether the sign bit of a pattern is set.
pub open spec fn is_negative(bits: u32) -> bool {
    bits >= 0x8000_0000
}

/// The exponent field of a pattern, from 0 to 255.
pub open spec fn exponent(bits: u32) -> int {
    (bits as int / 0x80_0000) % 0x100
}

/// The fraction field of a pattern, below 2^23.
pub open spec fn fraction(bits: u32) -> int {
    bits as int % 0x80_0000
}

/// Whether a pattern stands for no number at all.
pub open spec fn is_nan(bits: u32) -> bool {
    exponent(bits) == 255 && fraction(bits) != 0
}

/// Whether a pattern stands for plus or minus infinity.
pub open spec fn is_infinite(bits: u32) -> bool {
    exponent(bits) == 255 && fraction(bits) == 0
}

/// The absolute value of the finite number that a pattern stands for,
/// counted in units of 2^-149, the smallest positive number that a pattern
/// can stand for. One is 2^149 of these units.
pub open spec fn magnitude(bits: u32) -> int {
    if exponent(bits) == 0 {
        fraction(bits)
    } else {
        (0x80_0000 + fraction(bits)) * pow2((exponent(bits) - 1) as nat)
    }
}

/// Whether the number that a pattern stands for is greater than one.
pub open spec fn greater_than_one(bits: u32) -> bool {
    &&& !is_nan(bits)
    &&& !is_negative(bits)
    &&& is_infinite(bits) || magnitude(bits) > pow2(149)
}

/// Whether the number that a pattern stands for is less than zero.
pub open spec fn less_than_zero(bits: u32) -> bool {
    &&& !is_nan(bits)
    &&& is_negative(bits)
    &&& is_infinite(bits) || magnitude(bits) > 0
}

/// Whether the number that a pattern stands for lies between zero and one,
/// both included.
pub open spec fn in_unit_interval(bits: u32) -> bool {
    &&& !is_nan(bits)
    &&& !less_than_zero(bits)
    &&& !greater_than_one(bits)
}

/// A finite magnitude with exponent field `e` and fraction field `f` is
/// more than one exactly when `e` is above 127, the exponent field of one,
/// or is 127 with some fraction bit set.
proof fn lemma_magnitude_against_one(e: int, f: int)
    requires
        1 <= e <= 254,
        0 <= f < 0x80_0000,
    ensures
        (0x80_0000 + f) * pow2((e - 1) as nat) > pow2(149) <==> e > 127 || (e == 127 && f > 0),
{
    lemma2_to64();
    let scale = pow2((e - 1) as nat);
    lemma_pow2_pos((e - 1) as nat);
    lemma_pow2_adds(23, 126);
    lemma_pow2_adds(24, (e - 1) as nat);
    if e > 127 {
        lemma_pow2_strictly_increases(126, (e - 1) as nat);
        assert((0x80_0000 + f) * scale > 0x80_0000 * pow2(126)) by (nonlinear_arith)
            requires
                scale > pow2(126),
                f >= 0,
        ;
    } else if e == 127 {
        assert((0x80_0000 + f) * scale == 0x80_0000 * scale + f * scale) by (nonlinear_arith);
        assert(f > 0 ==> f * scale > 0) by (nonlinear_arith)
            requires
                scale > 0,
        ;
        assert(f == 0 ==> f * scale == 0) by (nonlinear_arith);
    } else {
        if e + 23 < 149 {
            lemma_pow2_strictly_increases((e + 23) as nat, 149);
        }
        assert((0x80_0000 + f) * scale < 0x100_0000 * scale) by (nonlinear_arith)
            requires
                scale > 0,
                f < 0x80_0000,
        ;
    }
}

/// The numbers greater than one are those whose patterns lie above the
/// pattern of one, up to that of plus infinity.
pub proof fn lemma_greater_than_one(bits: u32)
    ensures
        greater_than_one(bits) <==> 0x3F80_0000 < bits <= 0x7F80_0000,
{
    if bits < 0x7F80_0000 {
        if exponent(bits) == 0 {
            lemma2_to64();
            lemma_pow2_strictly_increases(23, 149);
        } else {
            lemma_magnitude_against_one(exponent(bits), fraction(bits));
        }
    }
}

/// The numbers less than zero are those whose patterns lie above the
/// pattern of minus zero, up to that of minus infinity.
pub proof fn lemma_less_than_zero(bits: u32)
    ensures
        less_than_zero(bits) <==> 0x8000_0000 < bits <= 0xFF80_0000,
{
    if 0x8000_0000 < bits && bits < 0xFF80_0000 && exponent(bits) != 0 {
        lemma_pow2_pos((exponent(bits) - 1) as nat);
        assert(magnitude(bits) > 0) by (nonlinear_arith)
            requires
                magnitude(bits) == (0x80_0000 + fraction(bits)) * pow2(
                    (exponent(bits) - 1) as nat,
                ),
                fraction(bits) >= 0,
                pow2((exponent(bits) - 1) as nat) > 0,
        ;
    }
}

/// Tells whether the number that a pattern stands for is greater than one.
pub fn exceeds_one(bits: u32) -> (res: bool)
    ensures
        res == greater_than_one(bits),
{
    proof {
        lemma_greater_than_one(bits);
    }
    0x3F80_0000 < bits && bits <= 0x7F80_0000
}

/// Tells whether the number that a pattern stands for is less than zero.
pub fn below_zero(bits: u32) -> (res: bool)
    ensures
        res == less_than_zero(bits),
{
    proof {
        lemma_less_than_zero(bits);
    }
    0x8000_0000 < bits && bits <= 0xFF80_0000
}

/// The priority of this URL relative to other URLs on the site.
#[derive(Debug)]
pub enum Priority {
    /// No value.
    Absent,
    /// Priority: the bit pattern of a number that is neither less than zero
    /// nor greater than one.
    Value(u32),
    /// Parse error.
    Invalid(std::num::ParseFloatError),
    /// Error: priority lesser than zero. Holds the bit pattern.
    ErrValueLesserZero(u32),
    /// Error: priority greater than one. Holds the bit pattern.
    ErrValueGreaterOne(u32),
}

impl Priority {
    /// Whether the variant agrees with the number it holds.
    pub open spec fn well_formed(self) -> bool {
        match self {
            Priority::Value(bits) => !less_than_zero(bits) && !greater_than_one(bits),
            Priority::ErrValueLesserZero(bits) => less_than_zero(bits),
            Priority::ErrValueGreaterOne(bits) => greater_than_one(bits),
            _ => true,
        }
    }

    /// Whether this is a priority that a builder accepts and keeps: no
    /// value, or a number neither less than zero nor greater than one.
    pub open spec fn accepted(self) -> bool {
        match self {
            Priority::Absent => true,
            Priority::Value(bits) => !less_than_zero(bits) && !greater_than_one(bits),
            _ => false,
        }
    }

    /// The priority that a number gives, by the side of zero and of one on
    /// which it lies.
    pub open spec fn classified(bits: u32) -> Priority {
        if greater_than_one(bits) {
            Priority::ErrValueGreaterOne(bits)
        } else if less_than_zero(bits) {
            Priority::ErrValueLesserZero(bits)
        } else {
            Priority::Value(bits)
        }
    }

    /// The priority that the outcome of reading a number from a text gives.
    pub open spec fn converted(parsed: Result<u32, std::num::ParseFloatError>) -> Priority {
        match parsed {
            Ok(bits) => Priority::classified(bits),
            Err(error) => Priority::Invalid(error),
        }
    }

    /// Returns priority if present.
    pub fn get_priority(&self) -> (res: Option<u32>)
        ensures
            res == (match *self {
                Priority::Value(bits) => Some(bits),
                _ => None,
            }),
    {
        match *self {
            Priority::Value(value) => Some(value),
            _ => None,
        }
    }

    /// Converts the outcome of reading a number from a text: the bit
    /// pattern of the number, or the reason why the text is no number. The
    /// reason is kept as it is; a number is filed by its range.
    pub fn from_parsed(parsed: Result<u32, std::num::ParseFloatError>) -> (res: Priority)
        ensures
            res == Priority::converted(parsed),
            res.well_formed(),
    {
        match parsed {
            Ok(value) => {
                if exceeds_one(value) {
                    Priority::ErrValueGreaterOne(value)
                } else if below_zero(value) {
                    Priority::ErrValueLesserZero(value)
                } else {
                    Priority::Value(value)
                }
            },
            Err(error) => Priority::Invalid(error),
        }
    }
}

impl Clone for Priority {
    fn clone(&self) -> (res: Self)
        ensures
            res == *self,
    {
        match self {
            Priority::Absent => Priority::Absent,
            Priority::Value(value) => Priority::Value(*value),
            Priority::Invalid(error) => Priority::Invalid(error.clone()),
            Priority::ErrValueLesserZero(value) => Priority::ErrValueLesserZero(*value),
            Priority::ErrValueGreaterOne(value) => Priority::ErrValueGreaterOne(*value),
        }
    }
}

/// A number is filed under `Value` when it lies between zero and one, under
/// `ErrValueLesserZero` when it is less than zero, and under
/// `ErrValueGreaterOne` when it is greater than one. Nothing else is filed
/// under `Value` but a pattern that stands for no number.
pub proof fn lemma_classified_by_range(bits: u32)
    ensures
        in_unit_interval(bits) ==> Priority::classified(bits) == Priority::Value(bits),
        less_than_zero(bits) ==> Priority::classified(bits) == Priority::ErrValueLesserZero(bits),
        greater_than_one(bits) ==> Priority::classified(bits) == Priority::ErrValueGreaterOne(
            bits,
        ),
        Priority::classified(bits) is Value <==> in_unit_interval(bits) || is_nan(bits),
{
}

} // verus!
