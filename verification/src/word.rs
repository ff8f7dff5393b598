//! Words: IEEE-754 single-precision numbers as their 32-bit encodings.
//!
//! The highest bit of a word is the sign, the next eight are the exponent,
//! the lowest 23 the fraction. Among the words without the sign bit a larger
//! word encodes a larger number, up to `INFINITY`; the words above it encode
//! no number.

use vstd::prelude::*;
use vstd::arithmetic::power2::pow2;

verus! {

/// The word of 0.
pub const ZERO: u32 = 0x0000_0000;

/// The word of 1.
pub const ONE: u32 = 0x3f80_0000;

/// The word of positive infinity: the largest encoding of a number that is
/// not negative.
pub const INFINITY: u32 = 0x7f80_0000;

/// The smallest word with the sign bit.
pub const SIGN: u32 = 0x8000_0000;

/// The exponent field of a word.
pub open spec fn exponent(word: u32) -> nat {
    ((word / 0x80_0000) % 0x100) as nat
}

/// The significand of a word whose exponent field is not zero: the fraction
/// with the implied leading bit. The word encodes the significand times two
/// to the power of the exponent field minus 150.
pub open spec fn significand(word: u32) -> nat {
    (0x80_0000 + word % 0x80_0000) as nat
}

/// The word of the larger of two numbers, where `floor` encodes a positive
/// number: `word` if it encodes a number that is not below that of `floor`,
/// else `floor`. A word that encodes no number, or a negative one, gives
/// `floor`.
pub open spec fn at_least(word: u32, floor: u32) -> u32 {
    if floor <= word <= INFINITY {
        word
    } else {
        floor
    }
}

/// The whole part of twice the number that `word` encodes, and 0 where it
/// encodes a negative number or none. Positive infinity gives a number
/// beyond any length of memory.
pub open spec fn doubled_floor(word: u32) -> nat {
    if word > INFINITY || exponent(word) == 0 {
        0
    } else if exponent(word) >= 149 {
        significand(word) * pow2((exponent(word) - 149) as nat)
    } else {
        significand(word) / pow2((149 - exponent(word)) as nat)
    }
}

/// The word of the larger of two numbers: see `at_least`.
pub fn raise_to(word: u32, floor: u32) -> (raised: u32)
    ensures
        raised == at_least(word, floor),
{
    if floor <= word && word <= INFINITY {
        word
    } else {
        floor
    }
}

} // verus!
