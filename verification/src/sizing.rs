//! How long the delay line is.
//!
//! A delay time of 1 stands for two seconds, so the line holds twice as many
//! frames as the product of sample rate and delay time says, rounded down.

use vstd::prelude::*;
use vstd::arithmetic::power2::{
    pow2, lemma2_to64, lemma_pow2_strictly_increases, lemma_pow2_unfold,
};
use crate::params::{DEFAULT_LENGTH, DEFAULT_PRODUCT};
use crate::ring::MAX_CAPACITY;
use crate::word::{INFINITY, doubled_floor, exponent, significand};

verus! {

/// The length of the line for a given product of sample rate and delay time:
/// the whole part of twice the product, but at least 1 and at most
/// `MAX_CAPACITY`.
pub open spec fn line_length(product: u32) -> nat {
    let frames = doubled_floor(product);
    if frames < 1 {
        1
    } else if frames > MAX_CAPACITY {
        MAX_CAPACITY as nat
    } else {
        frames
    }
}

/// The default length is the length of the line for the default product.
pub proof fn lemma_default_length()
    ensures
        line_length(DEFAULT_PRODUCT) == DEFAULT_LENGTH,
{
    lemma2_to64();
    assert(exponent(DEFAULT_PRODUCT) == 132);
    assert(significand(DEFAULT_PRODUCT) == 0xb0_6667);
    assert(pow2(17) == 0x2_0000);
    assert(doubled_floor(DEFAULT_PRODUCT) == 0xb0_6667int / 0x2_0000);
}

/// Two to the power of `e`.
fn power_of_two(e: u32) -> (power: u32)
    requires
        e < 32,
    ensures
        power == pow2(e as nat),
{
    let mut power: u32 = 1;
    let mut i: u32 = 0;
    proof {
        lemma2_to64();
    }
    while i < e
        invariant
            i <= e < 32,
            power == pow2(i as nat),
        decreases e - i,
    {
        proof {
            lemma2_to64();
            lemma_pow2_unfold((i + 1) as nat);
            lemma_pow2_strictly_increases((i + 1) as nat, 32);
        }
        power = power * 2;
        i = i + 1;
    }
    power
}

/// The length of the line for a given product of sample rate and delay time.
pub fn frames_for(product: u32) -> (frames: usize)
    ensures
        frames == line_length(product),
        1 <= frames <= MAX_CAPACITY,
{
    let e: u32 = (product / 0x80_0000) % 0x100;
    let m: u32 = 0x80_0000 + product % 0x80_0000;
    proof {
        lemma2_to64();
    }
    if product > INFINITY || e == 0 {
        1
    } else if e >= 153 {
        proof {
            let k = (e - 149) as nat;
            if k > 4 {
                lemma_pow2_strictly_increases(4, k);
            }
            assert(pow2(k) >= 16);
            assert(significand(product) * pow2(k) >= 0x80_0000 * 16) by (nonlinear_arith)
                requires
                    significand(product) >= 0x80_0000,
                    pow2(k) >= 16,
            ;
        }
        MAX_CAPACITY
    } else if e >= 149 {
        let p: u32 = power_of_two(e - 149);
        proof {
            let k = (e - 149) as nat;
            if k < 3 {
                lemma_pow2_strictly_increases(k, 3);
            }
            assert(p <= 8);
            assert(m * p <= 0x100_0000 * 8) by (nonlinear_arith)
                requires
                    m <= 0x100_0000,
                    p <= 8,
            ;
            assert(m * p >= 1) by (nonlinear_arith)
                requires
                    m >= 1,
                    p >= 1,
            ;
        }
        let n: u32 = m * p;
        if n as usize > MAX_CAPACITY {
            MAX_CAPACITY
        } else {
            n as usize
        }
    } else if e <= 125 {
        proof {
            let k = (149 - e) as nat;
            if k > 24 {
                lemma_pow2_strictly_increases(24, k);
            }
            assert(pow2(k) >= 0x100_0000);
            assert(significand(product) / pow2(k) == 0) by (nonlinear_arith)
                requires
                    significand(product) < 0x100_0000,
                    pow2(k) >= 0x100_0000,
            ;
        }
        1
    } else {
        let p: u32 = power_of_two(149 - e);
        proof {
            let k = (149 - e) as nat;
            if k < 23 {
                lemma_pow2_strictly_increases(k, 23);
            }
            assert(1 <= p <= 0x80_0000);
            assert(1 <= m / p <= m) by (nonlinear_arith)
                requires
                    1 <= p <= 0x80_0000,
                    m >= 0x80_0000,
            ;
        }
        (m / p) as usize
    }
}

} // verus!
