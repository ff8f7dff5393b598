//! Arithmetic on sample words, supplied by the caller.
//!
//! The library does not add or multiply the numbers that words encode. It
//! takes three functions that do, and states what it returns in terms of what
//! those functions promise of their results.

use vstd::prelude::*;
use crate::word::ONE;

verus! {

/// Sum, difference and product of the numbers that two words encode, each
/// given as a word again.
pub struct Arithmetic<A, S, M> {
    pub add: A,
    pub sub: S,
    pub mul: M,
}

impl<A, S, M> Arithmetic<A, S, M> where
    A: Fn(u32, u32) -> u32,
    S: Fn(u32, u32) -> u32,
    M: Fn(u32, u32) -> u32,
 {
    /// Every pair of words may be handed to each of the three functions.
    pub open spec fn total(&self) -> bool {
        &&& forall|a: u32, b: u32| #[trigger] self.add.requires((a, b))
        &&& forall|a: u32, b: u32| #[trigger] self.sub.requires((a, b))
        &&& forall|a: u32, b: u32| #[trigger] self.mul.requires((a, b))
    }

    /// `r` is a result that `add` may give for `a` and `b`.
    pub open spec fn sums(&self, a: u32, b: u32, r: u32) -> bool {
        self.add.ensures((a, b), r)
    }

    /// `r` is a result that `sub` may give for `a` and `b`.
    pub open spec fn differs(&self, a: u32, b: u32, r: u32) -> bool {
        self.sub.ensures((a, b), r)
    }

    /// `r` is a result that `mul` may give for `a` and `b`.
    pub open spec fn multiplies(&self, a: u32, b: u32, r: u32) -> bool {
        self.mul.ensures((a, b), r)
    }

    /// `r` blends `original` and `added`: the original weighted by one minus
    /// `amount`, plus the added sample weighted by `amount`.
    pub open spec fn mixes(&self, original: u32, added: u32, amount: u32, r: u32) -> bool {
        exists|dry: u32, kept: u32, wet: u32|
            {
                &&& #[trigger] self.differs(ONE, amount, dry)
                &&& #[trigger] self.multiplies(original, dry, kept)
                &&& #[trigger] self.multiplies(added, amount, wet)
                &&& self.sums(kept, wet, r)
            }
    }

    pub fn sum(&self, a: u32, b: u32) -> (r: u32)
        requires
            self.total(),
        ensures
            self.sums(a, b, r),
    {
        (self.add)(a, b)
    }

    pub fn difference(&self, a: u32, b: u32) -> (r: u32)
        requires
            self.total(),
        ensures
            self.differs(a, b, r),
    {
        (self.sub)(a, b)
    }

    pub fn product(&self, a: u32, b: u32) -> (r: u32)
        requires
            self.total(),
        ensures
            self.multiplies(a, b, r),
    {
        (self.mul)(a, b)
    }
}

/// Blends a processed sample into an unprocessed one:
/// `original * (1 - amount) + added * amount`.
pub fn mix_samples<A, S, M>(
    original: u32,
    added: u32,
    amount: u32,
    ops: &Arithmetic<A, S, M>,
) -> (mixed: u32) where
    A: Fn(u32, u32) -> u32,
    S: Fn(u32, u32) -> u32,
    M: Fn(u32, u32) -> u32,

    requires
        ops.total(),
    ensures
        ops.mixes(original, added, amount, mixed),
{
    let dry = ops.difference(ONE, amount);
    let kept = ops.product(original, dry);
    let wet = ops.product(added, amount);
    ops.sum(kept, wet)
}

} // verus!
