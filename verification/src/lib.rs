//! Deterministic assembly of a parachain's genesis state and chain
//! specification: seed-based key derivation, composition rules that keep the
//! genesis sub-states consistent with each other, and the metadata wrapper
//! that a node launcher consumes.

pub mod chain_spec;
pub mod genesis;
pub mod inflation;
pub mod keys;
pub mod schedule;

use vstd::prelude::*;

verus! {

/// An account's ledger balance, in the smallest token unit.
pub type Balance = u128;

/// Smallest unit count of one whole token.
pub const ASTR: Balance = 1_000_000_000_000_000_000;

/// Copy a vector of plainly copyable values, element by element.
pub fn clone_vec_copy<T: Copy>(v: &Vec<T>) -> (r: Vec<T>)
    ensures
        r@ == v@,
{
    let mut r: Vec<T> = Vec::new();
    let mut i: usize = 0;
    while i < v.len()
        invariant
            i <= v@.len(),
            r@ =~= v@.take(i as int),
        decreases v@.len() - i,
    {
        r.push(v[i]);
        i = i + 1;
    }
    proof {
        assert(v@.take(v@.len() as int) =~= v@);
    }
    r
}

} // verus!
