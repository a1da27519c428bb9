//! Types for the Westend chain.

use vstd::prelude::*;

use crate::chain::static_types::DbWeight;

verus! {

/// The miner configuration of the Westend chain.
pub struct Config;

impl Config {
    /// The weight of a solution with `v` voters, `t` targets, `a` active voters
    /// and `d` desired targets, reading the weight of database access from
    /// the `db_weight` store.
    pub fn solution_weight(db_weight: &DbWeight, v: u32, t: u32, a: u32, d: u32) -> (w: u64)
        ensures
            w == crate::chain::spec_solution_weight(db_weight@.read, v, a, d),
            w as int == (if 31_722_000 + 1_255_000 * v + 8_972_000 * a + 966_000 * d + 4 * db_weight@.read > u64::MAX {
                u64::MAX as int
            } else {
                31_722_000 + 1_255_000 * v + 8_972_000 * a + 966_000 * d + 4 * db_weight@.read
            }),
    {
        crate::chain::solution_weight(db_weight, v, t, a, d)
    }
}

} // verus!
