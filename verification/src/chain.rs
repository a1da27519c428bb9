//! Chain specific types for polkadot, kusama and westend.
//!
//! The parameter stores of [`static_types`] hold the values that the miner is
//! configured with; the `Config` of each chain computes the weight of a
//! solution from them.

use vstd::prelude::*;

pub mod static_types;
pub mod westend;
pub mod polkadot;
pub mod kusama;

use static_types::DbWeight;

verus! {

/// The largest value a `u64` weight can take.
pub open spec fn weight_max() -> int {
    u64::MAX as int
}

/// A non-negative quantity clamped to the range of a `u64` weight.
pub open spec fn saturate(x: int) -> int {
    if x > weight_max() {
        weight_max()
    } else {
        x
    }
}

/// Multiplies two weights, clamping at `u64::MAX` instead of overflowing.
pub fn saturating_mul(x: u64, y: u64) -> (r: u64)
    ensures
        r == saturate(x * y),
{
    match x.checked_mul(y) {
        Some(p) => p,
        None => u64::MAX,
    }
}

/// The weight of a database read and of a database write, as plain values;
/// the same two parts as `frame_support::weights::RuntimeDbWeight`.
#[derive(Clone, Copy, Debug, PartialEq, Eq, Structural)]
pub struct RuntimeDbWeight {
    pub read: u64,
    pub write: u64,
}

impl RuntimeDbWeight {
    /// The weight of `r` database reads: `read * r`, clamped at `u64::MAX`.
    pub fn reads(self, r: u64) -> (w: u64)
        ensures
            w == saturate(self.read * r),
    {
        runtime_db_weight_reads(self.read, self.write, r)
    }
}

/// Calls `frame_support::weights::RuntimeDbWeight::reads` on the database
/// weight with parts `read` and `write`, and returns the reference time of the
/// weight it gives. Its source sets that reference time to
/// `read.saturating_mul(r)`; the write part does not enter it.
#[verifier::external_body]
fn runtime_db_weight_reads(read: u64, write: u64, r: u64) -> (w: u64)
    ensures
        w == saturate(read * r),
{
    frame_support::weights::RuntimeDbWeight { read, write }.reads(r).ref_time()
}

/// The weight of checking the feasibility of a solution with `v` voters,
/// `a` active voters and `d` desired targets, plus four database reads of
/// `read` weight each, clamped at `u64::MAX`.
pub open spec fn spec_solution_weight(read: u64, v: u32, a: u32, d: u32) -> int {
    saturate(31_722_000 + 1_255_000 * v + 8_972_000 * a + 966_000 * d + 4 * read)
}

/// Adding a non-negative amount to a clamped quantity and clamping again is
/// clamping the sum.
proof fn lemma_saturate_add(x: int, y: int)
    requires
        0 <= x,
        0 <= y,
    ensures
        saturate(saturate(x) + y) == saturate(x + y),
{
}

/// The weight of a solution with `v` voters, `t` targets, `a` active voters
/// and `d` desired targets, reading the weight of database access from the
/// `db_weight` store. The number of targets does not enter it.
pub fn solution_weight(db_weight: &DbWeight, v: u32, t: u32, a: u32, d: u32) -> (w: u64)
    ensures
        w == spec_solution_weight(db_weight@.read, v, a, d),
        w as int == (if 31_722_000 + 1_255_000 * v + 8_972_000 * a + 966_000 * d + 4 * db_weight@.read > u64::MAX {
            u64::MAX as int
        } else {
            31_722_000 + 1_255_000 * v + 8_972_000 * a + 966_000 * d + 4 * db_weight@.read
        }),
{
    let per_voter = saturating_mul(1_255_000, v as u64);
    let per_active_voter = saturating_mul(8_972_000, a as u64);
    let per_desired = saturating_mul(966_000, d as u64);
    let db = db_weight.get();
    let reads = db.reads(4);
    proof {
        assert(1_255_000 * v <= 1_255_000 * u32::MAX) by (nonlinear_arith);
        assert(8_972_000 * a <= 8_972_000 * u32::MAX) by (nonlinear_arith);
        assert(966_000 * d <= 966_000 * u32::MAX) by (nonlinear_arith);
    }
    let w1 = 31_722_000u64.saturating_add(per_voter);
    let w2 = w1.saturating_add(per_active_voter);
    let w3 = w2.saturating_add(per_desired);
    let w4 = w3.saturating_add(reads);
    proof {
        let base: int = 31_722_000 + 1_255_000 * v + 8_972_000 * a + 966_000 * d;
        assert(w3 == base);
        lemma_saturate_add(base, db.read * 4);
    }
    w4
}

/// The weight of a solution does not decrease when any of its voters,
/// active voters, desired targets or the weight of a database read grows.
pub proof fn lemma_solution_weight_monotonic(
    read1: u64,
    v1: u32,
    a1: u32,
    d1: u32,
    read2: u64,
    v2: u32,
    a2: u32,
    d2: u32,
)
    requires
        read1 <= read2,
        v1 <= v2,
        a1 <= a2,
        d1 <= d2,
    ensures
        spec_solution_weight(read1, v1, a1, d1) <= spec_solution_weight(read2, v2, a2, d2),
{
}

/// The weight of a solution is never below the fixed cost of checking its
/// feasibility, nor below the cost of its four database reads.
pub proof fn lemma_solution_weight_lower_bounds(read: u64, v: u32, a: u32, d: u32)
    ensures
        31_722_000 <= spec_solution_weight(read, v, a, d),
        saturate(4 * read) <= spec_solution_weight(read, v, a, d),
{
}

/// Each further voter adds exactly 1_255_000 to the weight of a solution,
/// whatever the other counts, as long as the weight does not reach `u64::MAX`.
pub proof fn lemma_solution_weight_per_voter(read: u64, v: u32, a: u32, d: u32)
    requires
        v < u32::MAX,
        spec_solution_weight(read, (v + 1) as u32, a, d) < u64::MAX,
    ensures
        spec_solution_weight(read, (v + 1) as u32, a, d) == spec_solution_weight(read, v, a, d)
            + 1_255_000,
{
}

/// Each further active voter adds exactly 8_972_000 to the weight of a
/// solution, whatever the other counts, as long as the weight does not reach
/// `u64::MAX`.
pub proof fn lemma_solution_weight_per_active_voter(read: u64, v: u32, a: u32, d: u32)
    requires
        a < u32::MAX,
        spec_solution_weight(read, v, (a + 1) as u32, d) < u64::MAX,
    ensures
        spec_solution_weight(read, v, (a + 1) as u32, d) == spec_solution_weight(read, v, a, d)
            + 8_972_000,
{
}

/// Each further desired target adds exactly 966_000 to the weight of a
/// solution, whatever the other counts, as long as the weight does not reach
/// `u64::MAX`.
pub proof fn lemma_solution_weight_per_desired_target(read: u64, v: u32, a: u32, d: u32)
    requires
        d < u32::MAX,
        spec_solution_weight(read, v, a, (d + 1) as u32) < u64::MAX,
    ensures
        spec_solution_weight(read, v, a, (d + 1) as u32) == spec_solution_weight(read, v, a, d)
            + 966_000,
{
}

/// Raising the weight of one database read by one adds exactly 4 to the
/// weight of a solution (it makes four reads), as long as the weight does not
/// reach `u64::MAX`.
pub proof fn lemma_solution_weight_per_read_unit(read: u64, v: u32, a: u32, d: u32)
    requires
        read < u64::MAX,
        spec_solution_weight((read + 1) as u64, v, a, d) < u64::MAX,
    ensures
        spec_solution_weight((read + 1) as u64, v, a, d) == spec_solution_weight(read, v, a, d) + 4,
{
}

/// A solution with no voters, no active voters and no desired targets costs
/// the fixed feasibility cost plus four database reads; no weight exceeds
/// `u64::MAX`, and a weight below it is the unclamped sum.
pub proof fn lemma_solution_weight_empty_and_bounded(read: u64, v: u32, a: u32, d: u32)
    ensures
        spec_solution_weight(read, 0, 0, 0) == saturate(31_722_000 + 4 * read),
        spec_solution_weight(read, v, a, d) <= u64::MAX,
        spec_solution_weight(read, v, a, d) < u64::MAX ==> spec_solution_weight(read, v, a, d)
            == 31_722_000 + 1_255_000 * v + 8_972_000 * a + 966_000 * d + 4 * read,
{
}

} // verus!
