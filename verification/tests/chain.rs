use staking_miner::chain::static_types::{DbWeight, MaxLength, MaxVotesPerVoter, MaxWeight};
use staking_miner::chain::{kusama, polkadot, saturating_mul, solution_weight, westend, RuntimeDbWeight};

fn db(read: u64, write: u64) -> DbWeight {
    let mut s = DbWeight::new();
    s.set(RuntimeDbWeight { read, write });
    s
}

#[test]
fn stores_start_at_zero() {
    assert_eq!(MaxWeight::new().get(), 0);
    assert_eq!(MaxLength::new().get(), 0);
    assert_eq!(MaxVotesPerVoter::new().get(), 0);
    assert_eq!(DbWeight::new().get(), RuntimeDbWeight { read: 0, write: 0 });
}

#[test]
fn max_weight_read_after_write() {
    let mut s = MaxWeight::new();
    s.set(1_000_000_000_000);
    assert_eq!(s.get(), 1_000_000_000_000);
    s.set(7);
    assert_eq!(s.get(), 7);
    s.set(u64::MAX);
    assert_eq!(s.get(), u64::MAX);
}

#[test]
fn max_length_read_after_write() {
    let mut s = MaxLength::new();
    s.set(4_194_304);
    assert_eq!(s.get(), 4_194_304);
    s.set(0);
    assert_eq!(s.get(), 0);
}

#[test]
fn max_votes_per_voter_read_after_write() {
    let mut s = MaxVotesPerVoter::new();
    s.set(16);
    assert_eq!(s.get(), 16);
    s.set(24);
    assert_eq!(s.get(), 24);
}

#[test]
fn db_weight_read_after_write() {
    let mut s = DbWeight::new();
    s.set(RuntimeDbWeight { read: 25_000_000, write: 100_000_000 });
    assert_eq!(s.get(), RuntimeDbWeight { read: 25_000_000, write: 100_000_000 });
    s.set(RuntimeDbWeight { read: 1, write: 2 });
    assert_eq!(s.get().read, 1);
    assert_eq!(s.get().write, 2);
}

#[test]
fn db_weight_reads() {
    let w = RuntimeDbWeight { read: 25_000_000, write: 100_000_000 };
    assert_eq!(w.reads(4), 100_000_000);
    assert_eq!(w.reads(0), 0);
    assert_eq!(RuntimeDbWeight { read: u64::MAX, write: 0 }.reads(2), u64::MAX);
}

#[test]
fn saturating_mul_clamps() {
    assert_eq!(saturating_mul(1_255_000, 10), 12_550_000);
    assert_eq!(saturating_mul(u64::MAX, 2), u64::MAX);
    assert_eq!(saturating_mul(1 << 32, 1 << 32), u64::MAX);
    assert_eq!(saturating_mul(0, u64::MAX), 0);
}

#[test]
fn solution_weight_formula() {
    let s = db(25_000_000, 100_000_000);
    assert_eq!(solution_weight(&s, 10, 5, 20, 3), 326_610_000);
}

#[test]
fn solution_weight_of_empty_solution_is_base_cost() {
    assert_eq!(solution_weight(&DbWeight::new(), 0, 0, 0, 0), 31_722_000);
}

#[test]
fn solution_weight_ignores_targets() {
    let s = db(25_000_000, 100_000_000);
    assert_eq!(solution_weight(&s, 10, 0, 20, 3), solution_weight(&s, 10, u32::MAX, 20, 3));
}

#[test]
fn solution_weight_saturates() {
    assert_eq!(solution_weight(&db(u64::MAX, 0), 0, 0, 0, 0), u64::MAX);
    assert_eq!(solution_weight(&db(1 << 62, 0), 0, 0, 0, 0), u64::MAX);
    assert_eq!(solution_weight(&db((1 << 62) - 10_000_000_000, 0), u32::MAX, 0, 0, 0), u64::MAX);
}

#[test]
fn solution_weight_of_largest_counts() {
    let m = u32::MAX;
    assert_eq!(solution_weight(&DbWeight::new(), m, m, m, m), 48_073_568_964_657_000);
}

#[test]
fn solution_weight_is_monotonic() {
    let s = db(25_000_000, 0);
    let small = solution_weight(&s, 10, 1, 20, 3);
    assert!(small <= solution_weight(&s, 11, 1, 20, 3));
    assert!(small <= solution_weight(&s, 10, 1, 21, 3));
    assert!(small <= solution_weight(&s, 10, 1, 20, 4));
    assert!(small <= solution_weight(&db(25_000_001, 0), 10, 1, 20, 3));
}

#[test]
fn chains_agree_on_solution_weight() {
    let s = db(25_000_000, 100_000_000);
    let p = polkadot::Config::solution_weight(&s, 22_500, 1_000, 350_000, 297);
    assert_eq!(p, kusama::Config::solution_weight(&s, 22_500, 1_000, 350_000, 297));
    assert_eq!(p, westend::Config::solution_weight(&s, 22_500, 1_000, 350_000, 297));
    assert_eq!(p, 31_722_000 + 1_255_000 * 22_500 + 8_972_000 * 350_000 + 966_000 * 297 + 100_000_000);
}
