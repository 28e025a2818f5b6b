//! Load progress: the fraction of a start attempt that is done.
//!
//! A start attempt spends one twentieth on setting the engine up, eighteen
//! twentieths on loading the instrument banks, an equal share for each
//! bank, and the last twentieth on assigning the loaded instruments to the
//! channels. The fraction is kept exact, as a numerator and a denominator;
//! turning it into a floating-point number is left to whoever displays it.

use vstd::prelude::*;

verus! {

/// An exact fraction between zero and one. Two values are equal when
/// their numerators and their denominators are.
#[derive(Clone, Copy, Debug, PartialEq, Eq, Structural)]
pub struct LoadProgress {
    pub numerator: u128,
    pub denominator: u128,
}

/// The progress reached when `done` of `total` banks have been attempted:
/// one twentieth plus `done / total` of eighteen twentieths. With no bank to
/// load the whole share counts as done.
pub open spec fn bank_share(done: nat, total: nat) -> LoadProgress
    recommends
        done <= total <= usize::MAX,
{
    if total == 0 {
        banks_done()
    } else {
        LoadProgress { numerator: (total + 18 * done) as u128, denominator: (20 * total) as u128 }
    }
}

/// The fraction zero.
pub open spec fn none_done() -> LoadProgress {
    LoadProgress { numerator: 0, denominator: 1 }
}

/// One twentieth: the engine is set up.
pub open spec fn setup_done() -> LoadProgress {
    LoadProgress { numerator: 1, denominator: 20 }
}

/// Nineteen twentieths: every bank has been attempted.
pub open spec fn banks_done() -> LoadProgress {
    LoadProgress { numerator: 19, denominator: 20 }
}

/// The fraction one.
pub open spec fn all_done() -> LoadProgress {
    LoadProgress { numerator: 1, denominator: 1 }
}

impl LoadProgress {
    /// A fraction has a positive denominator and does not exceed one.
    pub open spec fn wf(self) -> bool {
        0 < self.denominator && self.numerator <= self.denominator
    }

    /// Whether this fraction equals `n / d`.
    pub open spec fn is_ratio(self, n: int, d: int) -> bool {
        d > 0 && self.numerator * d == n * self.denominator
    }

    /// Whether this fraction is no greater than `other`.
    pub open spec fn at_most(self, other: LoadProgress) -> bool {
        self.numerator * other.denominator <= other.numerator * self.denominator
    }

    /// Whether nothing is done yet.
    pub open spec fn is_zero(self) -> bool {
        self.numerator == 0
    }

    /// Whether everything is done.
    pub open spec fn is_complete(self) -> bool {
        self.numerator == self.denominator
    }

    /// Nothing done: the value at the start of every start attempt.
    pub fn zero() -> (p: LoadProgress)
        ensures
            p == none_done(),
            p.wf(),
            p.is_zero(),
    {
        LoadProgress { numerator: 0, denominator: 1 }
    }

    /// Everything done: the engine accepts events, or the attempt is over.
    pub fn complete() -> (p: LoadProgress)
        ensures
            p == all_done(),
            p.wf(),
            p.is_complete(),
    {
        LoadProgress { numerator: 1, denominator: 1 }
    }

    /// The engine is set up and no bank has been attempted: one twentieth.
    pub fn after_setup() -> (p: LoadProgress)
        ensures
            p == setup_done(),
            p.wf(),
    {
        LoadProgress { numerator: 1, denominator: 20 }
    }

    /// Every bank has been attempted and the channels have yet to be
    /// told: nineteen twentieths.
    pub fn after_loading() -> (p: LoadProgress)
        ensures
            p == banks_done(),
            p.wf(),
    {
        LoadProgress { numerator: 19, denominator: 20 }
    }

    /// `done` of `total` banks have been attempted. A count above `total`
    /// is taken as `total`.
    pub fn after_banks(done: usize, total: usize) -> (p: LoadProgress)
        ensures
            p == bank_share(if done <= total { done as nat } else { total as nat }, total as nat),
            p.wf(),
    {
        if total == 0 {
            LoadProgress { numerator: 19, denominator: 20 }
        } else {
            let n: u128 = total as u128;
            let k: u128 = if done <= total { done as u128 } else { n };
            LoadProgress { numerator: n + 18 * k, denominator: 20 * n }
        }
    }

    /// Whether everything is done.
    pub fn is_done(&self) -> (done: bool)
        ensures
            done == self.is_complete(),
    {
        self.numerator == self.denominator
    }

    /// Whether nothing is done yet.
    pub fn is_none(&self) -> (none: bool)
        ensures
            none == self.is_zero(),
    {
        self.numerator == 0
    }
}

/// The bank share starts at one twentieth and ends at nineteen twentieths.
pub proof fn lemma_bank_share_ends(total: nat)
    requires
        0 < total <= usize::MAX,
    ensures
        bank_share(0, total).is_ratio(1, 20),
        bank_share(total, total).is_ratio(19, 20),
{
}

/// Every bank adds the same amount: nine tenths divided by the number of
/// banks.
pub proof fn lemma_bank_share_even(done: nat, total: nat)
    requires
        done < total <= usize::MAX,
    ensures
        bank_share(done + 1, total).denominator == bank_share(done, total).denominator,
        bank_share(done + 1, total).numerator - bank_share(done, total).numerator == 18,
        18 * (10 * total) == 9 * bank_share(done, total).denominator,
{
}

/// The bank share is a fraction that never decreases as banks are
/// attempted, and stays between one twentieth and nineteen twentieths.
pub proof fn lemma_bank_share_monotonic(earlier: nat, later: nat, total: nat)
    requires
        earlier <= later <= total <= usize::MAX,
    ensures
        bank_share(earlier, total).wf(),
        bank_share(later, total).wf(),
        bank_share(earlier, total).at_most(bank_share(later, total)),
        bank_share(earlier, total).denominator <= 20 * bank_share(earlier, total).numerator,
        20 * bank_share(later, total).numerator <= 19 * bank_share(later, total).denominator,
{
    if total > 0 {
        let d = (20 * total) as int;
        let x = (total + 18 * earlier) as int;
        let y = (total + 18 * later) as int;
        assert(x * d <= y * d) by (nonlinear_arith)
            requires
                x <= y,
                0 < d,
        ;
    }
}

/// The order of fractions is transitive.
pub proof fn lemma_at_most_transitive(a: LoadProgress, b: LoadProgress, c: LoadProgress)
    requires
        a.wf(),
        b.wf(),
        c.wf(),
        a.at_most(b),
        b.at_most(c),
    ensures
        a.at_most(c),
{
    let (an, ad) = (a.numerator as int, a.denominator as int);
    let (bn, bd) = (b.numerator as int, b.denominator as int);
    let (cn, cd) = (c.numerator as int, c.denominator as int);
    assert(an * cd <= cn * ad) by (nonlinear_arith)
        requires
            0 < ad,
            0 < bd,
            0 < cd,
            0 <= an,
            0 <= bn,
            0 <= cn,
            an * bd <= bn * ad,
            bn * cd <= cn * bd,
    {
        assert(an * bd * cd <= bn * ad * cd);
        assert(bn * cd * ad <= cn * bd * ad);
        assert(bn * ad * cd == bn * cd * ad);
        assert(an * cd * bd == an * bd * cd);
        assert(cn * ad * bd == cn * bd * ad);
        assert(an * cd * bd <= cn * ad * bd);
    }
}

/// Every fraction lies between zero and one.
pub proof fn lemma_within_bounds(p: LoadProgress)
    requires
        p.wf(),
    ensures
        none_done().at_most(p),
        p.at_most(all_done()),
{
}

} // verus!
