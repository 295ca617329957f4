//! Shared constants and the rounding primitive used by both engines.
//!
//! Money is held in cents and hours in hundredths of an hour (centihours).
//! Whenever an exact result has a fractional cent, it is rounded half away
//! from zero; since every quantity here is non-negative, that is the same as
//! rounding half up.

use vstd::prelude::*;
use vstd::arithmetic::div_mod::{lemma_fundamental_div_mod, lemma_mod_bound};

verus! {

/// Largest money amount (in cents) the engines accept: one hundred billion
/// dollars. Amounts above it are refused as `InvalidInput` so that every
/// intermediate product provably fits in a machine word.
pub const MONEY_LIMIT_CENTS: u64 = 10_000_000_000_000;

/// Largest annualized taxable income (in cents) the bracket walk accepts.
/// Annualizing a per-period amount bounded by `MONEY_LIMIT_CENTS` stays far
/// below this.
pub const TAXABLE_LIMIT_CENTS: u64 = 1_000_000_000_000_000;

/// Hours in a calendar week, in centihours: no one can work more than
/// 168 hours per week, so larger inputs are refused as `InvalidInput`.
pub const MAX_WEEKLY_CENTIHOURS: u64 = 16_800;

/// The overtime threshold: 40 hours per standard week, in centihours.
pub const STANDARD_WEEKLY_CENTIHOURS: u64 = 4_000;

/// Payroll-convention year: 52 weeks, not 365 days.
pub const WEEKS_PER_YEAR: u64 = 52;

/// A pay period is two weeks, so a year holds 26 of them.
pub const PAY_PERIODS_PER_YEAR: u64 = 26;

/// Months in a year.
pub const MONTHS_PER_YEAR: u64 = 12;

/// The exact quotient `n / d` rounded half away from zero, written over
/// integers. For non-negative `n` and positive `d` this is ordinary
/// round-half-up: the unique integer `q` with `2*d*q` in `(2n - d, 2n + d]`.
pub open spec fn round_half_up(n: int, d: int) -> int {
    (2 * n + d) / (2 * d)
}

/// How far `round_half_up(n, d)` can sit from the exact quotient: scaled by
/// `2*d`, the rounded value stays within half a unit of `n / d`.
pub proof fn lemma_round_half_up_bounds(n: int, d: int)
    requires
        0 <= n,
        1 <= d,
    ensures
        2 * n - d < 2 * d * round_half_up(n, d),
        2 * d * round_half_up(n, d) <= 2 * n + d,
{
    lemma_fundamental_div_mod(2 * n + d, 2 * d);
    lemma_mod_bound(2 * n + d, 2 * d);
}

/// `n / d` rounded half away from zero (equivalently, half up, as all inputs
/// are non-negative). The quotient never exceeds `n`, so the result always
/// fits in a `u64`.
pub fn div_round_half_up(n: u64, d: u64) -> (r: u64)
    requires
        1 <= d,
    ensures
        r == round_half_up(n as int, d as int),
{
    let wide: u128 = (2 * (n as u128) + (d as u128)) / (2 * (d as u128));
    proof {
        assert(2 * (n as int) + (d as int) <= 2 * (d as int) * (n as int) + (d as int))
            by (nonlinear_arith)
            requires
                0 <= n as int,
                1 <= d as int,
        ;
        vstd::arithmetic::div_mod::lemma_div_is_ordered(
            2 * (n as int) + (d as int),
            2 * (d as int) * (n as int) + (d as int),
            2 * (d as int),
        );
        vstd::arithmetic::div_mod::lemma_fundamental_div_mod_converse(
            2 * (d as int) * (n as int) + (d as int),
            2 * (d as int),
            n as int,
            d as int,
        );
        assert(round_half_up(n as int, d as int) <= n as int);
        vstd::arithmetic::div_mod::lemma_div_pos_is_pos(2 * (n as int) + (d as int), 2 * (d as int));
    }
    wide as u64
}

/// Rounds a value held in hundredths of a cent to whole cents, half away
/// from zero: the integer analogue of rounding a dollar figure to 2 decimal
/// places.
pub fn round_2_decimals(value: u64) -> (r: u64)
    ensures
        r == round_half_up(value as int, 100),
{
    div_round_half_up(value, 100)
}

/// Sum of a sequence of cent amounts.
pub open spec fn sum_cents(s: Seq<int>) -> int
    decreases s.len(),
{
    if s.len() == 0 {
        0
    } else {
        sum_cents(s.drop_last()) + s.last()
    }
}

/// Extending a prefix by one element adds that element to its sum.
pub proof fn lemma_sum_cents_extend(s: Seq<int>, i: int)
    requires
        0 <= i < s.len(),
    ensures
        sum_cents(s.take(i + 1)) == sum_cents(s.take(i)) + s[i],
{
    assert(s.take(i + 1).drop_last() =~= s.take(i));
}

/// With no negative amounts, a prefix never sums to more than the whole.
pub proof fn lemma_sum_cents_prefix_le(s: Seq<int>, i: int)
    requires
        0 <= i <= s.len(),
        forall|k: int| 0 <= k < s.len() ==> s[k] >= 0,
    ensures
        sum_cents(s.take(i)) <= sum_cents(s),
    decreases s.len() - i,
{
    if i == s.len() {
        assert(s.take(i) =~= s);
    } else {
        lemma_sum_cents_extend(s, i);
        lemma_sum_cents_prefix_le(s, i + 1);
    }
}

} // verus!
