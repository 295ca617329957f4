//! The withholding engine: an estimated federal withholding per pay period
//! under the percentage method — annualize the paycheck, subtract the
//! standard deduction and the annualized pre-tax deductions, walk the
//! progressive bracket table, and divide back down to one pay period.
//!
//! Only the Single filing status carries a fully populated bracket table;
//! the other statuses are refused with `UnsupportedFilingStatus` rather than
//! silently served with Single's table. All amounts are cents.

use vstd::prelude::*;
use crate::PaycheckError;
use crate::utils::{
    round_half_up, div_round_half_up, MONEY_LIMIT_CENTS, TAXABLE_LIMIT_CENTS,
    PAY_PERIODS_PER_YEAR,
};
use vstd::arithmetic::div_mod::lemma_div_is_ordered;
use vstd::arithmetic::mul::lemma_mul_inequality;

verus! {

/// The federal filing statuses the caller can declare.
#[derive(Clone, Copy, Debug, PartialEq, Eq, Structural)]
pub enum FilingStatus {
    Single,
    HeadOfHousehold,
    MarriedFilingJointly,
    MarriedFilingSeparately,
}

/// Standard deductions by filing status, in cents.
pub const SINGLE_DEDUCTION_CENTS: u64 = 1_500_000;

pub const HEAD_OF_HOUSEHOLD_DEDUCTION_CENTS: u64 = 2_250_000;

pub const MARRIED_FILING_JOINTLY_DEDUCTION_CENTS: u64 = 3_000_000;

pub const MARRIED_FILING_SEPARATELY_DEDUCTION_CENTS: u64 = 1_500_000;

/// Lower thresholds of the Single brackets above the first, in cents.
/// The first bracket starts at zero; the table is strictly increasing and
/// the last bracket is unbounded above.
pub const SINGLE_BRACKET_1_THRESHOLD_CENTS: u64 = 1_192_500;

pub const SINGLE_BRACKET_2_THRESHOLD_CENTS: u64 = 4_847_500;

pub const SINGLE_BRACKET_3_THRESHOLD_CENTS: u64 = 10_335_000;

pub const SINGLE_BRACKET_4_THRESHOLD_CENTS: u64 = 19_730_000;

pub const SINGLE_BRACKET_5_THRESHOLD_CENTS: u64 = 25_052_500;

pub const SINGLE_BRACKET_6_THRESHOLD_CENTS: u64 = 62_635_000;

/// Marginal rates of the seven brackets, in percent.
pub const TAX_BRACKET_1_RATE_PERCENT: u64 = 10;

pub const TAX_BRACKET_2_RATE_PERCENT: u64 = 12;

pub const TAX_BRACKET_3_RATE_PERCENT: u64 = 22;

pub const TAX_BRACKET_4_RATE_PERCENT: u64 = 24;

pub const TAX_BRACKET_5_RATE_PERCENT: u64 = 32;

pub const TAX_BRACKET_6_RATE_PERCENT: u64 = 35;

pub const TAX_BRACKET_7_RATE_PERCENT: u64 = 37;

/// Cumulative tax owed at each bracket's lower threshold, in cents: the sum
/// of the tax from all lower brackets, fixed when the table is built. These
/// bases make the tax function continuous at every boundary.
pub const SINGLE_BRACKET_1_BASE_CENTS: u64 = 119_250;

pub const SINGLE_BRACKET_2_BASE_CENTS: u64 = 557_850;

pub const SINGLE_BRACKET_3_BASE_CENTS: u64 = 1_765_100;

pub const SINGLE_BRACKET_4_BASE_CENTS: u64 = 4_019_900;

pub const SINGLE_BRACKET_5_BASE_CENTS: u64 = 5_723_100;

pub const SINGLE_BRACKET_6_BASE_CENTS: u64 = 18_876_975;

/// The standard deduction for a filing status, in cents.
pub open spec fn standard_deduction_spec(status: FilingStatus) -> int {
    match status {
        FilingStatus::Single => SINGLE_DEDUCTION_CENTS as int,
        FilingStatus::HeadOfHousehold => HEAD_OF_HOUSEHOLD_DEDUCTION_CENTS as int,
        FilingStatus::MarriedFilingJointly => MARRIED_FILING_JOINTLY_DEDUCTION_CENTS as int,
        FilingStatus::MarriedFilingSeparately => MARRIED_FILING_SEPARATELY_DEDUCTION_CENTS as int,
    }
}

/// Annual tax on a taxable annual income of `x` cents under the Single
/// bracket table. An income exactly on a threshold belongs to the bracket
/// starting there (lower-bound-inclusive); within a bracket the tax is the
/// bracket's cumulative base plus the marginal rate applied to the excess,
/// truncated to whole cents.
pub open spec fn tax_cents(x: int) -> int {
    if x >= SINGLE_BRACKET_6_THRESHOLD_CENTS {
        SINGLE_BRACKET_6_BASE_CENTS + (x - SINGLE_BRACKET_6_THRESHOLD_CENTS)
            * TAX_BRACKET_7_RATE_PERCENT / 100
    } else if x >= SINGLE_BRACKET_5_THRESHOLD_CENTS {
        SINGLE_BRACKET_5_BASE_CENTS + (x - SINGLE_BRACKET_5_THRESHOLD_CENTS)
            * TAX_BRACKET_6_RATE_PERCENT / 100
    } else if x >= SINGLE_BRACKET_4_THRESHOLD_CENTS {
        SINGLE_BRACKET_4_BASE_CENTS + (x - SINGLE_BRACKET_4_THRESHOLD_CENTS)
            * TAX_BRACKET_5_RATE_PERCENT / 100
    } else if x >= SINGLE_BRACKET_3_THRESHOLD_CENTS {
        SINGLE_BRACKET_3_BASE_CENTS + (x - SINGLE_BRACKET_3_THRESHOLD_CENTS)
            * TAX_BRACKET_4_RATE_PERCENT / 100
    } else if x >= SINGLE_BRACKET_2_THRESHOLD_CENTS {
        SINGLE_BRACKET_2_BASE_CENTS + (x - SINGLE_BRACKET_2_THRESHOLD_CENTS)
            * TAX_BRACKET_3_RATE_PERCENT / 100
    } else if x >= SINGLE_BRACKET_1_THRESHOLD_CENTS {
        SINGLE_BRACKET_1_BASE_CENTS + (x - SINGLE_BRACKET_1_THRESHOLD_CENTS)
            * TAX_BRACKET_2_RATE_PERCENT / 100
    } else {
        x * TAX_BRACKET_1_RATE_PERCENT / 100
    }
}

/// The annualized taxable income, in cents: the annualized paycheck less the
/// standard deduction and the annualized pre-tax deductions, floored at zero
/// (taxable income cannot go negative — a domain rule, not error recovery).
pub open spec fn taxable_annual_spec(gross_paycheck: int, status: FilingStatus, pretax: int) -> int {
    let annual = PAY_PERIODS_PER_YEAR * gross_paycheck;
    let reductions = standard_deduction_spec(status) + PAY_PERIODS_PER_YEAR * pretax;
    if annual <= reductions {
        0
    } else {
        annual - reductions
    }
}

/// What `estimate_paycheck_federal_withholdings` returns: amounts beyond the
/// engine's limit are `InvalidInput`; a status without its own bracket table
/// is `UnsupportedFilingStatus`; otherwise the annual tax on the annualized
/// taxable income, divided back to one pay period and rounded to cents.
pub open spec fn withholding_spec(gross_paycheck: int, status: FilingStatus, pretax: int) -> Result<
    int,
    PaycheckError,
> {
    if !(gross_paycheck <= MONEY_LIMIT_CENTS && pretax <= MONEY_LIMIT_CENTS) {
        Err(PaycheckError::InvalidInput)
    } else if status != FilingStatus::Single {
        Err(PaycheckError::UnsupportedFilingStatus)
    } else {
        Ok(
            round_half_up(
                tax_cents(taxable_annual_spec(gross_paycheck, status, pretax)),
                PAY_PERIODS_PER_YEAR as int,
            ),
        )
    }
}

/// The standard deduction for a filing status, in cents.
pub fn standard_deduction(status: FilingStatus) -> (r: u64)
    ensures
        r == standard_deduction_spec(status),
{
    match status {
        FilingStatus::Single => SINGLE_DEDUCTION_CENTS,
        FilingStatus::HeadOfHousehold => HEAD_OF_HOUSEHOLD_DEDUCTION_CENTS,
        FilingStatus::MarriedFilingJointly => MARRIED_FILING_JOINTLY_DEDUCTION_CENTS,
        FilingStatus::MarriedFilingSeparately => MARRIED_FILING_SEPARATELY_DEDUCTION_CENTS,
    }
}

/// Walks the Single bracket table from the highest threshold down and prices
/// the taxable annual income: the cumulative base of the bracket whose
/// threshold is the greatest one not exceeding the input, plus the bracket's
/// marginal rate on the excess.
pub fn apply_tax_brackets(taxable_annual: u64) -> (r: u64)
    requires
        taxable_annual <= TAXABLE_LIMIT_CENTS,
    ensures
        r == tax_cents(taxable_annual as int),
{
    if taxable_annual >= SINGLE_BRACKET_6_THRESHOLD_CENTS {
        SINGLE_BRACKET_6_BASE_CENTS + (taxable_annual - SINGLE_BRACKET_6_THRESHOLD_CENTS)
            * TAX_BRACKET_7_RATE_PERCENT / 100
    } else if taxable_annual >= SINGLE_BRACKET_5_THRESHOLD_CENTS {
        SINGLE_BRACKET_5_BASE_CENTS + (taxable_annual - SINGLE_BRACKET_5_THRESHOLD_CENTS)
            * TAX_BRACKET_6_RATE_PERCENT / 100
    } else if taxable_annual >= SINGLE_BRACKET_4_THRESHOLD_CENTS {
        SINGLE_BRACKET_4_BASE_CENTS + (taxable_annual - SINGLE_BRACKET_4_THRESHOLD_CENTS)
            * TAX_BRACKET_5_RATE_PERCENT / 100
    } else if taxable_annual >= SINGLE_BRACKET_3_THRESHOLD_CENTS {
        SINGLE_BRACKET_3_BASE_CENTS + (taxable_annual - SINGLE_BRACKET_3_THRESHOLD_CENTS)
            * TAX_BRACKET_4_RATE_PERCENT / 100
    } else if taxable_annual >= SINGLE_BRACKET_2_THRESHOLD_CENTS {
        SINGLE_BRACKET_2_BASE_CENTS + (taxable_annual - SINGLE_BRACKET_2_THRESHOLD_CENTS)
            * TAX_BRACKET_3_RATE_PERCENT / 100
    } else if taxable_annual >= SINGLE_BRACKET_1_THRESHOLD_CENTS {
        SINGLE_BRACKET_1_BASE_CENTS + (taxable_annual - SINGLE_BRACKET_1_THRESHOLD_CENTS)
            * TAX_BRACKET_2_RATE_PERCENT / 100
    } else {
        taxable_annual * TAX_BRACKET_1_RATE_PERCENT / 100
    }
}

/// Estimated federal withholding for one pay period, in cents: annualize the
/// gross paycheck (26 bi-weekly periods per year), subtract the standard
/// deduction and the annualized elected pre-tax deductions (floored at
/// zero), apply the bracket table, and divide back to one period, rounding
/// half away from zero. Amount limits are checked before the filing status,
/// so oversized inputs report `InvalidInput` even for an unsupported status.
pub fn estimate_paycheck_federal_withholdings(
    gross_paycheck: u64,
    filing_status: FilingStatus,
    elected_pretax_deductions: u64,
) -> (r: Result<u64, PaycheckError>)
    ensures
        match r {
            Ok(w) => withholding_spec(
                gross_paycheck as int,
                filing_status,
                elected_pretax_deductions as int,
            ) == Ok::<int, PaycheckError>(w as int),
            Err(e) => withholding_spec(
                gross_paycheck as int,
                filing_status,
                elected_pretax_deductions as int,
            ) == Err::<int, PaycheckError>(e),
        },
{
    if gross_paycheck > MONEY_LIMIT_CENTS || elected_pretax_deductions > MONEY_LIMIT_CENTS {
        return Err(PaycheckError::InvalidInput);
    }
    if !matches!(filing_status, FilingStatus::Single) {
        return Err(PaycheckError::UnsupportedFilingStatus);
    }
    let gross_annualized = PAY_PERIODS_PER_YEAR * gross_paycheck;
    let annualized_deductions = standard_deduction(filing_status) + PAY_PERIODS_PER_YEAR
        * elected_pretax_deductions;
    let taxable_annual = if gross_annualized <= annualized_deductions {
        0
    } else {
        gross_annualized - annualized_deductions
    };
    let estimated_annual_withholdings = apply_tax_brackets(taxable_annual);
    Ok(div_round_half_up(estimated_annual_withholdings, PAY_PERIODS_PER_YEAR))
}

/// Within one bracket starting at `t`, the marginal tax on the excess over
/// `t` is monotone in the income.
proof fn lemma_bracket_segment_mono(t: int, a: int, b: int, rate: int)
    requires
        t <= a <= b,
        0 <= rate,
    ensures
        (a - t) * rate / 100 <= (b - t) * rate / 100,
{
    lemma_mul_inequality(a - t, b - t, rate);
    lemma_div_is_ordered((a - t) * rate, (b - t) * rate, 100);
}

/// The tax function never falls below the cumulative base of any bracket
/// the income has entered.
proof fn lemma_tax_lower_bounds(x: int)
    requires
        0 <= x,
    ensures
        tax_cents(x) >= 0,
        x >= SINGLE_BRACKET_1_THRESHOLD_CENTS ==> tax_cents(x) >= SINGLE_BRACKET_1_BASE_CENTS,
        x >= SINGLE_BRACKET_2_THRESHOLD_CENTS ==> tax_cents(x) >= SINGLE_BRACKET_2_BASE_CENTS,
        x >= SINGLE_BRACKET_3_THRESHOLD_CENTS ==> tax_cents(x) >= SINGLE_BRACKET_3_BASE_CENTS,
        x >= SINGLE_BRACKET_4_THRESHOLD_CENTS ==> tax_cents(x) >= SINGLE_BRACKET_4_BASE_CENTS,
        x >= SINGLE_BRACKET_5_THRESHOLD_CENTS ==> tax_cents(x) >= SINGLE_BRACKET_5_BASE_CENTS,
        x >= SINGLE_BRACKET_6_THRESHOLD_CENTS ==> tax_cents(x) >= SINGLE_BRACKET_6_BASE_CENTS,
{
    if x >= SINGLE_BRACKET_6_THRESHOLD_CENTS {
        lemma_bracket_segment_mono(SINGLE_BRACKET_6_THRESHOLD_CENTS as int, x, x, 37);
        vstd::arithmetic::mul::lemma_mul_nonnegative(x - SINGLE_BRACKET_6_THRESHOLD_CENTS, 37);
        vstd::arithmetic::div_mod::lemma_div_pos_is_pos(
            (x - SINGLE_BRACKET_6_THRESHOLD_CENTS) * 37,
            100,
        );
    } else if x >= SINGLE_BRACKET_5_THRESHOLD_CENTS {
        vstd::arithmetic::mul::lemma_mul_nonnegative(x - SINGLE_BRACKET_5_THRESHOLD_CENTS, 35);
        vstd::arithmetic::div_mod::lemma_div_pos_is_pos(
            (x - SINGLE_BRACKET_5_THRESHOLD_CENTS) * 35,
            100,
        );
    } else if x >= SINGLE_BRACKET_4_THRESHOLD_CENTS {
        vstd::arithmetic::mul::lemma_mul_nonnegative(x - SINGLE_BRACKET_4_THRESHOLD_CENTS, 32);
        vstd::arithmetic::div_mod::lemma_div_pos_is_pos(
            (x - SINGLE_BRACKET_4_THRESHOLD_CENTS) * 32,
            100,
        );
    } else if x >= SINGLE_BRACKET_3_THRESHOLD_CENTS {
        vstd::arithmetic::mul::lemma_mul_nonnegative(x - SINGLE_BRACKET_3_THRESHOLD_CENTS, 24);
        vstd::arithmetic::div_mod::lemma_div_pos_is_pos(
            (x - SINGLE_BRACKET_3_THRESHOLD_CENTS) * 24,
            100,
        );
    } else if x >= SINGLE_BRACKET_2_THRESHOLD_CENTS {
        vstd::arithmetic::mul::lemma_mul_nonnegative(x - SINGLE_BRACKET_2_THRESHOLD_CENTS, 22);
        vstd::arithmetic::div_mod::lemma_div_pos_is_pos(
            (x - SINGLE_BRACKET_2_THRESHOLD_CENTS) * 22,
            100,
        );
    } else if x >= SINGLE_BRACKET_1_THRESHOLD_CENTS {
        vstd::arithmetic::mul::lemma_mul_nonnegative(x - SINGLE_BRACKET_1_THRESHOLD_CENTS, 12);
        vstd::arithmetic::div_mod::lemma_div_pos_is_pos(
            (x - SINGLE_BRACKET_1_THRESHOLD_CENTS) * 12,
            100,
        );
    } else {
        vstd::arithmetic::mul::lemma_mul_nonnegative(x, 10);
        vstd::arithmetic::div_mod::lemma_div_pos_is_pos(x * 10, 100);
    }
}

/// Law: each bracket's cumulative base is the tax accumulated over all lower
/// brackets — the base at a threshold equals the base below plus the lower
/// bracket's rate applied to the lower bracket's full width.
pub proof fn lemma_bracket_bases_cumulative()
    ensures
        SINGLE_BRACKET_1_BASE_CENTS == SINGLE_BRACKET_1_THRESHOLD_CENTS
            * TAX_BRACKET_1_RATE_PERCENT / 100,
        SINGLE_BRACKET_2_BASE_CENTS == SINGLE_BRACKET_1_BASE_CENTS + (
        SINGLE_BRACKET_2_THRESHOLD_CENTS - SINGLE_BRACKET_1_THRESHOLD_CENTS)
            * TAX_BRACKET_2_RATE_PERCENT / 100,
        SINGLE_BRACKET_3_BASE_CENTS == SINGLE_BRACKET_2_BASE_CENTS + (
        SINGLE_BRACKET_3_THRESHOLD_CENTS - SINGLE_BRACKET_2_THRESHOLD_CENTS)
            * TAX_BRACKET_3_RATE_PERCENT / 100,
        SINGLE_BRACKET_4_BASE_CENTS == SINGLE_BRACKET_3_BASE_CENTS + (
        SINGLE_BRACKET_4_THRESHOLD_CENTS - SINGLE_BRACKET_3_THRESHOLD_CENTS)
            * TAX_BRACKET_4_RATE_PERCENT / 100,
        SINGLE_BRACKET_5_BASE_CENTS == SINGLE_BRACKET_4_BASE_CENTS + (
        SINGLE_BRACKET_5_THRESHOLD_CENTS - SINGLE_BRACKET_4_THRESHOLD_CENTS)
            * TAX_BRACKET_5_RATE_PERCENT / 100,
        SINGLE_BRACKET_6_BASE_CENTS == SINGLE_BRACKET_5_BASE_CENTS + (
        SINGLE_BRACKET_6_THRESHOLD_CENTS - SINGLE_BRACKET_5_THRESHOLD_CENTS)
            * TAX_BRACKET_6_RATE_PERCENT / 100,
{
}

/// Law: the tax function is continuous at every bracket boundary — one cent
/// below a threshold, the tax sits within a single cent of the tax exactly
/// on the threshold, so the table has no jump discontinuities.
pub proof fn lemma_brackets_continuous_at_boundaries()
    ensures
        tax_cents(SINGLE_BRACKET_1_THRESHOLD_CENTS - 1) <= tax_cents(
            SINGLE_BRACKET_1_THRESHOLD_CENTS as int,
        ) <= tax_cents(SINGLE_BRACKET_1_THRESHOLD_CENTS - 1) + 1,
        tax_cents(SINGLE_BRACKET_2_THRESHOLD_CENTS - 1) <= tax_cents(
            SINGLE_BRACKET_2_THRESHOLD_CENTS as int,
        ) <= tax_cents(SINGLE_BRACKET_2_THRESHOLD_CENTS - 1) + 1,
        tax_cents(SINGLE_BRACKET_3_THRESHOLD_CENTS - 1) <= tax_cents(
            SINGLE_BRACKET_3_THRESHOLD_CENTS as int,
        ) <= tax_cents(SINGLE_BRACKET_3_THRESHOLD_CENTS - 1) + 1,
        tax_cents(SINGLE_BRACKET_4_THRESHOLD_CENTS - 1) <= tax_cents(
            SINGLE_BRACKET_4_THRESHOLD_CENTS as int,
        ) <= tax_cents(SINGLE_BRACKET_4_THRESHOLD_CENTS - 1) + 1,
        tax_cents(SINGLE_BRACKET_5_THRESHOLD_CENTS - 1) <= tax_cents(
            SINGLE_BRACKET_5_THRESHOLD_CENTS as int,
        ) <= tax_cents(SINGLE_BRACKET_5_THRESHOLD_CENTS - 1) + 1,
        tax_cents(SINGLE_BRACKET_6_THRESHOLD_CENTS - 1) <= tax_cents(
            SINGLE_BRACKET_6_THRESHOLD_CENTS as int,
        ) <= tax_cents(SINGLE_BRACKET_6_THRESHOLD_CENTS - 1) + 1,
{
}

/// Law: the tax function is monotonically non-decreasing — more taxable
/// income never means less tax, across brackets as well as within one.
pub proof fn lemma_brackets_monotone(a: int, b: int)
    requires
        0 <= a <= b,
    ensures
        tax_cents(a) <= tax_cents(b),
{
    let t1 = SINGLE_BRACKET_1_THRESHOLD_CENTS as int;
    let t2 = SINGLE_BRACKET_2_THRESHOLD_CENTS as int;
    let t3 = SINGLE_BRACKET_3_THRESHOLD_CENTS as int;
    let t4 = SINGLE_BRACKET_4_THRESHOLD_CENTS as int;
    let t5 = SINGLE_BRACKET_5_THRESHOLD_CENTS as int;
    let t6 = SINGLE_BRACKET_6_THRESHOLD_CENTS as int;
    lemma_tax_lower_bounds(b);
    if a >= t6 {
        lemma_bracket_segment_mono(t6, a, b, 37);
    } else if a >= t5 {
        if b >= t6 {
            lemma_bracket_segment_mono(t5, a, t6, 35);
        } else {
            lemma_bracket_segment_mono(t5, a, b, 35);
        }
    } else if a >= t4 {
        if b >= t5 {
            lemma_bracket_segment_mono(t4, a, t5, 32);
        } else {
            lemma_bracket_segment_mono(t4, a, b, 32);
        }
    } else if a >= t3 {
        if b >= t4 {
            lemma_bracket_segment_mono(t3, a, t4, 24);
        } else {
            lemma_bracket_segment_mono(t3, a, b, 24);
        }
    } else if a >= t2 {
        if b >= t3 {
            lemma_bracket_segment_mono(t2, a, t3, 22);
        } else {
            lemma_bracket_segment_mono(t2, a, b, 22);
        }
    } else if a >= t1 {
        if b >= t2 {
            lemma_bracket_segment_mono(t1, a, t2, 12);
        } else {
            lemma_bracket_segment_mono(t1, a, b, 12);
        }
    } else {
        if b >= t1 {
            lemma_bracket_segment_mono(0, a, t1, 10);
        } else {
            lemma_bracket_segment_mono(0, a, b, 10);
        }
    }
}

} // verus!
