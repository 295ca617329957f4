//! The income engine: gross pay for hourly or salaried compensation at any
//! requested cadence, with weekly overtime.
//!
//! Hours are always expressed per standard week (in centihours); every other
//! cadence derives from the weekly figure, so overtime never averages across
//! weeks. Salaried amounts are annual and are divided down to the requested
//! cadence. The exact rational result is rounded to whole cents once, at the
//! end, half away from zero.

use vstd::prelude::*;
use crate::PaycheckError;
use crate::utils::{
    round_half_up, div_round_half_up, MONEY_LIMIT_CENTS, MAX_WEEKLY_CENTIHOURS,
    STANDARD_WEEKLY_CENTIHOURS, WEEKS_PER_YEAR, PAY_PERIODS_PER_YEAR, MONTHS_PER_YEAR,
};
use vstd::arithmetic::mul::lemma_mul_upper_bound;

verus! {

/// The cadences gross pay can be requested at. Each has a fixed conversion
/// factor relative to a 52-week year: Week is 1/52, PayPeriod (two weeks)
/// is 2/52, Month is 1/12.
#[derive(Clone, Copy, Debug, PartialEq, Eq, Structural)]
pub enum Cadence {
    Week,
    PayPeriod,
    Month,
    Year,
}

/// How an employee is compensated: exactly one variant is active.
#[derive(Clone, Copy, Debug, PartialEq, Eq, Structural)]
pub enum IncomeType {
    /// Hourly pay; the payload is the rate in cents per hour.
    Hourly(u64),
    /// Salaried pay; the payload is the annual amount in cents.
    Salary(u64),
}

/// A compensation record: the pay structure plus, only meaningful for hourly
/// pay, the hours worked per standard week in centihours.
#[derive(Clone, Copy, Debug)]
pub struct Income {
    pub income_type: IncomeType,
    /// Hours worked per standard week, in centihours. Required for hourly
    /// pay (its absence is an `InvalidInput`); ignored for salaried pay.
    pub hours_per_week: Option<u64>,
}

/// The hours of a week paid at the plain rate: everything up to the 40-hour
/// threshold.
pub open spec fn regular_centihours(h: int) -> int {
    if h <= STANDARD_WEEKLY_CENTIHOURS { h } else { STANDARD_WEEKLY_CENTIHOURS as int }
}

/// The hours of a week paid at 1.5 times the rate: everything beyond the
/// 40-hour threshold.
pub open spec fn overtime_centihours(h: int) -> int {
    if h <= STANDARD_WEEKLY_CENTIHOURS { 0 } else { h - STANDARD_WEEKLY_CENTIHOURS }
}

/// 200 times the exact weekly gross of hourly pay, in cents: regular
/// centihours earn `rate / 100` cents each and overtime centihours earn
/// `1.5 * rate / 100`, so scaling by 200 clears both denominators.
pub open spec fn weekly_gross_num(rate: int, h: int) -> int {
    2 * (rate * regular_centihours(h)) + 3 * (rate * overtime_centihours(h))
}

/// What `Income::gross_pay` returns, case by case. A missing hours field on
/// hourly pay, or any amount beyond the engine's limits, is `InvalidInput`;
/// otherwise the exact gross for the cadence, rounded to cents half away
/// from zero.
pub open spec fn gross_pay_spec(inc: Income, cadence: Cadence) -> Result<int, PaycheckError> {
    match inc.income_type {
        IncomeType::Salary(annual) => {
            if annual <= MONEY_LIMIT_CENTS {
                Ok(
                    match cadence {
                        Cadence::Week => round_half_up(annual as int, WEEKS_PER_YEAR as int),
                        Cadence::PayPeriod => round_half_up(
                            annual as int,
                            PAY_PERIODS_PER_YEAR as int,
                        ),
                        Cadence::Month => round_half_up(annual as int, MONTHS_PER_YEAR as int),
                        Cadence::Year => annual as int,
                    },
                )
            } else {
                Err(PaycheckError::InvalidInput)
            }
        },
        IncomeType::Hourly(rate) => {
            match inc.hours_per_week {
                None => Err(PaycheckError::InvalidInput),
                Some(h) => {
                    if rate <= MONEY_LIMIT_CENTS && h <= MAX_WEEKLY_CENTIHOURS {
                        // The exact weekly gross is num/200 cents, so each
                        // cadence scales it by its weeks: x1, x2, x52/12, x52.
                        let num = weekly_gross_num(rate as int, h as int);
                        Ok(
                            match cadence {
                                Cadence::Week => round_half_up(num, 200),
                                Cadence::PayPeriod => round_half_up(num, 100),
                                Cadence::Month => round_half_up(num * 13, 600),
                                Cadence::Year => round_half_up(num * 13, 50),
                            },
                        )
                    } else {
                        Err(PaycheckError::InvalidInput)
                    }
                },
            }
        },
    }
}

impl Income {
    /// Gross pay for this compensation at the requested cadence, in cents.
    ///
    /// Salaried pay divides the annual amount by the cadence's factor
    /// (52, 26, 12 or 1). Hourly pay prices the week — regular hours at the
    /// rate, overtime beyond 40 hours at 1.5 times the rate — and scales the
    /// weekly figure to the cadence. The one rounding step is half away from
    /// zero, applied after the scaling.
    pub fn gross_pay(&self, cadence: Cadence) -> (r: Result<u64, PaycheckError>)
        ensures
            match r {
                Ok(g) => gross_pay_spec(*self, cadence) == Ok::<int, PaycheckError>(g as int),
                Err(e) => gross_pay_spec(*self, cadence) == Err::<int, PaycheckError>(e),
            },
    {
        match self.income_type {
            IncomeType::Salary(annual) => {
                if annual > MONEY_LIMIT_CENTS {
                    Err(PaycheckError::InvalidInput)
                } else {
                    Ok(
                        match cadence {
                            Cadence::Week => div_round_half_up(annual, WEEKS_PER_YEAR),
                            Cadence::PayPeriod => div_round_half_up(annual, PAY_PERIODS_PER_YEAR),
                            Cadence::Month => div_round_half_up(annual, MONTHS_PER_YEAR),
                            Cadence::Year => annual,
                        },
                    )
                }
            },
            IncomeType::Hourly(rate) => {
                match self.hours_per_week {
                    None => Err(PaycheckError::InvalidInput),
                    Some(h) => {
                        if rate > MONEY_LIMIT_CENTS || h > MAX_WEEKLY_CENTIHOURS {
                            Err(PaycheckError::InvalidInput)
                        } else {
                            let regular: u64 = if h > STANDARD_WEEKLY_CENTIHOURS {
                                STANDARD_WEEKLY_CENTIHOURS
                            } else {
                                h
                            };
                            let overtime: u64 = if h > STANDARD_WEEKLY_CENTIHOURS {
                                h - STANDARD_WEEKLY_CENTIHOURS
                            } else {
                                0
                            };
                            proof {
                                lemma_mul_upper_bound(
                                    rate as int,
                                    MONEY_LIMIT_CENTS as int,
                                    regular as int,
                                    STANDARD_WEEKLY_CENTIHOURS as int,
                                );
                                lemma_mul_upper_bound(
                                    rate as int,
                                    MONEY_LIMIT_CENTS as int,
                                    overtime as int,
                                    MAX_WEEKLY_CENTIHOURS as int,
                                );
                            }
                            let num: u64 = 2 * (rate * regular) + 3 * (rate * overtime);
                            assert(num == weekly_gross_num(rate as int, h as int));
                            Ok(
                                match cadence {
                                    Cadence::Week => div_round_half_up(num, 200),
                                    Cadence::PayPeriod => div_round_half_up(num, 100),
                                    Cadence::Month => div_round_half_up(num * 13, 600),
                                    Cadence::Year => div_round_half_up(num * 13, 50),
                                },
                            )
                        }
                    },
                }
            },
        }
    }

    /// Gross pay per two-week pay period, in cents.
    pub fn income_per_pay_period(&self) -> (r: Result<u64, PaycheckError>)
        ensures
            match r {
                Ok(g) => gross_pay_spec(*self, Cadence::PayPeriod) == Ok::<
                    int,
                    PaycheckError,
                >(g as int),
                Err(e) => gross_pay_spec(*self, Cadence::PayPeriod) == Err::<
                    int,
                    PaycheckError,
                >(e),
            },
    {
        self.gross_pay(Cadence::PayPeriod)
    }

    /// Gross pay per month, in cents.
    pub fn income_per_month(&self) -> (r: Result<u64, PaycheckError>)
        ensures
            match r {
                Ok(g) => gross_pay_spec(*self, Cadence::Month) == Ok::<int, PaycheckError>(
                    g as int,
                ),
                Err(e) => gross_pay_spec(*self, Cadence::Month) == Err::<int, PaycheckError>(e),
            },
    {
        self.gross_pay(Cadence::Month)
    }

    /// Gross pay per year, in cents: the seed for the withholding engine.
    pub fn annualize(&self) -> (r: Result<u64, PaycheckError>)
        ensures
            match r {
                Ok(g) => gross_pay_spec(*self, Cadence::Year) == Ok::<int, PaycheckError>(g as int),
                Err(e) => gross_pay_spec(*self, Cadence::Year) == Err::<int, PaycheckError>(e),
            },
    {
        self.gross_pay(Cadence::Year)
    }
}

/// Law: with at most 40 hours in the week, no overtime applies — the weekly
/// gross of hourly pay is exactly hours times rate, rounded to cents half
/// away from zero (`rate * h` is in units of one hundredth of a cent).
pub proof fn lemma_weekly_gross_no_overtime(inc: Income, rate: u64, h: u64)
    requires
        inc.income_type == IncomeType::Hourly(rate),
        inc.hours_per_week == Some(h),
        rate <= MONEY_LIMIT_CENTS,
        h <= STANDARD_WEEKLY_CENTIHOURS,
    ensures
        gross_pay_spec(inc, Cadence::Week) == Ok::<int, PaycheckError>(
            round_half_up(rate as int * h as int, 100),
        ),
{
    let m = rate as int * h as int;
    vstd::arithmetic::mul::lemma_mul_nonnegative(rate as int, h as int);
    assert(weekly_gross_num(rate as int, h as int) == 2 * m);
    vstd::arithmetic::div_mod::lemma_div_denominator(4 * m + 200, 2, 200);
    assert((4 * m + 200) / 2 == 2 * m + 100);
    assert(round_half_up(2 * m, 200) == round_half_up(m, 100));
}

/// Law: beyond 40 hours in the week, the extra hours are paid at 1.5 times
/// the rate — the weekly gross is 40 hours at the rate plus the overtime
/// hours at the overtime rate, rounded once at the end (the numerator below
/// is 200 times the exact weekly gross in cents).
pub proof fn lemma_weekly_gross_overtime(inc: Income, rate: u64, h: u64)
    requires
        inc.income_type == IncomeType::Hourly(rate),
        inc.hours_per_week == Some(h),
        rate <= MONEY_LIMIT_CENTS,
        STANDARD_WEEKLY_CENTIHOURS < h <= MAX_WEEKLY_CENTIHOURS,
    ensures
        gross_pay_spec(inc, Cadence::Week) == Ok::<int, PaycheckError>(
            round_half_up(
                2 * (rate as int * STANDARD_WEEKLY_CENTIHOURS as int) + 3 * (rate as int * (h
                    - STANDARD_WEEKLY_CENTIHOURS)),
                200,
            ),
        ),
{
}

/// Law: at the Year cadence a salary is returned unchanged — the identity
/// holds exactly, with no rounding at all.
pub proof fn lemma_salary_annual_identity(inc: Income, annual: u64)
    requires
        inc.income_type == IncomeType::Salary(annual),
        annual <= MONEY_LIMIT_CENTS,
    ensures
        gross_pay_spec(inc, Cadence::Year) == Ok::<int, PaycheckError>(annual as int),
{
}

/// Law: the cadence factors are mutually consistent — fifty-two weekly,
/// twenty-six pay-period and twelve monthly grosses each reconstruct the
/// annual gross to within one cent per period, for any compensation the
/// engine accepts.
pub proof fn lemma_cadence_ratios(inc: Income, w: int, p: int, m: int, y: int)
    requires
        gross_pay_spec(inc, Cadence::Week) == Ok::<int, PaycheckError>(w),
        gross_pay_spec(inc, Cadence::PayPeriod) == Ok::<int, PaycheckError>(p),
        gross_pay_spec(inc, Cadence::Month) == Ok::<int, PaycheckError>(m),
        gross_pay_spec(inc, Cadence::Year) == Ok::<int, PaycheckError>(y),
    ensures
        y - 52 <= 52 * w <= y + 52,
        y - 26 <= 26 * p <= y + 26,
        y - 12 <= 12 * m <= y + 12,
{
    match inc.income_type {
        IncomeType::Salary(annual) => {
            let a = annual as int;
            crate::utils::lemma_round_half_up_bounds(a, 52);
            crate::utils::lemma_round_half_up_bounds(a, 26);
            crate::utils::lemma_round_half_up_bounds(a, 12);
            assert(2 * a - 52 < 104 * w <= 2 * a + 52);
            assert(2 * a - 26 < 52 * p <= 2 * a + 26);
            assert(2 * a - 12 < 24 * m <= 2 * a + 12);
        },
        IncomeType::Hourly(rate) => {
            let h = inc.hours_per_week->Some_0;
            let num = weekly_gross_num(rate as int, h as int);
            vstd::arithmetic::mul::lemma_mul_nonnegative(
                rate as int,
                regular_centihours(h as int),
            );
            vstd::arithmetic::mul::lemma_mul_nonnegative(
                rate as int,
                overtime_centihours(h as int),
            );
            crate::utils::lemma_round_half_up_bounds(num, 200);
            crate::utils::lemma_round_half_up_bounds(num, 100);
            crate::utils::lemma_round_half_up_bounds(num * 13, 600);
            crate::utils::lemma_round_half_up_bounds(num * 13, 50);
            assert(2 * num - 200 < 400 * w <= 2 * num + 200);
            assert(2 * num - 100 < 200 * p <= 2 * num + 100);
            assert(2 * (num * 13) - 600 < 1200 * m <= 2 * (num * 13) + 600);
            assert(2 * (num * 13) - 50 < 100 * y <= 2 * (num * 13) + 50);
            assert(52 * (400 * w) == 20800 * w);
            assert(26 * (200 * p) == 5200 * p);
            assert(2 * (num * 13) == 26 * num);
            assert(-10600 < 400 * (52 * w - y) < 10600);
            assert(-2700 < 200 * (26 * p - y) < 2700);
            assert(-650 < 100 * (12 * m - y) < 650);
        },
    }
}

} // verus!
