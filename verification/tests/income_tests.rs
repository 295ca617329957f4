use paycheck::income::{Cadence, Income, IncomeType};
use paycheck::PaycheckError;

// A salary of $52,000.00 pays $2,000.00 per two-week pay period.
#[test]
fn test_income_per_pay_period_salary() {
    let income = Income {
        income_type: IncomeType::Salary(5_200_000),
        hours_per_week: None,
    };
    assert_eq!(income.income_per_pay_period(), Ok(200_000));
}

// $20.00/h at 40 h/week: $1,600.00 per pay period, no overtime.
#[test]
fn test_income_per_pay_period_hourly_no_overtime() {
    let income = Income {
        income_type: IncomeType::Hourly(2_000),
        hours_per_week: Some(4_000),
    };
    assert_eq!(income.income_per_pay_period(), Ok(160_000));
}

// $20.00/h at 45 h/week: the 5 overtime hours pay 1.5x, $1,900.00 per period.
#[test]
fn test_income_per_pay_period_hourly_with_overtime() {
    let income = Income {
        income_type: IncomeType::Hourly(2_000),
        hours_per_week: Some(4_500),
    };
    assert_eq!(income.income_per_pay_period(), Ok(190_000));
}

// rate $20.00, 45 h/week: weekly gross 20*40 + 5*20*1.5 = $950.00, and
// $1,900.00 at the two-week pay period.
#[test]
fn overtime_scenario_weekly_and_pay_period() {
    let income = Income {
        income_type: IncomeType::Hourly(2_000),
        hours_per_week: Some(4_500),
    };
    assert_eq!(income.gross_pay(Cadence::Week), Ok(95_000));
    assert_eq!(income.gross_pay(Cadence::PayPeriod), Ok(190_000));
}

// rate $15.00, 35 h/week: $525.00, no overtime.
#[test]
fn no_overtime_scenario_weekly() {
    let income = Income {
        income_type: IncomeType::Hourly(1_500),
        hours_per_week: Some(3_500),
    };
    assert_eq!(income.gross_pay(Cadence::Week), Ok(52_500));
}

// Salary $52,000.00: $1,000.00 per week and $4,333.33 per month.
#[test]
fn salary_scenario_week_and_month() {
    let income = Income {
        income_type: IncomeType::Salary(5_200_000),
        hours_per_week: None,
    };
    assert_eq!(income.gross_pay(Cadence::Week), Ok(100_000));
    assert_eq!(income.gross_pay(Cadence::Month), Ok(433_333));
}

// A salary at the Year cadence comes back unchanged.
#[test]
fn salary_annual_identity() {
    let income = Income {
        income_type: IncomeType::Salary(5_200_000),
        hours_per_week: None,
    };
    assert_eq!(income.annualize(), Ok(5_200_000));
    assert_eq!(income.gross_pay(Cadence::Year), Ok(5_200_000));
}

#[test]
fn income_per_month_hourly() {
    // $20.00/h at 40 h/week: $800.00 weekly, $41,600.00 yearly,
    // $3,466.67 monthly after rounding.
    let income = Income {
        income_type: IncomeType::Hourly(2_000),
        hours_per_week: Some(4_000),
    };
    assert_eq!(income.income_per_month(), Ok(346_667));
}

// Twelve months and twenty-six pay periods reconstruct the annual gross to
// within one cent per period, on a salary that divides unevenly.
#[test]
fn cadence_ratios_hold_within_rounding() {
    let income = Income {
        income_type: IncomeType::Salary(5_000_001),
        hours_per_week: None,
    };
    let year = income.gross_pay(Cadence::Year).unwrap() as i64;
    let month = income.gross_pay(Cadence::Month).unwrap() as i64;
    let period = income.gross_pay(Cadence::PayPeriod).unwrap() as i64;
    assert!((12 * month - year).abs() <= 12);
    assert!((26 * period - year).abs() <= 26);
}

// Hourly pay with no hours on record is a caller contract violation.
#[test]
fn hourly_without_hours_is_invalid() {
    let income = Income {
        income_type: IncomeType::Hourly(2_000),
        hours_per_week: None,
    };
    assert_eq!(income.gross_pay(Cadence::Week), Err(PaycheckError::InvalidInput));
    assert_eq!(income.income_per_pay_period(), Err(PaycheckError::InvalidInput));
}

// Amounts beyond the engine's limits are refused, not clamped.
#[test]
fn out_of_domain_amounts_are_invalid() {
    let huge_rate = Income {
        income_type: IncomeType::Hourly(10_000_000_000_001),
        hours_per_week: Some(4_000),
    };
    assert_eq!(huge_rate.gross_pay(Cadence::Week), Err(PaycheckError::InvalidInput));
    let impossible_week = Income {
        income_type: IncomeType::Hourly(2_000),
        hours_per_week: Some(16_801),
    };
    assert_eq!(impossible_week.gross_pay(Cadence::Week), Err(PaycheckError::InvalidInput));
    let huge_salary = Income {
        income_type: IncomeType::Salary(10_000_000_000_001),
        hours_per_week: None,
    };
    assert_eq!(huge_salary.gross_pay(Cadence::Year), Err(PaycheckError::InvalidInput));
}

// Zero hours and zero rates are ordinary inputs, not errors.
#[test]
fn zero_inputs_are_ordinary() {
    let idle = Income {
        income_type: IncomeType::Hourly(2_000),
        hours_per_week: Some(0),
    };
    assert_eq!(idle.gross_pay(Cadence::Week), Ok(0));
    let unpaid = Income {
        income_type: IncomeType::Hourly(0),
        hours_per_week: Some(4_500),
    };
    assert_eq!(unpaid.gross_pay(Cadence::Year), Ok(0));
}

// An exact half-cent rounds away from zero: 0.01 h at $1.50/h earns
// 1.5 cents, which rounds to 2.
#[test]
fn weekly_rounding_is_half_away_from_zero() {
    let income = Income {
        income_type: IncomeType::Hourly(150),
        hours_per_week: Some(1),
    };
    assert_eq!(income.gross_pay(Cadence::Week), Ok(2));
}
