use paycheck::withholdings::{
    apply_tax_brackets, estimate_paycheck_federal_withholdings, standard_deduction, FilingStatus,
};
use paycheck::PaycheckError;

#[test]
fn standard_deductions_by_status() {
    assert_eq!(standard_deduction(FilingStatus::Single), 1_500_000);
    assert_eq!(standard_deduction(FilingStatus::HeadOfHousehold), 2_250_000);
    assert_eq!(standard_deduction(FilingStatus::MarriedFilingJointly), 3_000_000);
    assert_eq!(standard_deduction(FilingStatus::MarriedFilingSeparately), 1_500_000);
}

// Zero taxable income owes zero tax.
#[test]
fn brackets_at_zero() {
    assert_eq!(apply_tax_brackets(0), 0);
}

// Inside the first bracket the tax is a flat 10%.
#[test]
fn brackets_first_bracket() {
    assert_eq!(apply_tax_brackets(1_000_000), 100_000);
}

// An income exactly on a threshold uses the bracket starting there: the tax
// is exactly that bracket's cumulative base, and the cents just above it
// accrue at the upper bracket's rate (22%), not the lower one's (12%).
#[test]
fn brackets_threshold_uses_upper_bracket() {
    assert_eq!(apply_tax_brackets(4_847_500), 557_850);
    assert_eq!(apply_tax_brackets(4_847_600), 557_872);
    assert_eq!(apply_tax_brackets(4_847_400), 557_838);
}

// One cent below each boundary, the tax sits within one cent of the tax on
// the boundary: no jump discontinuities anywhere in the table.
#[test]
fn brackets_continuous_at_every_boundary() {
    let boundaries: [u64; 6] = [
        1_192_500,
        4_847_500,
        10_335_000,
        19_730_000,
        25_052_500,
        62_635_000,
    ];
    for t in boundaries {
        let below = apply_tax_brackets(t - 1);
        let at = apply_tax_brackets(t);
        assert!(below <= at);
        assert!(at - below <= 1);
    }
}

// Exact values at each cumulative base.
#[test]
fn brackets_cumulative_bases() {
    assert_eq!(apply_tax_brackets(1_192_500), 119_250);
    assert_eq!(apply_tax_brackets(10_335_000), 1_765_100);
    assert_eq!(apply_tax_brackets(19_730_000), 4_019_900);
    assert_eq!(apply_tax_brackets(25_052_500), 5_723_100);
    assert_eq!(apply_tax_brackets(62_635_000), 18_876_975);
}

// The top bracket prices its excess at 37%.
#[test]
fn brackets_top_bracket() {
    assert_eq!(apply_tax_brackets(62_635_000 + 1_000_000), 18_876_975 + 370_000);
}

// Spot-check that more income never means less tax.
#[test]
fn brackets_monotone_spot_checks() {
    let mut last: u64 = 0;
    let mut x: u64 = 0;
    while x <= 70_000_000 {
        let t = apply_tax_brackets(x);
        assert!(t >= last);
        last = t;
        x += 999_983;
    }
}

// A $2,000.00 paycheck, Single, no pre-tax deductions: $52,000.00 a year,
// $37,000.00 taxable after the standard deduction, $4,201.50 annual tax,
// $161.60 withheld per period.
#[test]
fn withholding_single_no_deductions() {
    assert_eq!(
        estimate_paycheck_federal_withholdings(200_000, FilingStatus::Single, 0),
        Ok(16_160)
    );
}

// Pre-tax deductions are annualized before the brackets: $100.00 per period
// shifts the taxable income down by $2,600.00.
#[test]
fn withholding_single_with_pretax_deductions() {
    assert_eq!(
        estimate_paycheck_federal_withholdings(200_000, FilingStatus::Single, 10_000),
        Ok(14_960)
    );
}

// Taxable income is floored at zero: a small paycheck owes nothing.
#[test]
fn withholding_taxable_income_floors_at_zero() {
    assert_eq!(
        estimate_paycheck_federal_withholdings(50_000, FilingStatus::Single, 0),
        Ok(0)
    );
}

// Only Single has a populated bracket table; the rest are refused, never
// silently served with Single's table.
#[test]
fn withholding_refuses_unsupported_statuses() {
    for status in [
        FilingStatus::HeadOfHousehold,
        FilingStatus::MarriedFilingJointly,
        FilingStatus::MarriedFilingSeparately,
    ] {
        assert_eq!(
            estimate_paycheck_federal_withholdings(200_000, status, 0),
            Err(PaycheckError::UnsupportedFilingStatus)
        );
    }
}

// Amounts beyond the engine's limit are invalid input, and that check comes
// before the filing-status check.
#[test]
fn withholding_refuses_oversized_amounts() {
    assert_eq!(
        estimate_paycheck_federal_withholdings(10_000_000_000_001, FilingStatus::Single, 0),
        Err(PaycheckError::InvalidInput)
    );
    assert_eq!(
        estimate_paycheck_federal_withholdings(200_000, FilingStatus::Single, 10_000_000_000_001),
        Err(PaycheckError::InvalidInput)
    );
    assert_eq!(
        estimate_paycheck_federal_withholdings(
            10_000_000_000_001,
            FilingStatus::MarriedFilingJointly,
            0
        ),
        Err(PaycheckError::InvalidInput)
    );
}
