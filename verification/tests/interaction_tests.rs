use paycheck::interaction::{
    convert_inputs_to_struct, parse_hundredths, DeductionInputs, ExpenseInputs, ScenarioInputs,
};
use paycheck::income::Cadence;
use paycheck::scenario::EmploymentScenario;
use paycheck::utils::{div_round_half_up, round_2_decimals};

#[test]
fn parse_whole_numerals() {
    assert_eq!(parse_hundredths("25"), Some(2_500));
    assert_eq!(parse_hundredths("0"), Some(0));
    assert_eq!(parse_hundredths("007"), Some(700));
}

#[test]
fn parse_fractional_numerals() {
    assert_eq!(parse_hundredths("25.5"), Some(2_550));
    assert_eq!(parse_hundredths("25.00"), Some(2_500));
    assert_eq!(parse_hundredths("123.45"), Some(12_345));
    assert_eq!(parse_hundredths("00.01"), Some(1));
    assert_eq!(parse_hundredths("0.5"), Some(50));
}

#[test]
fn parse_rejects_malformed_text() {
    assert_eq!(parse_hundredths(""), None);
    assert_eq!(parse_hundredths("."), None);
    assert_eq!(parse_hundredths(".5"), None);
    assert_eq!(parse_hundredths("25."), None);
    assert_eq!(parse_hundredths("2.555"), None);
    assert_eq!(parse_hundredths("abc"), None);
    assert_eq!(parse_hundredths("12a"), None);
    assert_eq!(parse_hundredths("1 2"), None);
    assert_eq!(parse_hundredths("-5"), None);
    assert_eq!(parse_hundredths("1.2.3"), None);
    assert_eq!(parse_hundredths("1..2"), None);
}

// The engine's money limit is $100,000,000,000.00: values at the limit
// parse, values beyond it do not.
#[test]
fn parse_applies_money_limit() {
    assert_eq!(parse_hundredths("100000000000"), Some(10_000_000_000_000));
    assert_eq!(parse_hundredths("100000000001"), None);
    assert_eq!(parse_hundredths("100000000000.01"), None);
    assert_eq!(parse_hundredths("99999999999999999999"), None);
}

#[test]
fn rounding_helpers() {
    // 12,345.50 hundredths of a cent round up to 12,346 cents;
    // 12,345.49 round down.
    assert_eq!(round_2_decimals(1_234_550), 12_346);
    assert_eq!(round_2_decimals(1_234_549), 12_345);
    assert_eq!(round_2_decimals(0), 0);
    assert_eq!(div_round_half_up(7, 2), 4);
    assert_eq!(div_round_half_up(5, 2), 3);
    assert_eq!(div_round_half_up(1, 3), 0);
    assert_eq!(div_round_half_up(2, 3), 1);
}

fn sample_inputs() -> (ScenarioInputs, ExpenseInputs, DeductionInputs) {
    let sc = ScenarioInputs {
        rate: String::from("25.50"),
        hours: String::from("40"),
    };
    let ex = ExpenseInputs {
        housing: String::from("1200"),
        energy: String::from("80.25"),
        water: String::from("30"),
        gas: String::from("45"),
        internet: String::from("60"),
        phone: String::from("50"),
        car_payment: String::from("300"),
        car_insurance: String::from("120"),
        car_gas: String::from("150"),
        groceries: String::from("not sure"),
    };
    let de = DeductionInputs {
        medical: String::from("55.75"),
        dental: String::from("10"),
        vision: String::from("5"),
        traditional_401k: String::from("100"),
        hsa: String::from("0"),
        fsa: String::from("0"),
        roth_401k: String::from("50"),
        voluntary_life: String::from("7.50"),
        voluntary_add: String::from("2"),
        voluntary_std: String::from("3"),
        voluntary_ltd: String::from("4"),
        wage_garnishment: String::from("x"),
    };
    (sc, ex, de)
}

// The scenario record carries each parsed field: readable text becomes
// cents (or centihours), unreadable text becomes zero for the required
// fields and stays empty for line items.
#[test]
fn convert_inputs_builds_the_scenario() {
    let (sc, ex, de) = sample_inputs();
    let scene = convert_inputs_to_struct(&sc, &ex, &de);
    assert_eq!(scene.hourly_rate, 2_550);
    assert_eq!(scene.hours_per_week, 4_000);
    assert_eq!(scene.expenses.items.len(), 10);
    assert_eq!(scene.expenses.items[0].amount(), 120_000);
    assert_eq!(scene.expenses.items[1].amount(), 8_025);
    // "not sure" has no value, so the groceries line item counts as zero.
    assert_eq!(scene.expenses.items[9].amount(), 0);
    assert_eq!(scene.pretax_deductions.items.len(), 6);
    assert_eq!(scene.pretax_deductions.items[0].amount(), 5_575);
    assert_eq!(scene.posttax_deductions.items.len(), 6);
    assert_eq!(scene.posttax_deductions.items[1].amount(), 750);
}

// Totals sum the line items; the unreadable garnishment line counts zero.
#[test]
fn totals_sum_line_items() {
    let (sc, ex, de) = sample_inputs();
    let scene = convert_inputs_to_struct(&sc, &ex, &de);
    assert_eq!(scene.expenses.total(), Some(203_525));
    assert_eq!(scene.pretax_deductions.total(), Some(17_075));
    assert_eq!(scene.posttax_deductions.total(), Some(6_650));
}

// The converted scenario feeds the income engine directly.
#[test]
fn converted_scenario_prices_a_week() {
    let (sc, ex, de) = sample_inputs();
    let scene = convert_inputs_to_struct(&sc, &ex, &de);
    let income = scene.income();
    // $25.50/h at 40 h/week.
    assert_eq!(income.gross_pay(Cadence::Week), Ok(102_000));
}

#[test]
fn default_scenario_is_empty() {
    let scene = EmploymentScenario::default();
    assert_eq!(scene.hourly_rate, 0);
    assert_eq!(scene.hours_per_week, 0);
    assert_eq!(scene.expenses.items.len(), 0);
    assert_eq!(scene.pretax_deductions.items.len(), 0);
    assert_eq!(scene.posttax_deductions.items.len(), 0);
}
