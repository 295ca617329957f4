//! The employment scenario record: the compensation inputs together with the
//! monthly living expenses and the elected deductions, as gathered from the
//! caller. A pure data-transfer model; every amount is cents, every duration
//! centihours. An amount of `None` records a line item whose raw input had
//! no readable value.

use vstd::prelude::*;
use crate::income::{Income, IncomeType};
use crate::utils::{sum_cents, lemma_sum_cents_extend, lemma_sum_cents_prefix_le};

verus! {

/// The cents of an optional amount; a missing amount counts as zero.
pub open spec fn opt_cents(a: Option<u64>) -> int {
    match a {
        Some(v) => v as int,
        None => 0,
    }
}

/// The cents of an optional amount; a missing amount counts as zero.
pub fn opt_amount(a: Option<u64>) -> (r: u64)
    ensures
        r == opt_cents(a),
{
    match a {
        Some(v) => v,
        None => 0,
    }
}

/// One monthly living-expense line item, in cents.
#[derive(Clone, Copy, Debug)]
pub enum Expense {
    Housing(Option<u64>),
    Energy(Option<u64>),
    Water(Option<u64>),
    Gas(Option<u64>),
    Internet(Option<u64>),
    Phone(Option<u64>),
    Vehicle(Option<u64>),
    VehicleInsurance(Option<u64>),
    VehicleGas(Option<u64>),
    Groceries(Option<u64>),
}

/// The cents of an expense line item.
pub open spec fn expense_cents(e: Expense) -> int {
    match e {
        Expense::Housing(a) => opt_cents(a),
        Expense::Energy(a) => opt_cents(a),
        Expense::Water(a) => opt_cents(a),
        Expense::Gas(a) => opt_cents(a),
        Expense::Internet(a) => opt_cents(a),
        Expense::Phone(a) => opt_cents(a),
        Expense::Vehicle(a) => opt_cents(a),
        Expense::VehicleInsurance(a) => opt_cents(a),
        Expense::VehicleGas(a) => opt_cents(a),
        Expense::Groceries(a) => opt_cents(a),
    }
}

/// The cent amounts of a sequence of expense line items.
pub open spec fn expense_amounts(s: Seq<Expense>) -> Seq<int> {
    Seq::new(s.len(), |i: int| expense_cents(s[i]))
}

impl Expense {
    /// The cents of this line item; a missing amount counts as zero.
    pub fn amount(&self) -> (r: u64)
        ensures
            r == expense_cents(*self),
    {
        match self {
            Expense::Housing(a) => opt_amount(*a),
            Expense::Energy(a) => opt_amount(*a),
            Expense::Water(a) => opt_amount(*a),
            Expense::Gas(a) => opt_amount(*a),
            Expense::Internet(a) => opt_amount(*a),
            Expense::Phone(a) => opt_amount(*a),
            Expense::Vehicle(a) => opt_amount(*a),
            Expense::VehicleInsurance(a) => opt_amount(*a),
            Expense::VehicleGas(a) => opt_amount(*a),
            Expense::Groceries(a) => opt_amount(*a),
        }
    }
}

/// The monthly living expenses of a scenario.
#[derive(Clone, Debug)]
pub struct Expenses {
    pub items: Vec<Expense>,
}

impl Expenses {
    /// Wraps the given line items.
    pub fn new(items: Vec<Expense>) -> (r: Expenses)
        ensures
            r.items@ == items@,
    {
        Expenses { items }
    }

    /// The total of all line items, in cents, or `None` if the sum exceeds
    /// what a machine word can hold.
    pub fn total(&self) -> (r: Option<u64>)
        ensures
            match r {
                Some(t) => t == sum_cents(expense_amounts(self.items@)),
                None => sum_cents(expense_amounts(self.items@)) > u64::MAX,
            },
    {
        let ghost amts = expense_amounts(self.items@);
        let mut acc: u64 = 0;
        let mut idx: usize = 0;
        while idx < self.items.len()
            invariant
                idx <= self.items.len(),
                amts == expense_amounts(self.items@),
                amts.len() == self.items@.len(),
                acc == sum_cents(amts.take(idx as int)),
            decreases self.items.len() - idx,
        {
            let a = self.items[idx].amount();
            proof {
                lemma_sum_cents_extend(amts, idx as int);
            }
            if acc > u64::MAX - a {
                proof {
                    lemma_sum_cents_prefix_le(amts, idx as int + 1);
                }
                return None;
            }
            acc = acc + a;
            idx = idx + 1;
        }
        proof {
            assert(amts.take(idx as int) =~= amts);
        }
        Some(acc)
    }
}

/// One elected pre-tax deduction per pay period, in cents: subtracted from
/// the paycheck before withholding is estimated.
#[derive(Clone, Copy, Debug)]
pub enum PreTaxDeduction {
    Medical(Option<u64>),
    Dental(Option<u64>),
    Vision(Option<u64>),
    Traditional401K(Option<u64>),
    HSA(Option<u64>),
    FSA(Option<u64>),
}

/// The cents of a pre-tax deduction line item.
pub open spec fn pretax_cents(d: PreTaxDeduction) -> int {
    match d {
        PreTaxDeduction::Medical(a) => opt_cents(a),
        PreTaxDeduction::Dental(a) => opt_cents(a),
        PreTaxDeduction::Vision(a) => opt_cents(a),
        PreTaxDeduction::Traditional401K(a) => opt_cents(a),
        PreTaxDeduction::HSA(a) => opt_cents(a),
        PreTaxDeduction::FSA(a) => opt_cents(a),
    }
}

/// The cent amounts of a sequence of pre-tax deductions.
pub open spec fn pretax_amounts(s: Seq<PreTaxDeduction>) -> Seq<int> {
    Seq::new(s.len(), |i: int| pretax_cents(s[i]))
}

impl PreTaxDeduction {
    /// The cents of this line item; a missing amount counts as zero.
    pub fn amount(&self) -> (r: u64)
        ensures
            r == pretax_cents(*self),
    {
        match self {
            PreTaxDeduction::Medical(a) => opt_amount(*a),
            PreTaxDeduction::Dental(a) => opt_amount(*a),
            PreTaxDeduction::Vision(a) => opt_amount(*a),
            PreTaxDeduction::Traditional401K(a) => opt_amount(*a),
            PreTaxDeduction::HSA(a) => opt_amount(*a),
            PreTaxDeduction::FSA(a) => opt_amount(*a),
        }
    }
}

/// The elected pre-tax deductions of a scenario.
#[derive(Clone, Debug)]
pub struct PreTaxDeductions {
    pub items: Vec<PreTaxDeduction>,
}

impl PreTaxDeductions {
    /// Wraps the given line items.
    pub fn new(items: Vec<PreTaxDeduction>) -> (r: PreTaxDeductions)
        ensures
            r.items@ == items@,
    {
        PreTaxDeductions { items }
    }

    /// The total of all line items, in cents, or `None` if the sum exceeds
    /// what a machine word can hold. The total is what the withholding
    /// engine takes as the elected pre-tax deduction per pay period.
    pub fn total(&self) -> (r: Option<u64>)
        ensures
            match r {
                Some(t) => t == sum_cents(pretax_amounts(self.items@)),
                None => sum_cents(pretax_amounts(self.items@)) > u64::MAX,
            },
    {
        let ghost amts = pretax_amounts(self.items@);
        let mut acc: u64 = 0;
        let mut idx: usize = 0;
        while idx < self.items.len()
            invariant
                idx <= self.items.len(),
                amts == pretax_amounts(self.items@),
                amts.len() == self.items@.len(),
                acc == sum_cents(amts.take(idx as int)),
            decreases self.items.len() - idx,
        {
            let a = self.items[idx].amount();
            proof {
                lemma_sum_cents_extend(amts, idx as int);
            }
            if acc > u64::MAX - a {
                proof {
                    lemma_sum_cents_prefix_le(amts, idx as int + 1);
                }
                return None;
            }
            acc = acc + a;
            idx = idx + 1;
        }
        proof {
            assert(amts.take(idx as int) =~= amts);
        }
        Some(acc)
    }
}

/// One elected post-tax deduction per pay period, in cents: subtracted from
/// the paycheck after withholding.
#[derive(Clone, Copy, Debug)]
pub enum PostTaxDeduction {
    Roth401K(Option<u64>),
    VoluntaryLife(Option<u64>),
    VoluntaryADD(Option<u64>),
    VoluntarySTD(Option<u64>),
    VoluntaryLTD(Option<u64>),
    WageGarnishment(Option<u64>),
}

/// The cents of a post-tax deduction line item.
pub open spec fn posttax_cents(d: PostTaxDeduction) -> int {
    match d {
        PostTaxDeduction::Roth401K(a) => opt_cents(a),
        PostTaxDeduction::VoluntaryLife(a) => opt_cents(a),
        PostTaxDeduction::VoluntaryADD(a) => opt_cents(a),
        PostTaxDeduction::VoluntarySTD(a) => opt_cents(a),
        PostTaxDeduction::VoluntaryLTD(a) => opt_cents(a),
        PostTaxDeduction::WageGarnishment(a) => opt_cents(a),
    }
}

/// The cent amounts of a sequence of post-tax deductions.
pub open spec fn posttax_amounts(s: Seq<PostTaxDeduction>) -> Seq<int> {
    Seq::new(s.len(), |i: int| posttax_cents(s[i]))
}

impl PostTaxDeduction {
    /// The cents of this line item; a missing amount counts as zero.
    pub fn amount(&self) -> (r: u64)
        ensures
            r == posttax_cents(*self),
    {
        match self {
            PostTaxDeduction::Roth401K(a) => opt_amount(*a),
            PostTaxDeduction::VoluntaryLife(a) => opt_amount(*a),
            PostTaxDeduction::VoluntaryADD(a) => opt_amount(*a),
            PostTaxDeduction::VoluntarySTD(a) => opt_amount(*a),
            PostTaxDeduction::VoluntaryLTD(a) => opt_amount(*a),
            PostTaxDeduction::WageGarnishment(a) => opt_amount(*a),
        }
    }
}

/// The elected post-tax deductions of a scenario.
#[derive(Clone, Debug)]
pub struct PostTaxDeductions {
    pub items: Vec<PostTaxDeduction>,
}

impl PostTaxDeductions {
    /// Wraps the given line items.
    pub fn new(items: Vec<PostTaxDeduction>) -> (r: PostTaxDeductions)
        ensures
            r.items@ == items@,
    {
        PostTaxDeductions { items }
    }

    /// The total of all line items, in cents, or `None` if the sum exceeds
    /// what a machine word can hold.
    pub fn total(&self) -> (r: Option<u64>)
        ensures
            match r {
                Some(t) => t == sum_cents(posttax_amounts(self.items@)),
                None => sum_cents(posttax_amounts(self.items@)) > u64::MAX,
            },
    {
        let ghost amts = posttax_amounts(self.items@);
        let mut acc: u64 = 0;
        let mut idx: usize = 0;
        while idx < self.items.len()
            invariant
                idx <= self.items.len(),
                amts == posttax_amounts(self.items@),
                amts.len() == self.items@.len(),
                acc == sum_cents(amts.take(idx as int)),
            decreases self.items.len() - idx,
        {
            let a = self.items[idx].amount();
            proof {
                lemma_sum_cents_extend(amts, idx as int);
            }
            if acc > u64::MAX - a {
                proof {
                    lemma_sum_cents_prefix_le(amts, idx as int + 1);
                }
                return None;
            }
            acc = acc + a;
            idx = idx + 1;
        }
        proof {
            assert(amts.take(idx as int) =~= amts);
        }
        Some(acc)
    }
}

/// Everything gathered about one employment scenario: an hourly rate and
/// weekly hours, the monthly living expenses, and the elected deductions.
#[derive(Clone, Debug)]
pub struct EmploymentScenario {
    /// Hourly rate, in cents per hour.
    pub hourly_rate: u64,
    /// Hours worked per standard week, in centihours.
    pub hours_per_week: u64,
    pub expenses: Expenses,
    pub pretax_deductions: PreTaxDeductions,
    pub posttax_deductions: PostTaxDeductions,
}

impl Default for EmploymentScenario {
    /// An empty scenario: zero rate, zero hours, no line items.
    fn default() -> (r: EmploymentScenario)
        ensures
            r.hourly_rate == 0,
            r.hours_per_week == 0,
            r.expenses.items@.len() == 0,
            r.pretax_deductions.items@.len() == 0,
            r.posttax_deductions.items@.len() == 0,
    {
        EmploymentScenario {
            hourly_rate: 0,
            hours_per_week: 0,
            expenses: Expenses { items: Vec::new() },
            pretax_deductions: PreTaxDeductions { items: Vec::new() },
            posttax_deductions: PostTaxDeductions { items: Vec::new() },
        }
    }
}

impl EmploymentScenario {
    /// The compensation record of this scenario, ready for the income
    /// engine: hourly pay at the scenario's rate and weekly hours.
    pub fn income(&self) -> (r: Income)
        ensures
            r.income_type == IncomeType::Hourly(self.hourly_rate),
            r.hours_per_week == Some(self.hours_per_week),
    {
        Income { income_type: IncomeType::Hourly(self.hourly_rate), hours_per_week: Some(
            self.hours_per_week,
        ) }
    }
}

} // verus!
