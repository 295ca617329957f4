//! Turning raw caller input into an employment scenario.
//!
//! The interactive front end hands the engine nothing but the raw text it
//! gathered, one string per field. This module gives that text its meaning:
//! a decimal numeral — one or more digits, optionally a point and one or two
//! digits ("25", "25.5", "25.00") — is worth its value in hundredths
//! (cents of a dollar amount, centihours of an hour count), and any other
//! text is worth nothing.

use vstd::prelude::*;
use vstd::string::StrSliceExecFns;
use crate::scenario::{
    EmploymentScenario, Expense, Expenses, PreTaxDeduction, PreTaxDeductions, PostTaxDeduction,
    PostTaxDeductions,
};
use crate::utils::MONEY_LIMIT_CENTS;

verus! {

/// A decimal digit `'0'..='9'` (code points 48 through 57).
pub open spec fn is_dec_digit(c: char) -> bool {
    48 <= c as u32 && c as u32 <= 57
}

/// The numeric value of a decimal digit.
pub open spec fn digit_val(c: char) -> int {
    c as u32 - 48
}

/// Every character of `s` is a decimal digit.
pub open spec fn all_dec_digits(s: Seq<char>) -> bool {
    forall|i: int| 0 <= i < s.len() ==> is_dec_digit(#[trigger] s[i])
}

/// The number written by a run of decimal digits, most significant first.
pub open spec fn digits_val(s: Seq<char>) -> int
    decreases s.len(),
{
    if s.len() == 0 {
        0
    } else {
        digits_val(s.drop_last()) * 10 + digit_val(s.last())
    }
}

/// A run of digits is worth a non-negative number.
proof fn lemma_digits_val_nonneg(s: Seq<char>)
    requires
        all_dec_digits(s),
    ensures
        digits_val(s) >= 0,
    decreases s.len(),
{
    if s.len() > 0 {
        assert(all_dec_digits(s.drop_last()));
        lemma_digits_val_nonneg(s.drop_last());
    }
}

/// Reading one more digit multiplies the value so far by ten and adds the
/// digit.
proof fn lemma_digits_val_extend(s: Seq<char>, i: int)
    requires
        0 <= i < s.len(),
    ensures
        digits_val(s.take(i + 1)) == digits_val(s.take(i)) * 10 + digit_val(s[i]),
{
    assert(s.take(i + 1).drop_last() =~= s.take(i));
}

/// A prefix of a digit run is worth no more than the whole run.
proof fn lemma_digits_val_prefix_le(s: Seq<char>, i: int)
    requires
        0 <= i <= s.len(),
        all_dec_digits(s),
    ensures
        digits_val(s.take(i)) <= digits_val(s),
    decreases s.len() - i,
{
    if i == s.len() {
        assert(s.take(i) =~= s);
    } else {
        lemma_digits_val_extend(s, i);
        assert(all_dec_digits(s.take(i)));
        lemma_digits_val_nonneg(s.take(i));
        lemma_digits_val_prefix_le(s, i + 1);
    }
}

/// With a sound shape — a whole part of digits, then either nothing or a
/// point with one or two digit characters — the numeral's value is fixed by
/// the position of the point.
proof fn lemma_numeral_cases(s: Seq<char>, dot_pos: int)
    requires
        0 < dot_pos <= s.len(),
        dot_pos < s.len() ==> s[dot_pos] == '.',
        forall|k: int| 0 <= k < dot_pos ==> s[k] != '.',
        all_dec_digits(s.take(dot_pos)),
        dot_pos < s.len() ==> (s.len() - dot_pos - 1 == 1 || s.len() - dot_pos - 1 == 2),
        dot_pos < s.len() ==> is_dec_digit(s[dot_pos + 1]),
        dot_pos + 2 < s.len() ==> is_dec_digit(s[dot_pos + 2]),
    ensures
        dot_pos == s.len() ==> numeral_hundredths(s) == Some(digits_val(s.take(dot_pos)) * 100),
        dot_pos == s.len() - 2 ==> numeral_hundredths(s) == Some(
            digits_val(s.take(dot_pos)) * 100 + digit_val(s[s.len() - 1]) * 10,
        ),
        dot_pos == s.len() - 3 ==> numeral_hundredths(s) == Some(
            digits_val(s.take(dot_pos)) * 100 + digit_val(s[s.len() - 2]) * 10 + digit_val(
                s[s.len() - 1],
            ),
        ),
{
    assert(('.' as u32) == 46);
    if dot_pos == s.len() {
        assert(s.take(dot_pos) =~= s);
    } else {
        assert(!is_dec_digit(s[dot_pos]));
        if dot_pos != s.len() - 2 {
            // Two fraction digits: the digit just after the point rules the
            // one-fraction-digit shape out.
            assert(dot_pos == s.len() - 3);
            assert(s[s.len() - 2] != '.');
        }
    }
}

/// The value, in hundredths, written by a decimal numeral: one or more
/// digits, optionally followed by a point and one or two fraction digits.
/// Any other shape has no value.
pub open spec fn numeral_hundredths(s: Seq<char>) -> Option<int> {
    if s.len() >= 1 && all_dec_digits(s) {
        Some(digits_val(s) * 100)
    } else if s.len() >= 3 && s[s.len() - 2] == '.' && all_dec_digits(s.take(s.len() - 2))
        && is_dec_digit(s[s.len() - 1]) {
        Some(digits_val(s.take(s.len() - 2)) * 100 + digit_val(s[s.len() - 1]) * 10)
    } else if s.len() >= 4 && s[s.len() - 3] == '.' && all_dec_digits(s.take(s.len() - 3))
        && is_dec_digit(s[s.len() - 2]) && is_dec_digit(s[s.len() - 1]) {
        Some(
            digits_val(s.take(s.len() - 3)) * 100 + digit_val(s[s.len() - 2]) * 10 + digit_val(
                s[s.len() - 1],
            ),
        )
    } else {
        None
    }
}

/// What `parse_hundredths` returns: the numeral's value when the text is
/// well formed and the value is within the engine's money limit, nothing
/// otherwise.
pub open spec fn parsed_hundredths(s: Seq<char>) -> Option<int> {
    match numeral_hundredths(s) {
        Some(v) => if v <= MONEY_LIMIT_CENTS {
            Some(v)
        } else {
            None
        },
        None => None,
    }
}

/// Parses a decimal numeral into hundredths. Returns `None` for text that
/// is not a numeral — an empty string, a stray character, a missing whole
/// part, three or more fraction digits — and for values beyond the engine's
/// money limit.
#[verifier::loop_isolation(false)]
pub fn parse_hundredths(s: &str) -> (r: Option<u64>)
    ensures
        match r {
            Some(v) => parsed_hundredths(s@) == Some(v as int),
            None => parsed_hundredths(s@) is None,
        },
{
    let len = s.unicode_len();
    // Locate the first '.', if any; `dot_pos == len` means there is none.
    let mut dot_pos: usize = len;
    let mut j: usize = 0;
    while j < len
        invariant
            len == s@.len(),
            j <= len,
            dot_pos <= len,
            dot_pos == len ==> forall|k: int| 0 <= k < j ==> s@[k] != '.',
            dot_pos < len ==> s@[dot_pos as int] == '.' && (forall|k: int|
                0 <= k < dot_pos ==> s@[k] != '.'),
        decreases len - j,
    {
        if dot_pos == len && s.get_char(j) == '.' {
            dot_pos = j;
        }
        j = j + 1;
    }
    let whole_len = dot_pos;  // == len when there is no point
    let frac_len = if dot_pos == len {
        0
    } else {
        len - dot_pos - 1
    };
    if whole_len == 0 {
        // No whole part: either the string is empty or it starts with '.'.
        proof {
            if len >= 3 && s@[len - 2] == '.' {
                assert(s@.take(len - 2)[0] == s@[0]);
            }
            if len >= 4 && s@[len - 3] == '.' {
                assert(s@.take(len - 3)[0] == s@[0]);
            }
        }
        return None;
    }
    if dot_pos < len && (frac_len == 0 || frac_len > 2) {
        // A point with no digit after it, or with more than two.
        proof {
            assert(!is_dec_digit(s@[dot_pos as int]));
            if frac_len == 0 {
                assert(!is_dec_digit(s@[len - 1]));
            } else {
                // More than two fraction digits: the point sits before
                // position len - 3, so it lands inside either whole part.
                if len >= 3 && s@[len - 2] == '.' {
                    assert(s@.take(len - 2)[dot_pos as int] == s@[dot_pos as int]);
                }
                if len >= 4 && s@[len - 3] == '.' {
                    assert(s@.take(len - 3)[dot_pos as int] == s@[dot_pos as int]);
                }
            }
        }
        return None;
    }
    // Check that the whole part is all digits.
    let mut i: usize = 0;
    while i < whole_len
        invariant
            len == s@.len(),
            whole_len <= len,
            whole_len == dot_pos,
            dot_pos <= len,
            dot_pos == len ==> forall|k: int| 0 <= k < len ==> s@[k] != '.',
            dot_pos < len ==> s@[dot_pos as int] == '.' && (forall|k: int|
                0 <= k < dot_pos ==> s@[k] != '.'),
            i <= whole_len,
            forall|k: int| 0 <= k < i ==> is_dec_digit(#[trigger] s@[k]),
        decreases whole_len - i,
    {
        let c = s.get_char(i);
        let cv = c as u32;
        if cv < 48 || cv > 57 {
            // A stray character in the whole part defeats every shape: the
            // failing position lies inside each candidate whole part.
            proof {
                assert(!is_dec_digit(s@[i as int]));
                if len >= 3 && s@[len - 2] == '.' {
                    assert(dot_pos <= len - 2);
                    assert(s@.take(len - 2)[i as int] == s@[i as int]);
                }
                if len >= 4 && s@[len - 3] == '.' {
                    assert(dot_pos <= len - 3);
                    assert(s@.take(len - 3)[i as int] == s@[i as int]);
                }
            }
            return None;
        }
        i = i + 1;
    }
    // Check the fraction digits, if any.
    if dot_pos < len {
        let d1 = s.get_char(dot_pos + 1);
        if (d1 as u32) < 48 || (d1 as u32) > 57 {
            proof {
                assert(('.' as u32) == 46);
                assert(!is_dec_digit(s@[dot_pos + 1]));
                assert(!is_dec_digit(s@[dot_pos as int]));
                if frac_len == 1 {
                    assert(dot_pos + 1 == len - 1);
                    if len >= 4 {
                        assert(s@[len - 3] != '.');
                    }
                } else {
                    assert(dot_pos + 1 == len - 2);
                    if s@[len - 2] == '.' {
                        assert(s@.take(len - 2)[dot_pos as int] == s@[dot_pos as int]);
                    }
                }
            }
            return None;
        }
        if frac_len == 2 {
            let d2 = s.get_char(dot_pos + 2);
            if (d2 as u32) < 48 || (d2 as u32) > 57 {
                proof {
                    assert(('.' as u32) == 46);
                    assert(!is_dec_digit(s@[dot_pos + 2]));
                    assert(!is_dec_digit(s@[dot_pos as int]));
                    assert(dot_pos + 2 == len - 1);
                    assert(s@[len - 2] != '.');
                }
                return None;
            }
        }
    }
    // The shape is good; read the whole part, giving up once the value can
    // no longer come in under the money limit.
    let ghost whole = s@.take(whole_len as int);
    proof {
        assert(whole.len() == whole_len);
        assert(all_dec_digits(whole));
    }
    let mut acc: u64 = 0;
    let mut w: usize = 0;
    while w < whole_len
        invariant
            len == s@.len(),
            whole_len <= len,
            whole == s@.take(whole_len as int),
            whole.len() == whole_len,
            all_dec_digits(whole),
            forall|k: int| 0 <= k < whole_len ==> is_dec_digit(#[trigger] s@[k]),
            w <= whole_len,
            acc == digits_val(whole.take(w as int)),
            acc <= MONEY_LIMIT_CENTS,
        decreases whole_len - w,
    {
        let c = s.get_char(w);
        let d = (c as u32 - 48) as u64;
        proof {
            assert(whole[w as int] == s@[w as int]);
            lemma_digits_val_extend(whole, w as int);
        }
        let next = acc * 10 + d;
        if next > MONEY_LIMIT_CENTS {
            // Whatever fraction follows, the value is already past the
            // limit: the whole part alone exceeds it.
            proof {
                lemma_digits_val_prefix_le(whole, w as int + 1);
                lemma_digits_val_nonneg(whole);
                assert(digits_val(whole) >= next);
                lemma_numeral_cases(s@, dot_pos as int);
                if dot_pos < len {
                    assert(digit_val(s@[len - 1]) >= 0);
                    if frac_len == 2 {
                        assert(digit_val(s@[len - 2]) >= 0);
                    }
                }
                assert(digits_val(whole) * 100 >= digits_val(whole));
            }
            return None;
        }
        acc = next;
        w = w + 1;
    }
    proof {
        assert(whole.take(whole_len as int) =~= whole);
        lemma_numeral_cases(s@, dot_pos as int);
    }
    // Attach the fraction and apply the limit.
    let value: u64 = if dot_pos == len {
        acc * 100
    } else if frac_len == 1 {
        let d1 = s.get_char(dot_pos + 1);
        proof {
            assert(dot_pos + 1 == len - 1);
        }
        acc * 100 + ((d1 as u32 - 48) as u64) * 10
    } else {
        let d1 = s.get_char(dot_pos + 1);
        let d2 = s.get_char(dot_pos + 2);
        proof {
            assert(dot_pos + 1 == len - 2);
            assert(dot_pos + 2 == len - 1);
        }
        acc * 100 + ((d1 as u32 - 48) as u64) * 10 + ((d2 as u32 - 48) as u64)
    };
    proof {
        assert(numeral_hundredths(s@) == Some(value as int));
    }
    if value > MONEY_LIMIT_CENTS {
        return None;
    }
    Some(value)
}

/// The cents of a numeral, an unreadable one counting as zero.
pub open spec fn parsed_cents_or_zero(s: Seq<char>) -> u64 {
    match parsed_hundredths(s) {
        Some(v) => v as u64,
        None => 0,
    }
}

/// The cents of a numeral, or `None` when the text is not a numeral in
/// range.
pub open spec fn parsed_cents_opt(s: Seq<char>) -> Option<u64> {
    match parsed_hundredths(s) {
        Some(v) => Some(v as u64),
        None => None,
    }
}

/// Parses a required field; unreadable text falls back to zero.
fn parse_or_zero(s: &str) -> (r: u64)
    ensures
        r == parsed_cents_or_zero(s@),
{
    match parse_hundredths(s) {
        Some(v) => v,
        None => 0,
    }
}

/// Parses an optional line-item field; unreadable text stays `None`.
fn parse_opt(s: &str) -> (r: Option<u64>)
    ensures
        r == parsed_cents_opt(s@),
{
    parse_hundredths(s)
}

/// The raw text of the two employment prompts.
pub struct ScenarioInputs {
    pub rate: String,
    pub hours: String,
}

/// The raw text of the ten monthly expense prompts.
pub struct ExpenseInputs {
    pub housing: String,
    pub energy: String,
    pub water: String,
    pub gas: String,
    pub internet: String,
    pub phone: String,
    pub car_payment: String,
    pub car_insurance: String,
    pub car_gas: String,
    pub groceries: String,
}

/// The raw text of the twelve deduction prompts, pre-tax then post-tax.
pub struct DeductionInputs {
    pub medical: String,
    pub dental: String,
    pub vision: String,
    pub traditional_401k: String,
    pub hsa: String,
    pub fsa: String,
    pub roth_401k: String,
    pub voluntary_life: String,
    pub voluntary_add: String,
    pub voluntary_std: String,
    pub voluntary_ltd: String,
    pub wage_garnishment: String,
}

/// Builds the employment scenario from the raw prompt answers: the rate and
/// hours fields are parsed with a fallback of zero, and each expense and
/// deduction line item keeps `None` where its text was unreadable.
pub fn convert_inputs_to_struct(
    sc: &ScenarioInputs,
    ex: &ExpenseInputs,
    de: &DeductionInputs,
) -> (r: EmploymentScenario)
    ensures
        r.hourly_rate == parsed_cents_or_zero(sc.rate@),
        r.hours_per_week == parsed_cents_or_zero(sc.hours@),
        r.expenses.items@ == seq![
            Expense::Housing(parsed_cents_opt(ex.housing@)),
            Expense::Energy(parsed_cents_opt(ex.energy@)),
            Expense::Water(parsed_cents_opt(ex.water@)),
            Expense::Gas(parsed_cents_opt(ex.gas@)),
            Expense::Internet(parsed_cents_opt(ex.internet@)),
            Expense::Phone(parsed_cents_opt(ex.phone@)),
            Expense::Vehicle(parsed_cents_opt(ex.car_payment@)),
            Expense::VehicleInsurance(parsed_cents_opt(ex.car_insurance@)),
            Expense::VehicleGas(parsed_cents_opt(ex.car_gas@)),
            Expense::Groceries(parsed_cents_opt(ex.groceries@)),
        ],
        r.pretax_deductions.items@ == seq![
            PreTaxDeduction::Medical(parsed_cents_opt(de.medical@)),
            PreTaxDeduction::Dental(parsed_cents_opt(de.dental@)),
            PreTaxDeduction::Vision(parsed_cents_opt(de.vision@)),
            PreTaxDeduction::Traditional401K(parsed_cents_opt(de.traditional_401k@)),
            PreTaxDeduction::HSA(parsed_cents_opt(de.hsa@)),
            PreTaxDeduction::FSA(parsed_cents_opt(de.fsa@)),
        ],
        r.posttax_deductions.items@ == seq![
            PostTaxDeduction::Roth401K(parsed_cents_opt(de.roth_401k@)),
            PostTaxDeduction::VoluntaryLife(parsed_cents_opt(de.voluntary_life@)),
            PostTaxDeduction::VoluntaryADD(parsed_cents_opt(de.voluntary_add@)),
            PostTaxDeduction::VoluntarySTD(parsed_cents_opt(de.voluntary_std@)),
            PostTaxDeduction::VoluntaryLTD(parsed_cents_opt(de.voluntary_ltd@)),
            PostTaxDeduction::WageGarnishment(parsed_cents_opt(de.wage_garnishment@)),
        ],
{
    let expenses = Expenses::new(
        vec![
            Expense::Housing(parse_opt(ex.housing.as_str())),
            Expense::Energy(parse_opt(ex.energy.as_str())),
            Expense::Water(parse_opt(ex.water.as_str())),
            Expense::Gas(parse_opt(ex.gas.as_str())),
            Expense::Internet(parse_opt(ex.internet.as_str())),
            Expense::Phone(parse_opt(ex.phone.as_str())),
            Expense::Vehicle(parse_opt(ex.car_payment.as_str())),
            Expense::VehicleInsurance(parse_opt(ex.car_insurance.as_str())),
            Expense::VehicleGas(parse_opt(ex.car_gas.as_str())),
            Expense::Groceries(parse_opt(ex.groceries.as_str())),
        ],
    );
    let pretax = PreTaxDeductions::new(
        vec![
            PreTaxDeduction::Medical(parse_opt(de.medical.as_str())),
            PreTaxDeduction::Dental(parse_opt(de.dental.as_str())),
            PreTaxDeduction::Vision(parse_opt(de.vision.as_str())),
            PreTaxDeduction::Traditional401K(parse_opt(de.traditional_401k.as_str())),
            PreTaxDeduction::HSA(parse_opt(de.hsa.as_str())),
            PreTaxDeduction::FSA(parse_opt(de.fsa.as_str())),
        ],
    );
    let posttax = PostTaxDeductions::new(
        vec![
            PostTaxDeduction::Roth401K(parse_opt(de.roth_401k.as_str())),
            PostTaxDeduction::VoluntaryLife(parse_opt(de.voluntary_life.as_str())),
            PostTaxDeduction::VoluntaryADD(parse_opt(de.voluntary_add.as_str())),
            PostTaxDeduction::VoluntarySTD(parse_opt(de.voluntary_std.as_str())),
            PostTaxDeduction::VoluntaryLTD(parse_opt(de.voluntary_ltd.as_str())),
            PostTaxDeduction::WageGarnishment(parse_opt(de.wage_garnishment.as_str())),
        ],
    );
    EmploymentScenario {
        hourly_rate: parse_or_zero(sc.rate.as_str()),
        hours_per_week: parse_or_zero(sc.hours.as_str()),
        expenses,
        pretax_deductions: pretax,
        posttax_deductions: posttax,
    }
}

} // verus!
