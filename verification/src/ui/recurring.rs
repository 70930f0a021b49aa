//! Helpers of the recurring transactions screen.

use super::state::AppState;
use crate::strings::{
    decimal, digit_char, is_digit, is_ws, lemma_decimal_digits, lemma_trim_no_ws, lemma_two_digits, push_char,
    push_decimal, push_signed_decimal, signed_decimal, string_from, zero_padded,
};
use crate::text::{Locale, TextKey, message, t};
use crate::validation::amount::{
    amount_value, cents_of, lemma_number_value_negated, lemma_plain_number_text,
    lemma_single_sep_case, negated, number_value,
};
use vstd::prelude::*;

verus! {

/// How often a recurring transaction repeats.
#[derive(Debug, Clone, Copy, PartialEq, Eq, Structural, Default)]
pub enum RecurrenceFrequency {
    Daily,
    Weekly,
    #[default]
    Monthly,
    Yearly,
}

/// The catalogue key of a frequency's label.
pub open spec fn frequency_key(freq: RecurrenceFrequency) -> TextKey {
    match freq {
        RecurrenceFrequency::Daily => TextKey::RecurringFreqDaily,
        RecurrenceFrequency::Weekly => TextKey::RecurringFreqWeekly,
        RecurrenceFrequency::Monthly => TextKey::RecurringFreqMonthly,
        RecurrenceFrequency::Yearly => TextKey::RecurringFreqYearly,
    }
}

/// The label of a frequency in `locale`.
pub fn frequency_label(freq: RecurrenceFrequency, locale: Locale) -> (r: &'static str)
    ensures
        r@ == message(locale, frequency_key(freq)),
{
    match freq {
        RecurrenceFrequency::Daily => t(locale, TextKey::RecurringFreqDaily),
        RecurrenceFrequency::Weekly => t(locale, TextKey::RecurringFreqWeekly),
        RecurrenceFrequency::Monthly => t(locale, TextKey::RecurringFreqMonthly),
        RecurrenceFrequency::Yearly => t(locale, TextKey::RecurringFreqYearly),
    }
}

/// The whole units of an amount in minor units, rounded toward zero.
pub open spec fn units_of(amount_minor: int) -> int {
    if amount_minor >= 0 {
        amount_minor / 100
    } else {
        -((-amount_minor) / 100)
    }
}

/// The cents of an amount in minor units, without sign.
pub open spec fn cents_part(amount_minor: int) -> int {
    if amount_minor >= 0 {
        amount_minor % 100
    } else {
        (-amount_minor) % 100
    }
}

/// An amount as `units.cents`: the units with their sign, the cents in two
/// digits without sign (so amounts between -1 and 0 units show no sign).
pub open spec fn plain_amount_text(amount_minor: int) -> Seq<char> {
    signed_decimal(units_of(amount_minor)) + seq!['.'] + zero_padded(cents_part(amount_minor) as nat, 2)
}

/// Writes an amount in minor units as `units.cents`.
pub fn format_amount(amount_minor: i64) -> (r: String)
    ensures
        r@ == plain_amount_text(amount_minor as int),
{
    let wide = amount_minor as i128;
    let abs = if wide < 0 { -wide } else { wide };
    let units_abs = abs / 100;
    let cents = (abs % 100) as u64;
    let units: i64 = if wide < 0 { (-units_abs) as i64 } else { units_abs as i64 };
    let mut r = String::new();
    push_signed_decimal(&mut r, units);
    push_char(&mut r, '.');
    if cents < 10 {
        push_char(&mut r, '0');
    }
    push_decimal(&mut r, cents);
    proof {
        if cents < 10 {
            assert(decimal(cents as nat).len() == 1);
            assert(zero_padded(cents as nat, 2) =~= seq!['0'] + decimal(cents as nat));
        } else {
            let d = decimal(cents as nat);
            assert(d == decimal(cents as nat / 10).push(digit_char(cents as nat % 10)));
            assert(decimal(cents as nat / 10).len() == 1);
            assert(d.len() == 2);
        }
    }
    assert(r@ =~= plain_amount_text(amount_minor as int));
    r
}

/// The name of the wallet at position `index` of the snapshot, or `-`.
pub open spec fn wallet_name_at_index(state: AppState, index: usize) -> Seq<char> {
    match state.snapshot {
        Some(s) => if index < s.wallets@.len() {
            s.wallets@[index as int].name@
        } else {
            "-"@
        },
        None => "-"@,
    }
}

/// The name of the flow at position `index` of the snapshot, or `-`.
pub open spec fn flow_name_at_index(state: AppState, index: usize) -> Seq<char> {
    match state.snapshot {
        Some(s) => if index < s.flows@.len() {
            s.flows@[index as int].name@
        } else {
            "-"@
        },
        None => "-"@,
    }
}

/// The name of the wallet at position `index`, or `-`.
pub fn resolve_wallet_name(state: &AppState, index: usize) -> (r: String)
    ensures
        r@ == wallet_name_at_index(*state, index),
{
    if let Some(s) = &state.snapshot {
        if index < s.wallets.len() {
            return s.wallets[index].name.clone();
        }
    }
    string_from("-")
}

/// The name of the flow at position `index`, or `-`.
pub fn resolve_flow_name(state: &AppState, index: usize) -> (r: String)
    ensures
        r@ == flow_name_at_index(*state, index),
{
    if let Some(s) = &state.snapshot {
        if index < s.flows.len() {
            return s.flows[index].name.clone();
        }
    }
    string_from("-")
}

/// Law: the text of an amount reads back as the same amount, unless the
/// amount is less than one unit below zero (its text carries no sign) or is
/// the least `i64` (whose size does not fit back).
pub proof fn law_formatted_amount_reads_back(x: i64)
    requires
        x >= 0 || (-i64::MAX <= x <= -100),
    ensures
        amount_value(plain_amount_text(x as int)) == Some(x),
{
    let size: int = if x < 0 { -x } else { x as int };
    let u = size / 100;
    let c = size % 100;
    let digits = decimal(u as nat);
    let cents = zero_padded(c as nat, 2);
    lemma_decimal_digits(u as nat);
    lemma_two_digits(c as nat);
    assert(cents.take(2) =~= cents);
    assert(cents_of(cents) == c);
    assert(size == u * 100 + c);
    let n = digits + seq!['.'] + cents;
    lemma_single_sep_case(digits, cents, '.', ',');
    assert(amount_value(n) == Some((u * 100 + c) as i64));
    if x >= 0 {
        assert(units_of(x as int) == u);
        assert(signed_decimal(u) == digits);
        assert(plain_amount_text(x as int) == n);
    } else {
        assert(units_of(x as int) == -u);
        assert(u >= 1);
        assert(signed_decimal(-u) == seq!['-'] + digits);
        let text = seq!['-'] + digits + seq!['.'] + cents;
        assert(plain_amount_text(x as int) =~= text);
        assert(n.len() > 0);
        assert(crate::validation::amount::digits_or_separators(n)) by {
            assert forall|i: int| 0 <= i < n.len() implies is_digit(#[trigger] n[i]) || n[i] == '.'
                || n[i] == ',' by {
                if i < digits.len() {
                    assert(n[i] == digits[i]);
                } else if i > digits.len() {
                    assert(n[i] == cents[i - digits.len() - 1]);
                }
            }
        }
        lemma_plain_number_text(n);
        assert(text =~= seq!['-'] + n);
        assert forall|i: int| 0 <= i < text.len() implies !is_ws(#[trigger] text[i]) by {
            if i > 0 {
                assert(text[i] == n[i - 1]);
                assert(is_digit(n[i - 1]) || n[i - 1] == '.' || n[i - 1] == ',');
            }
        }
        lemma_trim_no_ws(text);
        assert(text.drop_first() =~= n);
        assert(amount_value(n) == number_value(n, false));
        lemma_number_value_negated(n);
        assert(amount_value(text) == negated(Some((u * 100 + c) as i64)));
    }
}

} // verus!
