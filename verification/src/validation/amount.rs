//! Amount validation for currency inputs.
//!
//! Amounts are written in units with up to two decimals and are read into
//! minor units (cents):
//! - `123` is 12300
//! - `123.45` and `123,45` are 12345
//! - `1.234,56` and `1,234.56` are 123456 (the later separator is the decimal one)
//!
//! A single separator is always the decimal one, and decimals past the second
//! are cut off.

use super::{ValidationResult, Validator, invalid_with};
use crate::strings::{
    all_digits, all_digits_in, copy_range, digits_in, digits_value, is_digit, is_ws, keep_digits,
    lacks, last_index, last_index_of, lemma_digits_no_ws, lemma_digits_value_nonneg,
    lemma_keep_digits_all, lemma_last_index_absent, lemma_last_index_marker, lemma_parse_digits,
    lemma_trim_end_idempotent, lemma_trim_end_prepend, lemma_trim_ends_commute, lemma_trim_idempotent, lemma_trim_no_ws,
    lemma_without_absent, lemma_without_concat, parse_i64, parse_i64_spec, to_chars, trim,
    trim_bounds, trim_end, trim_start, without_char, without_in,
};
use crate::text::{Locale, TextKey, message, t};
use vstd::prelude::*;

verus! {

/// Validates amount strings for currency input.
#[derive(Debug, Clone, Copy, Default)]
pub struct AmountValidator {
    /// If `true`, the amount must be positive (> 0).
    pub require_positive: bool,
    /// If `true`, the amount must be non-negative (>= 0).
    pub allow_zero: bool,
}

impl AmountValidator {
    /// A validator that requires positive amounts.
    pub fn positive() -> (r: Self)
        ensures
            r.require_positive,
            !r.allow_zero,
    {
        AmountValidator { require_positive: true, allow_zero: false }
    }

    /// A validator that allows zero and positive amounts.
    pub fn non_negative() -> (r: Self)
        ensures
            !r.require_positive,
            r.allow_zero,
    {
        AmountValidator { require_positive: false, allow_zero: true }
    }
}

impl Validator for AmountValidator {
    fn validate(&self, value: &str) -> (r: ValidationResult)
        ensures
            amount_result_ok(r, value@, self.require_positive, Locale::It),
    {
        validate_amount(value, self.require_positive, Locale::It)
    }
}

/// The cents written by the decimal digits `dec`: the first two digits, a
/// single digit counting as tens of cents.
pub open spec fn cents_of(dec: Seq<char>) -> int {
    if dec.len() == 0 {
        0
    } else if dec.len() == 1 {
        digits_value(dec) * 10
    } else {
        digits_value(dec.take(2))
    }
}

/// `units * 100 + cents`, negated when `neg`, if every step fits in `i64`.
pub open spec fn scaled(units: int, cents: int, neg: bool) -> Option<i64> {
    let whole = units * 100;
    let total = whole + cents;
    if whole < i64::MIN || whole > i64::MAX || total < i64::MIN || total > i64::MAX {
        None
    } else if neg {
        Some((-total) as i64)
    } else {
        Some(total as i64)
    }
}

/// The amount whose units are written by `units` (read as `i64::from_str`
/// reads it) and whose cents are `cents`.
pub open spec fn with_cents(units: Seq<char>, cents: int, neg: bool) -> Option<i64> {
    if units.len() == 0 {
        None
    } else {
        match parse_i64_spec(units) {
            None => None,
            Some(u) => scaled(u as int, cents, neg),
        }
    }
}

/// An amount with one kind of separator, the last of which is at `p`: the
/// digits before it are the units, the digits after it the decimals.
pub open spec fn single_separator(n: Seq<char>, p: int, neg: bool) -> Option<i64> {
    let after = n.subrange(p + 1, n.len() as int);
    if !all_digits(after) || after.len() == 0 {
        None
    } else {
        with_cents(keep_digits(n.take(p)), cents_of(after), neg)
    }
}

/// An amount with both separators, the decimal one at `p`; `group` is the
/// thousands separator, which is dropped from the units.
pub open spec fn both_separators(n: Seq<char>, p: int, group: char, neg: bool) -> Option<i64> {
    let dec = n.subrange(p + 1, n.len() as int);
    if !all_digits(dec) {
        None
    } else {
        with_cents(without_char(n.take(p), group), cents_of(dec), neg)
    }
}

/// The amount written by `n`, a number without its sign.
pub open spec fn number_value(n: Seq<char>, neg: bool) -> Option<i64> {
    match (last_index_of(n, '.'), last_index_of(n, ',')) {
        (None, None) => with_cents(keep_digits(n), 0, neg),
        (Some(p), None) => single_separator(n, p, neg),
        (None, Some(p)) => single_separator(n, p, neg),
        (Some(d), Some(c)) => if d > c {
            both_separators(n, d, ',', neg)
        } else {
            both_separators(n, c, '.', neg)
        },
    }
}

/// The amount, in minor units, that the text `s` stands for: an optional
/// `-`, then a number made of digits and the separators `.` and `,` only;
/// any other text stands for no amount.
pub open spec fn amount_value(s: Seq<char>) -> Option<i64> {
    let t = trim(s);
    if t.len() == 0 {
        None
    } else {
        let neg = t[0] == '-';
        let n = if neg {
            trim(t.drop_first())
        } else {
            t
        };
        if n.len() == 0 || !digits_or_separators(n) {
            None
        } else {
            number_value(n, neg)
        }
    }
}

/// `r` is what [`validate_amount`] gives for `value`.
pub open spec fn amount_result_ok(
    r: ValidationResult,
    value: Seq<char>,
    require_positive: bool,
    locale: Locale,
) -> bool {
    if trim(value).len() == 0 {
        r is Valid
    } else {
        match amount_value(value) {
            None => invalid_with(r, message(locale, TextKey::ValidationAmountInvalid)),
            Some(c) => if c < 0 || (require_positive && c == 0) {
                invalid_with(r, message(locale, TextKey::ValidationAmountPositive))
            } else {
                r is Valid
            },
        }
    }
}

/// The cents written by the digits `v[from..to]`.
fn cents_in(v: &Vec<char>, from: usize, to: usize) -> (r: i64)
    requires
        from <= to <= v@.len(),
        all_digits(v@.subrange(from as int, to as int)),
    ensures
        r == cents_of(v@.subrange(from as int, to as int)),
        0 <= r < 100,
{
    let ghost dec = v@.subrange(from as int, to as int);
    assert(digits_value(Seq::<char>::empty()) == 0);
    if to == from {
        0
    } else {
        assert(dec[0] == v@[from as int]);
        assert(crate::strings::is_digit(dec[0]));
        let d0 = (v[from] as u32 - '0' as u32) as i64;
        if to - from == 1 {
            assert(dec.drop_last() =~= Seq::<char>::empty());
            assert(digits_value(dec) == crate::strings::digit_value(dec[0]));
            d0 * 10
        } else {
            assert(dec[1] == v@[from + 1]);
            assert(crate::strings::is_digit(dec[1]));
            let d1 = (v[from + 1] as u32 - '0' as u32) as i64;
            let ghost two = dec.take(2);
            assert(two.drop_last() =~= seq![dec[0]]);
            assert(seq![dec[0]].drop_last() =~= Seq::<char>::empty());
            assert(digits_value(seq![dec[0]]) == crate::strings::digit_value(dec[0]));
            assert(two.last() == dec[1]);
            assert(digits_value(two) == crate::strings::digit_value(dec[0]) * 10
                + crate::strings::digit_value(dec[1]));
            d0 * 10 + d1
        }
    }
}

/// `units * 100 + cents`, negated when `neg`, or `None` on overflow.
fn scale(units: i64, cents: i64, neg: bool) -> (r: Option<i64>)
    requires
        0 <= cents < 100,
    ensures
        r == scaled(units as int, cents as int, neg),
{
    let whole = units.checked_mul(100)?;
    let total = whole.checked_add(cents)?;
    Some(if neg { -total } else { total })
}

/// The amount whose units are written by `integer` and whose decimals are
/// the digits `decimal`, negated when `is_negative`.
fn parse_with_decimal(integer: &Vec<char>, decimal: &Vec<char>, is_negative: bool) -> (r: Option<
    i64,
>)
    requires
        all_digits(decimal@),
    ensures
        r == with_cents(integer@, cents_of(decimal@), is_negative),
{
    assert(decimal@.subrange(0, decimal@.len() as int) =~= decimal@);
    let cents = cents_in(decimal, 0, decimal.len());
    if integer.len() == 0 {
        return None;
    }
    match parse_i64(integer) {
        None => None,
        Some(u) => scale(u, cents, is_negative),
    }
}

/// Parses an amount string into minor units (cents).
///
/// Returns `None` if the string is not a valid amount.
pub fn parse_amount(value: &str) -> (r: Option<i64>)
    ensures
        r == amount_value(value@),
{
    let cs = to_chars(value);
    let (lo, hi) = trim_bounds(&cs);
    if lo == hi {
        return None;
    }
    let t = copy_range(&cs, lo, hi);
    let is_negative = t[0] == '-';
    let n = if is_negative {
        let rest = copy_range(&t, 1, t.len());
        assert(rest@ =~= t@.drop_first());
        let (lo2, hi2) = trim_bounds(&rest);
        copy_range(&rest, lo2, hi2)
    } else {
        t
    };
    let len = n.len();
    if len == 0 || !only_digits_or_separators(&n) {
        return None;
    }
    assert(n@.subrange(0, len as int) =~= n@);
    match (last_index(&n, '.'), last_index(&n, ',')) {
        (None, None) => {
            let digits = digits_in(&n, 0, len);
            let none: Vec<char> = Vec::new();
            assert(cents_of(none@) == 0);
            parse_with_decimal(&digits, &none, is_negative)
        },
        (Some(dot_pos), None) => parse_single_separator(&n, dot_pos, is_negative),
        (None, Some(comma_pos)) => parse_single_separator(&n, comma_pos, is_negative),
        (Some(dot_pos), Some(comma_pos)) => {
            if dot_pos > comma_pos {
                parse_both_separators(&n, dot_pos, ',', is_negative)
            } else {
                parse_both_separators(&n, comma_pos, '.', is_negative)
            }
        },
    }
}

/// Whether every character of `v` is a digit, `.` or `,`.
fn only_digits_or_separators(v: &Vec<char>) -> (r: bool)
    ensures
        r == digits_or_separators(v@),
{
    let mut i: usize = 0;
    while i < v.len()
        invariant
            i <= v@.len(),
            forall|k: int| 0 <= k < i ==> is_digit(#[trigger] v@[k]) || v@[k] == '.' || v@[k] == ',',
        decreases v.len() - i,
    {
        let c = v[i];
        if !(('0' <= c && c <= '9') || c == '.' || c == ',') {
            return false;
        }
        i = i + 1;
    }
    true
}

/// [`single_separator`] over a vector of characters.
fn parse_single_separator(n: &Vec<char>, p: usize, neg: bool) -> (r: Option<i64>)
    requires
        p < n@.len(),
    ensures
        r == single_separator(n@, p as int, neg),
{
    let len = n.len();
    if !all_digits_in(n, p + 1, len) || p + 1 == len {
        return None;
    }
    let decimal = copy_range(n, p + 1, len);
    let units = digits_in(n, 0, p);
    assert(n@.subrange(0, p as int) =~= n@.take(p as int));
    parse_with_decimal(&units, &decimal, neg)
}

/// [`both_separators`] over a vector of characters.
fn parse_both_separators(n: &Vec<char>, p: usize, group: char, neg: bool) -> (r: Option<i64>)
    requires
        p < n@.len(),
    ensures
        r == both_separators(n@, p as int, group, neg),
{
    let len = n.len();
    if !all_digits_in(n, p + 1, len) {
        return None;
    }
    let decimal = copy_range(n, p + 1, len);
    let units = without_in(n, 0, p, group);
    assert(n@.subrange(0, p as int) =~= n@.take(p as int));
    parse_with_decimal(&units, &decimal, neg)
}

/// Validates an amount string: blank text passes (required-ness is checked
/// separately); otherwise it must parse, and be positive when
/// `require_positive`, non-negative otherwise.
pub fn validate_amount(value: &str, require_positive: bool, locale: Locale) -> (r: ValidationResult)
    ensures
        amount_result_ok(r, value@, require_positive, locale),
{
    let cs = to_chars(value);
    let (lo, hi) = trim_bounds(&cs);
    if lo == hi {
        return ValidationResult::Valid;
    }
    match parse_amount(value) {
        None => {
            let mut msg = String::new();
            msg.append(t(locale, TextKey::ValidationAmountInvalid));
            ValidationResult::Invalid(msg)
        },
        Some(cents) => {
            if cents < 0 || (require_positive && cents == 0) {
                let mut msg = String::new();
                msg.append(t(locale, TextKey::ValidationAmountPositive));
                ValidationResult::Invalid(msg)
            } else {
                ValidationResult::Valid
            }
        },
    }
}

/// The amount `o` with its sign flipped.
pub open spec fn negated(o: Option<i64>) -> Option<i64> {
    match o {
        Some(v) => Some((-v) as i64),
        None => None,
    }
}

/// Lemma: the cents of a run of digits lie between 0 and 99.
pub proof fn lemma_cents_range(dec: Seq<char>)
    requires
        all_digits(dec),
    ensures
        0 <= cents_of(dec) < 100,
{
    assert(digits_value(Seq::<char>::empty()) == 0);
    if dec.len() == 1 {
        assert(dec.drop_last() =~= Seq::<char>::empty());
        assert(is_digit(dec[0]));
        assert(dec.last() == dec[0]);
        assert(digits_value(dec) == crate::strings::digit_value(dec[0]));
    } else if dec.len() >= 2 {
        let two = dec.take(2);
        assert(two.drop_last() =~= seq![dec[0]]);
        assert(seq![dec[0]].drop_last() =~= Seq::<char>::empty());
        assert(two.last() == dec[1]);
        assert(is_digit(dec[0]));
        assert(is_digit(dec[1]));
        assert(digits_value(seq![dec[0]]) == crate::strings::digit_value(dec[0]));
    }
}

proof fn lemma_scaled_negated(u: int, c: int)
    requires
        0 <= c < 100,
    ensures
        scaled(u, c, true) == negated(scaled(u, c, false)),
{
}

proof fn lemma_with_cents_negated(units: Seq<char>, c: int)
    requires
        0 <= c < 100,
    ensures
        with_cents(units, c, true) == negated(with_cents(units, c, false)),
{
    if units.len() > 0 {
        if let Some(u) = parse_i64_spec(units) {
            lemma_scaled_negated(u as int, c);
        }
    }
}

pub(crate) proof fn lemma_number_value_negated(n: Seq<char>)
    ensures
        number_value(n, true) == negated(number_value(n, false)),
{
    assert(0 <= 0int < 100);
    match (last_index_of(n, '.'), last_index_of(n, ',')) {
        (None, None) => lemma_with_cents_negated(keep_digits(n), 0),
        (Some(p), None) => lemma_single_negated(n, p),
        (None, Some(p)) => lemma_single_negated(n, p),
        (Some(d), Some(c)) => {
            if d > c {
                lemma_both_negated(n, d, ',');
            } else {
                lemma_both_negated(n, c, '.');
            }
        },
    }
}

proof fn lemma_single_negated(n: Seq<char>, p: int)
    ensures
        single_separator(n, p, true) == negated(single_separator(n, p, false)),
{
    let after = n.subrange(p + 1, n.len() as int);
    if all_digits(after) && after.len() != 0 {
        lemma_cents_range(after);
        lemma_with_cents_negated(keep_digits(n.take(p)), cents_of(after));
    }
}

proof fn lemma_both_negated(n: Seq<char>, p: int, group: char)
    ensures
        both_separators(n, p, group, true) == negated(both_separators(n, p, group, false)),
{
    let dec = n.subrange(p + 1, n.len() as int);
    if all_digits(dec) {
        lemma_cents_range(dec);
        lemma_with_cents_negated(without_char(n.take(p), group), cents_of(dec));
    }
}

/// Law: whitespace around an amount does not change what it stands for.
pub proof fn law_amount_ignores_surrounding_whitespace(s: Seq<char>)
    ensures
        amount_value(trim(s)) == amount_value(s),
{
    lemma_trim_idempotent(s);
}

/// Law: a plain run of digits is that many units, i.e. a hundred times as
/// many cents (`123` is 12300).
pub proof fn law_whole_units(a: Seq<char>)
    requires
        a.len() > 0,
        all_digits(a),
        digits_value(a) * 100 <= i64::MAX,
    ensures
        amount_value(a) == Some((digits_value(a) * 100) as i64),
{
    lemma_digits_no_ws(a);
    lemma_trim_no_ws(a);
    lemma_digits_value_nonneg(a);
    assert(is_digit(a[0]));
    lemma_digits_lack(a, '.');
    lemma_digits_lack(a, ',');
    lemma_last_index_absent(a, '.');
    lemma_last_index_absent(a, ',');
    lemma_keep_digits_all(a);
    lemma_parse_digits(a);
    assert(digits_or_separators(a)) by {
        assert forall|i: int| 0 <= i < a.len() implies is_digit(#[trigger] a[i]) || a[i] == '.'
            || a[i] == ',' by {
            assert(is_digit(a[i]));
        }
    }
}

proof fn lemma_digits_lack(a: Seq<char>, c: char)
    requires
        all_digits(a),
        !is_digit(c),
    ensures
        lacks(a, c),
{
    assert forall|i: int| 0 <= i < a.len() implies #[trigger] a[i] != c by {
        assert(is_digit(a[i]));
    }
}

/// Text made of digits and the two separators only.
pub open spec fn digits_or_separators(s: Seq<char>) -> bool {
    forall|i: int| 0 <= i < s.len() ==> is_digit(#[trigger] s[i]) || s[i] == '.' || s[i] == ','
}

pub(crate) proof fn lemma_plain_number_text(s: Seq<char>)
    requires
        s.len() > 0,
        digits_or_separators(s),
    ensures
        trim(s) == s,
        s[0] != '-',
{
    assert forall|i: int| 0 <= i < s.len() implies !is_ws(#[trigger] s[i]) by {
        assert(is_digit(s[i]) || s[i] == '.' || s[i] == ',');
    }
    lemma_trim_no_ws(s);
    assert(is_digit(s[0]) || s[0] == '.' || s[0] == ',');
}

/// Law: either separator works as the decimal one when it stands alone, and
/// the decimals give the cents (`123.45` and `123,45` are both 12345).
pub proof fn law_single_separator_is_decimal(a: Seq<char>, b: Seq<char>)
    requires
        a.len() > 0,
        b.len() > 0,
        all_digits(a),
        all_digits(b),
        digits_value(a) * 100 + 99 <= i64::MAX,
    ensures
        amount_value(a + seq!['.'] + b) == Some((digits_value(a) * 100 + cents_of(b)) as i64),
        amount_value(a + seq![','] + b) == Some((digits_value(a) * 100 + cents_of(b)) as i64),
{
    lemma_cents_range(b);
    lemma_single_sep_case(a, b, '.', ',');
    lemma_single_sep_case(a, b, ',', '.');
}

pub(crate) proof fn lemma_single_sep_case(a: Seq<char>, b: Seq<char>, sep: char, other: char)
    requires
        a.len() > 0,
        b.len() > 0,
        all_digits(a),
        all_digits(b),
        digits_value(a) * 100 + cents_of(b) <= i64::MAX,
        (sep == '.' && other == ',') || (sep == ',' && other == '.'),
    ensures
        amount_value(a + seq![sep] + b) == Some((digits_value(a) * 100 + cents_of(b)) as i64),
{
    let s = a + seq![sep] + b;
    assert(digits_or_separators(s)) by {
        assert forall|i: int| 0 <= i < s.len() implies is_digit(#[trigger] s[i]) || s[i] == '.'
            || s[i] == ',' by {
            if i < a.len() {
                assert(s[i] == a[i]);
            } else if i > a.len() {
                assert(s[i] == b[i - a.len() - 1]);
            }
        }
    }
    lemma_plain_number_text(s);
    lemma_digits_lack(b, sep);
    lemma_last_index_marker(a, sep, b);
    assert(lacks(s, other)) by {
        assert forall|i: int| 0 <= i < s.len() implies #[trigger] s[i] != other by {
            if i < a.len() {
                assert(s[i] == a[i]);
                assert(is_digit(a[i]));
            } else if i > a.len() {
                assert(s[i] == b[i - a.len() - 1]);
                assert(is_digit(b[i - a.len() - 1]));
            }
        }
    }
    lemma_last_index_absent(s, other);
    assert(s.take(a.len() as int) =~= a);
    assert(s.subrange(a.len() as int + 1, s.len() as int) =~= b);
    lemma_keep_digits_all(a);
    lemma_cents_range(b);
    lemma_digits_value_nonneg(a);
    lemma_parse_digits(a);
}

/// Law: with both separators the later one is the decimal one, so the two
/// conventions agree (`1.234,56` and `1,234.56` are both 123456).
pub proof fn law_grouping_conventions_agree(a: Seq<char>, b: Seq<char>, c: Seq<char>)
    requires
        all_digits(a),
        all_digits(b),
        all_digits(c),
    ensures
        amount_value(a + seq!['.'] + b + seq![','] + c) == amount_value(
            a + seq![','] + b + seq!['.'] + c,
        ),
        amount_value(a + seq!['.'] + b + seq![','] + c) == with_cents(a + b, cents_of(c), false),
{
    lemma_grouping_case(a, b, c, '.', ',');
    lemma_grouping_case(a, b, c, ',', '.');
}

proof fn lemma_grouping_case(a: Seq<char>, b: Seq<char>, c: Seq<char>, group: char, dec: char)
    requires
        all_digits(a),
        all_digits(b),
        all_digits(c),
        (group == '.' && dec == ',') || (group == ',' && dec == '.'),
    ensures
        amount_value(a + seq![group] + b + seq![dec] + c) == with_cents(a + b, cents_of(c), false),
{
    let x = a + seq![group] + b;
    let s = x + seq![dec] + c;
    assert(s =~= a + seq![group] + b + seq![dec] + c);
    assert(digits_or_separators(s)) by {
        assert forall|i: int| 0 <= i < s.len() implies is_digit(#[trigger] s[i]) || s[i] == '.'
            || s[i] == ',' by {
            if i < a.len() {
                assert(s[i] == a[i]);
            } else if i == a.len() {
            } else if i < x.len() {
                assert(s[i] == b[i - a.len() - 1]);
            } else if i > x.len() {
                assert(s[i] == c[i - x.len() - 1]);
            }
        }
    }
    lemma_plain_number_text(s);
    // the decimal separator
    lemma_digits_lack(c, dec);
    lemma_last_index_marker(x, dec, c);
    // the group separator: last one is right after `a`
    lemma_digits_lack(c, group);
    lemma_digits_lack(b, group);
    lemma_digits_lack(b, dec);
    let y = b + seq![dec] + c;
    assert(s =~= a + seq![group] + y);
    assert(lacks(y, group)) by {
        assert forall|i: int| 0 <= i < y.len() implies #[trigger] y[i] != group by {
            if i < b.len() {
                assert(y[i] == b[i]);
            } else if i > b.len() {
                assert(y[i] == c[i - b.len() - 1]);
            }
        }
    }
    lemma_last_index_marker(a, group, y);
    assert(s.take(x.len() as int) =~= x);
    assert(s.subrange(x.len() as int + 1, s.len() as int) =~= c);
    lemma_digits_lack(a, group);
    lemma_without_concat(a + seq![group], b, group);
    lemma_without_concat(a, seq![group], group);
    lemma_without_absent(a, group);
    lemma_without_absent(b, group);
    assert(seq![group].drop_last() =~= Seq::<char>::empty());
    assert(without_char(Seq::<char>::empty(), group) =~= Seq::<char>::empty());
    assert(without_char(seq![group], group) =~= Seq::<char>::empty());
    assert(without_char(x, group) =~= a + b);
    if group == '.' {
        assert(last_index_of(s, '.') == Some(a.len() as int));
        assert(last_index_of(s, ',') == Some(x.len() as int));
    } else {
        assert(last_index_of(s, ',') == Some(a.len() as int));
        assert(last_index_of(s, '.') == Some(x.len() as int));
    }
}

proof fn lemma_keep_digits_lack_minus(s: Seq<char>)
    ensures
        lacks(keep_digits(s), '-'),
    decreases s.len(),
{
    if s.len() > 0 {
        lemma_keep_digits_lack_minus(s.drop_last());
    }
}

proof fn lemma_without_char_lacks(s: Seq<char>, c: char, d: char)
    requires
        lacks(s, d),
    ensures
        lacks(without_char(s, c), d),
    decreases s.len(),
{
    if s.len() > 0 {
        assert(lacks(s.drop_last(), d)) by {
            assert forall|i: int| 0 <= i < s.drop_last().len() implies #[trigger] s.drop_last()[i] != d by {
                assert(s.drop_last()[i] == s[i]);
            }
        }
        lemma_without_char_lacks(s.drop_last(), c, d);
        assert(s[s.len() - 1] != d);
    }
}

proof fn lemma_with_cents_nonneg(units: Seq<char>, c: int)
    requires
        lacks(units, '-'),
        0 <= c < 100,
    ensures
        with_cents(units, c, false) matches Some(v) ==> v >= 0,
{
    if units.len() > 0 {
        assert(units[0] != '-');
        let d = if units[0] == '+' { units.drop_first() } else { units };
        if d.len() > 0 && all_digits(d) {
            lemma_digits_value_nonneg(d);
        }
    }
}

proof fn lemma_number_value_nonneg(n: Seq<char>)
    requires
        digits_or_separators(n),
    ensures
        number_value(n, false) matches Some(v) ==> v >= 0,
{
    assert(lacks(n, '-')) by {
        assert forall|i: int| 0 <= i < n.len() implies #[trigger] n[i] != '-' by {
            assert(is_digit(n[i]) || n[i] == '.' || n[i] == ',');
        }
    }
    match (last_index_of(n, '.'), last_index_of(n, ',')) {
        (None, None) => {
            lemma_keep_digits_lack_minus(n);
            lemma_with_cents_nonneg(keep_digits(n), 0);
        },
        (Some(p), None) => lemma_single_nonneg(n, p),
        (None, Some(p)) => lemma_single_nonneg(n, p),
        (Some(d), Some(c)) => {
            lemma_last_index_bounds(n, '.');
            lemma_last_index_bounds(n, ',');
            if d > c {
                lemma_both_nonneg(n, d, ',');
            } else {
                lemma_both_nonneg(n, c, '.');
            }
        },
    }
}

proof fn lemma_single_nonneg(n: Seq<char>, p: int)
    ensures
        single_separator(n, p, false) matches Some(v) ==> v >= 0,
{
    let after = n.subrange(p + 1, n.len() as int);
    if all_digits(after) && after.len() != 0 {
        lemma_cents_range(after);
        lemma_keep_digits_lack_minus(n.take(p));
        lemma_with_cents_nonneg(keep_digits(n.take(p)), cents_of(after));
    }
}

proof fn lemma_last_index_bounds(s: Seq<char>, c: char)
    ensures
        last_index_of(s, c) matches Some(p) ==> 0 <= p < s.len(),
    decreases s.len(),
{
    if s.len() > 0 && s.last() != c {
        lemma_last_index_bounds(s.drop_last(), c);
    }
}

proof fn lemma_both_nonneg(n: Seq<char>, p: int, group: char)
    requires
        lacks(n, '-'),
        0 <= p < n.len(),
    ensures
        both_separators(n, p, group, false) matches Some(v) ==> v >= 0,
{
    let dec = n.subrange(p + 1, n.len() as int);
    if all_digits(dec) {
        lemma_cents_range(dec);
        assert(lacks(n.take(p), '-')) by {
            assert forall|i: int| 0 <= i < n.take(p).len() implies #[trigger] n.take(p)[i] != '-' by {
                assert(n.take(p)[i] == n[i]);
            }
        }
        lemma_without_char_lacks(n.take(p), group, '-');
        lemma_with_cents_nonneg(without_char(n.take(p), group), cents_of(dec));
    }
}

/// Law: a leading minus flips the sign of what the rest stands for
/// (`-123.45` is -12345), whatever whitespace surrounds the rest; what the
/// rest stands for is never below zero, so the flip is exact. This holds of
/// every text that does not itself start with a minus once trimmed.
pub proof fn law_minus_negates(s: Seq<char>)
    requires
        trim(s).len() > 0 ==> trim(s)[0] != '-',
    ensures
        amount_value(s) matches Some(v) ==> v >= 0 && amount_value(seq!['-'] + s) == Some((-v) as i64)
            && (-v) as i64 == -v,
        amount_value(s) is None ==> amount_value(seq!['-'] + s) is None,
{
    let t = seq!['-'] + s;
    assert(!is_ws(t[0]));
    assert(trim_start(t) == t);
    lemma_trim_end_prepend('-', s);
    assert(trim(t) == seq!['-'] + trim_end(s));
    assert(trim(t).drop_first() =~= trim_end(s));
    lemma_trim_ends_commute(s);
    lemma_trim_idempotent(s);
    lemma_trim_end_idempotent(trim_start(s));
    assert(trim(trim_end(s)) == trim(s));
    if trim(s).len() == 0 {
        assert(trim(trim_end(s)).len() == 0);
    } else {
        lemma_number_value_negated(trim(s));
        if digits_or_separators(trim(s)) {
            lemma_number_value_nonneg(trim(s));
        }
    }
}

} // verus!
