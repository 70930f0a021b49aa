//! Helpers of the statistics screens: month names, month arithmetic,
//! shortened labels and category icons.

use super::{Piece, Tone, piece, pieces_view};
use crate::strings::{
    contains_text, has_substring, push_char, push_signed_decimal, signed_decimal, string_from,
    to_chars,
};
use crate::text::{Locale, TextKey, message, t};
use vstd::prelude::*;
use vstd::string::StringSliceAdditionalSpecFns;
use vstd::utf8::{decode_utf8, is_char_boundary};

verus! {

/// The full English name of month `month` (1 through 12).
pub open spec fn month_name_of(month: u32) -> Seq<char> {
    match month {
        1 => "January"@,
        2 => "February"@,
        3 => "March"@,
        4 => "April"@,
        5 => "May"@,
        6 => "June"@,
        7 => "July"@,
        8 => "August"@,
        9 => "September"@,
        10 => "October"@,
        11 => "November"@,
        12 => "December"@,
        _ => "Unknown"@,
    }
}

/// The full name of a month, or `Unknown`.
pub fn month_name(month: u32) -> (r: &'static str)
    ensures
        r@ == month_name_of(month),
{
    match month {
        1 => "January",
        2 => "February",
        3 => "March",
        4 => "April",
        5 => "May",
        6 => "June",
        7 => "July",
        8 => "August",
        9 => "September",
        10 => "October",
        11 => "November",
        12 => "December",
        _ => "Unknown",
    }
}

/// The three-letter English name of month `month`.
pub open spec fn month_short_name_of(month: u32) -> Seq<char> {
    match month {
        1 => "Jan"@,
        2 => "Feb"@,
        3 => "Mar"@,
        4 => "Apr"@,
        5 => "May"@,
        6 => "Jun"@,
        7 => "Jul"@,
        8 => "Aug"@,
        9 => "Sep"@,
        10 => "Oct"@,
        11 => "Nov"@,
        12 => "Dec"@,
        _ => "???"@,
    }
}

/// The short name of a month, or `???`.
pub fn month_short_name(month: u32) -> (r: &'static str)
    ensures
        r@ == month_short_name_of(month),
{
    match month {
        1 => "Jan",
        2 => "Feb",
        3 => "Mar",
        4 => "Apr",
        5 => "May",
        6 => "Jun",
        7 => "Jul",
        8 => "Aug",
        9 => "Sep",
        10 => "Oct",
        11 => "Nov",
        12 => "Dec",
        _ => "???",
    }
}

/// Months counted from year 0: `year * 12 + (month - 1) + offset`.
pub open spec fn month_count(year: i32, month: u32, offset: i32) -> int {
    year * 12 + ((month as i32) - 1) + offset
}

/// The quotient of `a` by 12, rounded toward zero, as `i32` division gives it.
pub open spec fn quot12(a: int) -> int {
    if a >= 0 {
        a / 12
    } else {
        -((-a) / 12)
    }
}

/// The month `offset` months away from `month` of `year`: the year is the
/// month count divided by 12 (rounded toward zero), the month its remainder
/// taken in 1 through 12.
pub open spec fn offset_month_of(year: i32, month: u32, offset: i32) -> (int, int) {
    let total = month_count(year, month, offset);
    (quot12(total), total % 12 + 1)
}

/// The arithmetic of [`offset_month`] stays within `i32`.
pub open spec fn offset_month_fits(year: i32, month: u32, offset: i32) -> bool {
    &&& i32::MIN <= year * 12 <= i32::MAX
    &&& i32::MIN <= (month as i32) - 1
    &&& i32::MIN <= year * 12 + ((month as i32) - 1) <= i32::MAX
    &&& i32::MIN <= month_count(year, month, offset) <= i32::MAX
}

/// The year and month `offset` months away from `month` of `year`.
pub fn offset_month(year: i32, month: u32, offset: i32) -> (r: (i32, u32))
    requires
        offset_month_fits(year, month, offset),
    ensures
        (r.0 as int, r.1 as int) == offset_month_of(year, month, offset),
{
    let m = month as i32;
    let total_months = year * 12 + (m - 1) + offset;
    let new_year = if total_months >= 0 {
        total_months / 12
    } else {
        -((-(total_months as i64)) / 12) as i32
    };
    let r = total_months as i64 % 12;
    let new_month = (r + 12) % 12 + 1;
    proof {
        let t = total_months as int;
        assert(t % 12 == ((t as i64 % 12) + 12) % 12) by {
            assert(-12 < (t as i64 % 12) < 12);
        }
    }
    (new_year, new_month as u32)
}

/// Moving by no months gives the month back, for any month of a year that
/// is not before year 0.
pub proof fn law_offset_month_zero(year: i32, month: u32)
    requires
        year >= 0,
        1 <= month <= 12,
    ensures
        offset_month_of(year, month, 0) == (year as int, month as int),
{
    let total = month_count(year, month, 0);
    assert(total == 12 * year + (month - 1));
    vstd::arithmetic::div_mod::lemma_fundamental_div_mod_converse(
        total,
        12,
        year as int,
        month - 1,
    );
}

/// Moving by `a` months and then by `b` months is moving by `a + b` months,
/// when the month reached after `a` is not before year 0.
pub proof fn law_offset_month_adds(year: i32, month: u32, a: i32, b: i32)
    requires
        1 <= month <= 12,
        0 <= month_count(year, month, a) <= i32::MAX,
        i32::MIN <= a + b <= i32::MAX,
    ensures
        ({
            let first = offset_month_of(year, month, a);
            offset_month_of(first.0 as i32, first.1 as u32, b) == offset_month_of(
                year,
                month,
                (a + b) as i32,
            )
        }),
{
    let t = month_count(year, month, a);
    let first = offset_month_of(year, month, a);
    vstd::arithmetic::div_mod::lemma_fundamental_div_mod(t, 12);
    assert(0 <= t / 12 <= t);
    assert(first.0 == t / 12);
    assert(first.1 == t % 12 + 1);
    assert(first.0 as i32 == t / 12);
    assert(first.1 as u32 == t % 12 + 1);
    assert(month_count(first.0 as i32, first.1 as u32, b) == t + b);
}

/// The mark of the month `at` in the timeline around `month` of `year`: its
/// short name in brackets, starred and bold when it is that month.
pub open spec fn timeline_mark(year: i32, month: u32, at: (int, int)) -> (
    Seq<char>,
    Option<Tone>,
    bool,
) {
    let short = month_short_name_of(at.1 as u32);
    if at.0 == year as int && at.1 == month as int {
        (seq!['['] + short + "]*"@, Some(Tone::Accent), true)
    } else {
        (seq!['['] + short + seq![']'], Some(Tone::Muted), false)
    }
}

/// The month navigation line: the month and year, then the two months
/// before, the month itself and the two months after.
pub open spec fn timeline_of(year: i32, month: u32) -> Seq<(Seq<char>, Option<Tone>, bool)> {
    let gap = ("  "@, None::<Tone>, false);
    seq![
        ("Month: "@, Some(Tone::Muted), false),
        (month_name_of(month) + seq![' '] + signed_decimal(year as int), Some(Tone::Text), true),
        gap,
        ("[◀"@, Some(Tone::Accent), false),
        timeline_mark(year, month, offset_month_of(year, month, -2i32)),
        gap,
        timeline_mark(year, month, offset_month_of(year, month, -1i32)),
        gap,
        timeline_mark(year, month, (year as int, month as int)),
        gap,
        timeline_mark(year, month, offset_month_of(year, month, 1i32)),
        gap,
        timeline_mark(year, month, offset_month_of(year, month, 2i32)),
        ("▶]"@, Some(Tone::Accent), false),
    ]
}

fn timeline_piece(year: i32, month: u32, at: (i32, u32)) -> (r: Piece)
    ensures
        r@ == timeline_mark(year, month, (at.0 as int, at.1 as int)),
{
    let mut text = String::new();
    push_char(&mut text, '[');
    text.append(month_short_name(at.1));
    if at.0 == year && at.1 == month {
        text.append("]*");
        Piece { text, tone: Some(Tone::Accent), bold: true }
    } else {
        push_char(&mut text, ']');
        Piece { text, tone: Some(Tone::Muted), bold: false }
    }
}

/// The month navigation line around `month` of `year`.
pub fn build_month_timeline(year: i32, month: u32) -> (r: Vec<Piece>)
    requires
        offset_month_fits(year, month, -2i32),
        offset_month_fits(year, month, -1i32),
        offset_month_fits(year, month, 1i32),
        offset_month_fits(year, month, 2i32),
    ensures
        pieces_view(r@) == timeline_of(year, month),
{
    let before2 = offset_month(year, month, -2);
    let before1 = offset_month(year, month, -1);
    let after1 = offset_month(year, month, 1);
    let after2 = offset_month(year, month, 2);
    let mut title = string_from(month_name(month));
    push_char(&mut title, ' ');
    push_signed_decimal(&mut title, year as i64);
    let mut v: Vec<Piece> = Vec::new();
    v.push(piece("Month: ", Some(Tone::Muted), false));
    v.push(Piece { text: title, tone: Some(Tone::Text), bold: true });
    v.push(piece("  ", None, false));
    v.push(piece("[◀", Some(Tone::Accent), false));
    v.push(timeline_piece(year, month, before2));
    v.push(piece("  ", None, false));
    v.push(timeline_piece(year, month, before1));
    v.push(piece("  ", None, false));
    v.push(timeline_piece(year, month, (year, month)));
    v.push(piece("  ", None, false));
    v.push(timeline_piece(year, month, after1));
    v.push(piece("  ", None, false));
    v.push(timeline_piece(year, month, after2));
    v.push(piece("▶]", Some(Tone::Accent), false));
    proof {
        let want = timeline_of(year, month);
        assert(v@.len() == 14);
        assert forall|k: int| 0 <= k < 14 implies #[trigger] pieces_view(v@)[k] == want[k] by {
            assert(pieces_view(v@)[k] == v@[k]@);
        }
    }
    assert(pieces_view(v@) =~= timeline_of(year, month));
    v
}

/// The hint shown when there are no statistics: press `r` to refresh.
pub open spec fn refresh_hint_of(locale: Locale) -> Seq<(Seq<char>, Option<Tone>, bool)> {
    seq![
        (message(locale, TextKey::StatsNoData), Some(Tone::Muted), false),
        ("r"@, Some(Tone::Accent), false),
        (message(locale, TextKey::StatsRefreshHint), Some(Tone::Muted), false),
    ]
}

/// The "press r to refresh" hint of the statistics screens.
pub fn refresh_hint_spans(locale: Locale) -> (r: Vec<Piece>)
    ensures
        pieces_view(r@) == refresh_hint_of(locale),
{
    let mut v: Vec<Piece> = Vec::new();
    v.push(piece(t(locale, TextKey::StatsNoData), Some(Tone::Muted), false));
    v.push(piece("r", Some(Tone::Accent), false));
    v.push(piece(t(locale, TextKey::StatsRefreshHint), Some(Tone::Muted), false));
    assert(pieces_view(v@) =~= refresh_hint_of(locale));
    v
}

/// The amounts of a labelled series.
pub open spec fn series_amounts(series: Seq<(String, i64)>) -> Seq<int> {
    Seq::new(series.len(), |i: int| series[i].1 as int)
}

/// The change from the one but last amount to the last, and the size of
/// the one but last: the two integers a percentage change is the ratio of.
/// Nothing when there are fewer than two amounts or the base is zero.
pub open spec fn change_parts_of(prev: int, current: int) -> Option<(int, int)> {
    if prev == 0 {
        None
    } else {
        Some((current - prev, if prev < 0 { -prev } else { prev }))
    }
}

/// The parts of the last change of a series.
pub open spec fn series_change_of(amounts: Seq<int>) -> Option<(int, int)> {
    if amounts.len() < 2 {
        None
    } else {
        change_parts_of(amounts[amounts.len() - 2], amounts[amounts.len() - 1])
    }
}

/// The parts of the last change of the net (income less expense) of two series.
pub open spec fn net_change_of(income: Seq<int>, expense: Seq<int>) -> Option<(int, int)> {
    if income.len() < 2 || expense.len() < 2 {
        None
    } else {
        change_parts_of(
            income[income.len() - 2] - expense[expense.len() - 2],
            income[income.len() - 1] - expense[expense.len() - 1],
        )
    }
}

/// The change between the last two amounts of a series and the size of the
/// earlier one; the percentage change is their ratio times 100.
pub fn percentage_change_parts(series: &[(String, i64)]) -> (r: Option<(i128, u128)>)
    ensures
        r is None <==> series_change_of(series_amounts(series@)) is None,
        r matches Some(p) ==> (p.0 as int, p.1 as int) == series_change_of(
            series_amounts(series@),
        )->0,
{
    let n = series.len();
    if n < 2 {
        return None;
    }
    let prev = series[n - 2].1 as i128;
    let current = series[n - 1].1 as i128;
    if prev == 0 {
        return None;
    }
    let base = if prev < 0 { -prev } else { prev };
    Some((current - prev, base as u128))
}

/// The change between the last two nets (income less expense) of two series
/// and the size of the earlier net; the percentage change is their ratio
/// times 100.
pub fn net_change_parts(income: &[(String, i64)], expense: &[(String, i64)]) -> (r: Option<
    (i128, u128),
>)
    ensures
        r is None <==> net_change_of(series_amounts(income@), series_amounts(expense@)) is None,
        r matches Some(p) ==> (p.0 as int, p.1 as int) == net_change_of(
            series_amounts(income@),
            series_amounts(expense@),
        )->0,
{
    let ni = income.len();
    let ne = expense.len();
    if ni < 2 || ne < 2 {
        return None;
    }
    let prev_net = income[ni - 2].1 as i128 - expense[ne - 2].1 as i128;
    let current_net = income[ni - 1].1 as i128 - expense[ne - 1].1 as i128;
    if prev_net == 0 {
        return None;
    }
    let base = if prev_net < 0 { -prev_net } else { prev_net };
    Some((current_net - prev_net, base as u128))
}

/// The share of `part` in `whole`, in whole percent rounded down and kept
/// between 0 and 100; 0 when `whole` is not positive.
pub open spec fn share_percent_of(part: int, whole: int) -> int {
    if whole <= 0 || part <= 0 {
        0
    } else if part >= whole {
        100
    } else {
        part * 100 / whole
    }
}

pub(crate) fn share_percent(part: i64, whole: i64) -> (r: u64)
    ensures
        r as int == share_percent_of(part as int, whole as int),
{
    if whole <= 0 || part <= 0 {
        0
    } else if part >= whole {
        100
    } else {
        let p = part as i128 * 100 / whole as i128;
        assert(0 <= (part as int) * 100 / (whole as int) < 100) by (nonlinear_arith)
            requires
                0 < part < whole,
        ;
        p as u64
    }
}

/// The figures of the month summary card.
#[derive(Debug, Clone, Copy, PartialEq, Eq)]
pub struct MonthSummary {
    /// Income less expenses.
    pub net: i128,
    /// The expenses as shown on their row: negative.
    pub expense_shown: i128,
    /// The income bar: the income's share of itself.
    pub income_percent: u64,
    /// The expense bar: the expenses' share of the income (full when there
    /// are expenses and no income).
    pub expense_percent: u64,
    /// The all-time balance of the vault (0 while unknown).
    pub balance: i64,
    /// The two integer parts of the month-over-month change of income.
    pub income_change: Option<(i128, u128)>,
    /// The two integer parts of the month-over-month change of expenses.
    pub expense_change: Option<(i128, u128)>,
}

/// The integer parts of a change, as the two integers they are.
pub open spec fn parts_as_ints(o: Option<(i128, u128)>) -> Option<(int, int)> {
    match o {
        Some(p) => Some((p.0 as int, p.1 as int)),
        None => None,
    }
}

/// The figures of the month summary card for the month's income and
/// expenses, the vault balance and the monthly series of income and expenses.
pub fn month_summary_values(
    income: i64,
    expenses: i64,
    balance: Option<i64>,
    monthly_income: &[(String, i64)],
    monthly_expenses: &[(String, i64)],
) -> (r: MonthSummary)
    ensures
        r.net == income - expenses,
        r.expense_shown == -expenses,
        r.income_percent == share_percent_of(income as int, income as int),
        r.expense_percent == (if income == 0 && expenses > 0 {
            100
        } else {
            share_percent_of(expenses as int, income as int)
        }),
        r.balance == (match balance {
            Some(b) => b,
            None => 0,
        }),
        parts_as_ints(r.income_change) == series_change_of(series_amounts(monthly_income@)),
        parts_as_ints(r.expense_change) == series_change_of(series_amounts(monthly_expenses@)),
{
    let income_percent = share_percent(income, income);
    let expense_percent = if income == 0 && expenses > 0 {
        100
    } else {
        share_percent(expenses, income)
    };
    let income_change = percentage_change_parts(monthly_income);
    let expense_change = percentage_change_parts(monthly_expenses);
    MonthSummary {
        net: income as i128 - expenses as i128,
        expense_shown: -(expenses as i128),
        income_percent,
        expense_percent,
        balance: match balance {
            Some(b) => b,
            None => 0,
        },
        income_change,
        expense_change,
    }
}

/// `s` cut to `max_len` bytes: kept whole when it fits, else its first
/// `max_len - 1` bytes followed by `…`.
pub open spec fn truncate_string_of(s: &str, max_len: usize) -> Seq<char> {
    if s.spec_bytes().len() <= max_len {
        s@
    } else {
        decode_utf8(s.spec_bytes().take(max_len - 1)) + "…"@
    }
}

/// Shortens a text to `max_len` bytes, ending it with `…` when cut.
pub fn truncate_string(s: &str, max_len: usize) -> (r: String)
    requires
        s.spec_bytes().len() > max_len ==> max_len >= 1 && is_char_boundary(
            s.spec_bytes(),
            max_len - 1,
        ),
    ensures
        r@ == truncate_string_of(s, max_len),
{
    let byte_len = s.as_bytes().len();
    if byte_len <= max_len {
        string_from(s)
    } else {
        let (head, _) = s.split_at(max_len - 1);
        proof {
            vstd::utf8::encode_utf8_decode_utf8(head@);
            assert(s.spec_bytes().take(max_len - 1) =~= s.spec_bytes().subrange(0, max_len - 1));
            assert(head.spec_bytes() == vstd::utf8::encode_utf8(head@));
            assert(decode_utf8(s.spec_bytes().take(max_len - 1)) == head@);
        }
        let mut r = string_from(head);
        r.append("…");
        r
    }
}

/// The icon of a category whose name, in lowercase, is `lower`.
pub open spec fn category_icon_for(lower: Seq<char>) -> Seq<char> {
    if has_substring(lower, "food"@) || has_substring(lower, "grocer"@) || has_substring(lower, "restaurant"@) || has_substring(lower, "ristorante"@) || has_substring(lower, "spesa"@) || has_substring(lower, "alimentar"@) || has_substring(lower, "cibo"@) {
        "🍴"@
    } else if has_substring(lower, "house"@) || has_substring(lower, "rent"@) || has_substring(lower, "home"@) || has_substring(lower, "casa"@) || has_substring(lower, "affitto"@) {
        "🏠"@
    } else if has_substring(lower, "transport"@) || has_substring(lower, "trasport"@) || has_substring(lower, "car"@) || has_substring(lower, "gas"@) || has_substring(lower, "benzina"@) || has_substring(lower, "auto"@) {
        "🚗"@
    } else if has_substring(lower, "health"@) || has_substring(lower, "medical"@) || has_substring(lower, "medic"@) || has_substring(lower, "farmac"@) || has_substring(lower, "salute"@) {
        "🏥"@
    } else if has_substring(lower, "entertain"@) || has_substring(lower, "fun"@) || has_substring(lower, "divertiment"@) || has_substring(lower, "cinema"@) || has_substring(lower, "svago"@) {
        "🎬"@
    } else if has_substring(lower, "shop"@) || has_substring(lower, "cloth"@) || has_substring(lower, "abbigliam"@) || has_substring(lower, "vestit"@) || has_substring(lower, "acquist"@) {
        "🛒"@
    } else if has_substring(lower, "bill"@) || has_substring(lower, "utilit"@) || has_substring(lower, "bolletta"@) {
        "💡"@
    } else if has_substring(lower, "subscri"@) || has_substring(lower, "streaming"@) || has_substring(lower, "abbonament"@) {
        "📱"@
    } else if has_substring(lower, "travel"@) || has_substring(lower, "vacanz"@) || has_substring(lower, "viaggio"@) {
        "🛫"@
    } else if has_substring(lower, "educat"@) || has_substring(lower, "school"@) || has_substring(lower, "universit"@) || has_substring(lower, "scuola"@) {
        "📚"@
    } else if has_substring(lower, "assicuraz"@) || has_substring(lower, "insurance"@) {
        "🔒"@
    } else {
        "📁"@
    }
}

/// Law: every category icon is one character and no variation selector, so
/// that a terminal gives it the width it gives each of its characters.
pub proof fn law_category_icon_is_one_char(lower: Seq<char>)
    ensures
        category_icon_for(lower).len() == 1,
        category_icon_for(lower)[0] != '\u{FE0F}',
{
    reveal_strlit("🍴");
    reveal_strlit("🏠");
    reveal_strlit("🚗");
    reveal_strlit("🏥");
    reveal_strlit("🎬");
    reveal_strlit("🛒");
    reveal_strlit("💡");
    reveal_strlit("📱");
    reveal_strlit("🛫");
    reveal_strlit("📚");
    reveal_strlit("🔒");
    reveal_strlit("📁");
}

/// What `str::to_lowercase` gives for `s`.
pub uninterp spec fn std_to_lowercase(s: Seq<char>) -> Seq<char>;

/// Lowercase ASCII: `A` through `Z` become `a` through `z`; everything else stays.
pub open spec fn ascii_lowercase(s: Seq<char>) -> Seq<char> {
    Seq::new(
        s.len(),
        |i: int|
            if 'A' <= s[i] && s[i] <= 'Z' {
                ((s[i] as u32) + 32) as char
            } else {
                s[i]
            },
    )
}

/// Every character of `s` is ASCII.
pub open spec fn all_ascii(s: Seq<char>) -> bool {
    forall|i: int| 0 <= i < s.len() ==> (#[trigger] s[i] as u32) < 128
}

/// `str::to_lowercase`: the Unicode lowercase mapping of the text.  The
/// contract names the result and states that on ASCII text it is the ASCII
/// lowercase mapping, as the standard library documents; the mapping of other
/// characters is left unstated.
#[verifier::external_body]
pub(crate) fn lowercase(s: &str) -> (r: String)
    ensures
        r@ == std_to_lowercase(s@),
        all_ascii(s@) ==> r@ == ascii_lowercase(s@),
{
    s.to_lowercase()
}

/// The icon of a category from its name already in lowercase.
pub fn category_icon_of_lowercase(lower: &str) -> (r: &'static str)
    ensures
        r@ == category_icon_for(lower@),
{
    let lower = to_chars(lower);
    if contains_text(&lower, "food") || contains_text(&lower, "grocer") || contains_text(&lower, "restaurant") || contains_text(&lower, "ristorante") || contains_text(&lower, "spesa") || contains_text(&lower, "alimentar") || contains_text(&lower, "cibo") {
        "🍴"
    } else if contains_text(&lower, "house") || contains_text(&lower, "rent") || contains_text(&lower, "home") || contains_text(&lower, "casa") || contains_text(&lower, "affitto") {
        "🏠"
    } else if contains_text(&lower, "transport") || contains_text(&lower, "trasport") || contains_text(&lower, "car") || contains_text(&lower, "gas") || contains_text(&lower, "benzina") || contains_text(&lower, "auto") {
        "🚗"
    } else if contains_text(&lower, "health") || contains_text(&lower, "medical") || contains_text(&lower, "medic") || contains_text(&lower, "farmac") || contains_text(&lower, "salute") {
        "🏥"
    } else if contains_text(&lower, "entertain") || contains_text(&lower, "fun") || contains_text(&lower, "divertiment") || contains_text(&lower, "cinema") || contains_text(&lower, "svago") {
        "🎬"
    } else if contains_text(&lower, "shop") || contains_text(&lower, "cloth") || contains_text(&lower, "abbigliam") || contains_text(&lower, "vestit") || contains_text(&lower, "acquist") {
        "🛒"
    } else if contains_text(&lower, "bill") || contains_text(&lower, "utilit") || contains_text(&lower, "bolletta") {
        "💡"
    } else if contains_text(&lower, "subscri") || contains_text(&lower, "streaming") || contains_text(&lower, "abbonament") {
        "📱"
    } else if contains_text(&lower, "travel") || contains_text(&lower, "vacanz") || contains_text(&lower, "viaggio") {
        "🛫"
    } else if contains_text(&lower, "educat") || contains_text(&lower, "school") || contains_text(&lower, "universit") || contains_text(&lower, "scuola") {
        "📚"
    } else if contains_text(&lower, "assicuraz") || contains_text(&lower, "insurance") {
        "🔒"
    } else {
        "📁"
    }
}

/// An icon for a category, from words in its name (English or Italian).
pub fn get_category_icon(category: &str) -> (r: &'static str)
    ensures
        r@ == category_icon_for(std_to_lowercase(category@)),
        all_ascii(category@) ==> r@ == category_icon_for(ascii_lowercase(category@)),
{
    let lower = lowercase(category);
    category_icon_of_lowercase(lower.as_str())
}

} // verus!
