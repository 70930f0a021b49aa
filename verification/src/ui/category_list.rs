//! The category breakdown of the statistics screen: one row per category,
//! with its rank, icon, name, amount, bar and share of the total.

use super::entities::{truncate, truncate_of};
use super::settings::run;
use super::state::AppState;
use super::stats::{category_icon_for, get_category_icon, share_percent, share_percent_of, std_to_lowercase};
use super::{LineView, Piece, Tone, lines_view, piece, pieces_view};
use crate::strings::{decimal, pad_left, pad_right, padded_left, padded_right, push_decimal, string_from};
use crate::text::{TextKey, message, t};
use vstd::prelude::*;

verus! {


/// The sum of the amounts of a breakdown.
pub open spec fn breakdown_total(b: Seq<(String, i64)>) -> int
    decreases b.len(),
{
    if b.len() == 0 {
        0
    } else {
        breakdown_total(b.drop_last()) + b.last().1
    }
}

/// The total of the breakdown can be summed in an `i64`: each partial sum
/// fits.
pub open spec fn breakdown_fits(b: Seq<(String, i64)>) -> bool {
    forall|n: int| 0 <= n <= b.len() ==> i64::MIN <= #[trigger] breakdown_total(b.take(n)) <= i64::MAX
}

/// The row of the category at `rank` (from 0): its rank from 1, its icon,
/// its name cut to 13 and padded to 14 characters, its written amount
/// right-aligned in 10 columns, its bar, its share of the total in percent
/// right-aligned in 2 columns, and a warning mark from 40% up.
pub open spec fn category_row_of(
    rank: nat,
    category: Seq<char>,
    amount: Seq<char>,
    bar: Seq<char>,
    percent: nat,
) -> LineView {
    seq![
        run(decimal(rank + 1) + ". "@, Some(Tone::Muted), false),
        run(category_icon_for(std_to_lowercase(category)) + " "@, Some(Tone::Muted), false),
        run(pad_right(truncate_of(category, 13), 14), Some(Tone::Text), false),
        run(pad_left(amount, 10), Some(Tone::Negative), false),
        run(" "@, None, false),
        run(bar, Some(Tone::Negative), false),
        run(" "@ + pad_left(decimal(percent), 2) + "%"@, Some(Tone::Muted), false),
        if percent >= 40 {
            run(" ❗"@, Some(Tone::Warning), false)
        } else {
            run("   "@, None, false)
        },
    ]
}

/// The rows of the category breakdown of `state` in `height` rows: the
/// first categories, each with its share of the total of all of them.
/// `amounts` and `bars` hold the written amount and the bar of each.
pub open spec fn category_rows_of(state: AppState, height: int, amounts: Seq<String>, bars: Seq<String>) -> Seq<
    LineView,
> {
    let b = state.stats.category_breakdown@;
    let total = breakdown_total(b);
    Seq::new(
        (if height < b.len() { height } else { b.len() as int }) as nat,
        |k: int|
            category_row_of(
                k as nat,
                b[k].0@,
                amounts[k]@,
                bars[k]@,
                share_percent_of(b[k].1 as int, total) as nat,
            ),
    )
}

fn breakdown_sum(b: &Vec<(String, i64)>) -> (r: i64)
    requires
        breakdown_fits(b@),
    ensures
        r == breakdown_total(b@),
{
    let mut total: i64 = 0;
    let mut i: usize = 0;
    while i < b.len()
        invariant
            i <= b@.len(),
            breakdown_fits(b@),
            total == breakdown_total(b@.take(i as int)),
        decreases b.len() - i,
    {
        assert(b@.take(i + 1).drop_last() =~= b@.take(i as int));
        assert(i64::MIN <= breakdown_total(b@.take(i + 1)) <= i64::MAX);
        total = total + b[i].1;
        i = i + 1;
    }
    assert(b@.take(b@.len() as int) =~= b@);
    total
}

fn category_row(rank: usize, category: &str, amount: &str, bar: &str, percent: u64) -> (r: Vec<Piece>)
    requires
        rank < usize::MAX,
    ensures
        pieces_view(r@) == category_row_of(rank as nat, category@, amount@, bar@, percent as nat),
{
    let mut number = String::new();
    push_decimal(&mut number, (rank + 1) as u64);
    number.append(". ");
    let mut icon = string_from(get_category_icon(category));
    icon.append(" ");
    let mut share = String::new();
    push_decimal(&mut share, percent);
    let mut shown = string_from(" ");
    shown.append(padded_left(share.as_str(), 2).as_str());
    shown.append("%");
    let mut v: Vec<Piece> = Vec::new();
    v.push(Piece { text: number, tone: Some(Tone::Muted), bold: false });
    v.push(Piece { text: icon, tone: Some(Tone::Muted), bold: false });
    v.push(Piece { text: padded_right(truncate(category, 13).as_str(), 14), tone: Some(Tone::Text), bold: false });
    v.push(Piece { text: padded_left(amount, 10), tone: Some(Tone::Negative), bold: false });
    v.push(piece(" ", None, false));
    v.push(piece(bar, Some(Tone::Negative), false));
    v.push(Piece { text: shown, tone: Some(Tone::Muted), bold: false });
    if percent >= 40 {
        v.push(piece(" ❗", Some(Tone::Warning), false));
    } else {
        v.push(piece("   ", None, false));
    }
    assert(pieces_view(v@) =~= category_row_of(rank as nat, category@, amount@, bar@, percent as nat));
    v
}

/// The category breakdown card.
#[derive(Debug, Clone)]
pub struct CategoryList {
    pub title: &'static str,
    pub rows: Vec<Vec<Piece>>,
}

/// The category breakdown card of `state` in `height` rows, under the
/// locale's title: see [`category_rows_of`].
pub fn category_list(state: &AppState, height: u16, amounts: &[String], bars: &[String]) -> (r: CategoryList)
    requires
        amounts@.len() == state.stats.category_breakdown@.len(),
        bars@.len() == state.stats.category_breakdown@.len(),
        breakdown_fits(state.stats.category_breakdown@),
    ensures
        r.title@ == message(state.locale, TextKey::StatsCategoryBreakdown),
        lines_view(r.rows@) == category_rows_of(*state, height as int, amounts@, bars@),
{
    let b = &state.stats.category_breakdown;
    let total = breakdown_sum(b);
    let n: usize = if (height as usize) < b.len() { height as usize } else { b.len() };
    let ghost want = category_rows_of(*state, height as int, amounts@, bars@);
    let mut rows: Vec<Vec<Piece>> = Vec::new();
    let mut k: usize = 0;
    while k < n
        invariant
            k <= n,
            n <= b@.len(),
            n == want.len(),
            b == &state.stats.category_breakdown,
            total == breakdown_total(b@),
            amounts@.len() == b@.len(),
            bars@.len() == b@.len(),
            want == category_rows_of(*state, height as int, amounts@, bars@),
            rows@.len() == k,
            forall|j: int| 0 <= j < k ==> lines_view(rows@)[j] == #[trigger] want[j],
        decreases n - k,
    {
        let (category, amount) = &b[k];
        let percent = share_percent(*amount, total);
        let row = category_row(k, category.as_str(), amounts[k].as_str(), bars[k].as_str(), percent);
        let ghost before = rows@;
        rows.push(row);
        proof {
            assert forall|j: int| 0 <= j < k + 1 implies lines_view(rows@)[j] == #[trigger] want[j] by {
                if j < k {
                    assert(rows@[j] == before[j]);
                    assert(lines_view(before)[j] == want[j]);
                }
            }
        }
        k = k + 1;
    }
    assert(lines_view(rows@) =~= want);
    CategoryList { title: t(state.locale, TextKey::StatsCategoryBreakdown), rows }
}

} // verus!
