//! The rows of the home screen's activity feed and the figures of the month
//! summary.

use super::entities::{truncate, truncate_of};
use super::settings::run;
use super::state::{CalendarDate, TransactionKind};
use super::transactions::{
    day_month_text, day_month_year_text, format_date, kind_chip, kind_chip_of, valid_date,
};
use super::{Piece, Tone, lines_view, piece, pieces_view};
use crate::strings::{pad_left, pad_right, padded_left, padded_right, push_spaces, spaces, string_from};
use crate::text::{Locale, TextKey, message, t};
use vstd::prelude::*;

verus! {

/// The label of a day of the activity feed: `Today`, `Yesterday`, the day
/// and month within the current year, else day, month and year.
pub open spec fn feed_date_label_of(date: CalendarDate, today: CalendarDate, yesterday: CalendarDate) -> Seq<char> {
    if date == today {
        "Today"@
    } else if date == yesterday {
        "Yesterday"@
    } else if date.year == today.year {
        day_month_text(date)
    } else {
        day_month_year_text(date)
    }
}

/// The label of a day of the activity feed.
pub fn feed_date_label(date: CalendarDate, today: CalendarDate, yesterday: CalendarDate) -> (r: String)
    requires
        valid_date(date),
    ensures
        r@ == feed_date_label_of(date, today, yesterday),
{
    if date == today {
        string_from("Today")
    } else if date == yesterday {
        string_from("Yesterday")
    } else if date.year == today.year {
        format_date(date, "%d %b")
    } else {
        format_date(date, "%d %b %Y")
    }
}

/// An entry of the activity feed, in feed order.
#[derive(Debug, Clone, Copy)]
pub enum FeedEntry {
    /// The flow alert at `index` among the alerts.
    Alert { index: usize },
    /// The transaction at `index` among the transactions, made on `date`.
    Transaction { index: usize, date: CalendarDate },
}

/// A row of the activity feed.
#[derive(Debug, Clone)]
pub enum FeedRow {
    /// The alert of the feed entry `entry`.
    Alert { entry: usize, selected: bool },
    /// The blank line between two days.
    Gap,
    /// The label of a day.
    DateHeader { label: String },
    /// The month's insight, shown once under the first day.
    Insight,
    /// The transaction of the feed entry `entry`.
    Transaction { entry: usize, selected: bool },
}

/// [`FeedRow`] as a value.
pub enum FeedRowView {
    Alert { entry: int, selected: bool },
    Gap,
    DateHeader { label: Seq<char> },
    Insight,
    Transaction { entry: int, selected: bool },
}

impl View for FeedRow {
    type V = FeedRowView;

    open spec fn view(&self) -> FeedRowView {
        match self {
            FeedRow::Alert { entry, selected } => FeedRowView::Alert { entry: *entry as int, selected: *selected },
            FeedRow::Gap => FeedRowView::Gap,
            FeedRow::DateHeader { label } => FeedRowView::DateHeader { label: label@ },
            FeedRow::Insight => FeedRowView::Insight,
            FeedRow::Transaction { entry, selected } => FeedRowView::Transaction {
                entry: *entry as int,
                selected: *selected,
            },
        }
    }
}

/// The feed rows, each as its view.
pub open spec fn feed_view(v: Seq<FeedRow>) -> Seq<FeedRowView> {
    Seq::new(v.len(), |i: int| v[i]@)
}

/// The rows of entry `k` when the previous day shown is `last` and the
/// insight has been placed when `placed`.
pub open spec fn entry_rows(
    entries: Seq<FeedEntry>,
    k: int,
    today: CalendarDate,
    yesterday: CalendarDate,
    selected: int,
    has_insight: bool,
    last: Option<CalendarDate>,
    placed: bool,
) -> Seq<FeedRowView> {
    match entries[k] {
        FeedEntry::Alert { .. } => seq![FeedRowView::Alert { entry: k, selected: k == selected }],
        FeedEntry::Transaction { date, .. } => {
            let row = FeedRowView::Transaction { entry: k, selected: k == selected };
            if last == Some(date) {
                seq![row]
            } else {
                let gap: Seq<FeedRowView> = if last is Some {
                    seq![FeedRowView::Gap]
                } else {
                    Seq::empty()
                };
                let insight: Seq<FeedRowView> = if has_insight && !placed {
                    seq![FeedRowView::Insight]
                } else {
                    Seq::empty()
                };
                gap + seq![FeedRowView::DateHeader { label: feed_date_label_of(date, today, yesterday) }]
                    + insight + seq![row]
            }
        },
    }
}

/// The day shown after entry `k`.
pub open spec fn last_after(entries: Seq<FeedEntry>, k: int, last: Option<CalendarDate>) -> Option<
    CalendarDate,
> {
    match entries[k] {
        FeedEntry::Alert { .. } => last,
        FeedEntry::Transaction { date, .. } => Some(date),
    }
}

/// Whether the insight is placed after entry `k`.
pub open spec fn placed_after(
    entries: Seq<FeedEntry>,
    k: int,
    has_insight: bool,
    last: Option<CalendarDate>,
    placed: bool,
) -> bool {
    match entries[k] {
        FeedEntry::Alert { .. } => placed,
        FeedEntry::Transaction { date, .. } => placed || (last != Some(date) && has_insight),
    }
}

/// The rows of the entries from `k` on: each day's transactions under a
/// header with the day's label, days apart by a blank line, the insight
/// under the first header, and alerts where they stand.
pub open spec fn feed_rows_from(
    entries: Seq<FeedEntry>,
    k: int,
    today: CalendarDate,
    yesterday: CalendarDate,
    selected: int,
    has_insight: bool,
    last: Option<CalendarDate>,
    placed: bool,
) -> Seq<FeedRowView>
    decreases entries.len() - k,
{
    if k < 0 || k >= entries.len() {
        Seq::empty()
    } else {
        entry_rows(entries, k, today, yesterday, selected, has_insight, last, placed)
            + feed_rows_from(
            entries,
            k + 1,
            today,
            yesterday,
            selected,
            has_insight,
            last_after(entries, k, last),
            placed_after(entries, k, has_insight, last, placed),
        )
    }
}

/// The days of the feed's transactions exist.
pub open spec fn feed_dates_valid(entries: Seq<FeedEntry>) -> bool {
    forall|k: int|
        0 <= k < entries.len() ==> (#[trigger] entries[k] matches FeedEntry::Transaction { date, .. }
            ==> valid_date(date))
}

/// The rows of the activity feed: alerts where they stand, transactions
/// under a header for each run of the same day (runs apart by a blank
/// line), and, when there is an insight, the insight under the first day's
/// header; `selected` is the position of the selected entry.
#[verifier::spinoff_prover]
#[verifier::rlimit(40)]
pub fn activity_feed_rows(
    entries: &[FeedEntry],
    today: CalendarDate,
    yesterday: CalendarDate,
    selected: usize,
    has_insight: bool,
) -> (r: Vec<FeedRow>)
    requires
        feed_dates_valid(entries@),
    ensures
        feed_view(r@) == feed_rows_from(
            entries@,
            0,
            today,
            yesterday,
            selected as int,
            has_insight,
            None,
            false,
        ),
{
    let ghost all = feed_rows_from(entries@, 0, today, yesterday, selected as int, has_insight, None, false);
    let mut rows: Vec<FeedRow> = Vec::new();
    let mut last: Option<CalendarDate> = None;
    let mut placed = false;
    let mut k: usize = 0;
    while k < entries.len()
        invariant
            k <= entries@.len(),
            feed_dates_valid(entries@),
            all == feed_view(rows@) + feed_rows_from(
                entries@,
                k as int,
                today,
                yesterday,
                selected as int,
                has_insight,
                last,
                placed,
            ),
        decreases entries.len() - k,
    {
        let ghost before = feed_view(rows@);
        let ghost step = entry_rows(entries@, k as int, today, yesterday, selected as int, has_insight, last, placed);
        match entries[k] {
            FeedEntry::Alert { .. } => {
                rows.push(FeedRow::Alert { entry: k, selected: k == selected });
            },
            FeedEntry::Transaction { date, .. } => {
                assert(valid_date(date)) by {
                    assert(entries@[k as int] matches FeedEntry::Transaction { date: d, .. } && d == date);
                }
                if last != Some(date) {
                    if last.is_some() {
                        rows.push(FeedRow::Gap);
                    }
                    rows.push(FeedRow::DateHeader { label: feed_date_label(date, today, yesterday) });
                    if has_insight && !placed {
                        rows.push(FeedRow::Insight);
                        placed = true;
                    }
                    last = Some(date);
                }
                rows.push(FeedRow::Transaction { entry: k, selected: k == selected });
            },
        }
        assert(feed_view(rows@) =~= before + step);
        k = k + 1;
    }
    assert(feed_view(rows@) =~= all);
    rows
}

/// The empty activity feed: no activity yet, and how to add a transaction.
pub open spec fn feed_empty_lines_of(locale: Locale) -> Seq<Seq<(Seq<char>, Option<Tone>, bool)>> {
    seq![
        Seq::empty(),
        seq![run(message(locale, TextKey::HomeNoActivityYet), Some(Tone::Muted), false)],
        Seq::empty(),
        seq![run(message(locale, TextKey::HomeAddFirstTxn), Some(Tone::Muted), false)],
    ]
}

/// The lines of the empty activity feed.
pub fn feed_empty_lines(locale: Locale) -> (r: Vec<Vec<Piece>>)
    ensures
        lines_view(r@) == feed_empty_lines_of(locale),
{
    let mut a: Vec<Piece> = Vec::new();
    a.push(piece(t(locale, TextKey::HomeNoActivityYet), Some(Tone::Muted), false));
    let mut b: Vec<Piece> = Vec::new();
    b.push(piece(t(locale, TextKey::HomeAddFirstTxn), Some(Tone::Muted), false));
    let ghost av = pieces_view(a@);
    let ghost bv = pieces_view(b@);
    let e1: Vec<Piece> = Vec::new();
    let e2: Vec<Piece> = Vec::new();
    let ghost ev = pieces_view(e1@);
    assert(ev =~= Seq::<(Seq<char>, Option<Tone>, bool)>::empty());
    assert(pieces_view(e2@) =~= Seq::<(Seq<char>, Option<Tone>, bool)>::empty());
    let ghost ev2 = pieces_view(e2@);
    assert(av =~= seq![run(message(locale, TextKey::HomeNoActivityYet), Some(Tone::Muted), false)]);
    assert(bv =~= seq![run(message(locale, TextKey::HomeAddFirstTxn), Some(Tone::Muted), false)]);
    let mut lines: Vec<Vec<Piece>> = Vec::new();
    lines.push(e1);
    lines.push(a);
    lines.push(e2);
    lines.push(b);
    assert(lines_view(lines@) =~= seq![ev, av, ev2, bv]);
    assert(lines_view(lines@) =~= feed_empty_lines_of(locale));
    lines
}

/// The activity feed: its empty state when it has no entry, else its rows.
#[derive(Debug, Clone)]
pub enum Feed {
    Empty(Vec<Vec<Piece>>),
    Rows(Vec<FeedRow>),
}

/// The activity feed of `entries`: only the empty state when there are
/// none, else the rows of [`activity_feed_rows`].
pub fn activity_feed(
    entries: &[FeedEntry],
    today: CalendarDate,
    yesterday: CalendarDate,
    selected: usize,
    has_insight: bool,
    locale: Locale,
) -> (r: Feed)
    requires
        feed_dates_valid(entries@),
    ensures
        entries@.len() == 0 ==> (r matches Feed::Empty(l) && lines_view(l@) == feed_empty_lines_of(locale)),
        entries@.len() > 0 ==> (r matches Feed::Rows(rows) && feed_view(rows@) == feed_rows_from(
            entries@,
            0,
            today,
            yesterday,
            selected as int,
            has_insight,
            None,
            false,
        )),
{
    if entries.len() == 0 {
        Feed::Empty(feed_empty_lines(locale))
    } else {
        Feed::Rows(activity_feed_rows(entries, today, yesterday, selected, has_insight))
    }
}

/// The amount of a feed transaction: expenses shown negative, whatever the
/// stored sign.
pub open spec fn feed_amount_of(kind: TransactionKind, amount_minor: i64) -> int {
    if kind is Expense {
        if amount_minor < 0 { amount_minor as int } else { -amount_minor }
    } else {
        amount_minor as int
    }
}

/// The tone of a feed amount: positive, negative, or plain at zero.
pub open spec fn feed_amount_tone(amount: int) -> Tone {
    if amount > 0 {
        Tone::Positive
    } else if amount < 0 {
        Tone::Negative
    } else {
        Tone::Text
    }
}

/// The width left for the note of a feed row in an area `width` columns
/// wide (at least 8).
pub open spec fn note_width_of(width: int, emoji: bool) -> int {
    let left = 2 + 1 + 1 + (if emoji { 3int } else { 0 }) + 14 + (if width >= 50 { 7int } else { 0 }) + 2;
    let room = if width >= 70 { width - (left + 14) } else { width - left };
    if room < 8 { 8 } else { room }
}

/// The columns fixed left of the note.
pub open spec fn left_fixed_of(width: int, emoji: bool) -> int {
    2 + 1 + 1 + (if emoji { 3int } else { 0 }) + 14 + (if width >= 50 { 7int } else { 0 }) + 2
}

/// The text of an optional string.
pub open spec fn opt_text(o: Option<&str>) -> Option<Seq<char>> {
    match o {
        Some(t) => Some(t@),
        None => None,
    }
}

/// The start of a feed row: the icon of the kind.
pub open spec fn head_section(kind: TransactionKind) -> Seq<(Seq<char>, Option<Tone>, bool)> {
    seq![
        run("  "@, None, false),
        run(kind_chip_of(kind).0, Some(kind_chip_of(kind).1), false),
        run(" "@, None, false),
    ]
}

/// The amount of a feed row: the emoji when given, then the amount with `+`
/// before a positive one, right-aligned in 14 columns.
pub open spec fn amount_section(signed: int, amount: Seq<char>, emoji: Option<Seq<char>>) -> Seq<
    (Seq<char>, Option<Tone>, bool),
> {
    (match emoji {
        Some(e) => seq![run(e + " "@, Some(feed_amount_tone(signed)), false)],
        None => Seq::empty(),
    }) + seq![
        run(pad_left((if signed > 0 { "+"@ } else { ""@ }) + amount, 14), Some(feed_amount_tone(signed)), false),
    ]
}

/// The time (when shown) and the note (or `-`) cut and padded to `nw`.
pub open spec fn note_section(note: Option<Seq<char>>, nw: int, time: Seq<char>, show_time: bool) -> Seq<
    (Seq<char>, Option<Tone>, bool),
> {
    (if show_time {
        seq![run("  "@, None, false), run(time, Some(Tone::Muted), false)]
    } else {
        Seq::empty()
    }) + seq![
        run("  "@, None, false),
        run(
            pad_right(
                truncate_of(
                    match note {
                        Some(n) => n,
                        None => "-"@,
                    },
                    nw as usize,
                ),
                nw as nat,
            ),
            Some(Tone::Text),
            false,
        ),
    ]
}

/// The category column: the gap, then the category cut to 12 characters.
pub open spec fn meta_section(category: Option<Seq<char>>, pad: int) -> Seq<(Seq<char>, Option<Tone>, bool)> {
    seq![run(spaces(pad as nat), None, false)] + match category {
        Some(c) => seq![run("🏷"@ + truncate_of(c, 12), Some(Tone::Accent), false)],
        None => Seq::<(Seq<char>, Option<Tone>, bool)>::empty(),
    }
}

/// A transaction row of the activity feed in an area `width` columns wide:
/// the kind's icon, the emoji of the amount when given, the amount (`amount`
/// is its written form) right-aligned in 14 columns with `+` before a
/// positive one (expenses are shown negative), the time from 50 columns on,
/// the note (or `-`) cut and padded to its width, and from 70 columns on the
/// category.
pub open spec fn feed_tx_line_of(
    kind: TransactionKind,
    amount_minor: i64,
    amount: Seq<char>,
    note: Option<Seq<char>>,
    category: Option<Seq<char>>,
    time: Seq<char>,
    width: int,
    emoji: Option<Seq<char>>,
) -> Seq<(Seq<char>, Option<Tone>, bool)> {
    let nw = note_width_of(width, emoji is Some);
    let used = left_fixed_of(width, emoji is Some) + nw + 14;
    let pad = if width > used { width - used } else { 0 };
    head_section(kind) + amount_section(feed_amount_of(kind, amount_minor), amount, emoji) + note_section(
        note,
        nw,
        time,
        width >= 50,
    ) + (if width >= 70 {
        meta_section(category, pad)
    } else {
        Seq::empty()
    })
}

/// Law: in a feed row only an expense is shown negative. The amount piece
/// (after the kind's icon, and after the emoji when there is one) writes
/// the amount of any other kind as stored, with `+` before a positive one,
/// in the positive tone when above zero and the negative tone when below;
/// an expense is written without `+`, in the negative tone unless zero.
pub proof fn law_feed_only_expenses_negative(
    kind: TransactionKind,
    amount_minor: i64,
    amount: Seq<char>,
    note: Option<Seq<char>>,
    category: Option<Seq<char>>,
    time: Seq<char>,
    width: int,
    emoji: Option<Seq<char>>,
)
    ensures
        ({
            let line = feed_tx_line_of(kind, amount_minor, amount, note, category, time, width, emoji);
            let piece = line[if emoji is Some { 4int } else { 3int }];
            if kind is Expense {
                piece == run(
                    pad_left(amount, 14),
                    Some(if amount_minor == 0 { Tone::Text } else { Tone::Negative }),
                    false,
                )
            } else {
                piece == run(
                    pad_left((if amount_minor > 0 { "+"@ } else { ""@ }) + amount, 14),
                    Some(
                        if amount_minor > 0 {
                            Tone::Positive
                        } else if amount_minor < 0 {
                            Tone::Negative
                        } else {
                            Tone::Text
                        },
                    ),
                    false,
                )
            }
        }),
{
    let line = feed_tx_line_of(kind, amount_minor, amount, note, category, time, width, emoji);
    let head = head_section(kind);
    let mid = amount_section(feed_amount_of(kind, amount_minor), amount, emoji);
    assert(head.len() == 3);
    let k: int = if emoji is Some { 4int } else { 3int };
    assert(line[k] == mid[k - 3]);
    reveal_strlit("");
    assert(""@ + amount =~= amount);
    let signed = feed_amount_of(kind, amount_minor);
    assert(mid[k - 3] == run(
        pad_left((if signed > 0 { "+"@ } else { ""@ }) + amount, 14),
        Some(feed_amount_tone(signed)),
        false,
    ));
}

/// Law: a feed row starts with the kind's icon, shows the time from 50
/// columns on, the note (or `-`) in at least 8 columns, and from 70 columns
/// on ends with the category when there is one.
pub proof fn law_feed_row_parts(
    kind: TransactionKind,
    amount_minor: i64,
    amount: Seq<char>,
    note: Option<Seq<char>>,
    category: Option<Seq<char>>,
    time: Seq<char>,
    width: int,
    emoji: Option<Seq<char>>,
)
    ensures
        ({
            let line = feed_tx_line_of(kind, amount_minor, amount, note, category, time, width, emoji);
            let e: int = if emoji is Some { 1 } else { 0 };
            let t: int = if width >= 50 { 2 } else { 0 };
            let nw = note_width_of(width, emoji is Some);
            &&& line.len() == 4 + e + t + 2 + (if width >= 70 {
                1 + (if category is Some { 1int } else { 0 })
            } else {
                0
            })
            &&& line[1] == run(kind_chip_of(kind).0, Some(kind_chip_of(kind).1), false)
            &&& width >= 50 ==> line[5 + e] == run(time, Some(Tone::Muted), false)
            &&& nw >= 8
            &&& line[5 + e + t] == run(
                pad_right(
                    truncate_of(
                        match note {
                            Some(n) => n,
                            None => "-"@,
                        },
                        nw as usize,
                    ),
                    nw as nat,
                ),
                Some(Tone::Text),
                false,
            )
            &&& width >= 70 && category is Some ==> line.last() == run(
                "🏷"@ + truncate_of(category->0, 12),
                Some(Tone::Accent),
                false,
            )
            &&& width < 70 ==> line.len() == 6 + e + t
        }),
{
    let line = feed_tx_line_of(kind, amount_minor, amount, note, category, time, width, emoji);
    let e: int = if emoji is Some { 1 } else { 0 };
    let head = head_section(kind);
    let mid = amount_section(feed_amount_of(kind, amount_minor), amount, emoji);
    let nw = note_width_of(width, emoji is Some);
    let ns = note_section(note, nw, time, width >= 50);
    assert(head.len() == 3);
    assert(mid.len() == 1 + e);
    assert(line[1] == head[1]);
    if width >= 50 {
        assert(line[5 + e] == ns[1]);
    }
    let t: int = if width >= 50 { 2 } else { 0 };
    assert(line[5 + e + t] == ns[t + 1]);
}

fn joined(a: Vec<Piece>, b: Vec<Piece>) -> (r: Vec<Piece>)
    ensures
        pieces_view(r@) == pieces_view(a@) + pieces_view(b@),
{
    let mut a = a;
    let mut b = b;
    let ghost av = pieces_view(a@);
    let ghost bv = pieces_view(b@);
    a.append(&mut b);
    assert(pieces_view(a@) =~= av + bv);
    a
}

fn amount_pieces(signed: i64, amount: &str, emoji: Option<&str>) -> (r: Vec<Piece>)
    ensures
        pieces_view(r@) == amount_section(signed as int, amount@, opt_text(emoji)),
{
    let tone = if signed > 0 {
        Tone::Positive
    } else if signed < 0 {
        Tone::Negative
    } else {
        Tone::Text
    };
    let mut v: Vec<Piece> = Vec::new();
    if let Some(e) = emoji {
        let mut text = string_from(e);
        text.append(" ");
        v.push(Piece { text, tone: Some(tone), bold: false });
    }
    let mut shown = string_from(if signed > 0 { "+" } else { "" });
    shown.append(amount);
    v.push(Piece { text: padded_left(shown.as_str(), 14), tone: Some(tone), bold: false });
    assert(pieces_view(v@) =~= (match emoji {
        Some(e) => seq![run(e@ + " "@, Some(tone), false)],
        None => Seq::empty(),
    }) + seq![run(pad_left((if signed > 0 { "+"@ } else { ""@ }) + amount@, 14), Some(tone), false)]);
    v
}

fn note_pieces(note: Option<&str>, nw: usize, time: &str, show_time: bool) -> (r: Vec<Piece>)
    requires
        nw >= 8,
    ensures
        pieces_view(r@) == note_section(opt_text(note), nw as int, time@, show_time),
{
    let mut v: Vec<Piece> = Vec::new();
    if show_time {
        v.push(piece("  ", None, false));
        v.push(piece(time, Some(Tone::Muted), false));
    }
    let ghost before = pieces_view(v@);
    v.push(piece("  ", None, false));
    let text: &str = match note {
        Some(n) => n,
        None => "-",
    };
    let cut = truncate(text, nw);
    v.push(Piece { text: padded_right(cut.as_str(), nw), tone: Some(Tone::Text), bold: false });
    assert(pieces_view(v@) =~= before + seq![
        run("  "@, None, false),
        run(pad_right(truncate_of(text@, nw), nw as nat), Some(Tone::Text), false),
    ]);
    v
}

fn meta_pieces(category: Option<&str>, pad: usize) -> (r: Vec<Piece>)
    ensures
        pieces_view(r@) == meta_section(opt_text(category), pad as int),
{
    let mut gap = String::new();
    push_spaces(&mut gap, pad);
    let mut v: Vec<Piece> = Vec::new();
    v.push(Piece { text: gap, tone: None, bold: false });
    let ghost before = pieces_view(v@);
    if let Some(c) = category {
        let mut text = string_from("🏷");
        text.append(truncate(c, 12).as_str());
        v.push(Piece { text, tone: Some(Tone::Accent), bold: false });
    }
    assert(pieces_view(v@) =~= seq![run(spaces(pad as nat), None, false)] + match category {
        Some(c) => seq![run("🏷"@ + truncate_of(c@, 12), Some(Tone::Accent), false)],
        None => Seq::<(Seq<char>, Option<Tone>, bool)>::empty(),
    });
    v
}

/// A transaction row of the activity feed; `amount` is the written form of
/// the shown amount (expenses negative).
pub fn feed_transaction_line(
    kind: TransactionKind,
    amount_minor: i64,
    amount: &str,
    note: Option<&str>,
    category: Option<&str>,
    time: &str,
    width: u16,
    emoji: Option<&str>,
) -> (r: Vec<Piece>)
    requires
        !(kind is Expense && amount_minor == i64::MIN),
    ensures
        pieces_view(r@) == feed_tx_line_of(
            kind,
            amount_minor,
            amount@,
            opt_text(note),
            opt_text(category),
            time@,
            width as int,
            opt_text(emoji),
        ),
{
    let signed: i64 = if kind == TransactionKind::Expense {
        if amount_minor < 0 { amount_minor } else { -amount_minor }
    } else {
        amount_minor
    };
    let (icon, icon_tone) = kind_chip(kind);
    let w = width as usize;
    let left: usize = 2 + 1 + 1 + (if emoji.is_some() { 3 } else { 0 }) + 14 + (if w >= 50 { 7 } else { 0 }) + 2;
    let room: usize = if w >= 70 {
        if w > left + 14 { w - (left + 14) } else { 0 }
    } else {
        if w > left { w - left } else { 0 }
    };
    let nw: usize = if room < 8 { 8 } else { room };
    assert(nw as int == note_width_of(width as int, emoji is Some));
    assert(left as int == left_fixed_of(width as int, emoji is Some));
    let mut head: Vec<Piece> = Vec::new();
    head.push(piece("  ", None, false));
    head.push(piece(icon, Some(icon_tone), false));
    head.push(piece(" ", None, false));
    assert(pieces_view(head@) =~= head_section(kind));
    let v = joined(head, amount_pieces(signed, amount, emoji));
    let v = joined(v, note_pieces(note, nw, time, w >= 50));
    let used = left + nw + 14;
    let v = if w >= 70 {
        joined(v, meta_pieces(category, if w > used { w - used } else { 0 }))
    } else {
        v
    };
    proof {
        assert(signed as int == feed_amount_of(kind, amount_minor));
        assert(pieces_view(v@) =~= feed_tx_line_of(
            kind,
            amount_minor,
            amount@,
            opt_text(note),
            opt_text(category),
            time@,
            width as int,
            opt_text(emoji),
        ));
    }
    v
}

/// An alert row of the activity feed: the flow's name (cut to 18
/// characters) and either `deficit` or the threshold it fell under, with
/// its balance; `threshold` and `balance` are their written forms.
pub open spec fn feed_alert_line_of(name: Seq<char>, critical: bool, threshold: Seq<char>, balance: Seq<char>) -> Seq<
    (Seq<char>, Option<Tone>, bool),
> {
    let label = if critical { "deficit"@ } else { "≤ "@ + threshold };
    seq![
        run("  "@, None, false),
        run("⚠"@, Some(Tone::Warning), false),
        run(" "@, None, false),
        run("Alert: "@, Some(Tone::Warning), true),
        run(truncate_of(name, 18) + " "@, Some(Tone::Text), false),
        run(label + " ("@ + balance + ")"@, Some(Tone::Warning), false),
    ]
}

/// An alert row of the activity feed.
pub fn feed_alert_line(name: &str, critical: bool, threshold: &str, balance: &str) -> (r: Vec<Piece>)
    ensures
        pieces_view(r@) == feed_alert_line_of(name@, critical, threshold@, balance@),
{
    let mut who = truncate(name, 18);
    who.append(" ");
    let mut what = string_from(if critical { "deficit" } else { "≤ " });
    if !critical {
        what.append(threshold);
    }
    what.append(" (");
    what.append(balance);
    what.append(")");
    let mut v: Vec<Piece> = Vec::new();
    v.push(piece("  ", None, false));
    v.push(piece("⚠", Some(Tone::Warning), false));
    v.push(piece(" ", None, false));
    v.push(piece("Alert: ", Some(Tone::Warning), true));
    v.push(Piece { text: who, tone: Some(Tone::Text), bold: false });
    v.push(Piece { text: what, tone: Some(Tone::Warning), bold: false });
    assert(pieces_view(v@) =~= feed_alert_line_of(name@, critical, threshold@, balance@));
    v
}

} // verus!
