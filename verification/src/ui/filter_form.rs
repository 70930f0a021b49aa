//! The filter form of the transaction list: the date range, the kinds to
//! show and the keys.

use super::forms::{transfer_field, transfer_field_line};
use super::settings::run;
use super::state::{AppState, FilterField};
use super::transactions::{filter_toggle_text, filter_toggle_with_icon};
use super::{LineView, Piece, Tone, lines_view, piece, pieces_view};
use vstd::prelude::*;

verus! {

/// The toggle of a kind: its text, positive when shown, muted when not.
pub open spec fn toggle_of(icon: Seq<char>, label: Seq<char>, key: Seq<char>, enabled: bool) -> (
    Seq<char>,
    Option<Tone>,
    bool,
) {
    run(filter_toggle_text(icon, label, key, enabled), Some(if enabled { Tone::Positive } else { Tone::Muted }), false)
}

/// The lines of the filter form of `state`: the two dates, a gap, the kinds
/// header (accented when focused) and the two rows of kind toggles, a gap,
/// the keys, and the error of the last apply.
pub open spec fn filter_form_of(state: AppState) -> Seq<LineView> {
    let f = state.transactions.filter;
    let kinds = f.focus == FilterField::Kinds;
    let gap = run("    "@, None, false);
    let lines: Seq<LineView> = seq![
        transfer_field_line("From    "@, f.from_input@, f.focus == FilterField::From),
        transfer_field_line("To      "@, f.to_input@, f.focus == FilterField::To),
        Seq::empty(),
        seq![
            run("Transaction Types "@, Some(if kinds { Tone::Accent } else { Tone::Text }), kinds),
            run("(press key to toggle)"@, Some(Tone::Muted), false),
        ],
        seq![
            run("  "@, None, false),
            toggle_of("▲"@, "Income"@, "i"@, f.kind_income),
            gap,
            toggle_of("▼"@, "Expense"@, "e"@, f.kind_expense),
            gap,
            toggle_of("↩"@, "Refund"@, "r"@, f.kind_refund),
        ],
        seq![
            run("  "@, None, false),
            toggle_of("⇄"@, "Wallet Transfer"@, "w"@, f.kind_transfer_wallet),
            gap,
            toggle_of("⇄"@, "Flow Transfer"@, "f"@, f.kind_transfer_flow),
        ],
        Seq::empty(),
        seq![
            run("[Tab]"@, Some(Tone::Accent), false),
            run(" next  "@, Some(Tone::Muted), false),
            run("[Enter]"@, Some(Tone::Accent), false),
            run(" apply  "@, Some(Tone::Muted), false),
            run("[Esc]"@, Some(Tone::Accent), false),
            run(" cancel"@, Some(Tone::Muted), false),
        ],
    ];
    match f.error {
        Some(e) => lines.push(seq![run(e@, Some(Tone::Negative), false)]),
        None => lines,
    }
}

fn toggle(icon: &str, label: &str, key: &str, enabled: bool) -> (r: Piece)
    ensures
        r@ == toggle_of(icon@, label@, key@, enabled),
{
    let (text, tone) = filter_toggle_with_icon(icon, label, key, enabled);
    Piece { text, tone: Some(tone), bold: false }
}

fn no_pieces() -> (r: Vec<Piece>)
    ensures
        pieces_view(r@) == Seq::<(Seq<char>, Option<Tone>, bool)>::empty(),
{
    let v: Vec<Piece> = Vec::new();
    assert(pieces_view(v@) =~= Seq::<(Seq<char>, Option<Tone>, bool)>::empty());
    v
}

/// The lines of the filter form; see [`filter_form_of`].
pub fn filter_form_lines(state: &AppState) -> (r: Vec<Vec<Piece>>)
    ensures
        lines_view(r@) == filter_form_of(*state),
{
    let f = &state.transactions.filter;
    let kinds = f.focus == FilterField::Kinds;
    let mut lines: Vec<Vec<Piece>> = Vec::new();
    lines.push(transfer_field("From    ", f.from_input.as_str(), f.focus == FilterField::From));
    lines.push(transfer_field("To      ", f.to_input.as_str(), f.focus == FilterField::To));
    lines.push(no_pieces());
    let mut header: Vec<Piece> = Vec::new();
    header.push(piece("Transaction Types ", Some(if kinds { Tone::Accent } else { Tone::Text }), kinds));
    header.push(piece("(press key to toggle)", Some(Tone::Muted), false));
    let ghost hv = pieces_view(header@);
    lines.push(header);
    let mut first: Vec<Piece> = Vec::new();
    first.push(piece("  ", None, false));
    first.push(toggle("▲", "Income", "i", f.kind_income));
    first.push(piece("    ", None, false));
    first.push(toggle("▼", "Expense", "e", f.kind_expense));
    first.push(piece("    ", None, false));
    first.push(toggle("↩", "Refund", "r", f.kind_refund));
    let ghost fv = pieces_view(first@);
    lines.push(first);
    let mut second: Vec<Piece> = Vec::new();
    second.push(piece("  ", None, false));
    second.push(toggle("⇄", "Wallet Transfer", "w", f.kind_transfer_wallet));
    second.push(piece("    ", None, false));
    second.push(toggle("⇄", "Flow Transfer", "f", f.kind_transfer_flow));
    let ghost sv = pieces_view(second@);
    lines.push(second);
    lines.push(no_pieces());
    let mut keys: Vec<Piece> = Vec::new();
    keys.push(piece("[Tab]", Some(Tone::Accent), false));
    keys.push(piece(" next  ", Some(Tone::Muted), false));
    keys.push(piece("[Enter]", Some(Tone::Accent), false));
    keys.push(piece(" apply  ", Some(Tone::Muted), false));
    keys.push(piece("[Esc]", Some(Tone::Accent), false));
    keys.push(piece(" cancel", Some(Tone::Muted), false));
    let ghost kv = pieces_view(keys@);
    lines.push(keys);
    let ghost base = lines_view(lines@);
    let ghost want = filter_form_of(*state);
    assert(hv =~= want[3]);
    assert(fv =~= want[4]);
    assert(sv =~= want[5]);
    assert(kv =~= want[7]);
    match &f.error {
        Some(e) => {
            let mut el: Vec<Piece> = Vec::new();
            el.push(Piece { text: e.clone(), tone: Some(Tone::Negative), bold: false });
            assert(pieces_view(el@) =~= seq![run(e@, Some(Tone::Negative), false)]);
            lines.push(el);
            assert(lines_view(lines@) =~= want);
        },
        None => {
            assert(lines_view(lines@) =~= want);
        },
    }
    lines
}

} // verus!
