//! The detail panel of a transaction: its fields and its legs.

use super::settings::run;
use super::state::{AppState, LegTarget, TransactionDetail, TransactionLeg};
use super::transactions::{
    day_month_year_text, flow_label_of, format_date, kind_chip, kind_chip_of, leg_amount_span,
    resolve_flow_name, resolve_wallet_name, sign_tone, valid_date, wallet_label_of,
};
use super::{LineView, Piece, Tone, lines_view, piece, pieces_view};
use crate::strings::{pad_right, padded_right, push_char, push_decimal, string_from, zero_padded, decimal};
use crate::text::{Locale, TextKey, message, t};
use vstd::prelude::*;

verus! {

/// When a transaction happened, as `%d %b %Y %H:%M`.
pub open spec fn when_text(d: TransactionDetail) -> Seq<char> {
    day_month_year_text(d.date) + seq![' '] + zero_padded(d.hour as nat, 2) + seq![':'] + zero_padded(
        d.minute as nat,
        2,
    )
}

/// A field line of the detail: the muted label, a colon and the value.
pub open spec fn field_line_of(label: Seq<char>, value: Seq<char>) -> LineView {
    seq![run(label, Some(Tone::Muted), false), run(": "@ + value, None, false)]
}

/// The fields of the detail: the kind's icon and whether it is voided, when,
/// the written amount, the category after `#` (or `-`) and the note (or `-`).
pub open spec fn info_lines_of(d: TransactionDetail, amount: Seq<char>, l: Locale) -> Seq<LineView> {
    seq![
        seq![
            run(message(l, TextKey::TxnDetailKind), Some(Tone::Muted), false),
            run(": "@, None, false),
            run(kind_chip_of(d.kind).0, Some(kind_chip_of(d.kind).1), false),
            run("   "@, None, false),
            run(message(l, TextKey::TxnDetailVoided), Some(Tone::Muted), false),
            run(": "@, None, false),
            run(
                message(l, if d.voided { TextKey::TxnDetailVoidedYes } else { TextKey::TxnDetailVoidedNo }),
                Some(if d.voided { Tone::Negative } else { Tone::Text }),
                false,
            ),
        ],
        field_line_of(message(l, TextKey::TxnDetailWhen), when_text(d)),
        field_line_of(message(l, TextKey::TxnDetailAmount), amount),
        field_line_of(
            message(l, TextKey::TxnDetailCategory),
            match d.category {
                Some(c) => seq!['#'] + c@,
                None => "-"@,
            },
        ),
        field_line_of(
            message(l, TextKey::TxnDetailNote),
            match d.note {
                Some(n) => n@,
                None => "-"@,
            },
        ),
    ]
}

/// A leg line: `Wallet` or `Flow` padded to six columns, a colon, the name
/// of its target, and its written amount in the tone of its sign.
pub open spec fn leg_line_of(state: AppState, leg: TransactionLeg, amount: Seq<char>) -> LineView {
    let (label, name) = match leg.target {
        LegTarget::Wallet(id) => (message(state.locale, TextKey::TxnDetailLegWallet), wallet_label_of(state, id)),
        LegTarget::Flow(id) => (message(state.locale, TextKey::TxnDetailLegFlow), flow_label_of(state, id)),
    };
    seq![
        run(pad_right(label, 6), Some(Tone::Muted), false),
        run(": "@, None, false),
        run(name, None, false),
        run("  "@, None, false),
        run(amount, Some(sign_tone(leg.amount_minor as int)), false),
    ]
}

/// The detail panel of a transaction.
#[derive(Debug, Clone)]
pub enum TransactionDetailPanel {
    /// No detail loaded: the panel's title and message.
    Empty { title: &'static str, message: &'static str },
    /// The fields under their title, and the legs under theirs.
    Detail { title: &'static str, info: Vec<Vec<Piece>>, legs_title: &'static str, legs: Vec<Vec<Piece>> },
}

/// The date and time of a detail can be written.
pub open spec fn detail_writable(d: TransactionDetail) -> bool {
    valid_date(d.date) && d.hour < 24 && d.minute < 60
}

fn two_digits(s: &mut String, n: u32)
    requires
        n < 100,
    ensures
        final(s)@ == old(s)@ + zero_padded(n as nat, 2),
{
    if n < 10 {
        push_char(s, '0');
    }
    push_decimal(s, n as u64);
    proof {
        if n < 10 {
            assert(decimal(n as nat).len() == 1);
            assert(zero_padded(n as nat, 2) =~= seq!['0'] + decimal(n as nat));
        } else {
            assert(decimal(n as nat).len() == 2) by {
                assert(decimal(n as nat) == decimal(n as nat / 10).push(
                    crate::strings::digit_char(n as nat % 10),
                ));
                assert(decimal(n as nat / 10).len() == 1);
            }
        }
    }
    assert(final(s)@ =~= old(s)@ + zero_padded(n as nat, 2));
}

fn field_line(label: &str, value: &str) -> (r: Vec<Piece>)
    ensures
        pieces_view(r@) == field_line_of(label@, value@),
{
    let mut text = string_from(": ");
    text.append(value);
    let mut v: Vec<Piece> = Vec::new();
    v.push(piece(label, Some(Tone::Muted), false));
    v.push(Piece { text, tone: None, bold: false });
    assert(pieces_view(v@) =~= field_line_of(label@, value@));
    v
}

fn info_lines(d: &TransactionDetail, amount: &str, l: Locale) -> (r: Vec<Vec<Piece>>)
    requires
        detail_writable(*d),
    ensures
        lines_view(r@) == info_lines_of(*d, amount@, l),
{
    let (icon, icon_tone) = kind_chip(d.kind);
    let mut first: Vec<Piece> = Vec::new();
    first.push(piece(t(l, TextKey::TxnDetailKind), Some(Tone::Muted), false));
    first.push(piece(": ", None, false));
    first.push(piece(icon, Some(icon_tone), false));
    first.push(piece("   ", None, false));
    first.push(piece(t(l, TextKey::TxnDetailVoided), Some(Tone::Muted), false));
    first.push(piece(": ", None, false));
    first.push(piece(
        t(l, if d.voided { TextKey::TxnDetailVoidedYes } else { TextKey::TxnDetailVoidedNo }),
        Some(if d.voided { Tone::Negative } else { Tone::Text }),
        false,
    ));
    let mut when = format_date(d.date, "%d %b %Y");
    push_char(&mut when, ' ');
    two_digits(&mut when, d.hour);
    push_char(&mut when, ':');
    two_digits(&mut when, d.minute);
    let category = match &d.category {
        Some(c) => {
            let mut s = string_from("#");
            s.append(c.as_str());
            proof {
                reveal_strlit("#");
            }
            assert(s@ =~= seq!['#'] + c@);
            s
        },
        None => string_from("-"),
    };
    let note = match &d.note {
        Some(n) => n.clone(),
        None => string_from("-"),
    };
    let ghost fv = pieces_view(first@);
    let mut lines: Vec<Vec<Piece>> = Vec::new();
    lines.push(first);
    lines.push(field_line(t(l, TextKey::TxnDetailWhen), when.as_str()));
    lines.push(field_line(t(l, TextKey::TxnDetailAmount), amount));
    lines.push(field_line(t(l, TextKey::TxnDetailCategory), category.as_str()));
    lines.push(field_line(t(l, TextKey::TxnDetailNote), note.as_str()));
    let ghost want = info_lines_of(*d, amount@, l);
    assert(when@ =~= when_text(*d));
    assert(fv =~= want[0]);
    assert(lines_view(lines@) =~= want);
    lines
}

fn leg_line(state: &AppState, leg: &TransactionLeg, amount: &str) -> (r: Vec<Piece>)
    ensures
        pieces_view(r@) == leg_line_of(*state, *leg, amount@),
{
    let (label, name) = match leg.target {
        LegTarget::Wallet(id) => (t(state.locale, TextKey::TxnDetailLegWallet), resolve_wallet_name(state, id)),
        LegTarget::Flow(id) => (t(state.locale, TextKey::TxnDetailLegFlow), resolve_flow_name(state, id)),
    };
    let mut v: Vec<Piece> = Vec::new();
    v.push(Piece { text: padded_right(label, 6), tone: Some(Tone::Muted), bold: false });
    v.push(piece(": ", None, false));
    v.push(Piece { text: name, tone: None, bold: false });
    v.push(piece("  ", None, false));
    v.push(piece(amount, Some(leg_amount_span(leg.amount_minor)), false));
    assert(pieces_view(v@) =~= leg_line_of(*state, *leg, amount@));
    v
}

/// The detail panel of `state`'s selected transaction: without a detail,
/// the panel's title and the no-detail message; else the fields (see
/// [`info_lines_of`]) and a line per leg (see [`leg_line_of`]), under the
/// locale's titles. `amount` is the written amount of the transaction and
/// `leg_amounts` that of each leg.
pub fn transaction_detail_panel(state: &AppState, amount: &str, leg_amounts: &[String]) -> (r:
    TransactionDetailPanel)
    requires
        state.transactions.detail matches Some(d) ==> detail_writable(d) && leg_amounts@.len() == d.legs@.len(),
    ensures
        state.transactions.detail is None ==> (r matches TransactionDetailPanel::Empty { title, message: m }
            && title@ == message(state.locale, TextKey::DialogTransaction) && m@ == message(
            state.locale,
            TextKey::UiNoDetailAvailable,
        )),
        state.transactions.detail matches Some(d) ==> (r matches TransactionDetailPanel::Detail {
            title,
            info,
            legs_title,
            legs,
        } && {
            &&& title@ == message(state.locale, TextKey::TxnDetailTitle)
            &&& lines_view(info@) == info_lines_of(d, amount@, state.locale)
            &&& legs_title@ == message(state.locale, TextKey::TxnDetailLegsTitle)
            &&& lines_view(legs@) == Seq::new(
                d.legs@.len(),
                |i: int| leg_line_of(*state, d.legs@[i], leg_amounts@[i]@),
            )
        }),
{
    let l = state.locale;
    let d = match &state.transactions.detail {
        Some(d) => d,
        None => {
            return TransactionDetailPanel::Empty {
                title: t(l, TextKey::DialogTransaction),
                message: t(l, TextKey::UiNoDetailAvailable),
            };
        },
    };
    let info = info_lines(d, amount, l);
    let ghost want = Seq::new(d.legs@.len(), |i: int| leg_line_of(*state, d.legs@[i], leg_amounts@[i]@));
    let mut legs: Vec<Vec<Piece>> = Vec::new();
    let mut i: usize = 0;
    while i < d.legs.len()
        invariant
            i <= d.legs@.len(),
            leg_amounts@.len() == d.legs@.len(),
            want == Seq::new(d.legs@.len(), |i: int| leg_line_of(*state, d.legs@[i], leg_amounts@[i]@)),
            lines_view(legs@) == want.take(i as int),
        decreases d.legs.len() - i,
    {
        let line = leg_line(state, &d.legs[i], leg_amounts[i].as_str());
        let ghost before = lines_view(legs@);
        legs.push(line);
        assert(lines_view(legs@) =~= before.push(want[i as int]));
        assert(want.take(i + 1) =~= want.take(i as int).push(want[i as int]));
        i = i + 1;
    }
    assert(want.take(d.legs@.len() as int) =~= want);
    TransactionDetailPanel::Detail {
        title: t(l, TextKey::TxnDetailTitle),
        info,
        legs_title: t(l, TextKey::TxnDetailLegsTitle),
        legs,
    }
}

} // verus!
