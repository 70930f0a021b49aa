//! The form of a recurring transaction: ten labelled fields, the error and
//! the keys.

use super::recurring::{
    flow_name_at_index, frequency_key, frequency_label, resolve_flow_name, resolve_wallet_name,
    wallet_name_at_index,
};
use super::settings::run;
use super::state::{AppState, RecurringFormField, RecurringKind};
use super::{LineView, Piece, Tone, lines_view, piece, pieces_view};
use crate::strings::string_from;
use crate::text::{TextKey, message, t};
use vstd::prelude::*;

verus! {

/// A field of the recurring form: a marker when focused, the label and a
/// colon (accented and bold when focused, muted otherwise), and the value.
pub open spec fn recurring_field_of(label: Seq<char>, value: Seq<char>, focused: bool) -> LineView {
    let look = if focused { Tone::Accent } else { Tone::Muted };
    seq![
        run(if focused { "▸ "@ } else { "  "@ }, Some(look), focused),
        run(label + ": "@, Some(look), focused),
        run(value, Some(Tone::Text), false),
    ]
}

/// The rows of the recurring form of `state`: the kind, amount, wallet,
/// flow, category, note, frequency, day, start and end date; then the
/// error (an empty row without one) and the save and cancel keys.
pub open spec fn recurring_form_of(state: AppState) -> Seq<LineView> {
    let f = state.recurring.form;
    let l = state.locale;
    let field = |label: TextKey, value: Seq<char>, which: RecurringFormField|
        recurring_field_of(message(l, label), value, f.focus == which);
    seq![
        field(
            TextKey::RecurringFormKind,
            message(
                l,
                match f.kind {
                    RecurringKind::Income => TextKey::RecurringKindIncome,
                    RecurringKind::Expense => TextKey::RecurringKindExpense,
                },
            ),
            RecurringFormField::Kind,
        ),
        field(TextKey::RecurringFormAmount, f.amount@, RecurringFormField::Amount),
        field(TextKey::FormWallet, wallet_name_at_index(state, f.wallet_index), RecurringFormField::Wallet),
        field(TextKey::FormFlow, flow_name_at_index(state, f.flow_index), RecurringFormField::Flow),
        field(TextKey::FormCategory, f.category@, RecurringFormField::Category),
        field(TextKey::FormNote, f.note@, RecurringFormField::Note),
        field(TextKey::RecurringFormFrequency, message(l, frequency_key(f.frequency)), RecurringFormField::Frequency),
        field(TextKey::RecurringFormDay, f.day_of_period@, RecurringFormField::DayOfPeriod),
        field(TextKey::RecurringFormStartDate, f.start_date@, RecurringFormField::StartDate),
        field(TextKey::RecurringFormEndDate, f.end_date@, RecurringFormField::EndDate),
        match f.error {
            Some(e) => seq![run(e@, Some(Tone::Negative), false)],
            None => Seq::empty(),
        },
        seq![
            run(message(l, TextKey::FormHintSave), Some(Tone::Accent), false),
            run(message(l, TextKey::FormHintCancel), Some(Tone::Muted), false),
        ],
    ]
}

fn recurring_field(label: &str, value: &str, focused: bool) -> (r: Vec<Piece>)
    ensures
        pieces_view(r@) == recurring_field_of(label@, value@, focused),
{
    let look = if focused { Tone::Accent } else { Tone::Muted };
    let mut text = string_from(label);
    text.append(": ");
    let mut v: Vec<Piece> = Vec::new();
    v.push(piece(if focused { "▸ " } else { "  " }, Some(look), focused));
    v.push(Piece { text, tone: Some(look), bold: focused });
    v.push(piece(value, Some(Tone::Text), false));
    assert(pieces_view(v@) =~= recurring_field_of(label@, value@, focused));
    v
}

/// The recurring form: its title (the locale's, between spaces) and rows.
#[derive(Debug, Clone)]
pub struct RecurringFormScreen {
    pub title: String,
    pub rows: Vec<Vec<Piece>>,
}

/// The recurring form of `state`; see [`recurring_form_of`].
pub fn recurring_form(state: &AppState) -> (r: RecurringFormScreen)
    ensures
        r.title@ == " "@ + message(state.locale, TextKey::RecurringFormTitle) + " "@,
        lines_view(r.rows@) == recurring_form_of(*state),
{
    let f = &state.recurring.form;
    let l = state.locale;
    let kind = t(
        l,
        match f.kind {
            RecurringKind::Income => TextKey::RecurringKindIncome,
            RecurringKind::Expense => TextKey::RecurringKindExpense,
        },
    );
    let wallet = resolve_wallet_name(state, f.wallet_index);
    let flow = resolve_flow_name(state, f.flow_index);
    let mut rows: Vec<Vec<Piece>> = Vec::new();
    rows.push(recurring_field(t(l, TextKey::RecurringFormKind), kind, f.focus == RecurringFormField::Kind));
    rows.push(recurring_field(t(l, TextKey::RecurringFormAmount), f.amount.as_str(), f.focus == RecurringFormField::Amount));
    rows.push(recurring_field(t(l, TextKey::FormWallet), wallet.as_str(), f.focus == RecurringFormField::Wallet));
    rows.push(recurring_field(t(l, TextKey::FormFlow), flow.as_str(), f.focus == RecurringFormField::Flow));
    rows.push(recurring_field(t(l, TextKey::FormCategory), f.category.as_str(), f.focus == RecurringFormField::Category));
    rows.push(recurring_field(t(l, TextKey::FormNote), f.note.as_str(), f.focus == RecurringFormField::Note));
    rows.push(recurring_field(
        t(l, TextKey::RecurringFormFrequency),
        frequency_label(f.frequency, l),
        f.focus == RecurringFormField::Frequency,
    ));
    rows.push(recurring_field(t(l, TextKey::RecurringFormDay), f.day_of_period.as_str(), f.focus == RecurringFormField::DayOfPeriod));
    rows.push(recurring_field(t(l, TextKey::RecurringFormStartDate), f.start_date.as_str(), f.focus == RecurringFormField::StartDate));
    rows.push(recurring_field(t(l, TextKey::RecurringFormEndDate), f.end_date.as_str(), f.focus == RecurringFormField::EndDate));
    let mut error: Vec<Piece> = Vec::new();
    if let Some(e) = &f.error {
        error.push(Piece { text: e.clone(), tone: Some(Tone::Negative), bold: false });
    }
    let ghost ev = pieces_view(error@);
    rows.push(error);
    let mut keys: Vec<Piece> = Vec::new();
    keys.push(piece(t(l, TextKey::FormHintSave), Some(Tone::Accent), false));
    keys.push(piece(t(l, TextKey::FormHintCancel), Some(Tone::Muted), false));
    let ghost kv = pieces_view(keys@);
    rows.push(keys);
    let ghost want = recurring_form_of(*state);
    assert(ev =~= want[10]);
    assert(kv =~= want[11]);
    assert(lines_view(rows@) =~= want);
    let mut title = string_from(" ");
    title.append(t(l, TextKey::RecurringFormTitle));
    title.append(" ");
    RecurringFormScreen { title, rows }
}

} // verus!
