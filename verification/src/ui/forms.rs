//! The transaction and transfer forms.

use super::settings::run;
use super::state::{
    AppState, FlowInfo, FlowQuery, TransactionFormField, TransactionKind, TransactionsMode,
    TransferField, WalletInfo, find_flow, find_wallet, flow_from, wallet_from,
};
use super::vault::{active_flow_names, active_wallet_names, flow_rows, wallet_rows};
use super::{LineView, Piece, Tone, lines_view, piece, pieces_view};
use crate::strings::{
    pad_right, padded_right, push_char, string_from, string_of, string_views, to_chars, trim, trim_bounds,
};
use crate::text::{Locale, TextKey, message, t};
use vstd::prelude::*;

verus! {


// ---------------------------------------------------------------- transfer

/// A field of the transfer form: the label (padded to eight columns), a
/// colon and the value; accented and bold when focused.
pub open spec fn transfer_field_line(label: Seq<char>, value: Seq<char>, focused: bool) -> LineView {
    seq![
        run(label, Some(if focused { Tone::Accent } else { Tone::Text }), focused),
        run(": "@, None, false),
        run(value, Some(Tone::Text), focused),
    ]
}

/// The entry at `i` of `names`, or `-`.
pub open spec fn name_or_dash(names: Seq<Seq<char>>, i: usize) -> Seq<char> {
    if i < names.len() {
        names[i as int]
    } else {
        "-"@
    }
}

/// The list of the transfer form: each name, marked as the source or the
/// destination.
pub open spec fn transfer_items(names: Seq<Seq<char>>, from: usize, to: usize) -> Seq<Seq<char>> {
    Seq::new(
        names.len(),
        |i: int|
            names[i] + if i == from {
                " [from]"@
            } else if i == to {
                " [to]"@
            } else {
                ""@
            },
    )
}

/// The transfer form as values.
pub struct TransferView {
    pub title: Seq<char>,
    pub lines: Seq<LineView>,
    pub items: Seq<Seq<char>>,
}

/// The transfer form of `state`: nothing without a snapshot or outside the
/// transfer modes.
pub open spec fn transfer_form_of(state: AppState) -> Option<TransferView> {
    match state.snapshot {
        None => None,
        Some(snap) => {
            let tr = state.transactions.transfer;
            let wallet_mode = state.transactions.mode == TransactionsMode::TransferWallet;
            let flow_mode = state.transactions.mode == TransactionsMode::TransferFlow;
            if !wallet_mode && !flow_mode {
                None
            } else {
                let names = if wallet_mode {
                    active_wallet_names(snap.wallets@)
                } else {
                    active_flow_names(snap.flows@)
                };
                let l = state.locale;
                let title = message(
                    l,
                    if wallet_mode {
                        if tr.editing { TextKey::TransferEditWalletTitle } else { TextKey::TransferWalletTitle }
                    } else {
                        if tr.editing { TextKey::TransferEditFlowTitle } else { TextKey::TransferFlowTitle }
                    },
                );
                let when = if trim(tr.occurred_at@).len() == 0 { "-"@ } else { tr.occurred_at@ };
                let lines: Seq<LineView> = seq![
                    transfer_field_line(pad_right(message(l, TextKey::TransferFrom), 8), name_or_dash(names, tr.from_index), tr.focus == TransferField::From),
                    transfer_field_line(pad_right(message(l, TextKey::TransferTo), 8), name_or_dash(names, tr.to_index), tr.focus == TransferField::To),
                    transfer_field_line("Amount  "@, tr.amount@, tr.focus == TransferField::Amount),
                    transfer_field_line("Note    "@, tr.note@, tr.focus == TransferField::Note),
                    transfer_field_line("When    "@, when, tr.focus == TransferField::OccurredAt),
                    seq![run(message(l, TextKey::TransferFormHints), Some(Tone::Muted), false)],
                ];
                let lines = match tr.error {
                    Some(e) => lines.push(seq![run(e@, Some(Tone::Negative), false)]),
                    None => lines,
                };
                Some(TransferView { title, lines, items: transfer_items(names, tr.from_index, tr.to_index) })
            }
        },
    }
}

/// The transfer form: its title, lines and list.
#[derive(Debug, Clone)]
pub struct TransferScreen {
    pub title: String,
    pub lines: Vec<Vec<Piece>>,
    pub items: Vec<String>,
}

impl View for TransferScreen {
    type V = TransferView;

    open spec fn view(&self) -> TransferView {
        TransferView {
            title: self.title@,
            lines: lines_view(self.lines@),
            items: string_views(self.items@),
        }
    }
}

pub(crate) fn transfer_field(label: &str, value: &str, focused: bool) -> (r: Vec<Piece>)
    ensures
        pieces_view(r@) == transfer_field_line(label@, value@, focused),
{
    let mut v: Vec<Piece> = Vec::new();
    v.push(piece(label, Some(if focused { Tone::Accent } else { Tone::Text }), focused));
    v.push(piece(": ", None, false));
    v.push(piece(value, Some(Tone::Text), focused));
    assert(pieces_view(v@) =~= transfer_field_line(label@, value@, focused));
    v
}

/// Whether a text is blank.
fn is_blank(s: &str) -> (r: bool)
    ensures
        r == (trim(s@).len() == 0),
{
    let cs = to_chars(s);
    let (lo, hi) = trim_bounds(&cs);
    lo == hi
}

/// The transfer form, when the screen shows one.
pub fn transfer_form(state: &AppState) -> (r: Option<TransferScreen>)
    ensures
        r is None <==> transfer_form_of(*state) is None,
        r matches Some(f) ==> f@ == transfer_form_of(*state)->0,
{
    let snap = match &state.snapshot {
        Some(s) => s,
        None => return None,
    };
    let tr = &state.transactions.transfer;
    let wallet_mode = state.transactions.mode == TransactionsMode::TransferWallet;
    let flow_mode = state.transactions.mode == TransactionsMode::TransferFlow;
    if !wallet_mode && !flow_mode {
        return None;
    }
    let rows = if wallet_mode { wallet_rows(&snap.wallets) } else { flow_rows(&snap.flows) };
    let ghost names = if wallet_mode {
        active_wallet_names(snap.wallets@)
    } else {
        active_flow_names(snap.flows@)
    };
    assert(string_views(rows@).drop_first() =~= names);
    let n = rows.len() - 1;
    let l = state.locale;
    let title = t(
        l,
        if wallet_mode {
            if tr.editing { TextKey::TransferEditWalletTitle } else { TextKey::TransferWalletTitle }
        } else {
            if tr.editing { TextKey::TransferEditFlowTitle } else { TextKey::TransferFlowTitle }
        },
    );
    let from = if tr.from_index < n { rows[tr.from_index + 1].clone() } else { string_from("-") };
    let to = if tr.to_index < n { rows[tr.to_index + 1].clone() } else { string_from("-") };
    assert(from@ == name_or_dash(names, tr.from_index));
    assert(to@ == name_or_dash(names, tr.to_index));
    let when: &str = if is_blank(tr.occurred_at.as_str()) { "-" } else { tr.occurred_at.as_str() };
    let mut lines: Vec<Vec<Piece>> = Vec::new();
    lines.push(transfer_field(padded_right(t(l, TextKey::TransferFrom), 8).as_str(), from.as_str(), tr.focus == TransferField::From));
    lines.push(transfer_field(padded_right(t(l, TextKey::TransferTo), 8).as_str(), to.as_str(), tr.focus == TransferField::To));
    lines.push(transfer_field("Amount  ", tr.amount.as_str(), tr.focus == TransferField::Amount));
    lines.push(transfer_field("Note    ", tr.note.as_str(), tr.focus == TransferField::Note));
    lines.push(transfer_field("When    ", when, tr.focus == TransferField::OccurredAt));
    let mut hints: Vec<Piece> = Vec::new();
    hints.push(piece(t(l, TextKey::TransferFormHints), Some(Tone::Muted), false));
    assert(pieces_view(hints@) =~= seq![run(message(l, TextKey::TransferFormHints), Some(Tone::Muted), false)]);
    lines.push(hints);
    let ghost base = lines_view(lines@);
    match &tr.error {
        Some(e) => {
            let mut el: Vec<Piece> = Vec::new();
            el.push(Piece { text: e.clone(), tone: Some(Tone::Negative), bold: false });
            assert(pieces_view(el@) =~= seq![run(e@, Some(Tone::Negative), false)]);
            lines.push(el);
            assert(lines_view(lines@) =~= base.push(seq![run(e@, Some(Tone::Negative), false)]));
        },
        None => {},
    }
    let mut items: Vec<String> = Vec::new();
    let mut i: usize = 0;
    while i < n
        invariant
            n + 1 == rows@.len(),
            string_views(rows@).drop_first() == names,
            i <= n,
            string_views(items@) == transfer_items(names, tr.from_index, tr.to_index).take(i as int),
        decreases n - i,
    {
        let mut item = rows[i + 1].clone();
        if i == tr.from_index {
            item.append(" [from]");
        } else if i == tr.to_index {
            item.append(" [to]");
        } else {
            item.append("");
        }
        assert(string_views(rows@)[i + 1] == names[i as int]);
        let ghost before = string_views(items@);
        assert(item@ == transfer_items(names, tr.from_index, tr.to_index)[i as int]);
        items.push(item);
        assert(string_views(items@) =~= before.push(item@));
        assert(string_views(items@) =~= transfer_items(names, tr.from_index, tr.to_index).take(i + 1));
        i = i + 1;
    }
    assert(transfer_items(names, tr.from_index, tr.to_index).take(n as int) =~= transfer_items(
        names,
        tr.from_index,
        tr.to_index,
    ));
    let r = TransferScreen { title: string_from(title), lines, items };
    proof {
        let want = transfer_form_of(*state)->0;
        assert(r@.lines =~= want.lines);
    }
    Some(r)
}

// ------------------------------------------------------------- transaction

/// The names of the wallets with the ids `ids`, in that order; ids of no
/// wallet are skipped.
pub open spec fn wallet_names_by_ids(ids: Seq<u128>, ws: Seq<WalletInfo>) -> Seq<Seq<char>>
    decreases ids.len(),
{
    if ids.len() == 0 {
        Seq::empty()
    } else {
        let before = wallet_names_by_ids(ids.drop_last(), ws);
        match wallet_from(ws, Some(ids.last()), false, 0) {
            Some(i) => before.push(ws[i].name@),
            None => before,
        }
    }
}

/// The names of the flows with the ids `ids`, in that order; ids of no flow
/// are skipped.
pub open spec fn flow_names_by_ids(ids: Seq<u128>, fs: Seq<FlowInfo>) -> Seq<Seq<char>>
    decreases ids.len(),
{
    if ids.len() == 0 {
        Seq::empty()
    } else {
        let before = flow_names_by_ids(ids.drop_last(), fs);
        match flow_from(fs, FlowQuery::Id(ids.last()), 0) {
            Some(i) => before.push(fs[i].name@),
            None => before,
        }
    }
}

/// `s` without its leading `#` characters.
pub open spec fn without_leading_hashes(s: Seq<char>) -> Seq<char>
    decreases s.len(),
{
    if s.len() > 0 && s[0] == '#' {
        without_leading_hashes(s.drop_first())
    } else {
        s
    }
}

/// The shown value of a text field: its trimmed text, or `-` when blank.
pub open spec fn shown_or_dash(s: Seq<char>) -> Seq<char> {
    if trim(s).len() == 0 {
        "-"@
    } else {
        trim(s)
    }
}

/// The shown category: `#` and the name without its leading `#`s, or `-`.
pub open spec fn shown_category(s: Seq<char>) -> Seq<char> {
    let raw = without_leading_hashes(trim(s));
    if raw.len() == 0 {
        "-"@
    } else {
        seq!['#'] + raw
    }
}

/// A field of the transaction form: the label (padded to ten columns), the
/// value in brackets with a cursor when focused, and the helper text.
pub open spec fn form_field_line(label: Seq<char>, value: Seq<char>, focused: bool, helper: Seq<char>) -> LineView {
    seq![
        run(label, Some(if focused { Tone::Accent } else { Tone::Text }), focused),
        run(seq!['['] + value + (if focused { "▏"@ } else { ""@ }) + seq![']'], Some(Tone::Text), focused),
        run("  "@, None, false),
        run("← "@ + helper, Some(Tone::Muted), false),
    ]
}

/// The title of the transaction form, in the locale.
pub open spec fn form_title_of(kind: TransactionKind, editing: bool, locale: Locale) -> Seq<char> {
    message(
        locale,
        match kind {
            TransactionKind::Income => if editing { TextKey::FormEditIncome } else { TextKey::FormNewIncome },
            TransactionKind::Expense => if editing { TextKey::FormEditExpense } else { TextKey::FormNewExpense },
            TransactionKind::Refund => if editing { TextKey::FormEditRefund } else { TextKey::FormNewRefund },
            _ => if editing { TextKey::FormEditTransaction } else { TextKey::FormNewTransaction },
        },
    )
}

/// The keys line of the transaction form, in the locale.
pub open spec fn form_keys_line(locale: Locale) -> LineView {
    seq![
        run("[Enter]"@, Some(Tone::Accent), false),
        run(message(locale, TextKey::FormHintSave), Some(Tone::Muted), false),
        run("[Esc]"@, Some(Tone::Accent), false),
        run(message(locale, TextKey::FormHintCancel), Some(Tone::Muted), false),
        run("[Tab]"@, Some(Tone::Accent), false),
        run(message(locale, TextKey::FormHintNextField), Some(Tone::Muted), false),
        run("[↑↓]"@, Some(Tone::Accent), false),
        run(message(locale, TextKey::FormHintCycleChoices), Some(Tone::Muted), false),
    ]
}

/// A field of the transaction form in the locale: its label padded to ten
/// columns and its helper.
pub open spec fn locale_field(
    locale: Locale,
    label: TextKey,
    value: Seq<char>,
    focused: bool,
    helper: TextKey,
) -> LineView {
    form_field_line(pad_right(message(locale, label), 10), value, focused, message(locale, helper))
}

/// The transaction form as values.
pub struct TransactionFormView {
    pub title: Seq<char>,
    pub lines: Seq<LineView>,
    pub wallets: Seq<Seq<char>>,
    pub flows: Seq<Seq<char>>,
}

/// The transaction form of `state`, its wallets and flows listed in the
/// orders `wallet_ids` and `flow_ids`; nothing without a snapshot.
pub open spec fn transaction_form_of(state: AppState, wallet_ids: Seq<u128>, flow_ids: Seq<u128>) -> Option<
    TransactionFormView,
> {
    match state.snapshot {
        None => None,
        Some(snap) => {
            let f = state.transactions.form;
            let l = state.locale;
            let wallets = wallet_names_by_ids(wallet_ids, snap.wallets@);
            let flows = flow_names_by_ids(flow_ids, snap.flows@);
            let lines: Seq<LineView> = seq![
                locale_field(l, TextKey::FormAmount, f.amount@, f.focus == TransactionFormField::Amount, TextKey::FormHelperAmount),
                locale_field(l, TextKey::FormWallet, name_or_dash(wallets, f.wallet_index), f.focus == TransactionFormField::Wallet, TextKey::FormHelperWallet),
                locale_field(l, TextKey::FormFlow, name_or_dash(flows, f.flow_index), f.focus == TransactionFormField::Flow, TextKey::FormHelperFlow),
                locale_field(l, TextKey::FormCategory, shown_category(f.category@), f.focus == TransactionFormField::Category, TextKey::FormHelperCategory),
                locale_field(l, TextKey::FormNote, shown_or_dash(f.note@), f.focus == TransactionFormField::Note, TextKey::FormHelperNote),
                locale_field(l, TextKey::FormWhen, shown_or_dash(f.occurred_at@), f.focus == TransactionFormField::OccurredAt, TextKey::FormHelperWhen),
                Seq::empty(),
                form_keys_line(l),
            ];
            let lines = match f.error {
                Some(e) => lines.push(seq![run(e@, Some(Tone::Negative), false)]),
                None => lines,
            };
            Some(TransactionFormView { title: form_title_of(f.kind, f.editing, l), lines, wallets, flows })
        },
    }
}

/// The transaction form: title, lines, and the wallet and flow lists.
#[derive(Debug, Clone)]
pub struct TransactionFormScreen {
    pub title: String,
    pub lines: Vec<Vec<Piece>>,
    pub wallets: Vec<String>,
    pub flows: Vec<String>,
}

impl View for TransactionFormScreen {
    type V = TransactionFormView;

    open spec fn view(&self) -> TransactionFormView {
        TransactionFormView {
            title: self.title@,
            lines: lines_view(self.lines@),
            wallets: string_views(self.wallets@),
            flows: string_views(self.flows@),
        }
    }
}

fn wallet_names(ids: &[u128], ws: &Vec<WalletInfo>) -> (r: Vec<String>)
    ensures
        string_views(r@) == wallet_names_by_ids(ids@, ws@),
{
    let mut r: Vec<String> = Vec::new();
    let mut k: usize = 0;
    while k < ids.len()
        invariant
            k <= ids@.len(),
            string_views(r@) == wallet_names_by_ids(ids@.take(k as int), ws@),
        decreases ids.len() - k,
    {
        assert(ids@.take(k + 1).drop_last() =~= ids@.take(k as int));
        assert(ids@.take(k + 1).last() == ids@[k as int]);
        if let Some(i) = find_wallet(ws, Some(ids[k]), false) {
            let ghost before = string_views(r@);
            r.push(ws[i].name.clone());
            assert(string_views(r@) =~= before.push(ws@[i as int].name@));
        }
        k = k + 1;
    }
    assert(ids@.take(ids@.len() as int) =~= ids@);
    r
}

fn flow_names(ids: &[u128], fs: &Vec<FlowInfo>) -> (r: Vec<String>)
    ensures
        string_views(r@) == flow_names_by_ids(ids@, fs@),
{
    let mut r: Vec<String> = Vec::new();
    let mut k: usize = 0;
    while k < ids.len()
        invariant
            k <= ids@.len(),
            string_views(r@) == flow_names_by_ids(ids@.take(k as int), fs@),
        decreases ids.len() - k,
    {
        assert(ids@.take(k + 1).drop_last() =~= ids@.take(k as int));
        assert(ids@.take(k + 1).last() == ids@[k as int]);
        if let Some(i) = find_flow(fs, FlowQuery::Id(ids[k])) {
            let ghost before = string_views(r@);
            r.push(fs[i].name.clone());
            assert(string_views(r@) =~= before.push(fs@[i as int].name@));
        }
        k = k + 1;
    }
    assert(ids@.take(ids@.len() as int) =~= ids@);
    r
}

/// The text shown for a field: trimmed, or `-` when blank.
fn shown(s: &str) -> (r: String)
    ensures
        r@ == shown_or_dash(s@),
{
    let cs = to_chars(s);
    let (lo, hi) = trim_bounds(&cs);
    if lo == hi {
        string_from("-")
    } else {
        string_of(&cs, lo, hi)
    }
}

/// The category shown on the form.
fn category_text(s: &str) -> (r: String)
    ensures
        r@ == shown_category(s@),
{
    let cs = to_chars(s);
    let (lo, hi) = trim_bounds(&cs);
    let ghost t = trim(s@);
    let mut i = lo;
    assert(cs@.subrange(lo as int, hi as int) == t);
    while i < hi && cs[i] == '#'
        invariant
            lo <= i <= hi,
            hi <= cs@.len(),
            cs@.subrange(lo as int, hi as int) == t,
            without_leading_hashes(t) == without_leading_hashes(cs@.subrange(i as int, hi as int)),
        decreases hi - i,
    {
        proof {
            let u = cs@.subrange(i as int, hi as int);
            assert(u[0] == '#');
            assert(u.drop_first() =~= cs@.subrange(i + 1, hi as int));
        }
        i = i + 1;
    }
    let ghost raw = cs@.subrange(i as int, hi as int);
    assert(i == hi || raw[0] != '#');
    assert(without_leading_hashes(raw) == raw);
    if i == hi {
        string_from("-")
    } else {
        let mut r = String::new();
        push_char(&mut r, '#');
        r.append(string_of(&cs, i, hi).as_str());
        assert(r@ =~= seq!['#'] + raw);
        r
    }
}

fn form_field(label: &str, value: &str, focused: bool, helper: &str) -> (r: Vec<Piece>)
    ensures
        pieces_view(r@) == form_field_line(label@, value@, focused, helper@),
{
    let mut shown_value = String::new();
    push_char(&mut shown_value, '[');
    shown_value.append(value);
    shown_value.append(if focused { "▏" } else { "" });
    push_char(&mut shown_value, ']');
    assert(shown_value@ =~= seq!['['] + value@ + (if focused { "▏"@ } else { ""@ }) + seq![']']);
    let mut help = string_from("← ");
    help.append(helper);
    let mut v: Vec<Piece> = Vec::new();
    v.push(piece(label, Some(if focused { Tone::Accent } else { Tone::Text }), focused));
    v.push(Piece { text: shown_value, tone: Some(Tone::Text), bold: focused });
    v.push(piece("  ", None, false));
    v.push(Piece { text: help, tone: Some(Tone::Muted), bold: false });
    assert(pieces_view(v@) =~= form_field_line(label@, value@, focused, helper@));
    v
}

fn form_title(kind: TransactionKind, editing: bool, locale: Locale) -> (r: &'static str)
    ensures
        r@ == form_title_of(kind, editing, locale),
{
    t(
        locale,
        match kind {
            TransactionKind::Income => if editing { TextKey::FormEditIncome } else { TextKey::FormNewIncome },
            TransactionKind::Expense => if editing { TextKey::FormEditExpense } else { TextKey::FormNewExpense },
            TransactionKind::Refund => if editing { TextKey::FormEditRefund } else { TextKey::FormNewRefund },
            _ => if editing { TextKey::FormEditTransaction } else { TextKey::FormNewTransaction },
        },
    )
}

fn locale_form_field(locale: Locale, label: TextKey, value: &str, focused: bool, helper: TextKey) -> (r: Vec<Piece>)
    ensures
        pieces_view(r@) == locale_field(locale, label, value@, focused, helper),
{
    let padded = padded_right(t(locale, label), 10);
    form_field(padded.as_str(), value, focused, t(locale, helper))
}

/// The transaction form: its title, its lines (the fields, a blank line,
/// the keys and the error) and the lists of wallets and flows in the orders
/// `wallet_ids` and `flow_ids`.
pub fn transaction_form(state: &AppState, wallet_ids: &[u128], flow_ids: &[u128]) -> (r: Option<
    TransactionFormScreen,
>)
    ensures
        r is None <==> transaction_form_of(*state, wallet_ids@, flow_ids@) is None,
        r matches Some(f) ==> f@ == transaction_form_of(*state, wallet_ids@, flow_ids@)->0,
{
    let snap = match &state.snapshot {
        Some(s) => s,
        None => return None,
    };
    let f = &state.transactions.form;
    let wallets = wallet_names(wallet_ids, &snap.wallets);
    let flows = flow_names(flow_ids, &snap.flows);
    let wallet = if f.wallet_index < wallets.len() { wallets[f.wallet_index].clone() } else { string_from("-") };
    let flow = if f.flow_index < flows.len() { flows[f.flow_index].clone() } else { string_from("-") };
    let category = category_text(f.category.as_str());
    let note = shown(f.note.as_str());
    let when = shown(f.occurred_at.as_str());
    let mut lines: Vec<Vec<Piece>> = Vec::new();
    let l = state.locale;
    lines.push(locale_form_field(l, TextKey::FormAmount, f.amount.as_str(), f.focus == TransactionFormField::Amount, TextKey::FormHelperAmount));
    lines.push(locale_form_field(l, TextKey::FormWallet, wallet.as_str(), f.focus == TransactionFormField::Wallet, TextKey::FormHelperWallet));
    lines.push(locale_form_field(l, TextKey::FormFlow, flow.as_str(), f.focus == TransactionFormField::Flow, TextKey::FormHelperFlow));
    lines.push(locale_form_field(l, TextKey::FormCategory, category.as_str(), f.focus == TransactionFormField::Category, TextKey::FormHelperCategory));
    lines.push(locale_form_field(l, TextKey::FormNote, note.as_str(), f.focus == TransactionFormField::Note, TextKey::FormHelperNote));
    lines.push(locale_form_field(l, TextKey::FormWhen, when.as_str(), f.focus == TransactionFormField::OccurredAt, TextKey::FormHelperWhen));
    let blank: Vec<Piece> = Vec::new();
    assert(pieces_view(blank@) =~= Seq::<(Seq<char>, Option<Tone>, bool)>::empty());
    lines.push(blank);
    let mut keys: Vec<Piece> = Vec::new();
    keys.push(piece("[Enter]", Some(Tone::Accent), false));
    keys.push(piece(t(l, TextKey::FormHintSave), Some(Tone::Muted), false));
    keys.push(piece("[Esc]", Some(Tone::Accent), false));
    keys.push(piece(t(l, TextKey::FormHintCancel), Some(Tone::Muted), false));
    keys.push(piece("[Tab]", Some(Tone::Accent), false));
    keys.push(piece(t(l, TextKey::FormHintNextField), Some(Tone::Muted), false));
    keys.push(piece("[↑↓]", Some(Tone::Accent), false));
    keys.push(piece(t(l, TextKey::FormHintCycleChoices), Some(Tone::Muted), false));
    assert(pieces_view(keys@) =~= form_keys_line(l));
    lines.push(keys);
    let ghost base = lines_view(lines@);
    match &f.error {
        Some(e) => {
            let mut el: Vec<Piece> = Vec::new();
            el.push(Piece { text: e.clone(), tone: Some(Tone::Negative), bold: false });
            assert(pieces_view(el@) =~= seq![run(e@, Some(Tone::Negative), false)]);
            lines.push(el);
            assert(lines_view(lines@) =~= base.push(seq![run(e@, Some(Tone::Negative), false)]));
        },
        None => {},
    }
    let r = TransactionFormScreen { title: string_from(form_title(f.kind, f.editing, l)), lines, wallets, flows };
    proof {
        let want = transaction_form_of(*state, wallet_ids@, flow_ids@)->0;
        assert(r@.lines =~= want.lines);
    }
    Some(r)
}

} // verus!
