//! The overview of the open vault: its id, currency, how many wallets and
//! flows it has, and the quick defaults.

use super::entities::{display_vault_name, vault_name_of};
use super::settings::run;
use super::state::AppState;
use super::transactions::{flow_label_of, resolve_flow_name, resolve_wallet_name, wallet_label_of};
use super::{LineView, Piece, Tone, lines_view, piece, pieces_view};
use crate::strings::{decimal, pad_right, padded_right, push_decimal, string_from};
use crate::text::{TextKey, message, t};
use vstd::prelude::*;

verus! {

/// A labelled line of the overview: the muted label, padded to 14 columns
/// after two spaces, and the value.
pub open spec fn info_line_of(label: Seq<char>, value: Seq<char>) -> LineView {
    seq![run("  "@ + pad_right(label, 14), Some(Tone::Muted), false), run(value, Some(Tone::Text), false)]
}

/// A default's line: its label between spaces, and the name of the default
/// (plain text) or `None` (muted).
pub open spec fn default_line_of(label: Seq<char>, name: Option<Seq<char>>, none: Seq<char>) -> LineView {
    seq![
        run("  "@ + label + "  "@, Some(Tone::Muted), false),
        match name {
            Some(n) => run(n, Some(Tone::Text), false),
            None => run(none, Some(Tone::Muted), false),
        },
    ]
}

/// The vault overview of `state`: its title (the vault's name, or the
/// default one, after a bank) and its lines.
pub open spec fn vault_view_of(state: AppState) -> (Seq<char>, Seq<LineView>) {
    let l = state.locale;
    let name = match vault_name_of(state) {
        Some(n) => n,
        None => message(l, TextKey::VaultDefaultName),
    };
    let id = match state.vault {
        Some(v) => match v.id {
            Some(i) => i@,
            None => "-"@,
        },
        None => "-"@,
    };
    let currency = match state.vault {
        Some(v) => match v.currency {
            Some(c) => c@,
            None => "EUR"@,
        },
        None => "EUR"@,
    };
    let (wallets, flows) = match state.snapshot {
        Some(s) => (s.wallets@.len(), s.flows@.len()),
        None => (0nat, 0nat),
    };
    let none = message(l, TextKey::UiNone);
    let lines = seq![
        info_line_of(message(l, TextKey::VaultIdLabel), id),
        info_line_of(message(l, TextKey::VaultCurrencyLabel), currency),
        info_line_of(message(l, TextKey::SectionWallets), decimal(wallets)) + seq![
            run("    "@, None, false),
            run(pad_right(message(l, TextKey::SectionFlows), 7), Some(Tone::Muted), false),
            run(decimal(flows), Some(Tone::Text), false),
        ],
        Seq::empty(),
        seq![run("  "@ + message(l, TextKey::VaultQuickDefaults), Some(Tone::Accent), true)],
        default_line_of(
            message(l, TextKey::VaultDefaultWallet),
            match state.default_wallet_id {
                Some(w) => Some(wallet_label_of(state, w)),
                None => None,
            },
            none,
        ),
        default_line_of(
            message(l, TextKey::VaultDefaultFlow),
            match state.default_flow_id {
                Some(f) => Some(flow_label_of(state, f)),
                None => None,
            },
            none,
        ),
        match state.vault_ui.error {
            Some(e) => seq![run("  ✗ "@, Some(Tone::Negative), false), run(e@, Some(Tone::Negative), false)],
            None => Seq::empty(),
        },
    ];
    ("🏦 "@ + name, lines)
}

fn info_line(label: &str, value: &str) -> (r: Vec<Piece>)
    ensures
        pieces_view(r@) == info_line_of(label@, value@),
{
    let mut text = string_from("  ");
    text.append(padded_right(label, 14).as_str());
    let mut v: Vec<Piece> = Vec::new();
    v.push(Piece { text, tone: Some(Tone::Muted), bold: false });
    v.push(piece(value, Some(Tone::Text), false));
    assert(pieces_view(v@) =~= info_line_of(label@, value@));
    v
}

fn default_line(label: &str, name: Option<String>, none: &str) -> (r: Vec<Piece>)
    ensures
        pieces_view(r@) == default_line_of(
            label@,
            match name {
                Some(n) => Some(n@),
                None => None,
            },
            none@,
        ),
{
    let mut text = string_from("  ");
    text.append(label);
    text.append("  ");
    let mut v: Vec<Piece> = Vec::new();
    v.push(Piece { text, tone: Some(Tone::Muted), bold: false });
    match name {
        Some(n) => v.push(Piece { text: n, tone: Some(Tone::Text), bold: false }),
        None => v.push(piece(none, Some(Tone::Muted), false)),
    }
    assert(pieces_view(v@) =~= default_line_of(
        label@,
        match name {
            Some(n) => Some(n@),
            None => None,
        },
        none@,
    ));
    v
}

/// The vault overview: its title and lines.
#[derive(Debug, Clone)]
pub struct VaultView {
    pub title: String,
    pub lines: Vec<Vec<Piece>>,
}

/// The overview of the open vault; see [`vault_view_of`].
pub fn vault_view(state: &AppState) -> (r: VaultView)
    ensures
        (r.title@, lines_view(r.lines@)) == vault_view_of(*state),
{
    let l = state.locale;
    let name = match display_vault_name(state) {
        Some(n) => n,
        None => string_from(t(l, TextKey::VaultDefaultName)),
    };
    let id = match &state.vault {
        Some(v) => match &v.id {
            Some(i) => i.clone(),
            None => string_from("-"),
        },
        None => string_from("-"),
    };
    let currency = match &state.vault {
        Some(v) => match &v.currency {
            Some(c) => c.clone(),
            None => string_from("EUR"),
        },
        None => string_from("EUR"),
    };
    let (wallets, flows) = match &state.snapshot {
        Some(s) => (s.wallets.len(), s.flows.len()),
        None => (0, 0),
    };
    let mut w = String::new();
    push_decimal(&mut w, wallets as u64);
    let mut f = String::new();
    push_decimal(&mut f, flows as u64);
    let mut counts = info_line(t(l, TextKey::SectionWallets), w.as_str());
    counts.push(piece("    ", None, false));
    counts.push(Piece { text: padded_right(t(l, TextKey::SectionFlows), 7), tone: Some(Tone::Muted), bold: false });
    counts.push(Piece { text: f, tone: Some(Tone::Text), bold: false });
    let mut header = string_from("  ");
    header.append(t(l, TextKey::VaultQuickDefaults));
    let mut head: Vec<Piece> = Vec::new();
    head.push(Piece { text: header, tone: Some(Tone::Accent), bold: true });
    let wallet_name = match state.default_wallet_id {
        Some(w) => Some(resolve_wallet_name(state, w)),
        None => None,
    };
    let flow_name = match state.default_flow_id {
        Some(fl) => Some(resolve_flow_name(state, fl)),
        None => None,
    };
    let mut error: Vec<Piece> = Vec::new();
    if let Some(e) = &state.vault_ui.error {
        error.push(piece("  ✗ ", Some(Tone::Negative), false));
        error.push(Piece { text: e.clone(), tone: Some(Tone::Negative), bold: false });
    }
    let gap: Vec<Piece> = Vec::new();
    let ghost (kv, hv, ev, gv) = (pieces_view(counts@), pieces_view(head@), pieces_view(error@), pieces_view(gap@));
    let mut lines: Vec<Vec<Piece>> = Vec::new();
    lines.push(info_line(t(l, TextKey::VaultIdLabel), id.as_str()));
    lines.push(info_line(t(l, TextKey::VaultCurrencyLabel), currency.as_str()));
    lines.push(counts);
    lines.push(gap);
    lines.push(head);
    lines.push(default_line(t(l, TextKey::VaultDefaultWallet), wallet_name, t(l, TextKey::UiNone)));
    lines.push(default_line(t(l, TextKey::VaultDefaultFlow), flow_name, t(l, TextKey::UiNone)));
    lines.push(error);
    let mut title = string_from("🏦 ");
    title.append(name.as_str());
    proof {
        reveal_strlit("-");
        reveal_strlit("EUR");
        let want = vault_view_of(*state);
        assert(kv =~= want.1[2]);
        assert(hv =~= want.1[4]);
        assert(ev =~= want.1[7]);
        assert(gv =~= want.1[3]);
        assert(lines_view(lines@) =~= want.1);
    }
    VaultView { title, lines }
}

} // verus!
