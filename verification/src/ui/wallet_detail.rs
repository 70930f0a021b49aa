//! The wallet detail screen: the wallet's name, status and balance, and its
//! recent transactions.

use super::flow_detail::{FlowTxRow, tx_row, tx_row_of};
use super::settings::run;
use super::state::{AppState, WalletInfo, find_wallet, wallet_from};
use super::{Piece, Tone, piece, pieces_view};
use crate::strings::string_from;
use crate::text::{TextKey, message, t};
use vstd::prelude::*;

verus! {

/// The name line of a wallet: its emoji, its name in bold and its status.
pub open spec fn wallet_name_line_of(w: WalletInfo) -> Seq<(Seq<char>, Option<Tone>, bool)> {
    seq![
        run("  💰 "@, None, false),
        run(w.name@, Some(Tone::Text), true),
        run("  "@, None, false),
        if w.archived {
            run("[archived]"@, Some(Tone::Warning), false)
        } else {
            run("[active]"@, Some(Tone::Positive), false)
        },
    ]
}

/// The wallet detail screen as values.
pub enum WalletDetailView {
    /// A message in place of the detail, under the screen's title.
    Message { title: Seq<char>, message: Seq<char> },
    /// The detail of a wallet.
    Wallet {
        title: Seq<char>,
        name_line: Seq<(Seq<char>, Option<Tone>, bool)>,
        balance: i64,
        balance_tone: Tone,
        /// The error of loading the recent transactions, in place of them.
        error: Option<Seq<char>>,
        rows: Seq<(Seq<char>, Tone, i64, Tone, Seq<char>)>,
        /// The message shown when there is no recent transaction.
        empty: Option<Seq<char>>,
    },
}

/// The wallet detail of `state`.
pub open spec fn wallet_detail_of(state: AppState) -> WalletDetailView {
    let title = message(state.locale, TextKey::WalletDetailTitle);
    let note = |k: TextKey| WalletDetailView::Message { title, message: message(state.locale, k) };
    match state.snapshot {
        None => note(TextKey::LoadingGeneric),
        Some(snap) => match state.wallet_detail.wallet_id {
            None => note(TextKey::WalletSelectPrompt),
            Some(id) => match wallet_from(snap.wallets@, Some(id), false, 0) {
                None => note(TextKey::WalletNotFound),
                Some(i) => {
                    let w = snap.wallets@[i];
                    let d = state.wallet_detail;
                    WalletDetailView::Wallet {
                        title,
                        name_line: wallet_name_line_of(w),
                        balance: w.balance_minor,
                        balance_tone: if w.balance_minor >= 0 { Tone::Positive } else { Tone::Negative },
                        error: match d.error {
                            Some(e) => Some("⚠ "@ + e@),
                            None => None,
                        },
                        rows: match d.error {
                            Some(_) => Seq::empty(),
                            None => Seq::new(d.transactions@.len(), |k: int| tx_row_of(d.transactions@[k])),
                        },
                        empty: if d.error is None && d.transactions@.len() == 0 {
                            Some(message(state.locale, TextKey::WalletNoTransactions))
                        } else {
                            None
                        },
                    }
                },
            },
        },
    }
}

/// The wallet detail screen.
#[derive(Debug, Clone)]
pub enum WalletDetail {
    Message { title: &'static str, message: &'static str },
    Wallet {
        title: &'static str,
        name_line: Vec<Piece>,
        balance: i64,
        balance_tone: Tone,
        error: Option<String>,
        rows: Vec<FlowTxRow>,
        empty: Option<&'static str>,
    },
}

impl View for WalletDetail {
    type V = WalletDetailView;

    open spec fn view(&self) -> WalletDetailView {
        match self {
            WalletDetail::Message { title, message } => WalletDetailView::Message {
                title: title@,
                message: message@,
            },
            WalletDetail::Wallet { title, name_line, balance, balance_tone, error, rows, empty } => {
                WalletDetailView::Wallet {
                    title: title@,
                    name_line: pieces_view(name_line@),
                    balance: *balance,
                    balance_tone: *balance_tone,
                    error: match error {
                        Some(e) => Some(e@),
                        None => None,
                    },
                    rows: Seq::new(rows@.len(), |k: int| rows@[k]@),
                    empty: match empty {
                        Some(e) => Some(e@),
                        None => None,
                    },
                }
            },
        }
    }
}

fn wallet_name_line(w: &WalletInfo) -> (r: Vec<Piece>)
    ensures
        pieces_view(r@) == wallet_name_line_of(*w),
{
    let mut v: Vec<Piece> = Vec::new();
    v.push(piece("  💰 ", None, false));
    v.push(Piece { text: w.name.clone(), tone: Some(Tone::Text), bold: true });
    v.push(piece("  ", None, false));
    if w.archived {
        v.push(piece("[archived]", Some(Tone::Warning), false));
    } else {
        v.push(piece("[active]", Some(Tone::Positive), false));
    }
    assert(pieces_view(v@) =~= wallet_name_line_of(*w));
    v
}

/// The wallet detail screen of `state`, under the locale's title: the
/// loading message when there is no snapshot, the prompt to pick a wallet
/// when none is picked, the not-found message when no wallet has the picked
/// id; else the wallet's name line, balance and its tone, and its recent
/// transactions, the error of loading them, or the no-transaction message.
pub fn wallet_detail(state: &AppState) -> (r: WalletDetail)
    ensures
        r@ == wallet_detail_of(*state),
{
    let title = t(state.locale, TextKey::WalletDetailTitle);
    let snap = match &state.snapshot {
        Some(s) => s,
        None => return WalletDetail::Message { title, message: t(state.locale, TextKey::LoadingGeneric) },
    };
    let id = match state.wallet_detail.wallet_id {
        Some(id) => id,
        None => return WalletDetail::Message { title, message: t(state.locale, TextKey::WalletSelectPrompt) },
    };
    let i = match find_wallet(&snap.wallets, Some(id), false) {
        Some(i) => i,
        None => return WalletDetail::Message { title, message: t(state.locale, TextKey::WalletNotFound) },
    };
    let w = &snap.wallets[i];
    let d = &state.wallet_detail;
    let error = match &d.error {
        Some(e) => {
            let mut m = string_from("⚠ ");
            m.append(e.as_str());
            Some(m)
        },
        None => None,
    };
    let mut rows: Vec<FlowTxRow> = Vec::new();
    if d.error.is_none() {
        let mut k: usize = 0;
        while k < d.transactions.len()
            invariant
                k <= d.transactions@.len(),
                rows@.len() == k,
                forall|j: int| 0 <= j < k ==> #[trigger] rows@[j]@ == tx_row_of(d.transactions@[j]),
            decreases d.transactions.len() - k,
        {
            rows.push(tx_row(&d.transactions[k]));
            k = k + 1;
        }
    }
    let empty = if d.error.is_none() && d.transactions.len() == 0 {
        Some(t(state.locale, TextKey::WalletNoTransactions))
    } else {
        None
    };
    let r = WalletDetail::Wallet {
        title,
        name_line: wallet_name_line(w),
        balance: w.balance_minor,
        balance_tone: if w.balance_minor >= 0 { Tone::Positive } else { Tone::Negative },
        error,
        rows,
        empty,
    };
    proof {
        let want = wallet_detail_of(*state);
        if let WalletDetailView::Wallet { rows: wr, .. } = want {
            assert(r@->rows =~= wr);
        }
    }
    r
}

} // verus!
