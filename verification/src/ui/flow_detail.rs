//! The flow detail screen: the flow's header, its cap and its recent
//! transactions.

use super::entities::{cap_values, cap_values_of};
use super::settings::run;
use super::state::{AppState, FlowInfo, FlowQuery, FlowTransaction, TransactionKind, find_flow, flow_from};
use super::transactions::{kind_chip, kind_chip_of};
use super::{Piece, Tone, piece, pieces_view};
use crate::strings::string_from;
use crate::text::{TextKey, message, t};
use vstd::prelude::*;

verus! {

/// A recent transaction row: icon and its tone, amount and its tone, note.
pub open spec fn tx_row_of(tx: FlowTransaction) -> (Seq<char>, Tone, i64, Tone, Seq<char>) {
    let (icon, icon_tone) = kind_chip_of(tx.kind);
    let amount_tone = match tx.kind {
        TransactionKind::Income | TransactionKind::Refund => Tone::Positive,
        TransactionKind::Expense => Tone::Negative,
        _ => Tone::Text,
    };
    let note = match tx.note {
        Some(n) => n@,
        None => "-"@,
    };
    (icon, icon_tone, tx.amount_minor, amount_tone, note)
}

/// The title line of a flow: its emoji, its name in bold and its status tags.
pub open spec fn flow_title_of(flow: FlowInfo) -> Seq<(Seq<char>, Option<Tone>, bool)> {
    let emoji = if flow.is_unallocated { "📦"@ } else { "🎯"@ };
    let head = seq![
        run("  "@ + emoji + " "@, None, false),
        run(flow.name@, Some(Tone::Text), true),
        run("  "@, None, false),
    ];
    let default_tag: Seq<(Seq<char>, Option<Tone>, bool)> = if flow.is_unallocated {
        seq![run("[default]"@, Some(Tone::Info), false), run("  "@, None, false)]
    } else {
        Seq::empty()
    };
    let status = if flow.archived {
        run("[archived]"@, Some(Tone::Warning), false)
    } else {
        run("[active]"@, Some(Tone::Positive), false)
    };
    head + default_tag + seq![status]
}

/// The flow detail screen as values.
pub enum FlowDetailView {
    /// A message in place of the detail.
    Message(Seq<char>),
    /// The detail of a flow.
    Flow {
        title: Seq<(Seq<char>, Option<Tone>, bool)>,
        balance: i64,
        balance_tone: Tone,
        cap: Option<(Seq<char>, i64, i64)>,
        /// The error of loading the recent transactions, in place of them.
        error: Option<Seq<char>>,
        rows: Seq<(Seq<char>, Tone, i64, Tone, Seq<char>)>,
        /// The message shown when there is no recent transaction.
        empty: Option<Seq<char>>,
    },
}

/// The flow detail of `state`.
pub open spec fn flow_detail_of(state: AppState) -> FlowDetailView {
    match state.snapshot {
        None => FlowDetailView::Message(message(state.locale, TextKey::LoadingGeneric)),
        Some(snap) => match state.flow_detail.flow_id {
            None => FlowDetailView::Message(message(state.locale, TextKey::FlowSelectPrompt)),
            Some(id) => match flow_from(snap.flows@, FlowQuery::Id(id), 0) {
                None => FlowDetailView::Message(message(state.locale, TextKey::FlowNotFound)),
                Some(i) => {
                    let flow = snap.flows@[i];
                    let d = state.flow_detail;
                    FlowDetailView::Flow {
                        title: flow_title_of(flow),
                        balance: flow.balance_minor,
                        balance_tone: if flow.balance_minor >= 0 { Tone::Positive } else { Tone::Negative },
                        cap: match d.detail {
                            Some(c) => cap_values_of(c),
                            None => None,
                        },
                        error: match d.error {
                            Some(e) => Some("⚠ "@ + e@),
                            None => None,
                        },
                        rows: match d.error {
                            Some(_) => Seq::empty(),
                            None => Seq::new(d.transactions@.len(), |k: int| tx_row_of(d.transactions@[k])),
                        },
                        empty: if d.error is None && d.transactions@.len() == 0 {
                            Some(message(state.locale, TextKey::FlowNoTransactions))
                        } else {
                            None
                        },
                    }
                },
            },
        },
    }
}

/// A recent transaction row of the flow detail.
#[derive(Debug, Clone)]
pub struct FlowTxRow {
    pub icon: &'static str,
    pub icon_tone: Tone,
    pub amount_minor: i64,
    pub amount_tone: Tone,
    pub note: String,
}

impl View for FlowTxRow {
    type V = (Seq<char>, Tone, i64, Tone, Seq<char>);

    open spec fn view(&self) -> (Seq<char>, Tone, i64, Tone, Seq<char>) {
        (self.icon@, self.icon_tone, self.amount_minor, self.amount_tone, self.note@)
    }
}

/// The flow detail screen.
#[derive(Debug, Clone)]
pub enum FlowDetail {
    Message(&'static str),
    Flow {
        title: Vec<Piece>,
        balance: i64,
        balance_tone: Tone,
        cap: Option<(&'static str, i64, i64)>,
        error: Option<String>,
        rows: Vec<FlowTxRow>,
        empty: Option<&'static str>,
    },
}

impl View for FlowDetail {
    type V = FlowDetailView;

    open spec fn view(&self) -> FlowDetailView {
        match self {
            FlowDetail::Message(m) => FlowDetailView::Message(m@),
            FlowDetail::Flow { title, balance, balance_tone, cap, error, rows, empty } => FlowDetailView::Flow {
                title: pieces_view(title@),
                balance: *balance,
                balance_tone: *balance_tone,
                cap: match cap {
                    Some(c) => Some((c.0@, c.1, c.2)),
                    None => None,
                },
                error: match error {
                    Some(e) => Some(e@),
                    None => None,
                },
                rows: Seq::new(rows@.len(), |k: int| rows@[k]@),
                empty: match empty {
                    Some(e) => Some(e@),
                    None => None,
                },
            },
        }
    }
}

pub(crate) fn tx_row(tx: &FlowTransaction) -> (r: FlowTxRow)
    ensures
        r@ == tx_row_of(*tx),
{
    let (icon, icon_tone) = kind_chip(tx.kind);
    let amount_tone = match tx.kind {
        TransactionKind::Income | TransactionKind::Refund => Tone::Positive,
        TransactionKind::Expense => Tone::Negative,
        _ => Tone::Text,
    };
    let note = match &tx.note {
        Some(n) => n.clone(),
        None => string_from("-"),
    };
    FlowTxRow { icon, icon_tone, amount_minor: tx.amount_minor, amount_tone, note }
}

fn flow_title(flow: &FlowInfo) -> (r: Vec<Piece>)
    ensures
        pieces_view(r@) == flow_title_of(*flow),
{
    let mut head = string_from("  ");
    head.append(if flow.is_unallocated { "📦" } else { "🎯" });
    head.append(" ");
    let mut v: Vec<Piece> = Vec::new();
    v.push(Piece { text: head, tone: None, bold: false });
    v.push(Piece { text: flow.name.clone(), tone: Some(Tone::Text), bold: true });
    v.push(piece("  ", None, false));
    if flow.is_unallocated {
        v.push(piece("[default]", Some(Tone::Info), false));
        v.push(piece("  ", None, false));
    }
    if flow.archived {
        v.push(piece("[archived]", Some(Tone::Warning), false));
    } else {
        v.push(piece("[active]", Some(Tone::Positive), false));
    }
    let ghost want = flow_title_of(*flow);
    assert(v@[0]@ == want[0]);
    assert(pieces_view(v@) =~= want);
    v
}

/// The flow detail screen of `state`: the locale's loading message when
/// there is no snapshot, its prompt to pick a flow when none is picked, its
/// not-found message when no flow has the picked id; else the flow's title, balance and its
/// tone, its cap, and its recent transactions, the error of loading them,
/// or the no-transaction message.
pub fn flow_detail(state: &AppState) -> (r: FlowDetail)
    ensures
        r@ == flow_detail_of(*state),
{
    let snap = match &state.snapshot {
        Some(s) => s,
        None => return FlowDetail::Message(t(state.locale, TextKey::LoadingGeneric)),
    };
    let id = match state.flow_detail.flow_id {
        Some(id) => id,
        None => return FlowDetail::Message(t(state.locale, TextKey::FlowSelectPrompt)),
    };
    let i = match find_flow(&snap.flows, FlowQuery::Id(id)) {
        Some(i) => i,
        None => return FlowDetail::Message(t(state.locale, TextKey::FlowNotFound)),
    };
    let flow = &snap.flows[i];
    let d = &state.flow_detail;
    let cap = match &d.detail {
        Some(c) => cap_values(c),
        None => None,
    };
    let error = match &d.error {
        Some(e) => {
            let mut m = string_from("⚠ ");
            m.append(e.as_str());
            Some(m)
        },
        None => None,
    };
    let mut rows: Vec<FlowTxRow> = Vec::new();
    if d.error.is_none() {
        let mut k: usize = 0;
        while k < d.transactions.len()
            invariant
                k <= d.transactions@.len(),
                rows@.len() == k,
                forall|j: int| 0 <= j < k ==> #[trigger] rows@[j]@ == tx_row_of(d.transactions@[j]),
            decreases d.transactions.len() - k,
        {
            rows.push(tx_row(&d.transactions[k]));
            k = k + 1;
        }
    }
    let empty = if d.error.is_none() && d.transactions.len() == 0 {
        Some(t(state.locale, TextKey::FlowNoTransactions))
    } else {
        None
    };
    let r = FlowDetail::Flow {
        title: flow_title(flow),
        balance: flow.balance_minor,
        balance_tone: if flow.balance_minor >= 0 { Tone::Positive } else { Tone::Negative },
        cap,
        error,
        rows,
        empty,
    };
    proof {
        let want = flow_detail_of(*state);
        if let FlowDetailView::Flow { rows: wr, .. } = want {
            assert(r@->rows =~= wr);
        }
    }
    r
}

} // verus!
