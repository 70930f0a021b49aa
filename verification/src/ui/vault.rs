//! The quick defaults form of the vault screen.

use super::settings::{label_look, run};
use super::state::{AppState, DefaultsField, FlowInfo, WalletInfo};
use super::{Piece, Tone, lines_view, piece, pieces_view};
use crate::strings::{string_from, string_views};
use vstd::prelude::*;

verus! {

/// The names of the active wallets, in order.
pub open spec fn active_wallet_names(ws: Seq<WalletInfo>) -> Seq<Seq<char>>
    decreases ws.len(),
{
    if ws.len() == 0 {
        Seq::empty()
    } else {
        let before = active_wallet_names(ws.drop_last());
        if ws.last().archived {
            before
        } else {
            before.push(ws.last().name@)
        }
    }
}

/// The names of the active flows, in order.
pub open spec fn active_flow_names(fs: Seq<FlowInfo>) -> Seq<Seq<char>>
    decreases fs.len(),
{
    if fs.len() == 0 {
        Seq::empty()
    } else {
        let before = active_flow_names(fs.drop_last());
        if fs.last().archived {
            before
        } else {
            before.push(fs.last().name@)
        }
    }
}

/// The label of the picked row `index` of `names`: row 0 and rows past the
/// end are "None".
pub open spec fn picked_label(names: Seq<Seq<char>>, index: usize) -> Seq<char> {
    if index == 0 || index - 1 >= names.len() {
        "None"@
    } else {
        names[index - 1]
    }
}

/// The line of one field of the form.
pub open spec fn field_line(label: Seq<char>, value: Seq<char>, focused: bool) -> Seq<
    (Seq<char>, Option<Tone>, bool),
> {
    let look = label_look(focused);
    seq![
        run(label, look.0, look.1),
        run(value, Some(Tone::Text), false),
        if focused {
            run("  ↑↓"@, Some(Tone::Muted), false)
        } else {
            run(""@, None, false)
        },
    ]
}

/// The quick defaults screen.
#[derive(Debug, Clone)]
pub struct DefaultsScreen {
    /// The two lines of the form: the default wallet and the default flow.
    pub form: Vec<Vec<Piece>>,
    /// The rows of the wallet list: "None", then the active wallets.
    pub wallet_rows: Vec<String>,
    /// The rows of the flow list: "None", then the active flows.
    pub flow_rows: Vec<String>,
    /// The highlighted row of each list.
    pub wallet_selected: usize,
    pub flow_selected: usize,
    /// The error line, when there is an error.
    pub error: Option<Vec<Piece>>,
}

/// [`DefaultsScreen`] as a value.
pub struct DefaultsView {
    pub form: Seq<Seq<(Seq<char>, Option<Tone>, bool)>>,
    pub wallet_rows: Seq<Seq<char>>,
    pub flow_rows: Seq<Seq<char>>,
    pub wallet_selected: int,
    pub flow_selected: int,
    pub error: Option<Seq<(Seq<char>, Option<Tone>, bool)>>,
}

impl View for DefaultsScreen {
    type V = DefaultsView;

    open spec fn view(&self) -> DefaultsView {
        DefaultsView {
            form: lines_view(self.form@),
            wallet_rows: string_views(self.wallet_rows@),
            flow_rows: string_views(self.flow_rows@),
            wallet_selected: self.wallet_selected as int,
            flow_selected: self.flow_selected as int,
            error: match self.error {
                Some(e) => Some(pieces_view(e@)),
                None => None,
            },
        }
    }
}

/// The smaller of two integers.
pub open spec fn min_int(a: int, b: int) -> int {
    if a < b {
        a
    } else {
        b
    }
}

/// The quick defaults screen of `state`; nothing without a snapshot.
pub open spec fn defaults_screen_of(state: AppState) -> Option<DefaultsView> {
    match state.snapshot {
        None => None,
        Some(snap) => {
            let d = state.vault_ui.defaults;
            let wallets = active_wallet_names(snap.wallets@);
            let flows = active_flow_names(snap.flows@);
            Some(
                DefaultsView {
                    form: seq![
                        field_line(
                            "  Default Wallet  "@,
                            picked_label(wallets, d.wallet_index),
                            d.focus == DefaultsField::Wallet,
                        ),
                        field_line(
                            "  Default Flow    "@,
                            picked_label(flows, d.flow_index),
                            d.focus == DefaultsField::Flow,
                        ),
                    ],
                    wallet_rows: seq!["None"@] + wallets,
                    flow_rows: seq!["None"@] + flows,
                    wallet_selected: min_int(d.wallet_index as int, wallets.len() as int),
                    flow_selected: min_int(d.flow_index as int, flows.len() as int),
                    error: match d.error {
                        Some(e) => Some(
                            seq![run("✗ "@, Some(Tone::Negative), false), run(e@, Some(Tone::Negative), false)],
                        ),
                        None => None,
                    },
                },
            )
        },
    }
}

pub(crate) fn wallet_rows(ws: &Vec<WalletInfo>) -> (r: Vec<String>)
    ensures
        string_views(r@) == seq!["None"@] + active_wallet_names(ws@),
{
    let mut r: Vec<String> = Vec::new();
    r.push(string_from("None"));
    let mut i: usize = 0;
    while i < ws.len()
        invariant
            i <= ws@.len(),
            string_views(r@) == seq!["None"@] + active_wallet_names(ws@.take(i as int)),
        decreases ws.len() - i,
    {
        assert(ws@.take(i + 1).drop_last() =~= ws@.take(i as int));
        assert(ws@.take(i + 1).last() == ws@[i as int]);
        if !ws[i].archived {
            let ghost before = string_views(r@);
            r.push(ws[i].name.clone());
            assert(string_views(r@) =~= before.push(ws@[i as int].name@));
        }
        i = i + 1;
        assert(string_views(r@) =~= seq!["None"@] + active_wallet_names(ws@.take(i as int)));
    }
    assert(ws@.take(ws@.len() as int) =~= ws@);
    r
}

pub(crate) fn flow_rows(fs: &Vec<FlowInfo>) -> (r: Vec<String>)
    ensures
        string_views(r@) == seq!["None"@] + active_flow_names(fs@),
{
    let mut r: Vec<String> = Vec::new();
    r.push(string_from("None"));
    let mut i: usize = 0;
    while i < fs.len()
        invariant
            i <= fs@.len(),
            string_views(r@) == seq!["None"@] + active_flow_names(fs@.take(i as int)),
        decreases fs.len() - i,
    {
        assert(fs@.take(i + 1).drop_last() =~= fs@.take(i as int));
        assert(fs@.take(i + 1).last() == fs@[i as int]);
        if !fs[i].archived {
            let ghost before = string_views(r@);
            r.push(fs[i].name.clone());
            assert(string_views(r@) =~= before.push(fs@[i as int].name@));
        }
        i = i + 1;
        assert(string_views(r@) =~= seq!["None"@] + active_flow_names(fs@.take(i as int)));
    }
    assert(fs@.take(fs@.len() as int) =~= fs@);
    r
}

fn field(label: &str, rows: &Vec<String>, index: usize, focused: bool) -> (r: Vec<Piece>)
    requires
        rows@.len() >= 1,
    ensures
        pieces_view(r@) == field_line(
            label@,
            picked_label(string_views(rows@).drop_first(), index),
            focused,
        ),
{
    let (tone, bold) = if focused { (Some(Tone::Accent), true) } else { (Some(Tone::Muted), false) };
    let mut v: Vec<Piece> = Vec::new();
    v.push(piece(label, tone, bold));
    let value = if index == 0 || index >= rows.len() {
        string_from("None")
    } else {
        rows[index].clone()
    };
    assert(index != 0 && index < rows@.len() ==> string_views(rows@).drop_first()[index - 1]
        == rows@[index as int]@);
    v.push(Piece { text: value, tone: Some(Tone::Text), bold: false });
    if focused {
        v.push(piece("  ↑↓", Some(Tone::Muted), false));
    } else {
        v.push(piece("", None, false));
    }
    assert(pieces_view(v@) =~= field_line(
        label@,
        picked_label(string_views(rows@).drop_first(), index),
        focused,
    ));
    v
}

/// The quick defaults screen: the form of the default wallet and flow, the
/// two lists with "None" first, their highlighted rows and the error line.
pub fn defaults_screen(state: &AppState) -> (r: Option<DefaultsScreen>)
    ensures
        r is None <==> defaults_screen_of(*state) is None,
        r matches Some(s) ==> s@ == defaults_screen_of(*state)->0,
{
    let snap = match &state.snapshot {
        Some(s) => s,
        None => return None,
    };
    let d = &state.vault_ui.defaults;
    let ws = wallet_rows(&snap.wallets);
    let fs = flow_rows(&snap.flows);
    let ghost wn = active_wallet_names(snap.wallets@);
    let ghost fnames = active_flow_names(snap.flows@);
    assert(string_views(ws@).drop_first() =~= wn);
    assert(string_views(fs@).drop_first() =~= fnames);
    let mut form: Vec<Vec<Piece>> = Vec::new();
    form.push(field("  Default Wallet  ", &ws, d.wallet_index, d.focus == DefaultsField::Wallet));
    form.push(field("  Default Flow    ", &fs, d.flow_index, d.focus == DefaultsField::Flow));
    let wallet_selected = if d.wallet_index < ws.len() - 1 { d.wallet_index } else { ws.len() - 1 };
    let flow_selected = if d.flow_index < fs.len() - 1 { d.flow_index } else { fs.len() - 1 };
    let error = match &d.error {
        Some(e) => {
            let mut line: Vec<Piece> = Vec::new();
            line.push(piece("✗ ", Some(Tone::Negative), false));
            line.push(Piece { text: e.clone(), tone: Some(Tone::Negative), bold: false });
            Some(line)
        },
        None => None,
    };
    let r = DefaultsScreen { form, wallet_rows: ws, flow_rows: fs, wallet_selected, flow_selected, error };
    proof {
        let want = defaults_screen_of(*state)->0;
        assert(r@.form =~= want.form);
        if r.error is Some {
            assert(pieces_view(r.error->0@) =~= want.error->0);
        }
    }
    Some(r)
}

} // verus!
