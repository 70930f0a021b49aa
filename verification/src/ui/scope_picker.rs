//! The picker of the wallet or flow that scopes the transaction list.

use super::state::{AppState, FlowInfo, TransactionsMode, WalletInfo};
use crate::strings::string_from;
use crate::text::{TextKey, message, t};
use vstd::prelude::*;

verus! {

/// The entry of a wallet: its name, marked when archived.
pub open spec fn wallet_entry_of(w: WalletInfo, locale: crate::text::Locale) -> Seq<char> {
    w.name@ + if w.archived { message(locale, TextKey::PickerSuffixArchived) } else { Seq::empty() }
}

/// The entry of a flow: its name, marked when it is the unallocated flow
/// and when archived.
pub open spec fn flow_entry_of(f: FlowInfo, locale: crate::text::Locale) -> Seq<char> {
    f.name@ + (if f.is_unallocated { message(locale, TextKey::PickerBadgeUnallocated) } else { Seq::empty() })
        + if f.archived { message(locale, TextKey::PickerSuffixArchived) } else { Seq::empty() }
}

/// The picker as values: its title, its entries and the highlighted one.
pub type PickerView = (Seq<char>, Seq<Seq<char>>, int);

/// The scope picker of `state`: nothing without a snapshot or outside the
/// picking modes; else "all" first, then each wallet (or flow) of the
/// snapshot, with the picker's index highlighted.
pub open spec fn scope_picker_of(state: AppState) -> Option<PickerView> {
    let l = state.locale;
    match state.snapshot {
        None => None,
        Some(snap) => match state.transactions.mode {
            TransactionsMode::PickWallet => Some((
                message(l, TextKey::PickerSelectWallet),
                seq![message(l, TextKey::PickerAllWallets)] + Seq::new(
                    snap.wallets@.len(),
                    |i: int| wallet_entry_of(snap.wallets@[i], l),
                ),
                state.transactions.picker_index as int,
            )),
            TransactionsMode::PickFlow => Some((
                message(l, TextKey::PickerSelectFlow),
                seq![message(l, TextKey::PickerAllFlows)] + Seq::new(
                    snap.flows@.len(),
                    |i: int| flow_entry_of(snap.flows@[i], l),
                ),
                state.transactions.picker_index as int,
            )),
            _ => None,
        },
    }
}

/// The scope picker.
#[derive(Debug, Clone)]
pub struct ScopePicker {
    pub title: &'static str,
    pub entries: Vec<String>,
    pub selected: usize,
}

/// The picker as values.
pub open spec fn picker_view(p: ScopePicker) -> PickerView {
    (p.title@, Seq::new(p.entries@.len(), |i: int| p.entries@[i]@), p.selected as int)
}

/// The scope picker of `state`; see [`scope_picker_of`].
pub fn scope_picker(state: &AppState) -> (r: Option<ScopePicker>)
    ensures
        match r {
            Some(p) => scope_picker_of(*state) == Some(picker_view(p)),
            None => scope_picker_of(*state) is None,
        },
{
    let snap = match &state.snapshot {
        Some(s) => s,
        None => return None,
    };
    let l = state.locale;
    let mut entries: Vec<String> = Vec::new();
    match state.transactions.mode {
        TransactionsMode::PickWallet => {
            entries.push(string_from(t(l, TextKey::PickerAllWallets)));
            let mut i: usize = 0;
            while i < snap.wallets.len()
                invariant
                    i <= snap.wallets@.len(),
                    entries@.len() == i + 1,
                    entries@[0]@ == message(l, TextKey::PickerAllWallets),
                    forall|k: int| 0 <= k < i ==> (#[trigger] entries@[k + 1])@ == wallet_entry_of(snap.wallets@[k], l),
                decreases snap.wallets.len() - i,
            {
                let w = &snap.wallets[i];
                let mut e = w.name.clone();
                if w.archived {
                    e.append(t(l, TextKey::PickerSuffixArchived));
                }
                assert(e@ =~= wallet_entry_of(*w, l));
                entries.push(e);
                i = i + 1;
            }
            let p = ScopePicker {
                title: t(l, TextKey::PickerSelectWallet),
                entries,
                selected: state.transactions.picker_index,
            };
            proof {
                let want = scope_picker_of(*state)->0;
                assert forall|k: int| 0 <= k < want.1.len() implies picker_view(p).1[k] == want.1[k] by {
                    if k > 0 {
                        assert(p.entries@[(k - 1) + 1] == p.entries@[k]);
                    }
                }
                assert(picker_view(p).1 =~= want.1);
            }
            Some(p)
        },
        TransactionsMode::PickFlow => {
            entries.push(string_from(t(l, TextKey::PickerAllFlows)));
            let mut i: usize = 0;
            while i < snap.flows.len()
                invariant
                    i <= snap.flows@.len(),
                    entries@.len() == i + 1,
                    entries@[0]@ == message(l, TextKey::PickerAllFlows),
                    forall|k: int| 0 <= k < i ==> (#[trigger] entries@[k + 1])@ == flow_entry_of(snap.flows@[k], l),
                decreases snap.flows.len() - i,
            {
                let f = &snap.flows[i];
                let mut e = f.name.clone();
                let ghost name = e@;
                if f.is_unallocated {
                    e.append(t(l, TextKey::PickerBadgeUnallocated));
                }
                let ghost marked = e@;
                if f.archived {
                    e.append(t(l, TextKey::PickerSuffixArchived));
                }
                assert(marked =~= name + if f.is_unallocated {
                    message(l, TextKey::PickerBadgeUnallocated)
                } else {
                    Seq::empty()
                });
                assert(e@ =~= flow_entry_of(*f, l));
                entries.push(e);
                i = i + 1;
            }
            let p = ScopePicker {
                title: t(l, TextKey::PickerSelectFlow),
                entries,
                selected: state.transactions.picker_index,
            };
            proof {
                let want = scope_picker_of(*state)->0;
                assert forall|k: int| 0 <= k < want.1.len() implies picker_view(p).1[k] == want.1[k] by {
                    if k > 0 {
                        assert(p.entries@[(k - 1) + 1] == p.entries@[k]);
                    }
                }
                assert(picker_view(p).1 =~= want.1);
            }
            Some(p)
        },
        _ => None,
    }
}

} // verus!
