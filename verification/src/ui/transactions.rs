//! Texts of the transactions screen: its scope, the recently used wallets,
//! flows and categories, the default wallet and flow of new transactions and
//! the summary of the active filters.

use super::state::{
    AppState, CalendarDate, FlowInfo, FlowQuery, GroupedTransaction, GroupingMode,
    QuickAddAmbiguousKind, TransactionKind, WalletInfo, find_flow, find_wallet, flow_fits, flow_from,
    wallet_fits, wallet_from,
};
use super::stats::month_short_name_of;
use super::{Piece, Tone, piece};
use crate::strings::{
    is_digit, join, join_strings, lemma_two_digits, lemma_zero_padded, push_char, string_from,
    string_views, to_chars, trim, trim_bounds, zero_padded,
};
use crate::text::{TextKey, message, t};
use vstd::prelude::*;

verus! {

/// The name of the wallet at position `i`.
pub open spec fn wallet_name_at(ws: Seq<WalletInfo>, i: Option<int>) -> Option<Seq<char>> {
    match i {
        Some(k) => Some(ws[k].name@),
        None => None,
    }
}

/// The name of the flow at position `i`.
pub open spec fn flow_name_at(fs: Seq<FlowInfo>, i: Option<int>) -> Option<Seq<char>> {
    match i {
        Some(k) => Some(fs[k].name@),
        None => None,
    }
}

/// The name of the active wallet with id `id`.
pub open spec fn active_wallet_name(ws: Seq<WalletInfo>, id: u128) -> Option<Seq<char>> {
    wallet_name_at(ws, wallet_from(ws, Some(id), true, 0))
}

/// The name of the active flow with id `id`.
pub open spec fn active_flow_name(fs: Seq<FlowInfo>, id: u128) -> Option<Seq<char>> {
    flow_name_at(fs, flow_from(fs, FlowQuery::ActiveId(id), 0))
}

/// The names of the active wallets among `ids`, in the order of `ids`.
pub open spec fn recent_wallets_in(ids: Seq<u128>, ws: Seq<WalletInfo>) -> Seq<Seq<char>>
    decreases ids.len(),
{
    if ids.len() == 0 {
        Seq::empty()
    } else {
        let before = recent_wallets_in(ids.drop_last(), ws);
        match active_wallet_name(ws, ids.last()) {
            Some(n) => before.push(n),
            None => before,
        }
    }
}

/// The names of the active flows among `ids`, in the order of `ids`.
pub open spec fn recent_flows_in(ids: Seq<u128>, fs: Seq<FlowInfo>) -> Seq<Seq<char>>
    decreases ids.len(),
{
    if ids.len() == 0 {
        Seq::empty()
    } else {
        let before = recent_flows_in(ids.drop_last(), fs);
        match active_flow_name(fs, ids.last()) {
            Some(n) => before.push(n),
            None => before,
        }
    }
}

/// The names of the recently used wallets that are still active.
pub open spec fn recent_wallet_names_of(state: AppState) -> Seq<Seq<char>> {
    match state.snapshot {
        Some(s) => recent_wallets_in(state.transactions.recent_wallet_ids@, s.wallets@),
        None => Seq::empty(),
    }
}

/// The names of the recently used flows that are still active.
pub open spec fn recent_flow_names_of(state: AppState) -> Seq<Seq<char>> {
    match state.snapshot {
        Some(s) => recent_flows_in(state.transactions.recent_flow_ids@, s.flows@),
        None => Seq::empty(),
    }
}

/// The label of the scope the transaction list is limited to.
pub open spec fn scope_label_of(state: AppState) -> Seq<char> {
    if state.transactions.scope_flow_id is Some {
        let id = state.transactions.scope_flow_id->0;
        match state.snapshot {
            Some(s) => match flow_from(s.flows@, FlowQuery::Id(id), 0) {
                Some(i) => "Flow: "@ + s.flows@[i].name@,
                None => "Flow: ?"@,
            },
            None => "Flow: ?"@,
        }
    } else if state.transactions.scope_wallet_id is Some {
        let id = state.transactions.scope_wallet_id->0;
        match state.snapshot {
            Some(s) => match wallet_from(s.wallets@, Some(id), false, 0) {
                Some(i) => "Wallet: "@ + s.wallets@[i].name@,
                None => "Wallet: ?"@,
            },
            None => "Wallet: ?"@,
        }
    } else {
        message(state.locale, TextKey::TxnScopeAll)
    }
}

/// The scope label of the header: the flow or wallet the list is limited to,
/// or "all".
pub fn scope_label(state: &AppState) -> (r: String)
    ensures
        r@ == scope_label_of(*state),
{
    if let Some(flow_id) = state.transactions.scope_flow_id {
        if let Some(snap) = &state.snapshot {
            if let Some(i) = find_flow(&snap.flows, FlowQuery::Id(flow_id)) {
                let mut r = string_from("Flow: ");
                r.append(snap.flows[i].name.as_str());
                return r;
            }
        }
        return string_from("Flow: ?");
    }
    if let Some(wallet_id) = state.transactions.scope_wallet_id {
        if let Some(snap) = &state.snapshot {
            if let Some(i) = find_wallet(&snap.wallets, Some(wallet_id), false) {
                let mut r = string_from("Wallet: ");
                r.append(snap.wallets[i].name.as_str());
                return r;
            }
        }
        return string_from("Wallet: ?");
    }
    string_from(t(state.locale, TextKey::TxnScopeAll))
}

/// The names of the recently used wallets that are still active.
pub fn recent_wallet_names(state: &AppState) -> (r: Vec<String>)
    ensures
        string_views(r@) == recent_wallet_names_of(*state),
{
    let mut names: Vec<String> = Vec::new();
    let snapshot = match &state.snapshot {
        Some(s) => s,
        None => {
            assert(string_views(names@) =~= Seq::<Seq<char>>::empty());
            return names;
        },
    };
    let ids = &state.transactions.recent_wallet_ids;
    let mut k: usize = 0;
    assert(ids@.take(0) =~= Seq::<u128>::empty());
    assert(string_views(names@) =~= Seq::<Seq<char>>::empty());
    while k < ids.len()
        invariant
            k <= ids@.len(),
            string_views(names@) == recent_wallets_in(ids@.take(k as int), snapshot.wallets@),
        decreases ids.len() - k,
    {
        assert(ids@.take(k + 1).drop_last() =~= ids@.take(k as int));
        assert(ids@.take(k + 1).last() == ids@[k as int]);
        if let Some(i) = find_wallet(&snapshot.wallets, Some(ids[k]), true) {
            let ghost before = string_views(names@);
            names.push(snapshot.wallets[i].name.clone());
            assert(string_views(names@) =~= before.push(snapshot.wallets@[i as int].name@));
        }
        k = k + 1;
    }
    assert(ids@.take(ids@.len() as int) =~= ids@);
    names
}

/// The names of the recently used flows that are still active.
pub fn recent_flow_names(state: &AppState) -> (r: Vec<String>)
    ensures
        string_views(r@) == recent_flow_names_of(*state),
{
    let mut names: Vec<String> = Vec::new();
    let snapshot = match &state.snapshot {
        Some(s) => s,
        None => {
            assert(string_views(names@) =~= Seq::<Seq<char>>::empty());
            return names;
        },
    };
    let ids = &state.transactions.recent_flow_ids;
    let mut k: usize = 0;
    assert(ids@.take(0) =~= Seq::<u128>::empty());
    assert(string_views(names@) =~= Seq::<Seq<char>>::empty());
    while k < ids.len()
        invariant
            k <= ids@.len(),
            string_views(names@) == recent_flows_in(ids@.take(k as int), snapshot.flows@),
        decreases ids.len() - k,
    {
        assert(ids@.take(k + 1).drop_last() =~= ids@.take(k as int));
        assert(ids@.take(k + 1).last() == ids@[k as int]);
        if let Some(i) = find_flow(&snapshot.flows, FlowQuery::ActiveId(ids[k])) {
            let ghost before = string_views(names@);
            names.push(snapshot.flows[i].name.clone());
            assert(string_views(names@) =~= before.push(snapshot.flows@[i as int].name@));
        }
        k = k + 1;
    }
    assert(ids@.take(ids@.len() as int) =~= ids@);
    names
}

/// The first `n` items of `s`, or all of them when there are fewer.
pub open spec fn first_n<A>(s: Seq<A>, n: int) -> Seq<A> {
    if s.len() <= n {
        s
    } else {
        s.take(n)
    }
}

/// Each category written as a hashtag.
pub open spec fn hashtags(cats: Seq<Seq<char>>) -> Seq<Seq<char>> {
    Seq::new(cats.len(), |i: int| seq!['#'] + cats[i])
}

/// The parts of the recents line: categories, wallets and flows, each only when there are any.
pub open spec fn recents_parts(state: AppState) -> Seq<Seq<char>> {
    let locale = state.locale;
    let cats = hashtags(first_n(string_views(state.transactions.recent_categories@), 3));
    let wallets = first_n(recent_wallet_names_of(state), 3);
    let flows = first_n(recent_flow_names_of(state), 3);
    let p1: Seq<Seq<char>> = if cats.len() > 0 {
        seq![message(locale, TextKey::TxnRecentsCategories) + join(cats, " "@)]
    } else {
        Seq::empty()
    };
    let p2: Seq<Seq<char>> = if wallets.len() > 0 {
        p1.push(message(locale, TextKey::TxnRecentsWallet) + join(wallets, ", "@))
    } else {
        p1
    };
    if flows.len() > 0 {
        p2.push(message(locale, TextKey::TxnRecentsFlow) + join(flows, ", "@))
    } else {
        p2
    }
}

/// The recents line of the form footer.
pub open spec fn recents_line_of(state: AppState) -> Option<Seq<char>> {
    let parts = recents_parts(state);
    if parts.len() == 0 {
        None
    } else {
        Some(message(state.locale, TextKey::TxnRecentsPrefix) + join(parts, " • "@))
    }
}

/// The first `n` of `v`, as a new vector.
fn first_strings(v: &Vec<String>, n: usize) -> (r: Vec<String>)
    ensures
        string_views(r@) == first_n(string_views(v@), n as int),
{
    let mut r: Vec<String> = Vec::new();
    let mut i: usize = 0;
    let stop = if v.len() < n { v.len() } else { n };
    while i < stop
        invariant
            stop <= v@.len(),
            stop == (if v@.len() < n { v@.len() } else { n as nat }),
            i <= stop,
            r@.len() == i,
            string_views(r@) == string_views(v@).take(i as int),
        decreases stop - i,
    {
        let c = v[i].clone();
        assert(c@ == v@[i as int]@);
        let ghost before = r@;
        r.push(c);
        assert(r@ == before.push(c));
        i = i + 1;
        assert forall|k: int| 0 <= k < i implies #[trigger] string_views(r@)[k] == string_views(
            v@,
        ).take(i as int)[k] by {
            if k < i - 1 {
                assert(r@[k] == before[k]);
                assert(string_views(before)[k] == string_views(v@).take(i - 1)[k]);
            }
        }
        assert(string_views(r@) =~= string_views(v@).take(i as int));
    }
    assert(string_views(v@).take(stop as int) =~= first_n(string_views(v@), n as int));
    r
}

/// Builds the recents summary line for the form footer.
pub fn recents_line(state: &AppState) -> (r: Option<String>)
    ensures
        r is None <==> recents_line_of(*state) is None,
        r matches Some(s) ==> s@ == recents_line_of(*state)->0,
{
    let locale = state.locale;
    let mut parts: Vec<String> = Vec::new();
    let cats = first_strings(&state.transactions.recent_categories, 3);
    let mut tags: Vec<String> = Vec::new();
    let mut i: usize = 0;
    while i < cats.len()
        invariant
            i <= cats@.len(),
            tags@.len() == i,
            string_views(tags@) == hashtags(string_views(cats@).take(i as int)),
        decreases cats.len() - i,
    {
        let mut tag = String::new();
        push_char(&mut tag, '#');
        tag.append(cats[i].as_str());
        assert(tag@ == seq!['#'] + cats@[i as int]@);
        let ghost before = tags@;
        tags.push(tag);
        i = i + 1;
        assert forall|k: int| 0 <= k < i implies #[trigger] string_views(tags@)[k] == hashtags(
            string_views(cats@).take(i as int),
        )[k] by {
            if k < i - 1 {
                assert(tags@[k] == before[k]);
                assert(string_views(before)[k] == hashtags(string_views(cats@).take(i - 1))[k]);
            }
        }
        assert(string_views(tags@) =~= hashtags(string_views(cats@).take(i as int)));
    }
    assert(string_views(cats@).take(cats@.len() as int) =~= string_views(cats@));
    assert(string_views(parts@) =~= Seq::<Seq<char>>::empty());
    if tags.len() > 0 {
        let mut part = string_from(t(locale, TextKey::TxnRecentsCategories));
        part.append(join_strings(&tags, " ").as_str());
        parts.push(part);
    }
    let ghost p1 = string_views(parts@);
    let wallets = first_strings(&recent_wallet_names(state), 3);
    if wallets.len() > 0 {
        let mut part = string_from(t(locale, TextKey::TxnRecentsWallet));
        part.append(join_strings(&wallets, ", ").as_str());
        parts.push(part);
        assert(string_views(parts@) =~= p1.push(part@));
    }
    let ghost p2 = string_views(parts@);
    let flows = first_strings(&recent_flow_names(state), 3);
    if flows.len() > 0 {
        let mut part = string_from(t(locale, TextKey::TxnRecentsFlow));
        part.append(join_strings(&flows, ", ").as_str());
        parts.push(part);
        assert(string_views(parts@) =~= p2.push(part@));
    }
    assert(string_views(parts@) =~= recents_parts(*state));
    if parts.len() == 0 {
        None
    } else {
        let mut line = string_from(t(locale, TextKey::TxnRecentsPrefix));
        line.append(join_strings(&parts, " • ").as_str());
        Some(line)
    }
}

/// The wallet new transactions go to: the scope wallet, the default wallet,
/// the most recent wallet, the first wallet, each only if active.
pub open spec fn default_wallet_name_of(state: AppState) -> Seq<char> {
    match state.snapshot {
        None => "-"@,
        Some(s) => {
            let ws = s.wallets@;
            let by_scope = match state.transactions.scope_wallet_id {
                Some(id) => active_wallet_name(ws, id),
                None => None,
            };
            let by_default = match state.default_wallet_id {
                Some(id) => active_wallet_name(ws, id),
                None => None,
            };
            let recents = recent_wallets_in(state.transactions.recent_wallet_ids@, ws);
            if by_scope is Some {
                by_scope->0
            } else if by_default is Some {
                by_default->0
            } else if recents.len() > 0 {
                recents[0]
            } else {
                match wallet_from(ws, None, true, 0) {
                    Some(i) => ws[i].name@,
                    None => "-"@,
                }
            }
        },
    }
}

/// The flow new transactions go to: the scope flow, the default flow, the
/// most recent flow, the last used flow, each only if active; else the
/// unallocated flow.
pub open spec fn default_flow_name_of(state: AppState) -> Seq<char> {
    match state.snapshot {
        None => "-"@,
        Some(s) => {
            let fs = s.flows@;
            let by_scope = match state.transactions.scope_flow_id {
                Some(id) => active_flow_name(fs, id),
                None => None,
            };
            let by_default = match state.default_flow_id {
                Some(id) => active_flow_name(fs, id),
                None => None,
            };
            let recents = recent_flows_in(state.transactions.recent_flow_ids@, fs);
            let by_last = match state.last_flow_id {
                Some(id) => active_flow_name(fs, id),
                None => None,
            };
            if by_scope is Some {
                by_scope->0
            } else if by_default is Some {
                by_default->0
            } else if recents.len() > 0 {
                recents[0]
            } else if by_last is Some {
                by_last->0
            } else {
                match flow_from(fs, FlowQuery::Unallocated, 0) {
                    Some(i) => fs[i].name@,
                    None => "Non in flow"@,
                }
            }
        },
    }
}

proof fn lemma_wallet_from(ws: Seq<WalletInfo>, id: Option<u128>, active_only: bool, from: int)
    requires
        0 <= from,
    ensures
        wallet_from(ws, id, active_only, from) matches Some(i) ==> from <= i < ws.len() && wallet_fits(
            ws[i],
            id,
            active_only,
        ),
        wallet_from(ws, id, active_only, from) is None ==> forall|j: int|
            from <= j < ws.len() ==> !wallet_fits(#[trigger] ws[j], id, active_only),
    decreases ws.len() - from,
{
    if from < ws.len() && !wallet_fits(ws[from], id, active_only) {
        lemma_wallet_from(ws, id, active_only, from + 1);
        assert forall|j: int| from <= j < ws.len() && wallet_from(ws, id, active_only, from) is None implies !wallet_fits(
            #[trigger] ws[j],
            id,
            active_only,
        ) by {
            if j > from {
                assert(!wallet_fits(ws[j], id, active_only));
            }
        }
    }
}

proof fn lemma_wallet_from_first(ws: Seq<WalletInfo>, id: Option<u128>, active_only: bool, from: int, i: int)
    requires
        0 <= from <= i < ws.len(),
        wallet_fits(ws[i], id, active_only),
        forall|j: int| from <= j < i ==> !wallet_fits(#[trigger] ws[j], id, active_only),
    ensures
        wallet_from(ws, id, active_only, from) == Some(i),
    decreases i - from,
{
    if from < i {
        lemma_wallet_from_first(ws, id, active_only, from + 1, i);
    }
}

proof fn lemma_flow_from_first(fs: Seq<FlowInfo>, q: FlowQuery, from: int, i: int)
    requires
        0 <= from <= i < fs.len(),
        flow_fits(fs[i], q),
        forall|j: int| from <= j < i ==> !flow_fits(#[trigger] fs[j], q),
    ensures
        flow_from(fs, q, from) == Some(i),
    decreases i - from,
{
    if from < i {
        lemma_flow_from_first(fs, q, from + 1, i);
    }
}

/// `i` is the first active wallet of `ws` with id `id`.
pub open spec fn first_active_wallet(ws: Seq<WalletInfo>, id: u128, i: int) -> bool {
    &&& 0 <= i < ws.len()
    &&& ws[i].id == id && !ws[i].archived
    &&& forall|j: int| 0 <= j < i ==> !(#[trigger] ws[j].id == id && !ws[j].archived)
}

/// `i` is the first active flow of `fs` with id `id`.
pub open spec fn first_active_flow(fs: Seq<FlowInfo>, id: u128, i: int) -> bool {
    &&& 0 <= i < fs.len()
    &&& fs[i].id == id && !fs[i].archived
    &&& forall|j: int| 0 <= j < i ==> !(#[trigger] fs[j].id == id && !fs[j].archived)
}

/// `i` is the first active wallet with the id `id`, when there is one.
pub open spec fn picks_active_wallet(ws: Seq<WalletInfo>, id: Option<u128>, i: int) -> bool {
    match id {
        Some(x) => first_active_wallet(ws, x, i),
        None => false,
    }
}

/// No active wallet has the id `id`, or there is no id.
pub open spec fn no_active_wallet(ws: Seq<WalletInfo>, id: Option<u128>) -> bool {
    match id {
        Some(x) => forall|j: int| 0 <= j < ws.len() ==> !(#[trigger] ws[j].id == x && !ws[j].archived),
        None => true,
    }
}

/// `i` is the first active flow with the id `id`, when there is one.
pub open spec fn picks_active_flow(fs: Seq<FlowInfo>, id: Option<u128>, i: int) -> bool {
    match id {
        Some(x) => first_active_flow(fs, x, i),
        None => false,
    }
}

/// No active flow has the id `id`, or there is no id.
pub open spec fn no_active_flow(fs: Seq<FlowInfo>, id: Option<u128>) -> bool {
    match id {
        Some(x) => forall|j: int| 0 <= j < fs.len() ==> !(#[trigger] fs[j].id == x && !fs[j].archived),
        None => true,
    }
}

/// Law: a new transaction goes to the active wallet the list is scoped
/// to; when the scope names no active wallet, to the active default wallet.
pub proof fn law_default_wallet_priority(state: AppState, i: int)
    requires
        state.snapshot is Some,
    ensures
        picks_active_wallet(state.snapshot->0.wallets@, state.transactions.scope_wallet_id, i)
            ==> default_wallet_name_of(state) == state.snapshot->0.wallets@[i].name@,
        no_active_wallet(state.snapshot->0.wallets@, state.transactions.scope_wallet_id) && picks_active_wallet(
            state.snapshot->0.wallets@,
            state.default_wallet_id,
            i,
        ) ==> default_wallet_name_of(state) == state.snapshot->0.wallets@[i].name@,
{
    let ws = state.snapshot->0.wallets@;
    if let Some(id) = state.transactions.scope_wallet_id {
        lemma_wallet_from(ws, Some(id), true, 0);
        if first_active_wallet(ws, id, i) {
            lemma_wallet_from_first(ws, Some(id), true, 0, i);
        }
    }
    if let Some(d) = state.default_wallet_id {
        if first_active_wallet(ws, d, i) {
            lemma_wallet_from_first(ws, Some(d), true, 0, i);
        }
    }
}

/// Law: a new transaction goes to the active flow the list is scoped to;
/// when the scope names no active flow, to the active default flow.
pub proof fn law_default_flow_priority(state: AppState, i: int)
    requires
        state.snapshot is Some,
    ensures
        picks_active_flow(state.snapshot->0.flows@, state.transactions.scope_flow_id, i)
            ==> default_flow_name_of(state) == state.snapshot->0.flows@[i].name@,
        no_active_flow(state.snapshot->0.flows@, state.transactions.scope_flow_id) && picks_active_flow(
            state.snapshot->0.flows@,
            state.default_flow_id,
            i,
        ) ==> default_flow_name_of(state) == state.snapshot->0.flows@[i].name@,
{
    let fs = state.snapshot->0.flows@;
    if let Some(id) = state.transactions.scope_flow_id {
        lemma_flow_from(fs, FlowQuery::ActiveId(id), 0);
        if first_active_flow(fs, id, i) {
            lemma_flow_from_first(fs, FlowQuery::ActiveId(id), 0, i);
        }
    }
    if let Some(d) = state.default_flow_id {
        if first_active_flow(fs, d, i) {
            lemma_flow_from_first(fs, FlowQuery::ActiveId(d), 0, i);
        }
    }
}

/// `name` is the name of an active wallet of `ws`.
pub open spec fn names_active_wallet(ws: Seq<WalletInfo>, name: Seq<char>) -> bool {
    exists|i: int| 0 <= i < ws.len() && !ws[i].archived && #[trigger] ws[i].name@ == name
}

proof fn lemma_active_wallet_name(ws: Seq<WalletInfo>, id: u128)
    ensures
        active_wallet_name(ws, id) matches Some(n) ==> names_active_wallet(ws, n),
{
    lemma_wallet_from(ws, Some(id), true, 0);
    if let Some(i) = wallet_from(ws, Some(id), true, 0) {
        assert(ws[i].name@ == active_wallet_name(ws, id)->0);
    }
}

proof fn lemma_recent_wallets_active(ids: Seq<u128>, ws: Seq<WalletInfo>)
    ensures
        forall|k: int|
            0 <= k < recent_wallets_in(ids, ws).len() ==> names_active_wallet(
                ws,
                #[trigger] recent_wallets_in(ids, ws)[k],
            ),
    decreases ids.len(),
{
    if ids.len() > 0 {
        lemma_recent_wallets_active(ids.drop_last(), ws);
        lemma_active_wallet_name(ws, ids.last());
        let before = recent_wallets_in(ids.drop_last(), ws);
        assert forall|k: int|
            0 <= k < recent_wallets_in(ids, ws).len() implies names_active_wallet(
                ws,
                #[trigger] recent_wallets_in(ids, ws)[k],
            ) by {
            if k < before.len() {
                assert(recent_wallets_in(ids, ws)[k] == before[k]);
            }
        }
    }
}

/// Law: the wallet a new transaction goes to by default is never archived:
/// its name is that of an active wallet of the snapshot, and only when
/// every wallet is archived is it `-`.
pub proof fn law_default_wallet_is_active(state: AppState)
    requires
        state.snapshot is Some,
    ensures
        names_active_wallet(state.snapshot->0.wallets@, default_wallet_name_of(state)) || ((forall|i: int|
            0 <= i < state.snapshot->0.wallets@.len() ==> (#[trigger] state.snapshot->0.wallets@[i]).archived)
            && default_wallet_name_of(state) == "-"@),
{
    let ws = state.snapshot->0.wallets@;
    if let Some(id) = state.transactions.scope_wallet_id {
        lemma_active_wallet_name(ws, id);
    }
    if let Some(id) = state.default_wallet_id {
        lemma_active_wallet_name(ws, id);
    }
    lemma_recent_wallets_active(state.transactions.recent_wallet_ids@, ws);
    lemma_wallet_from(ws, None, true, 0);
    if let Some(i) = wallet_from(ws, None, true, 0) {
        assert(!ws[i].archived && ws[i].name@ == ws[i].name@);
    }
    let recents = recent_wallets_in(state.transactions.recent_wallet_ids@, ws);
    if recents.len() > 0 {
        assert(names_active_wallet(ws, recents[0]));
    }
}

proof fn lemma_flow_from(fs: Seq<FlowInfo>, q: FlowQuery, from: int)
    requires
        0 <= from,
    ensures
        flow_from(fs, q, from) matches Some(i) ==> from <= i < fs.len() && flow_fits(fs[i], q),
    decreases fs.len() - from,
{
    if from < fs.len() && !flow_fits(fs[from], q) {
        lemma_flow_from(fs, q, from + 1);
    }
}

/// `name` is the name of an active flow of `fs`.
pub open spec fn names_active_flow(fs: Seq<FlowInfo>, name: Seq<char>) -> bool {
    exists|i: int| 0 <= i < fs.len() && !fs[i].archived && #[trigger] fs[i].name@ == name
}

proof fn lemma_active_flow_name(fs: Seq<FlowInfo>, id: u128)
    ensures
        active_flow_name(fs, id) matches Some(n) ==> names_active_flow(fs, n),
{
    lemma_flow_from(fs, FlowQuery::ActiveId(id), 0);
    if let Some(i) = flow_from(fs, FlowQuery::ActiveId(id), 0) {
        assert(fs[i].name@ == active_flow_name(fs, id)->0);
    }
}

proof fn lemma_recent_flows_active(ids: Seq<u128>, fs: Seq<FlowInfo>)
    ensures
        forall|k: int|
            0 <= k < recent_flows_in(ids, fs).len() ==> names_active_flow(fs, #[trigger] recent_flows_in(ids, fs)[k]),
    decreases ids.len(),
{
    if ids.len() > 0 {
        lemma_recent_flows_active(ids.drop_last(), fs);
        lemma_active_flow_name(fs, ids.last());
        let before = recent_flows_in(ids.drop_last(), fs);
        assert forall|k: int|
            0 <= k < recent_flows_in(ids, fs).len() implies names_active_flow(
                fs,
                #[trigger] recent_flows_in(ids, fs)[k],
            ) by {
            if k < before.len() {
                assert(recent_flows_in(ids, fs)[k] == before[k]);
            }
        }
    }
}

/// Law: the flow a new transaction goes to by default is an active flow of
/// the snapshot, unless it falls back to the unallocated flow, or to
/// `Non in flow` when there is none.
pub proof fn law_default_flow_is_active(state: AppState)
    requires
        state.snapshot is Some,
    ensures
        ({
            let fs = state.snapshot->0.flows@;
            let r = default_flow_name_of(state);
            ||| names_active_flow(fs, r)
            ||| exists|i: int| 0 <= i < fs.len() && fs[i].is_unallocated && #[trigger] fs[i].name@ == r
            ||| r == "Non in flow"@
        }),
{
    let fs = state.snapshot->0.flows@;
    if let Some(id) = state.transactions.scope_flow_id {
        lemma_active_flow_name(fs, id);
    }
    if let Some(id) = state.default_flow_id {
        lemma_active_flow_name(fs, id);
    }
    if let Some(id) = state.last_flow_id {
        lemma_active_flow_name(fs, id);
    }
    lemma_recent_flows_active(state.transactions.recent_flow_ids@, fs);
    let recents = recent_flows_in(state.transactions.recent_flow_ids@, fs);
    if recents.len() > 0 {
        assert(names_active_flow(fs, recents[0]));
    }
    lemma_flow_from(fs, FlowQuery::Unallocated, 0);
    if let Some(i) = flow_from(fs, FlowQuery::Unallocated, 0) {
        assert(fs[i].is_unallocated && fs[i].name@ == fs[i].name@);
    }
}

fn active_wallet_name_of(ws: &Vec<WalletInfo>, id: Option<u128>) -> (r: Option<String>)
    ensures
        id is None ==> r is None,
        id matches Some(x) ==> (r is Some <==> active_wallet_name(ws@, x) is Some),
        id matches Some(x) ==> (r matches Some(n) ==> n@ == active_wallet_name(ws@, x)->0),
{
    match id {
        None => None,
        Some(x) => match find_wallet(ws, Some(x), true) {
            Some(i) => Some(ws[i].name.clone()),
            None => None,
        },
    }
}

fn active_flow_name_of(fs: &Vec<FlowInfo>, id: Option<u128>) -> (r: Option<String>)
    ensures
        id is None ==> r is None,
        id matches Some(x) ==> (r is Some <==> active_flow_name(fs@, x) is Some),
        id matches Some(x) ==> (r matches Some(n) ==> n@ == active_flow_name(fs@, x)->0),
{
    match id {
        None => None,
        Some(x) => match find_flow(fs, FlowQuery::ActiveId(x)) {
            Some(i) => Some(fs[i].name.clone()),
            None => None,
        },
    }
}

/// The names of the wallet and the flow a new transaction goes to by default.
pub fn default_wallet_flow_names(state: &AppState) -> (r: (String, String))
    ensures
        r.0@ == default_wallet_name_of(*state),
        r.1@ == default_flow_name_of(*state),
{
    let snapshot = match &state.snapshot {
        Some(s) => s,
        None => return (string_from("-"), string_from("-")),
    };
    let ws = &snapshot.wallets;
    let wallet_name = if let Some(n) = active_wallet_name_of(ws, state.transactions.scope_wallet_id) {
        n
    } else if let Some(n) = active_wallet_name_of(ws, state.default_wallet_id) {
        n
    } else {
        let recents = recent_wallet_names(state);
        if recents.len() > 0 {
            assert(string_views(recents@)[0] == recents@[0]@);
            recents[0].clone()
        } else {
            match find_wallet(ws, None, true) {
                Some(i) => ws[i].name.clone(),
                None => string_from("-"),
            }
        }
    };
    let fs = &snapshot.flows;
    let flow_name = if let Some(n) = active_flow_name_of(fs, state.transactions.scope_flow_id) {
        n
    } else if let Some(n) = active_flow_name_of(fs, state.default_flow_id) {
        n
    } else {
        let recents = recent_flow_names(state);
        if recents.len() > 0 {
            assert(string_views(recents@)[0] == recents@[0]@);
            recents[0].clone()
        } else if let Some(n) = active_flow_name_of(fs, state.last_flow_id) {
            n
        } else {
            match find_flow(fs, FlowQuery::Unallocated) {
                Some(i) => fs[i].name.clone(),
                None => string_from("Non in flow"),
            }
        }
    };
    (wallet_name, flow_name)
}

/// An amount with the sign it counts with in totals: expenses count negative.
pub open spec fn signed_amount_of(kind: TransactionKind, amount_minor: i64) -> int {
    if kind is Expense {
        if amount_minor < 0 {
            amount_minor as int
        } else {
            -amount_minor
        }
    } else {
        amount_minor as int
    }
}

/// Converts a transaction kind and amount to a signed amount, for totals.
pub fn signed_amount_minor(kind: TransactionKind, amount_minor: i64) -> (r: i64)
    requires
        !(kind is Expense) || amount_minor != i64::MIN,
    ensures
        r == signed_amount_of(kind, amount_minor),
{
    if kind == TransactionKind::Expense {
        if amount_minor < 0 {
            amount_minor
        } else {
            -amount_minor
        }
    } else {
        amount_minor
    }
}

/// The digit of a nibble in lowercase hexadecimal.
pub open spec fn hex_digit(d: nat) -> char {
    if d < 10 {
        ((d + ('0' as u32)) as u32) as char
    } else {
        ((d - 10 + ('a' as u32)) as u32) as char
    }
}

/// The last `n` hexadecimal digits of `v`, most significant first.
pub open spec fn hex_digits(v: nat, n: nat) -> Seq<char>
    decreases n,
{
    if n == 0 {
        Seq::empty()
    } else {
        hex_digits(v / 16, (n - 1) as nat).push(hex_digit(v % 16))
    }
}

/// A UUID in its hyphenated lowercase form, `xxxxxxxx-xxxx-xxxx-xxxx-xxxxxxxxxxxx`.
pub open spec fn uuid_text(id: u128) -> Seq<char> {
    let h = hex_digits(id as nat, 32);
    h.subrange(0, 8) + "-"@ + h.subrange(8, 12) + "-"@ + h.subrange(12, 16) + "-"@ + h.subrange(
        16,
        20,
    ) + "-"@ + h.subrange(20, 32)
}

/// `16` to the power `n`.
pub open spec fn pow16(n: nat) -> nat
    decreases n,
{
    if n == 0 {
        1
    } else {
        16 * pow16((n - 1) as nat)
    }
}

proof fn lemma_hex_digits_len(v: nat, n: nat)
    ensures
        hex_digits(v, n).len() == n,
    decreases n,
{
    if n > 0 {
        lemma_hex_digits_len(v / 16, (n - 1) as nat);
    }
}

proof fn lemma_hex_digit_injective(a: nat, b: nat)
    requires
        a < 16,
        b < 16,
        hex_digit(a) == hex_digit(b),
    ensures
        a == b,
{
    assert(hex_digit(a) as u32 == if a < 10 { a + 48 } else { a + 87 });
    assert(hex_digit(b) as u32 == if b < 10 { b + 48 } else { b + 87 });
}

proof fn lemma_hex_digits_determine(a: nat, b: nat, n: nat)
    requires
        hex_digits(a, n) == hex_digits(b, n),
    ensures
        a % pow16(n) == b % pow16(n),
    decreases n,
{
    if n > 0 {
        let m = (n - 1) as nat;
        let ha = hex_digits(a / 16, m);
        let hb = hex_digits(b / 16, m);
        assert(hex_digits(a, n).drop_last() =~= ha);
        assert(hex_digits(b, n).drop_last() =~= hb);
        assert(hex_digits(a, n).last() == hex_digit(a % 16));
        assert(hex_digits(b, n).last() == hex_digit(b % 16));
        lemma_hex_digit_injective(a % 16, b % 16);
        lemma_hex_digits_determine(a / 16, b / 16, m);
        assert(pow16(m) > 0) by {
            lemma_pow16_positive(m);
        }
        vstd::arithmetic::div_mod::lemma_breakdown(a as int, 16, pow16(m) as int);
        vstd::arithmetic::div_mod::lemma_breakdown(b as int, 16, pow16(m) as int);
    }
}

proof fn lemma_pow16_positive(n: nat)
    ensures
        pow16(n) > 0,
    decreases n,
{
    if n > 0 {
        lemma_pow16_positive((n - 1) as nat);
    }
}

/// The text of a UUID has 36 characters.
proof fn lemma_uuid_text_len(id: u128)
    ensures
        uuid_text(id).len() == 36,
{
    reveal_strlit("-");
    lemma_hex_digits_len(id as nat, 32);
}

/// Different identifiers are written differently.
pub proof fn lemma_uuid_text_injective(a: u128, b: u128)
    requires
        uuid_text(a) == uuid_text(b),
    ensures
        a == b,
{
    reveal_strlit("-");
    lemma_hex_digits_len(a as nat, 32);
    lemma_hex_digits_len(b as nat, 32);
    let ha = hex_digits(a as nat, 32);
    let hb = hex_digits(b as nat, 32);
    let ua = uuid_text(a);
    let ub = uuid_text(b);
    assert forall|i: int| 0 <= i < 32 implies ha[i] == hb[i] by {
        let j = if i < 8 {
            i
        } else if i < 12 {
            i + 1
        } else if i < 16 {
            i + 2
        } else if i < 20 {
            i + 3
        } else {
            i + 4
        };
        assert(ua[j] == ha[i]);
        assert(ub[j] == hb[i]);
    }
    assert(ha =~= hb);
    lemma_hex_digits_determine(a as nat, b as nat, 32);
    assert(pow16(32) == 0x1_0000_0000_0000_0000_0000_0000_0000_0000) by {
        reveal_with_fuel(pow16, 33);
    }
    vstd::arithmetic::div_mod::lemma_small_mod(a as nat, pow16(32));
    vstd::arithmetic::div_mod::lemma_small_mod(b as nat, pow16(32));
}

/// The text of a UUID: `uuid::Uuid::from_u128(id).to_string()`, which the
/// `uuid` crate writes as 32 lowercase hexadecimal digits of the value, most
/// significant first, in groups of 8, 4, 4, 4 and 12 joined by hyphens.
#[verifier::external_body]
fn uuid_string(id: u128) -> (r: String)
    ensures
        r@ == uuid_text(id),
{
    uuid::Uuid::from_u128(id).to_string()
}

/// The name of the wallet with id `id`, or the id itself.
pub open spec fn wallet_label_of(state: AppState, id: u128) -> Seq<char> {
    match state.snapshot {
        Some(s) => match wallet_from(s.wallets@, Some(id), false, 0) {
            Some(i) => s.wallets@[i].name@,
            None => uuid_text(id),
        },
        None => uuid_text(id),
    }
}

/// The name of the flow with id `id`, or the id itself.
pub open spec fn flow_label_of(state: AppState, id: u128) -> Seq<char> {
    match state.snapshot {
        Some(s) => match flow_from(s.flows@, FlowQuery::Id(id), 0) {
            Some(i) => s.flows@[i].name@,
            None => uuid_text(id),
        },
        None => uuid_text(id),
    }
}

/// The name of the wallet with id `wallet_id`, or the id when there is none.
pub fn resolve_wallet_name(state: &AppState, wallet_id: u128) -> (r: String)
    ensures
        r@ == wallet_label_of(*state, wallet_id),
{
    if let Some(snap) = &state.snapshot {
        if let Some(i) = find_wallet(&snap.wallets, Some(wallet_id), false) {
            return snap.wallets[i].name.clone();
        }
    }
    uuid_string(wallet_id)
}

/// The name of the flow with id `flow_id`, or the id when there is none.
pub fn resolve_flow_name(state: &AppState, flow_id: u128) -> (r: String)
    ensures
        r@ == flow_label_of(*state, flow_id),
{
    if let Some(snap) = &state.snapshot {
        if let Some(i) = find_flow(&snap.flows, FlowQuery::Id(flow_id)) {
            return snap.flows[i].name.clone();
        }
    }
    uuid_string(flow_id)
}

/// Whether `y` is a leap year of the proleptic Gregorian calendar.
pub open spec fn is_leap_year(y: int) -> bool {
    y % 4 == 0 && (y % 100 != 0 || y % 400 == 0)
}

/// The number of days of month `m` in year `y`.
pub open spec fn days_in_month(y: int, m: int) -> int {
    if m == 2 {
        if is_leap_year(y) {
            29
        } else {
            28
        }
    } else if m == 4 || m == 6 || m == 9 || m == 11 {
        30
    } else {
        31
    }
}

/// A date that exists, in the years `chrono` covers (-262143 through 262142).
pub open spec fn valid_date(d: CalendarDate) -> bool {
    &&& -262143 <= d.year <= 262142
    &&& 1 <= d.month <= 12
    &&& 1 <= d.day <= days_in_month(d.year as int, d.month as int)
}

/// The year as `chrono` writes `%Y`: four digits, zeros in front, with a sign
/// outside 0 through 9999.
pub open spec fn year_text(y: int) -> Seq<char> {
    if 0 <= y <= 9999 {
        zero_padded(y as nat, 4)
    } else if y < 0 {
        seq!['-'] + zero_padded((-y) as nat, 4)
    } else {
        seq!['+'] + zero_padded(y as nat, 4)
    }
}

/// A date as `%Y-%m-%d`.
pub open spec fn iso_date_text(d: CalendarDate) -> Seq<char> {
    year_text(d.year as int) + seq!['-'] + zero_padded(d.month as nat, 2) + seq!['-']
        + zero_padded(d.day as nat, 2)
}

/// A date written as `%d %b %Y`: the day in two digits, the short English
/// name of the month and the year.
pub open spec fn day_month_year_text(d: CalendarDate) -> Seq<char> {
    zero_padded(d.day as nat, 2) + seq![' '] + month_short_name_of(d.month) + seq![' '] + year_text(
        d.year as int,
    )
}

/// A date written as `%d %b`: the day in two digits and the short name of
/// the month.
pub open spec fn day_month_text(d: CalendarDate) -> Seq<char> {
    zero_padded(d.day as nat, 2) + seq![' '] + month_short_name_of(d.month)
}

/// The day of the week of a date of the proleptic Gregorian calendar,
/// 0 for Sunday through 6 for Saturday.
pub open spec fn weekday_of(d: CalendarDate) -> int {
    let y: int = if d.month < 3 { d.year - 1 } else { d.year as int };
    let m = d.month;
    let t: int = if m == 1 || m == 5 {
        0
    } else if m == 2 || m == 6 {
        3
    } else if m == 3 || m == 11 {
        2
    } else if m == 4 {
        5
    } else if m == 7 {
        5
    } else if m == 8 {
        1
    } else if m == 9 || m == 12 {
        4
    } else {
        6
    };
    (y + y / 4 - y / 100 + y / 400 + t + d.day) % 7
}

/// The English name of weekday `w` (0 for Sunday).
pub open spec fn weekday_name(w: int) -> Seq<char> {
    if w == 0 {
        "Sunday"@
    } else if w == 1 {
        "Monday"@
    } else if w == 2 {
        "Tuesday"@
    } else if w == 3 {
        "Wednesday"@
    } else if w == 4 {
        "Thursday"@
    } else if w == 5 {
        "Friday"@
    } else {
        "Saturday"@
    }
}

/// A date written as `%A, %d %b`: the weekday's name, a comma, the day in
/// two digits and the short name of the month.
pub open spec fn weekday_day_month_text(d: CalendarDate) -> Seq<char> {
    weekday_name(weekday_of(d)) + ", "@ + zero_padded(d.day as nat, 2) + seq![' '] + month_short_name_of(
        d.month,
    )
}

/// What `chrono::NaiveDate::format(pattern).to_string()` writes for the date
/// (year, month, day).
pub uninterp spec fn chrono_date_text(date: (i32, u32, u32), pattern: Seq<char>) -> Seq<char>;

/// The date patterns the screens write dates with.  (`chrono` panics when
/// asked to write a pattern it does not know.)
pub open spec fn known_date_pattern(pattern: Seq<char>) -> bool {
    pattern == "%Y-%m-%d"@ || pattern == "%d %b %Y"@ || pattern == "%A, %d %b"@ || pattern
        == "%d %b"@
}

/// Writes a date with `chrono`: `NaiveDate::format(pattern).to_string()`.
/// The contract names the result, and states what the `chrono` documentation
/// gives for two patterns: `%Y` is the year in at least four digits (with a
/// sign outside 0 through 9999), `%m` and `%d` two-digit month and day, and
/// `%b` the English three-letter month name, and `%A` the English name of
/// the weekday.
#[verifier::external_body]
pub(crate) fn format_date(d: CalendarDate, pattern: &str) -> (r: String)
    requires
        valid_date(d),
        known_date_pattern(pattern@),
    ensures
        r@ == chrono_date_text((d.year, d.month, d.day), pattern@),
        pattern@ == "%Y-%m-%d"@ ==> r@ == iso_date_text(d),
        pattern@ == "%d %b %Y"@ ==> r@ == day_month_year_text(d),
        pattern@ == "%A, %d %b"@ ==> r@ == weekday_day_month_text(d),
        pattern@ == "%d %b"@ ==> r@ == day_month_text(d),
{
    match chrono::NaiveDate::from_ymd_opt(d.year, d.month, d.day) {
        Some(date) => date.format(pattern).to_string(),
        None => String::new(),
    }
}

/// The label of a day in the grouped list: `Today`, `Yesterday`, the
/// weekday, day and month within the current year, else day, month and year.
pub open spec fn date_label_of(date: CalendarDate, today: CalendarDate, yesterday: CalendarDate) -> Seq<
    char,
> {
    if date == today {
        "Today"@
    } else if date == yesterday {
        "Yesterday"@
    } else if date.year == today.year {
        weekday_day_month_text(date)
    } else {
        day_month_year_text(date)
    }
}

/// The label of a day of the grouped transaction list.
pub fn format_date_label(date: CalendarDate, today: CalendarDate, yesterday: CalendarDate) -> (r:
    String)
    requires
        valid_date(date),
    ensures
        r@ == date_label_of(date, today, yesterday),
{
    if date == today {
        string_from("Today")
    } else if date == yesterday {
        string_from("Yesterday")
    } else if date.year == today.year {
        format_date(date, "%A, %d %b")
    } else {
        format_date(date, "%d %b %Y")
    }
}

#[verifier::spinoff_prover]
proof fn lemma_year_text_injective(a: int, b: int)
    requires
        year_text(a) == year_text(b),
    ensures
        a == b,
{
    let na: nat = if a < 0 { (-a) as nat } else { a as nat };
    let nb: nat = if b < 0 { (-b) as nat } else { b as nat };
    lemma_zero_padded(na, 4);
    lemma_zero_padded(nb, 4);
    let ta = year_text(a);
    let tb = year_text(b);
    let za = zero_padded(na, 4);
    let zb = zero_padded(nb, 4);
    let sa: int = if 0 <= a <= 9999 { 0 } else { 1 };
    let sb: int = if 0 <= b <= 9999 { 0 } else { 1 };
    assert(ta.skip(sa) =~= za);
    assert(tb.skip(sb) =~= zb);
    assert(is_digit(za[0]));
    assert(is_digit(zb[0]));
    if sa == 0 && sb == 1 {
        assert(ta[0] == za[0]);
    } else if sa == 1 && sb == 0 {
        assert(tb[0] == zb[0]);
    } else if sa == 1 {
        assert(ta[0] == tb[0]);
        assert(ta[0] == (if a < 0 { '-' } else { '+' }));
        assert(tb[0] == (if b < 0 { '-' } else { '+' }));
        assert(za =~= zb);
    } else {
        assert(za =~= zb);
    }
}

/// Law: valid dates get the same date-group key exactly when they are the
/// same date.
pub proof fn law_date_key_is_the_date(a: CalendarDate, b: CalendarDate)
    requires
        valid_date(a),
        valid_date(b),
    ensures
        iso_date_text(a) == iso_date_text(b) <==> a == b,
{
    if iso_date_text(a) == iso_date_text(b) {
        lemma_two_digits(a.month as nat);
        lemma_two_digits(b.month as nat);
        lemma_two_digits(a.day as nat);
        lemma_two_digits(b.day as nat);
        let ka = iso_date_text(a);
        let kb = iso_date_text(b);
        let ya = year_text(a.year as int);
        let yb = year_text(b.year as int);
        let n = ka.len() as int;
        assert(ka.take(n - 6) =~= ya);
        assert(kb.take(n - 6) =~= yb);
        lemma_year_text_injective(a.year as int, b.year as int);
        assert(ka.subrange(n - 5, n - 3) =~= zero_padded(a.month as nat, 2));
        assert(kb.subrange(n - 5, n - 3) =~= zero_padded(b.month as nat, 2));
        assert(ka.subrange(n - 2, n) =~= zero_padded(a.day as nat, 2));
        assert(kb.subrange(n - 2, n) =~= zero_padded(b.day as nat, 2));
    }
}

/// Law: under wallet or envelope grouping, two transactions share a group
/// key exactly when they have the same wallet (or flow), none included.
pub proof fn law_group_key_is_the_target(
    state: AppState,
    a: GroupedTransaction,
    b: GroupedTransaction,
    today: CalendarDate,
    yesterday: CalendarDate,
)
    ensures
        grouping_of(state, a, GroupingMode::Wallet, today, yesterday).0 == grouping_of(
            state,
            b,
            GroupingMode::Wallet,
            today,
            yesterday,
        ).0 <==> a.wallet_id == b.wallet_id,
        grouping_of(state, a, GroupingMode::Envelope, today, yesterday).0 == grouping_of(
            state,
            b,
            GroupingMode::Envelope,
            today,
            yesterday,
        ).0 <==> a.flow_id == b.flow_id,
{
    reveal_strlit("wallet:");
    reveal_strlit("wallet:none");
    reveal_strlit("flow:");
    reveal_strlit("flow:none");
    lemma_prefixed_keys("wallet:"@, "wallet:none"@, a.wallet_id, b.wallet_id);
    lemma_prefixed_keys("flow:"@, "flow:none"@, a.flow_id, b.flow_id);
}

/// Keys made of a prefix and a UUID, or a shorter key for none, are equal
/// exactly when the identifiers are.
proof fn lemma_prefixed_keys(prefix: Seq<char>, none: Seq<char>, x: Option<u128>, y: Option<u128>)
    requires
        none.len() < prefix.len() + 36,
    ensures
        (match x {
            Some(i) => prefix + uuid_text(i),
            None => none,
        }) == (match y {
            Some(i) => prefix + uuid_text(i),
            None => none,
        }) <==> x == y,
{
    if let Some(i) = x {
        lemma_uuid_text_len(i);
    }
    if let Some(j) = y {
        lemma_uuid_text_len(j);
    }
    if let (Some(i), Some(j)) = (x, y) {
        if prefix + uuid_text(i) == prefix + uuid_text(j) {
            assert((prefix + uuid_text(i)).skip(prefix.len() as int) =~= uuid_text(i));
            assert((prefix + uuid_text(j)).skip(prefix.len() as int) =~= uuid_text(j));
            lemma_uuid_text_injective(i, j);
        }
    }
}

/// The group key and label of a transaction in the list grouped by `mode`.
pub open spec fn grouping_of(
    state: AppState,
    tx: GroupedTransaction,
    mode: GroupingMode,
    today: CalendarDate,
    yesterday: CalendarDate,
) -> (Seq<char>, Seq<char>) {
    match mode {
        GroupingMode::Date => (iso_date_text(tx.date), date_label_of(tx.date, today, yesterday)),
        GroupingMode::Category => {
            let label = match tx.category {
                Some(c) => if trim(c@).len() > 0 {
                    c@
                } else {
                    message(state.locale, TextKey::TxnUncategorized)
                },
                None => message(state.locale, TextKey::TxnUncategorized),
            };
            (label, label)
        },
        GroupingMode::Wallet => match tx.wallet_id {
            Some(id) => ("wallet:"@ + uuid_text(id), wallet_label_of(state, id)),
            None => ("wallet:none"@, message(state.locale, TextKey::TxnNoWallet)),
        },
        GroupingMode::Envelope => match tx.flow_id {
            Some(id) => ("flow:"@ + uuid_text(id), flow_label_of(state, id)),
            None => ("flow:none"@, message(state.locale, TextKey::TxnNoEnvelope)),
        },
    }
}

/// The key a transaction is grouped under, and the label of its group.
pub fn grouping_key_label(
    state: &AppState,
    tx: &GroupedTransaction,
    mode: GroupingMode,
    today: CalendarDate,
    yesterday: CalendarDate,
) -> (r: (String, String))
    requires
        mode is Date ==> valid_date(tx.date),
    ensures
        (r.0@, r.1@) == grouping_of(*state, *tx, mode, today, yesterday),
{
    match mode {
        GroupingMode::Date => (
            format_date(tx.date, "%Y-%m-%d"),
            format_date_label(tx.date, today, yesterday),
        ),
        GroupingMode::Category => {
            let label = match &tx.category {
                Some(c) => {
                    let cs = to_chars(c.as_str());
                    let (lo, hi) = trim_bounds(&cs);
                    if lo < hi {
                        c.clone()
                    } else {
                        string_from(t(state.locale, TextKey::TxnUncategorized))
                    }
                },
                None => string_from(t(state.locale, TextKey::TxnUncategorized)),
            };
            (label.clone(), label)
        },
        GroupingMode::Wallet => match tx.wallet_id {
            Some(id) => {
                let mut key = string_from("wallet:");
                key.append(uuid_string(id).as_str());
                (key, resolve_wallet_name(state, id))
            },
            None => (string_from("wallet:none"), string_from(t(state.locale, TextKey::TxnNoWallet))),
        },
        GroupingMode::Envelope => match tx.flow_id {
            Some(id) => {
                let mut key = string_from("flow:");
                key.append(uuid_string(id).as_str());
                (key, resolve_flow_name(state, id))
            },
            None => (string_from("flow:none"), string_from(t(state.locale, TextKey::TxnNoEnvelope))),
        },
    }
}

/// The title of a group header: the label, named by the grouping.
pub open spec fn group_title_of(mode: GroupingMode, label: Seq<char>) -> Seq<char> {
    match mode {
        GroupingMode::Date => label,
        GroupingMode::Category => "Category: "@ + label,
        GroupingMode::Wallet => "Wallet: "@ + label,
        GroupingMode::Envelope => "Envelope: "@ + label,
    }
}

/// The title of a group header in the list grouped by `mode`.
pub fn group_title(mode: GroupingMode, label: &str) -> (r: String)
    ensures
        r@ == group_title_of(mode, label@),
{
    let mut r = match mode {
        GroupingMode::Date => String::new(),
        GroupingMode::Category => string_from("Category: "),
        GroupingMode::Wallet => string_from("Wallet: "),
        GroupingMode::Envelope => string_from("Envelope: "),
    };
    r.append(label);
    r
}

/// The tone of an amount by its sign: negative, positive, or muted at zero.
pub open spec fn sign_tone(amount: int) -> Tone {
    if amount < 0 {
        Tone::Negative
    } else if amount > 0 {
        Tone::Positive
    } else {
        Tone::Muted
    }
}

/// The amount of a list row with the sign of its kind (expenses negated) and
/// its tone.
pub fn amount_span(kind: TransactionKind, amount_minor: i64) -> (r: (i64, Tone))
    requires
        !(kind is Expense && amount_minor == i64::MIN),
    ensures
        r.0 == (if kind is Expense { -amount_minor } else { amount_minor as int }),
        r.1 == sign_tone(r.0 as int),
{
    let signed = match kind {
        TransactionKind::Expense => -amount_minor,
        _ => amount_minor,
    };
    let tone = if signed < 0 {
        Tone::Negative
    } else if signed > 0 {
        Tone::Positive
    } else {
        Tone::Muted
    };
    (signed, tone)
}

/// The tone of a transfer leg's signed amount.
pub fn leg_amount_span(amount_minor: i64) -> (r: Tone)
    ensures
        r == sign_tone(amount_minor as int),
{
    if amount_minor < 0 {
        Tone::Negative
    } else if amount_minor > 0 {
        Tone::Positive
    } else {
        Tone::Muted
    }
}

/// The tone of a group total: positive from zero up, else negative (shown bold).
pub fn group_total_span(total_minor: i128) -> (r: Tone)
    ensures
        r == (if total_minor >= 0 { Tone::Positive } else { Tone::Negative }),
{
    if total_minor >= 0 {
        Tone::Positive
    } else {
        Tone::Negative
    }
}

/// The icon of a transaction kind and its tone.
pub open spec fn kind_chip_of(kind: TransactionKind) -> (Seq<char>, Tone) {
    match kind {
        TransactionKind::Income => ("▲"@, Tone::Positive),
        TransactionKind::Expense => ("▼"@, Tone::Negative),
        TransactionKind::Refund => ("↩"@, Tone::Refund),
        _ => ("⇄"@, Tone::Info),
    }
}

/// The chip of a transaction kind: its icon and tone.
pub fn kind_chip(kind: TransactionKind) -> (r: (&'static str, Tone))
    ensures
        (r.0@, r.1) == kind_chip_of(kind),
{
    match kind {
        TransactionKind::Income => ("▲", Tone::Positive),
        TransactionKind::Expense => ("▼", Tone::Negative),
        TransactionKind::Refund => ("↩", Tone::Refund),
        _ => ("⇄", Tone::Info),
    }
}

/// The `[VOID]` chip of a voided transaction.
pub fn void_chip(voided: bool) -> (r: Option<Piece>)
    ensures
        voided ==> (r matches Some(p) && p@ == ("[VOID]"@, Some(Tone::Negative), true)),
        !voided ==> r is None,
{
    if voided {
        Some(piece("[VOID]", Some(Tone::Negative), true))
    } else {
        None
    }
}

/// The short label of a transaction kind in the filter summary.
pub open spec fn kind_code(kind: TransactionKind) -> Seq<char> {
    match kind {
        TransactionKind::Income => "inc"@,
        TransactionKind::Expense => "exp"@,
        TransactionKind::Refund => "ref"@,
        TransactionKind::TransferWallet => "tw"@,
        TransactionKind::TransferFlow => "tf"@,
    }
}

fn kind_code_str(kind: TransactionKind) -> (r: &'static str)
    ensures
        r@ == kind_code(kind),
{
    match kind {
        TransactionKind::Income => "inc",
        TransactionKind::Expense => "exp",
        TransactionKind::Refund => "ref",
        TransactionKind::TransferWallet => "tw",
        TransactionKind::TransferFlow => "tf",
    }
}

/// The filter dates of the transactions screen exist.
pub open spec fn filter_dates_valid(state: AppState) -> bool {
    &&& (state.transactions.filter_from matches Some(d) ==> valid_date(d))
    &&& (state.transactions.filter_to matches Some(d) ==> valid_date(d))
}

/// The parts of the filter summary, each only when the filter is active.
pub open spec fn filter_parts(state: AppState) -> Seq<Seq<char>> {
    let tx = state.transactions;
    let p1: Seq<Seq<char>> = match tx.filter_from {
        Some(d) => seq!["from "@ + iso_date_text(d)],
        None => Seq::empty(),
    };
    let p2 = match tx.filter_to {
        Some(d) => p1.push("to "@ + iso_date_text(d)),
        None => p1,
    };
    let p3 = match tx.filter_kinds {
        Some(kinds) => if kinds@.len() > 0 {
            p2.push("kinds "@ + join(kinds@.map_values(|k: TransactionKind| kind_code(k)), ","@))
        } else {
            p2
        },
        None => p2,
    };
    if !tx.include_transfers {
        p3.push("transfers off"@)
    } else {
        p3
    }
}

/// The summary of the active filters, or nothing when none is active.
pub open spec fn filter_summary_of(state: AppState) -> Option<Seq<char>> {
    let parts = filter_parts(state);
    if parts.len() == 0 {
        None
    } else {
        Some(join(parts, " \u{2022} "@))
    }
}

/// A summary of the active filters.
pub fn filter_summary(state: &AppState) -> (r: Option<String>)
    requires
        filter_dates_valid(*state),
    ensures
        r is None <==> filter_summary_of(*state) is None,
        r matches Some(s) ==> s@ == filter_summary_of(*state)->0,
{
    let tx = &state.transactions;
    let mut parts: Vec<String> = Vec::new();
    assert(string_views(parts@) =~= Seq::<Seq<char>>::empty());
    if let Some(from) = tx.filter_from {
        let mut p = string_from("from ");
        p.append(format_date(from, "%Y-%m-%d").as_str());
        parts.push(p);
        assert(string_views(parts@) =~= seq![p@]);
    }
    let ghost p1 = string_views(parts@);
    if let Some(to) = tx.filter_to {
        let mut p = string_from("to ");
        p.append(format_date(to, "%Y-%m-%d").as_str());
        parts.push(p);
        assert(string_views(parts@) =~= p1.push(p@));
    }
    let ghost p2 = string_views(parts@);
    if let Some(kinds) = &tx.filter_kinds {
        if kinds.len() > 0 {
            let mut labels: Vec<String> = Vec::new();
            let mut i: usize = 0;
            while i < kinds.len()
                invariant
                    i <= kinds@.len(),
                    labels@.len() == i,
                    string_views(labels@) == kinds@.take(i as int).map_values(
                        |k: TransactionKind| kind_code(k),
                    ),
                decreases kinds.len() - i,
            {
                let l = string_from(kind_code_str(kinds[i]));
                let ghost before = labels@;
                labels.push(l);
                i = i + 1;
                assert forall|k: int| 0 <= k < i implies #[trigger] string_views(labels@)[k]
                    == kinds@.take(i as int).map_values(|k: TransactionKind| kind_code(k))[k] by {
                    if k < i - 1 {
                        assert(labels@[k] == before[k]);
                        assert(string_views(before)[k] == kinds@.take(i - 1).map_values(
                            |k: TransactionKind| kind_code(k),
                        )[k]);
                    }
                }
                assert(string_views(labels@) =~= kinds@.take(i as int).map_values(
                    |k: TransactionKind| kind_code(k),
                ));
            }
            assert(kinds@.take(kinds@.len() as int) =~= kinds@);
            let mut p = string_from("kinds ");
            p.append(join_strings(&labels, ",").as_str());
            parts.push(p);
            assert(string_views(parts@) =~= p2.push(p@));
        }
    }
    let ghost p3 = string_views(parts@);
    if !tx.include_transfers {
        let p = string_from("transfers off");
        parts.push(p);
        assert(string_views(parts@) =~= p3.push(p@));
    }
    assert(string_views(parts@) =~= filter_parts(*state));
    if parts.len() == 0 {
        None
    } else {
        Some(join_strings(&parts, " \u{2022} "))
    }
}

/// How a quick-add field is shown: its text, its tone and whether it is ambiguous.
pub open spec fn ambiguous_display_of(
    state: AppState,
    query: Option<Seq<char>>,
    matches: Seq<(u128, String)>,
    kind: QuickAddAmbiguousKind,
    prefix: Seq<char>,
) -> (Seq<char>, Tone, bool) {
    if query is None {
        ("-"@, Tone::Muted, false)
    } else if matches.len() == 0 {
        (seq!['?'] + prefix + query->0, Tone::Warning, false)
    } else if matches.len() == 1 {
        (prefix + matches[0].1@, Tone::Accent, false)
    } else {
        match state.transactions.quick_ambiguous {
            Some(amb) => if amb.kind == kind && amb.selected < amb.options@.len() {
                (prefix + amb.options@[amb.selected as int].1@, Tone::Warning, true)
            } else {
                (prefix + matches[0].1@, Tone::Warning, true)
            },
            None => (prefix + matches[0].1@, Tone::Warning, true),
        }
    }
}

/// How a quick-add field that may match several entries is shown: `-` when
/// absent, a warning when nothing matches, the match when one does, and the
/// selected (or first) option, flagged ambiguous, when several do.
pub fn resolve_ambiguous_display(
    state: &AppState,
    query: &Option<String>,
    matches: &[(u128, String)],
    kind: QuickAddAmbiguousKind,
    prefix: &str,
) -> (r: (String, Tone, bool))
    ensures
        (r.0@, r.1, r.2) == ambiguous_display_of(
            *state,
            match query {
                Some(q) => Some(q@),
                None => None,
            },
            matches@,
            kind,
            prefix@,
        ),
{
    let query_str = match query {
        Some(q) => q,
        None => return (string_from("-"), Tone::Muted, false),
    };
    if matches.len() == 0 {
        let mut s = String::new();
        push_char(&mut s, '?');
        s.append(prefix);
        s.append(query_str.as_str());
        return (s, Tone::Warning, false);
    }
    if matches.len() == 1 {
        let mut s = string_from(prefix);
        s.append(matches[0].1.as_str());
        return (s, Tone::Accent, false);
    }
    if let Some(amb) = &state.transactions.quick_ambiguous {
        if amb.kind == kind {
            if let Some(current) = amb.current() {
                let mut s = string_from(prefix);
                s.append(current.1.as_str());
                return (s, Tone::Warning, true);
            }
        }
    }
    let mut s = string_from(prefix);
    s.append(matches[0].1.as_str());
    (s, Tone::Warning, true)
}

/// The text of a filter toggle: a check box, the icon, the label and its key.
pub open spec fn filter_toggle_text(icon: Seq<char>, label: Seq<char>, key: Seq<char>, enabled: bool) -> Seq<char> {
    (if enabled {
        "[✓]"@
    } else {
        "[✗]"@
    }) + seq![' '] + icon + seq![' '] + label + " ("@ + key + seq![')']
}

/// A filter toggle with icon, label and key hint, positive when enabled.
pub fn filter_toggle_with_icon(icon: &str, label: &str, key: &str, enabled: bool) -> (r: (String, Tone))
    ensures
        r.0@ == filter_toggle_text(icon@, label@, key@, enabled),
        r.1 == (if enabled {
            Tone::Positive
        } else {
            Tone::Muted
        }),
{
    let (checkbox, tone) = if enabled {
        ("[✓]", Tone::Positive)
    } else {
        ("[✗]", Tone::Muted)
    };
    let mut s = string_from(checkbox);
    push_char(&mut s, ' ');
    s.append(icon);
    push_char(&mut s, ' ');
    s.append(label);
    s.append(" (");
    s.append(key);
    push_char(&mut s, ')');
    (s, tone)
}

} // verus!
