//! The rows of the grouped transaction list: a header for each group, in the
//! order the groups first occur, with the total of its transactions, followed
//! by the transactions of the group in list order.

use super::state::{AppState, CalendarDate, GroupedTransaction, GroupingMode};
use super::transactions::{
    amount_span, law_date_key_is_the_date, law_group_key_is_the_target, day_month_text, flow_label_of, format_date, group_title, group_title_of,
    grouping_key_label, grouping_of, kind_chip, kind_chip_of, resolve_flow_name, resolve_wallet_name,
    sign_tone, signed_amount_minor, signed_amount_of, valid_date, wallet_label_of,
};
use super::settings::run;
use super::{LineView, Piece, Tone, lines_view, piece, pieces_view};
use crate::strings::{pad_right, padded_right, same_text, string_from, string_of, string_views, to_chars, trim, trim_bounds};
use vstd::prelude::*;

verus! {

/// A row of the transaction list.
#[derive(Debug, Clone)]
pub enum ListRow {
    /// The header of a group: its title and the total of its transactions,
    /// in minor units, each counted with the sign of its kind.
    Header { title: String, total_minor: i128 },
    /// The transaction at `index` in the visible list, and whether it is the
    /// selected one.
    Item { index: usize, selected: bool },
}

/// [`ListRow`] as a value.
pub enum RowView {
    Header { title: Seq<char>, total: int },
    Item { index: int, selected: bool },
}

impl View for ListRow {
    type V = RowView;

    open spec fn view(&self) -> RowView {
        match self {
            ListRow::Header { title, total_minor } => RowView::Header {
                title: title@,
                total: *total_minor as int,
            },
            ListRow::Item { index, selected } => RowView::Item {
                index: *index as int,
                selected: *selected,
            },
        }
    }
}

/// The rows, each as its view.
pub open spec fn rows_view(v: Seq<ListRow>) -> Seq<RowView> {
    Seq::new(v.len(), |i: int| v[i]@)
}

/// The first position at or after `from` that holds `key`.
pub open spec fn key_from(keys: Seq<Seq<char>>, key: Seq<char>, from: int) -> Option<int>
    decreases keys.len() - from,
{
    if from < 0 || from >= keys.len() {
        None
    } else if keys[from] == key {
        Some(from)
    } else {
        key_from(keys, key, from + 1)
    }
}

/// The groups of a list of transactions, built in list order: their keys,
/// labels and totals, and for each transaction the position of its group.
/// A transaction whose key was seen before joins that group; otherwise it
/// opens a new group at the end.
pub struct Groups {
    pub keys: Seq<Seq<char>>,
    pub labels: Seq<Seq<char>>,
    pub totals: Seq<int>,
    pub assign: Seq<int>,
}

/// The groups of `txs` under the grouping `mode`.
pub open spec fn groups_of(
    state: AppState,
    txs: Seq<GroupedTransaction>,
    mode: GroupingMode,
    today: CalendarDate,
    yesterday: CalendarDate,
) -> Groups
    decreases txs.len(),
{
    if txs.len() == 0 {
        Groups { keys: Seq::empty(), labels: Seq::empty(), totals: Seq::empty(), assign: Seq::empty() }
    } else {
        let g = groups_of(state, txs.drop_last(), mode, today, yesterday);
        let tx = txs.last();
        let kl = grouping_of(state, tx, mode, today, yesterday);
        let s = signed_amount_of(tx.kind, tx.amount_minor);
        match key_from(g.keys, kl.0, 0) {
            Some(p) => Groups {
                keys: g.keys,
                labels: g.labels,
                totals: g.totals.update(p, g.totals[p] + s),
                assign: g.assign.push(p),
            },
            None => Groups {
                keys: g.keys.push(kl.0),
                labels: g.labels.push(kl.1),
                totals: g.totals.push(s),
                assign: g.assign.push(g.keys.len() as int),
            },
        }
    }
}

/// The positions, in increasing order, of the transactions assigned to group `g`.
pub open spec fn members_of(assign: Seq<int>, g: int) -> Seq<int>
    decreases assign.len(),
{
    if assign.len() == 0 {
        Seq::empty()
    } else {
        let before = members_of(assign.drop_last(), g);
        if assign.last() == g {
            before.push(assign.len() - 1)
        } else {
            before
        }
    }
}

/// The item rows of the transactions at `members`.
pub open spec fn item_rows(members: Seq<int>, selected: int) -> Seq<RowView> {
    Seq::new(
        members.len(),
        |j: int| RowView::Item { index: members[j], selected: members[j] == selected },
    )
}

/// The rows of the first `n` groups: each header, then its transactions.
pub open spec fn group_rows(groups: Groups, mode: GroupingMode, selected: int, n: int) -> Seq<
    RowView,
>
    decreases n,
{
    if n <= 0 {
        Seq::empty()
    } else {
        group_rows(groups, mode, selected, n - 1) + seq![
            RowView::Header {
                title: group_title_of(mode, groups.labels[n - 1]),
                total: groups.totals[n - 1],
            },
        ] + item_rows(members_of(groups.assign, n - 1), selected)
    }
}

/// The rows of the transaction list.
pub open spec fn list_rows_of(
    state: AppState,
    txs: Seq<GroupedTransaction>,
    mode: GroupingMode,
    today: CalendarDate,
    yesterday: CalendarDate,
    selected: int,
) -> Seq<RowView> {
    let groups = groups_of(state, txs, mode, today, yesterday);
    group_rows(groups, mode, selected, groups.keys.len() as int)
}

/// Each transaction can be grouped and counted: dates exist when grouping
/// by date, and no expense holds the least `i64` (whose size has no `i64`).
pub open spec fn listable(txs: Seq<GroupedTransaction>, mode: GroupingMode) -> bool {
    forall|i: int|
        0 <= i < txs.len() ==> (mode is Date ==> valid_date(#[trigger] txs[i].date)) && !(
        txs[i].kind is Expense && txs[i].amount_minor == i64::MIN)
}

proof fn lemma_groups_shape(
    state: AppState,
    txs: Seq<GroupedTransaction>,
    mode: GroupingMode,
    today: CalendarDate,
    yesterday: CalendarDate,
)
    ensures
        ({
            let g = groups_of(state, txs, mode, today, yesterday);
            &&& g.labels.len() == g.keys.len()
            &&& g.totals.len() == g.keys.len()
            &&& g.assign.len() == txs.len()
            &&& forall|i: int| 0 <= i < txs.len() ==> 0 <= #[trigger] g.assign[i] < g.keys.len()
        }),
    decreases txs.len(),
{
    if txs.len() > 0 {
        lemma_groups_shape(state, txs.drop_last(), mode, today, yesterday);
        let g = groups_of(state, txs.drop_last(), mode, today, yesterday);
        let kl = grouping_of(state, txs.last(), mode, today, yesterday);
        lemma_key_from_bounds(g.keys, kl.0, 0);
    }
}

proof fn lemma_key_from_bounds(keys: Seq<Seq<char>>, key: Seq<char>, from: int)
    ensures
        key_from(keys, key, from) matches Some(p) ==> 0 <= p < keys.len() && keys[p] == key,
    decreases keys.len() - from,
{
    if 0 <= from < keys.len() && keys[from] != key {
        lemma_key_from_bounds(keys, key, from + 1);
    }
}

proof fn lemma_key_from_absent(keys: Seq<Seq<char>>, key: Seq<char>, from: int)
    requires
        0 <= from,
    ensures
        key_from(keys, key, from) is None ==> forall|j: int| from <= j < keys.len() ==> keys[j] != key,
    decreases keys.len() - from,
{
    if from < keys.len() && keys[from] != key {
        lemma_key_from_absent(keys, key, from + 1);
    }
}

proof fn lemma_groups_keys(
    state: AppState,
    txs: Seq<GroupedTransaction>,
    mode: GroupingMode,
    today: CalendarDate,
    yesterday: CalendarDate,
)
    ensures
        ({
            let g = groups_of(state, txs, mode, today, yesterday);
            &&& forall|i: int|
                0 <= i < txs.len() ==> g.keys[#[trigger] g.assign[i]] == grouping_of(
                    state,
                    txs[i],
                    mode,
                    today,
                    yesterday,
                ).0
            &&& forall|a: int, b: int| 0 <= a < b < g.keys.len() ==> #[trigger] g.keys[a] != #[trigger] g.keys[b]
        }),
    decreases txs.len(),
{
    lemma_groups_shape(state, txs, mode, today, yesterday);
    if txs.len() > 0 {
        let prev = txs.drop_last();
        lemma_groups_keys(state, prev, mode, today, yesterday);
        lemma_groups_shape(state, prev, mode, today, yesterday);
        let g0 = groups_of(state, prev, mode, today, yesterday);
        let key = grouping_of(state, txs.last(), mode, today, yesterday).0;
        lemma_key_from_bounds(g0.keys, key, 0);
        lemma_key_from_absent(g0.keys, key, 0);
        let g = groups_of(state, txs, mode, today, yesterday);
        assert forall|i: int| 0 <= i < txs.len() implies g.keys[#[trigger] g.assign[i]] == grouping_of(
            state,
            txs[i],
            mode,
            today,
            yesterday,
        ).0 by {
            if i < prev.len() {
                assert(txs[i] == prev[i]);
                assert(g.assign[i] == g0.assign[i]);
                assert(g.keys[g0.assign[i]] == g0.keys[g0.assign[i]]);
            }
        }
    }
}

/// Law: two transactions of the list fall in the same group exactly when
/// they have the same group key.
pub proof fn law_same_group_same_key(
    state: AppState,
    txs: Seq<GroupedTransaction>,
    mode: GroupingMode,
    today: CalendarDate,
    yesterday: CalendarDate,
    i: int,
    j: int,
)
    requires
        0 <= i < txs.len(),
        0 <= j < txs.len(),
    ensures
        groups_of(state, txs, mode, today, yesterday).assign[i] == groups_of(state, txs, mode, today, yesterday).assign[j]
            <==> grouping_of(state, txs[i], mode, today, yesterday).0 == grouping_of(
            state,
            txs[j],
            mode,
            today,
            yesterday,
        ).0,
{
    lemma_groups_shape(state, txs, mode, today, yesterday);
    lemma_groups_keys(state, txs, mode, today, yesterday);
    let g = groups_of(state, txs, mode, today, yesterday);
    let (a, b) = (g.assign[i], g.assign[j]);
    if a < b {
        assert(g.keys[a] != g.keys[b]);
    } else if b < a {
        assert(g.keys[b] != g.keys[a]);
    }
}

/// Law: grouped by envelope, by wallet or by date, two transactions of the
/// list (with valid dates, for dates) fall in the same group exactly when
/// they have the same flow, the same wallet or the same date.
pub proof fn law_same_group_same_target(
    state: AppState,
    txs: Seq<GroupedTransaction>,
    today: CalendarDate,
    yesterday: CalendarDate,
    i: int,
    j: int,
)
    requires
        0 <= i < txs.len(),
        0 <= j < txs.len(),
    ensures
        groups_of(state, txs, GroupingMode::Envelope, today, yesterday).assign[i] == groups_of(
            state,
            txs,
            GroupingMode::Envelope,
            today,
            yesterday,
        ).assign[j] <==> txs[i].flow_id == txs[j].flow_id,
        groups_of(state, txs, GroupingMode::Wallet, today, yesterday).assign[i] == groups_of(
            state,
            txs,
            GroupingMode::Wallet,
            today,
            yesterday,
        ).assign[j] <==> txs[i].wallet_id == txs[j].wallet_id,
        valid_date(txs[i].date) && valid_date(txs[j].date) ==> (groups_of(
            state,
            txs,
            GroupingMode::Date,
            today,
            yesterday,
        ).assign[i] == groups_of(state, txs, GroupingMode::Date, today, yesterday).assign[j] <==> txs[i].date
            == txs[j].date),
{
    law_same_group_same_key(state, txs, GroupingMode::Envelope, today, yesterday, i, j);
    law_same_group_same_key(state, txs, GroupingMode::Wallet, today, yesterday, i, j);
    law_same_group_same_key(state, txs, GroupingMode::Date, today, yesterday, i, j);
    law_group_key_is_the_target(state, txs[i], txs[j], today, yesterday);
    if valid_date(txs[i].date) && valid_date(txs[j].date) {
        law_date_key_is_the_date(txs[i].date, txs[j].date);
    }
}

/// The position of the group with key `key`, if any.
fn find_key(keys: &Vec<String>, key: &String) -> (r: Option<usize>)
    ensures
        r matches Some(p) ==> key_from(string_views(keys@), key@, 0) == Some(p as int),
        r is None ==> key_from(string_views(keys@), key@, 0) is None,
{
    let ghost ks = string_views(keys@);
    let mut j: usize = 0;
    while j < keys.len()
        invariant
            j <= keys@.len(),
            ks == string_views(keys@),
            key_from(ks, key@, 0) == key_from(ks, key@, j as int),
        decreases keys.len() - j,
    {
        if same_text(keys[j].as_str(), key.as_str()) {
            return Some(j);
        }
        j = j + 1;
    }
    None
}

/// The rows of the transaction list grouped by `mode`: a header per group,
/// in the order the groups first occur, with the total of the group, then
/// its transactions in list order; `selected` is the position of the
/// selected transaction.
pub fn transaction_list_rows(
    state: &AppState,
    txs: &[GroupedTransaction],
    mode: GroupingMode,
    today: CalendarDate,
    yesterday: CalendarDate,
    selected: usize,
) -> (r: Vec<ListRow>)
    requires
        listable(txs@, mode),
    ensures
        rows_view(r@) == list_rows_of(*state, txs@, mode, today, yesterday, selected as int),
{
    let mut keys: Vec<String> = Vec::new();
    let mut labels: Vec<String> = Vec::new();
    let mut totals: Vec<i128> = Vec::new();
    let mut assign: Vec<usize> = Vec::new();
    let n = txs.len();
    let mut i: usize = 0;
    while i < n
        invariant
            n == txs@.len(),
            i <= n,
            listable(txs@, mode),
            ({
                let g = groups_of(*state, txs@.take(i as int), mode, today, yesterday);
                &&& string_views(keys@) == g.keys
                &&& string_views(labels@) == g.labels
                &&& totals@.len() == g.totals.len()
                &&& (forall|k: int| 0 <= k < totals@.len() ==> #[trigger] totals@[k] as int == g.totals[k])
                &&& assign@.len() == g.assign.len()
                &&& (forall|k: int| 0 <= k < assign@.len() ==> #[trigger] assign@[k] as int == g.assign[k])
            }),
            keys@.len() == labels@.len(),
            keys@.len() == totals@.len(),
            forall|k: int|
                0 <= k < totals@.len() ==> -(i as int) * 0x8000_0000_0000_0000 <= #[trigger] totals@[k]
                    <= (i as int) * 0x8000_0000_0000_0000,
        decreases n - i,
    {
        let tx = &txs[i];
        assert(txs@.take(i + 1).drop_last() =~= txs@.take(i as int));
        assert(txs@.take(i + 1).last() == txs@[i as int]);
        let (key, label) = grouping_key_label(state, tx, mode, today, yesterday);
        let s = signed_amount_minor(tx.kind, tx.amount_minor);
        let ghost g = groups_of(*state, txs@.take(i as int), mode, today, yesterday);
        proof {
            lemma_key_from_bounds(g.keys, key@, 0);
        }
        match find_key(&keys, &key) {
            Some(p) => {
                let t = totals[p] + s as i128;
                totals.set(p, t);
                assign.push(p);
            },
            None => {
                assign.push(keys.len());
                keys.push(key);
                labels.push(label);
                totals.push(s as i128);
            },
        }
        let ghost g2 = groups_of(*state, txs@.take(i + 1), mode, today, yesterday);
        assert(string_views(keys@) =~= g2.keys);
        assert(string_views(labels@) =~= g2.labels);
        i = i + 1;
    }
    assert(txs@.take(n as int) =~= txs@);
    let ghost groups = groups_of(*state, txs@, mode, today, yesterday);
    proof {
        lemma_groups_shape(*state, txs@, mode, today, yesterday);
    }
    let mut rows: Vec<ListRow> = Vec::new();
    let ng = keys.len();
    let mut gi: usize = 0;
    while gi < ng
        invariant
            ng == keys@.len(),
            ng == groups.keys.len(),
            gi <= ng,
            n == txs@.len(),
            string_views(labels@) == groups.labels,
            labels@.len() == ng,
            totals@.len() == ng,
            forall|k: int| 0 <= k < totals@.len() ==> #[trigger] totals@[k] as int == groups.totals[k],
            assign@.len() == n,
            forall|k: int| 0 <= k < assign@.len() ==> #[trigger] assign@[k] as int == groups.assign[k],
            groups.assign.len() == n,
            rows_view(rows@) == group_rows(groups, mode, selected as int, gi as int),
        decreases ng - gi,
    {
        let ghost before = group_rows(groups, mode, selected as int, gi as int);
        rows.push(ListRow::Header { title: group_title(mode, labels[gi].as_str()), total_minor: totals[gi] });
        assert(rows_view(rows@) =~= before + seq![
            RowView::Header {
                title: group_title_of(mode, groups.labels[gi as int]),
                total: groups.totals[gi as int],
            },
        ]);
        let ghost with_header = rows_view(rows@);
        let mut i: usize = 0;
        while i < n
            invariant
                n == txs@.len(),
                i <= n,
                assign@.len() == n,
                groups.assign.len() == n,
                forall|k: int| 0 <= k < assign@.len() ==> #[trigger] assign@[k] as int == groups.assign[k],
                rows_view(rows@) == with_header + item_rows(
                    members_of(groups.assign.take(i as int), gi as int),
                    selected as int,
                ),
            decreases n - i,
        {
            let ghost items = item_rows(members_of(groups.assign.take(i as int), gi as int), selected as int);
            assert(groups.assign.take(i + 1).drop_last() =~= groups.assign.take(i as int));
            assert(groups.assign.take(i + 1).last() == groups.assign[i as int]);
            if assign[i] == gi {
                let ghost ms = members_of(groups.assign.take(i as int), gi as int);
                assert(members_of(groups.assign.take(i + 1), gi as int) == ms.push(i as int));
                assert(item_rows(ms.push(i as int), selected as int) =~= items.push(
                    RowView::Item { index: i as int, selected: i as int == selected as int },
                ));
                let ghost old_rows = rows@;
                rows.push(ListRow::Item { index: i, selected: i == selected });
                assert(rows_view(rows@) =~= rows_view(old_rows).push(
                    RowView::Item { index: i as int, selected: i as int == selected as int },
                ));
                assert(rows_view(rows@) =~= with_header + item_rows(
                    members_of(groups.assign.take(i + 1), gi as int),
                    selected as int,
                ));
            } else {
                assert(item_rows(members_of(groups.assign.take(i + 1), gi as int), selected as int)
                    =~= items);
            }
            i = i + 1;
        }
        assert(groups.assign.take(n as int) =~= groups.assign);
        assert(rows_view(rows@) =~= group_rows(groups, mode, selected as int, gi + 1));
        gi = gi + 1;
    }
    rows
}

/// Law: the members of a group are in increasing order, and they are
/// exactly the transactions assigned to it.
pub proof fn law_members_exact(assign: Seq<int>, g: int)
    ensures
        forall|j: int, k: int|
            0 <= j < k < members_of(assign, g).len() ==> members_of(assign, g)[j] < members_of(
                assign,
                g,
            )[k],
        forall|x: int| #[trigger]
            members_of(assign, g).contains(x) <==> 0 <= x < assign.len() && assign[x] == g,
    decreases assign.len(),
{
    if assign.len() > 0 {
        let prev = assign.drop_last();
        law_members_exact(prev, g);
        let m0 = members_of(prev, g);
        let m = members_of(assign, g);
        assert forall|x: int| #[trigger] m.contains(x) <==> 0 <= x < assign.len() && assign[x] == g by {
            if m0.contains(x) {
                assert(prev[x] == assign[x]);
            }
            if 0 <= x < assign.len() - 1 && assign[x] == g {
                assert(prev[x] == assign[x]);
                assert(m0.contains(x));
            }
            if assign.last() == g {
                assert(m == m0.push(assign.len() - 1));
                if m.contains(x) {
                    let j = choose|j: int| 0 <= j < m.len() && m[j] == x;
                    if j < m0.len() {
                        assert(m0[j] == x);
                        assert(m0.contains(x));
                    }
                }
                if x == assign.len() - 1 {
                    assert(m[m.len() - 1] == x);
                }
                if m0.contains(x) {
                    let j = choose|j: int| 0 <= j < m0.len() && m0[j] == x;
                    assert(m[j] == x);
                }
            }
        }
        if assign.last() == g {
            assert forall|j: int, k: int| 0 <= j < k < m.len() implies m[j] < m[k] by {
                if k == m.len() - 1 {
                    assert(m0.contains(m0[j]));
                }
            }
        }
    }
}

/// Law: each transaction of the list is in exactly one group, once: the
/// group it is assigned to lists it, no other group does, and no group
/// lists a transaction twice.
pub proof fn law_each_transaction_listed_once(
    state: AppState,
    txs: Seq<GroupedTransaction>,
    mode: GroupingMode,
    today: CalendarDate,
    yesterday: CalendarDate,
    i: int,
)
    requires
        0 <= i < txs.len(),
    ensures
        ({
            let groups = groups_of(state, txs, mode, today, yesterday);
            let g = groups.assign[i];
            &&& 0 <= g < groups.keys.len()
            &&& members_of(groups.assign, g).contains(i)
            &&& forall|h: int| h != g ==> !(#[trigger] members_of(groups.assign, h).contains(i))
            &&& forall|h: int, j: int, k: int|
                0 <= j < k < members_of(groups.assign, h).len() ==> #[trigger] members_of(
                    groups.assign,
                    h,
                )[j] != #[trigger] members_of(groups.assign, h)[k]
        }),
{
    let groups = groups_of(state, txs, mode, today, yesterday);
    lemma_groups_shape(state, txs, mode, today, yesterday);
    law_members_exact(groups.assign, groups.assign[i]);
    assert forall|h: int| h != groups.assign[i] implies !(#[trigger] members_of(groups.assign, h).contains(i)) by {
        law_members_exact(groups.assign, h);
    }
    assert forall|h: int, j: int, k: int|
        0 <= j < k < members_of(groups.assign, h).len() implies #[trigger] members_of(
            groups.assign,
            h,
        )[j] != #[trigger] members_of(groups.assign, h)[k] by {
        law_members_exact(groups.assign, h);
    }
}

/// The sum of the signed amounts of the transactions at `members`.
pub open spec fn members_total(txs: Seq<GroupedTransaction>, members: Seq<int>) -> int
    decreases members.len(),
{
    if members.len() == 0 {
        0
    } else {
        members_total(txs, members.drop_last()) + signed_amount_of(
            txs[members.last()].kind,
            txs[members.last()].amount_minor,
        )
    }
}

proof fn lemma_members_total_prefix(txs: Seq<GroupedTransaction>, members: Seq<int>)
    requires
        txs.len() > 0,
        forall|j: int| 0 <= j < members.len() ==> 0 <= #[trigger] members[j] < txs.len() - 1,
    ensures
        members_total(txs, members) == members_total(txs.drop_last(), members),
    decreases members.len(),
{
    if members.len() > 0 {
        lemma_members_total_prefix(txs, members.drop_last());
        assert(txs[members.last()] == txs.drop_last()[members.last()]);
    }
}

/// Law: the total in a group's header is the sum of the signed amounts of
/// the group's transactions.
pub proof fn law_group_totals(
    state: AppState,
    txs: Seq<GroupedTransaction>,
    mode: GroupingMode,
    today: CalendarDate,
    yesterday: CalendarDate,
    g: int,
)
    requires
        0 <= g < groups_of(state, txs, mode, today, yesterday).keys.len(),
    ensures
        ({
            let groups = groups_of(state, txs, mode, today, yesterday);
            groups.totals[g] == members_total(txs, members_of(groups.assign, g))
        }),
    decreases txs.len(),
{
    let groups = groups_of(state, txs, mode, today, yesterday);
    if txs.len() > 0 {
        let prev = txs.drop_last();
        let gp = groups_of(state, prev, mode, today, yesterday);
        lemma_groups_shape(state, prev, mode, today, yesterday);
        lemma_groups_shape(state, txs, mode, today, yesterday);
        let tx = txs.last();
        let kl = grouping_of(state, tx, mode, today, yesterday);
        let s = signed_amount_of(tx.kind, tx.amount_minor);
        lemma_key_from_bounds(gp.keys, kl.0, 0);
        assert(groups.assign.drop_last() =~= gp.assign);
        let m0 = members_of(gp.assign, g);
        law_members_exact(gp.assign, g);
        assert forall|j: int| 0 <= j < m0.len() implies 0 <= #[trigger] m0[j] < txs.len() - 1 by {
            assert(m0.contains(m0[j]));
        }
        lemma_members_total_prefix(txs, m0);
        if g < gp.keys.len() {
            law_group_totals(state, prev, mode, today, yesterday, g);
        } else {
            assert(m0.len() == 0) by {
                if m0.len() > 0 {
                    assert(m0.contains(m0[0]));
                }
            }
        }
        if groups.assign.last() == g {
            assert(members_of(groups.assign, g) == m0.push(txs.len() - 1));
            assert(m0.push(txs.len() - 1).drop_last() =~= m0);
        } else {
            assert(members_of(groups.assign, g) == m0);
        }
    }
}

/// The message of an empty transaction list: no results for the trimmed
/// search query when there is one, else how to add a first transaction.
pub open spec fn list_empty_lines_of(state: AppState) -> Seq<Seq<(Seq<char>, Option<Tone>, bool)>> {
    let query = trim(state.transactions.search_query@);
    if query.len() > 0 {
        seq![
            seq![
                run("No results for "@, None, false),
                run(seq!['"'] + query + seq!['"'], Some(Tone::Accent), false),
                run("."@, None, false),
            ],
            seq![run("Ctrl+F to edit • Esc to clear"@, Some(Tone::Muted), false)],
        ]
    } else {
        seq![
            seq![
                run("No transactions yet. Press "@, None, false),
                run("n"@, Some(Tone::Accent), false),
                run(" to add one."@, None, false),
            ],
        ]
    }
}

/// The message shown when the transaction list shows nothing.
pub fn list_empty_lines(state: &AppState) -> (r: Vec<Vec<Piece>>)
    ensures
        lines_view(r@) == list_empty_lines_of(*state),
{
    let cs = to_chars(state.transactions.search_query.as_str());
    let (lo, hi) = trim_bounds(&cs);
    let ghost query = trim(state.transactions.search_query@);
    assert(cs@.subrange(lo as int, hi as int) == query);
    let mut lines: Vec<Vec<Piece>> = Vec::new();
    if lo < hi {
        let mut quoted = String::new();
        crate::strings::push_char(&mut quoted, '"');
        quoted.append(string_of(&cs, lo, hi).as_str());
        crate::strings::push_char(&mut quoted, '"');
        assert(quoted@ =~= seq!['"'] + query + seq!['"']);
        let mut a: Vec<Piece> = Vec::new();
        a.push(piece("No results for ", None, false));
        a.push(Piece { text: quoted, tone: Some(Tone::Accent), bold: false });
        a.push(piece(".", None, false));
        let mut b: Vec<Piece> = Vec::new();
        b.push(piece("Ctrl+F to edit • Esc to clear", Some(Tone::Muted), false));
        let ghost av = pieces_view(a@);
        let ghost bv = pieces_view(b@);
        assert(av =~= list_empty_lines_of(*state)[0]);
        assert(bv =~= list_empty_lines_of(*state)[1]);
        lines.push(a);
        lines.push(b);
        assert(lines_view(lines@) =~= seq![av, bv]);
        assert(lines_view(lines@) =~= list_empty_lines_of(*state));
    } else {
        let mut a: Vec<Piece> = Vec::new();
        a.push(piece("No transactions yet. Press ", None, false));
        a.push(piece("n", Some(Tone::Accent), false));
        a.push(piece(" to add one.", None, false));
        let ghost av = pieces_view(a@);
        assert(query.len() == 0);
        assert(av =~= list_empty_lines_of(*state)[0]);
        lines.push(a);
        assert(lines_view(lines@) =~= seq![av]);
        assert(lines_view(lines@) =~= list_empty_lines_of(*state));
    }
    lines
}

/// The transaction list: its empty-state message when no transaction is
/// shown, else its rows.
#[derive(Debug, Clone)]
pub enum TransactionList {
    Empty(Vec<Vec<Piece>>),
    Rows(Vec<ListRow>),
}

/// The transaction list of the shown transactions `txs`: only the
/// empty-state message when there are none, else the grouped rows.
pub fn transaction_list(
    state: &AppState,
    txs: &[GroupedTransaction],
    mode: GroupingMode,
    today: CalendarDate,
    yesterday: CalendarDate,
    selected: usize,
) -> (r: TransactionList)
    requires
        listable(txs@, mode),
    ensures
        txs@.len() == 0 ==> (r matches TransactionList::Empty(l) && lines_view(l@) == list_empty_lines_of(*state)),
        txs@.len() > 0 ==> (r matches TransactionList::Rows(rows) && rows_view(rows@) == list_rows_of(
            *state,
            txs@,
            mode,
            today,
            yesterday,
            selected as int,
        )),
{
    if txs.len() == 0 {
        TransactionList::Empty(list_empty_lines(state))
    } else {
        TransactionList::Rows(transaction_list_rows(state, txs, mode, today, yesterday, selected))
    }
}



/// A piece followed by a space.
pub open spec fn spaced(p: (Seq<char>, Option<Tone>, bool)) -> LineView {
    seq![p, run(" "@, None, false)]
}

/// The first line of a transaction row: the mark while marking (`*` when
/// `marked`), the day when the list is not grouped by date, the time, the
/// kind's icon, `[VOID]` when voided, the signed amount (written `amount`)
/// padded to 14 columns in the tone of its sign, and the note.
pub open spec fn row_first_line(
    state: AppState,
    tx: GroupedTransaction,
    mode: GroupingMode,
    note: Option<Seq<char>>,
    voided: bool,
    marked: bool,
    time: Seq<char>,
    amount: Seq<char>,
) -> LineView {
    let signed: int = if tx.kind is Expense { -tx.amount_minor } else { tx.amount_minor as int };
    (if state.transactions.visual_mode {
        spaced(run(if marked { "*"@ } else { " "@ }, Some(Tone::Warning), false))
    } else {
        Seq::empty()
    }) + (if mode != GroupingMode::Date {
        spaced(run(day_month_text(tx.date), Some(Tone::Muted), false))
    } else {
        Seq::empty()
    }) + seq![
        run(time, Some(Tone::Muted), false),
        run("  "@, None, false),
        run(kind_chip_of(tx.kind).0, Some(kind_chip_of(tx.kind).1), false),
        run(" "@, None, false),
    ] + (if voided {
        spaced(run("[VOID]"@, Some(Tone::Negative), true))
    } else {
        Seq::empty()
    }) + seq![
        run(pad_right(amount, 14), Some(sign_tone(signed)), false),
        run(" "@, None, false),
        run(
            match note {
                Some(n) => n,
                None => Seq::empty(),
            },
            Some(Tone::Text),
            false,
        ),
    ]
}

/// The second line of a transaction row, indented: `#` and the category,
/// `@` and the wallet's name, `>` and the flow's name, each when there is one.
pub open spec fn row_second_line(state: AppState, tx: GroupedTransaction) -> LineView {
    let wallet = match tx.wallet_id {
        Some(id) => wallet_label_of(state, id),
        None => Seq::empty(),
    };
    let flow = match tx.flow_id {
        Some(id) => flow_label_of(state, id),
        None => Seq::empty(),
    };
    seq![run("      "@, None, false)] + (match tx.category {
        Some(c) => seq![run(seq!['#'] + c@, Some(Tone::Accent), false), run("  "@, None, false)],
        None => Seq::empty(),
    }) + (if wallet.len() > 0 {
        seq![run(seq!['@'] + wallet, Some(Tone::Muted), false), run("  "@, None, false)]
    } else {
        Seq::empty()
    }) + (if flow.len() > 0 {
        seq![run(seq!['>'] + flow, Some(Tone::Info), false)]
    } else {
        Seq::empty()
    })
}

fn push_spaced(line: &mut Vec<Piece>, p: Piece)
    ensures
        pieces_view(final(line)@) == pieces_view(old(line)@) + spaced(p@),
{
    let ghost before = pieces_view(line@);
    line.push(p);
    line.push(piece(" ", None, false));
    assert(pieces_view(line@) =~= before + spaced(p@));
}

fn first_line(
    state: &AppState,
    tx: &GroupedTransaction,
    mode: GroupingMode,
    note: Option<&str>,
    voided: bool,
    marked: bool,
    time: &str,
    amount: &str,
) -> (r: Vec<Piece>)
    requires
        mode != GroupingMode::Date ==> valid_date(tx.date),
        !(tx.kind is Expense && tx.amount_minor == i64::MIN),
    ensures
        pieces_view(r@) == row_first_line(
            *state,
            *tx,
            mode,
            match note {
                Some(n) => Some(n@),
                None => None,
            },
            voided,
            marked,
            time@,
            amount@,
        ),
{
    let mut line: Vec<Piece> = Vec::new();
    let ghost empty = pieces_view(line@);
    assert(empty =~= Seq::<(Seq<char>, Option<Tone>, bool)>::empty());
    if state.transactions.visual_mode {
        push_spaced(&mut line, piece(if marked { "*" } else { " " }, Some(Tone::Warning), false));
    }
    let ghost a = pieces_view(line@);
    if mode != GroupingMode::Date {
        push_spaced(&mut line, Piece { text: format_date(tx.date, "%d %b"), tone: Some(Tone::Muted), bold: false });
    }
    let ghost b = pieces_view(line@);
    let (icon, icon_tone) = kind_chip(tx.kind);
    line.push(piece(time, Some(Tone::Muted), false));
    line.push(piece("  ", None, false));
    line.push(piece(icon, Some(icon_tone), false));
    line.push(piece(" ", None, false));
    let ghost c = pieces_view(line@);
    if voided {
        push_spaced(&mut line, piece("[VOID]", Some(Tone::Negative), true));
    }
    let ghost d = pieces_view(line@);
    let (_, tone) = amount_span(tx.kind, tx.amount_minor);
    line.push(Piece { text: padded_right(amount, 14), tone: Some(tone), bold: false });
    line.push(piece(" ", None, false));
    let text: &str = match note {
        Some(n) => n,
        None => "",
    };
    line.push(piece(text, Some(Tone::Text), false));
    proof {
        reveal_strlit("");
        assert(text@ =~= match note {
            Some(n) => n@,
            None => Seq::<char>::empty(),
        });
        assert(a =~= empty + (if state.transactions.visual_mode {
            spaced(run(if marked { "*"@ } else { " "@ }, Some(Tone::Warning), false))
        } else {
            Seq::empty()
        }));
        assert(b =~= a + (if mode != GroupingMode::Date {
            spaced(run(day_month_text(tx.date), Some(Tone::Muted), false))
        } else {
            Seq::empty()
        }));
        assert(d =~= c + (if voided {
            spaced(run("[VOID]"@, Some(Tone::Negative), true))
        } else {
            Seq::empty()
        }));
        assert(c =~= b + seq![
            run(time@, Some(Tone::Muted), false),
            run("  "@, None, false),
            run(kind_chip_of(tx.kind).0, Some(kind_chip_of(tx.kind).1), false),
            run(" "@, None, false),
        ]);
        assert(pieces_view(line@) =~= d + seq![
            run(pad_right(amount@, 14), Some(tone), false),
            run(" "@, None, false),
            run(text@, Some(Tone::Text), false),
        ]);
    }
    line
}

fn second_line(state: &AppState, tx: &GroupedTransaction) -> (r: Vec<Piece>)
    ensures
        pieces_view(r@) == row_second_line(*state, *tx),
{
    proof {
        reveal_strlit("#");
        reveal_strlit("@");
        reveal_strlit(">");
    }
    let mut line: Vec<Piece> = Vec::new();
    line.push(piece("      ", None, false));
    let ghost a = pieces_view(line@);
    assert(a =~= seq![run("      "@, None, false)]);
    if let Some(c) = &tx.category {
        let mut text = string_from("#");
        text.append(c.as_str());
        assert(text@ =~= seq!['#'] + c@);
        line.push(Piece { text, tone: Some(Tone::Accent), bold: false });
        line.push(piece("  ", None, false));
        assert(pieces_view(line@) =~= a + seq![
            run(seq!['#'] + c@, Some(Tone::Accent), false),
            run("  "@, None, false),
        ]);
    }
    let ghost b = pieces_view(line@);
    let wallet = match tx.wallet_id {
        Some(id) => resolve_wallet_name(state, id),
        None => String::new(),
    };
    if wallet.unicode_len() > 0 {
        let mut text = string_from("@");
        text.append(wallet.as_str());
        assert(text@ =~= seq!['@'] + wallet@);
        line.push(Piece { text, tone: Some(Tone::Muted), bold: false });
        line.push(piece("  ", None, false));
        assert(pieces_view(line@) =~= b + seq![
            run(seq!['@'] + wallet@, Some(Tone::Muted), false),
            run("  "@, None, false),
        ]);
    }
    let ghost c = pieces_view(line@);
    let flow = match tx.flow_id {
        Some(id) => resolve_flow_name(state, id),
        None => String::new(),
    };
    if flow.unicode_len() > 0 {
        let mut text = string_from(">");
        text.append(flow.as_str());
        assert(text@ =~= seq!['>'] + flow@);
        line.push(Piece { text, tone: Some(Tone::Info), bold: false });
        assert(pieces_view(line@) =~= c + seq![run(seq!['>'] + flow@, Some(Tone::Info), false)]);
    } else {
        assert(pieces_view(line@) =~= c);
    }
    proof {
        let wv = match tx.wallet_id {
            Some(id) => wallet_label_of(*state, id),
            None => Seq::<char>::empty(),
        };
        assert(wallet@ == wv);
        let want = row_second_line(*state, *tx);
        assert(pieces_view(line@) =~= want);
    }
    line
}

/// The two lines of a transaction of the list: see [`row_first_line`] and
/// [`row_second_line`]. `time` is the written time of the transaction and
/// `amount` the written form of its signed amount.
pub fn transaction_row_lines(
    state: &AppState,
    tx: &GroupedTransaction,
    mode: GroupingMode,
    note: Option<&str>,
    voided: bool,
    marked: bool,
    time: &str,
    amount: &str,
) -> (r: Vec<Vec<Piece>>)
    requires
        mode != GroupingMode::Date ==> valid_date(tx.date),
        !(tx.kind is Expense && tx.amount_minor == i64::MIN),
    ensures
        lines_view(r@) == seq![
            row_first_line(
                *state,
                *tx,
                mode,
                match note {
                    Some(n) => Some(n@),
                    None => None,
                },
                voided,
                marked,
                time@,
                amount@,
            ),
            row_second_line(*state, *tx),
        ],
{
    let a = first_line(state, tx, mode, note, voided, marked, time, amount);
    let b = second_line(state, tx);
    let mut lines: Vec<Vec<Piece>> = Vec::new();
    lines.push(a);
    lines.push(b);
    assert(lines_view(lines@) =~= seq![pieces_view(a@), pieces_view(b@)]);
    lines
}

} // verus!
