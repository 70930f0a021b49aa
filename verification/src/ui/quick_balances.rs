//! The quick balances card of the home screen: the active wallets, largest
//! balance first, and the budgets, each with its written balance aligned to
//! the right edge of the card.

use super::entities::{truncate, truncate_of};
use super::entity_list::balance_tone;
use super::settings::run;
use super::state::{AppState, FlowInfo, WalletInfo};
use super::{LineView, Piece, Tone, lines_view, piece, pieces_view};
use crate::strings::{pad_right, padded_right, push_spaces, spaces, to_chars};
use crate::text::{TextKey, message, t};
use vstd::prelude::*;

verus! {


/// The number of bytes of `c` in UTF-8.
pub open spec fn char_bytes(c: char) -> nat {
    if (c as u32) < 0x80 {
        1
    } else if (c as u32) < 0x800 {
        2
    } else if (c as u32) < 0x10000 {
        3
    } else {
        4
    }
}

/// The number of bytes of `s` in UTF-8, the length `str::len` gives.
pub open spec fn utf8_len(s: Seq<char>) -> nat
    decreases s.len(),
{
    if s.len() == 0 {
        0
    } else {
        utf8_len(s.drop_last()) + char_bytes(s.last())
    }
}

/// The number of bytes of `s` in UTF-8.
pub fn byte_len(s: &str) -> (r: u128)
    ensures
        r == utf8_len(s@),
        r <= 4 * (usize::MAX as int),
{
    let cs = to_chars(s);
    let mut n: u128 = 0;
    let mut i: usize = 0;
    while i < cs.len()
        invariant
            i <= cs@.len(),
            cs@ == s@,
            n == utf8_len(cs@.take(i as int)),
            n <= 4 * i,
        decreases cs.len() - i,
    {
        let c = cs[i];
        let code = c as u32;
        let w: u128 = if code < 0x80 {
            1
        } else if code < 0x800 {
            2
        } else if code < 0x10000 {
            3
        } else {
            4
        };
        assert(cs@.take(i + 1).drop_last() =~= cs@.take(i as int));
        n = n + w;
        i = i + 1;
    }
    assert(cs@.take(cs@.len() as int) =~= cs@);
    assert(cs@.len() <= usize::MAX);
    n
}

/// The position before which a balance `b` goes in `order` (wallet indices
/// from `from` on): the first whose wallet has a smaller balance, or the end.
pub open spec fn first_below(ws: Seq<WalletInfo>, order: Seq<usize>, b: i64, from: int) -> int
    decreases order.len() - from,
{
    if from < 0 || from >= order.len() {
        order.len() as int
    } else if ws[order[from] as int].balance_minor < b {
        from
    } else {
        first_below(ws, order, b, from + 1)
    }
}

/// The indices of the active wallets among the first `n`, by balance,
/// largest first, wallets of equal balance in snapshot order: each is put
/// before the first one with a smaller balance.
pub open spec fn balance_order(ws: Seq<WalletInfo>, n: int) -> Seq<usize>
    decreases n,
{
    if n <= 0 || n > ws.len() {
        Seq::empty()
    } else {
        let prev = balance_order(ws, n - 1);
        if ws[n - 1].archived {
            prev
        } else {
            prev.insert(first_below(ws, prev, ws[n - 1].balance_minor, 0), (n - 1) as usize)
        }
    }
}

/// The indices of the budgets among the first `n` flows: neither archived
/// nor the unallocated flow.
pub open spec fn budget_indices(fs: Seq<FlowInfo>, n: int) -> Seq<usize>
    decreases n,
{
    if n <= 0 || n > fs.len() {
        Seq::empty()
    } else if !fs[n - 1].archived && !fs[n - 1].is_unallocated {
        budget_indices(fs, n - 1).push((n - 1) as usize)
    } else {
        budget_indices(fs, n - 1)
    }
}

/// Law: the budgets of the card are exactly the flows that are neither
/// archived nor the unallocated flow, each once, in snapshot order.
pub proof fn law_budgets_are_active_allocated_flows(fs: Seq<FlowInfo>, n: int)
    requires
        0 <= n <= fs.len() <= usize::MAX,
    ensures
        forall|k: int|
            0 <= k < budget_indices(fs, n).len() ==> {
                let i = #[trigger] budget_indices(fs, n)[k] as int;
                &&& 0 <= i < n
                &&& !fs[i].archived
                &&& !fs[i].is_unallocated
            },
        forall|j: int, k: int|
            0 <= j < k < budget_indices(fs, n).len() ==> #[trigger] budget_indices(fs, n)[j]
                < #[trigger] budget_indices(fs, n)[k],
        forall|i: int|
            0 <= i < n && !fs[i].archived && !fs[i].is_unallocated ==> #[trigger] budget_indices(
                fs,
                n,
            ).contains(i as usize),
    decreases n,
{
    if n > 0 {
        law_budgets_are_active_allocated_flows(fs, n - 1);
        let prev = budget_indices(fs, n - 1);
        if !fs[n - 1].archived && !fs[n - 1].is_unallocated {
            let cur = prev.push((n - 1) as usize);
            assert(cur == budget_indices(fs, n));
            assert forall|i: int|
                0 <= i < n && !fs[i].archived && !fs[i].is_unallocated implies cur.contains(i as usize) by {
                if i == n - 1 {
                    assert(cur[prev.len() as int] == (n - 1) as usize);
                } else {
                    assert(prev.contains(i as usize));
                    let k = choose|k: int| 0 <= k < prev.len() && prev[k] == i as usize;
                    assert(cur[k] == i as usize);
                }
            }
        } else {
            assert(budget_indices(fs, n) == prev);
        }
    }
}

/// The widest a name may be in a card `width` columns wide: what the emoji,
/// the gap and the amount leave, and at least 8.
pub open spec fn name_width_of(width: int) -> int {
    if width - 22 > 8 {
        width - 22
    } else {
        8
    }
}

/// The line of a balance: the emoji, the name cut and padded to `nw`, the
/// spaces that put the written amount at the right edge, and the amount in
/// the tone of its sign.
pub open spec fn balance_line_of(
    prefix: Seq<char>,
    name: Seq<char>,
    nw: int,
    amount: Seq<char>,
    balance: i64,
    width: int,
) -> LineView {
    let used = 5 + nw + utf8_len(amount);
    seq![
        run(prefix, None, false),
        run(pad_right(truncate_of(name, nw as usize), nw as nat), Some(Tone::Text), false),
        run(spaces(if width > used { (width - used) as nat } else { 0 }), None, false),
        run(amount, Some(balance_tone(balance as int)), false),
    ]
}

/// A section header.
pub open spec fn header_of(text: Seq<char>) -> LineView {
    seq![run(text, Some(Tone::Muted), true)]
}

/// The number of wallets shown in a card `height` rows high.
pub open spec fn wallets_shown(height: int, count: int) -> int {
    let most = if height / 2 > 2 { height / 2 } else { 2 };
    if most < count { most } else { count }
}

/// The wallet section: its header and the first wallets by balance.
pub open spec fn wallet_section(state: AppState, width: int, height: int, amounts: Seq<String>) -> Seq<LineView> {
    let ws = state.snapshot->0.wallets@;
    let order = balance_order(ws, ws.len() as int);
    if order.len() == 0 {
        Seq::empty()
    } else {
        seq![header_of(message(state.locale, TextKey::HomeWallets))] + Seq::new(
            wallets_shown(height, order.len() as int) as nat,
            |k: int|
                balance_line_of(
                    "  💰 "@,
                    ws[order[k] as int].name@,
                    name_width_of(width),
                    amounts[order[k] as int]@,
                    ws[order[k] as int].balance_minor,
                    width,
                ),
        )
    }
}

/// The number of budgets shown when `remaining` rows are left.
pub open spec fn budgets_shown(remaining: int, count: int) -> int {
    let most = if remaining - 3 > 1 { remaining - 3 } else { 1 };
    if most < count { most } else { count }
}

/// The budget section, when more than two rows are left under the wallets:
/// a gap, its header and the first budgets in snapshot order.
pub open spec fn budget_section(state: AppState, width: int, remaining: int, amounts: Seq<String>) -> Seq<LineView> {
    let fs = state.snapshot->0.flows@;
    let idx = budget_indices(fs, fs.len() as int);
    if idx.len() == 0 || remaining <= 2 {
        Seq::empty()
    } else {
        seq![Seq::empty(), header_of(message(state.locale, TextKey::HomeBudgets))] + Seq::new(
            budgets_shown(remaining, idx.len() as int) as nat,
            |k: int|
                balance_line_of(
                    "  📦 "@,
                    fs[idx[k] as int].name@,
                    name_width_of(width),
                    amounts[idx[k] as int]@,
                    fs[idx[k] as int].balance_minor,
                    width,
                ),
        )
    }
}

/// The rows under the wallet section cannot run out: a card with budgets to
/// show has room for the wallet section.
pub open spec fn quick_balances_fit(state: AppState, height: int) -> bool {
    match state.snapshot {
        None => true,
        Some(snap) => {
            let order = balance_order(snap.wallets@, snap.wallets@.len() as int);
            let budgets = budget_indices(snap.flows@, snap.flows@.len() as int);
            budgets.len() > 0 && order.len() > 0 ==> 1 + wallets_shown(height, order.len() as int) <= height
        },
    }
}

/// The lines of the quick balances card, `width` columns by `height` rows:
/// without a snapshot, the no-data message and how to add a transaction;
/// else the wallet section and the budget section, cut to the height.
pub open spec fn quick_balances_of(
    state: AppState,
    width: int,
    height: int,
    wallet_amounts: Seq<String>,
    flow_amounts: Seq<String>,
) -> Seq<LineView> {
    match state.snapshot {
        None => seq![
            Seq::empty(),
            seq![run(message(state.locale, TextKey::HomeNoDataYet), Some(Tone::Muted), false)],
            Seq::empty(),
            seq![run(message(state.locale, TextKey::HomeAddFirstTxn), Some(Tone::Muted), false)],
        ],
        Some(_) => {
            let w = wallet_section(state, width, height, wallet_amounts);
            let all = w + budget_section(state, width, height - w.len(), flow_amounts);
            if all.len() > height {
                all.take(height)
            } else {
                all
            }
        },
    }
}

proof fn lemma_first_below(ws: Seq<WalletInfo>, order: Seq<usize>, b: i64, from: int)
    requires
        0 <= from <= order.len(),
        forall|i: int| 0 <= i < from ==> ws[#[trigger] order[i] as int].balance_minor >= b,
    ensures
        from <= first_below(ws, order, b, from) <= order.len(),
        forall|i: int|
            0 <= i < first_below(ws, order, b, from) ==> ws[#[trigger] order[i] as int].balance_minor >= b,
        first_below(ws, order, b, from) < order.len() ==> ws[order[first_below(ws, order, b, from)] as int].balance_minor
            < b,
    decreases order.len() - from,
{
    if from < order.len() && ws[order[from] as int].balance_minor >= b {
        lemma_first_below(ws, order, b, from + 1);
    }
}

/// Law: the card has no more rows than it is high, and a balance line
/// shows the written balance last, positive from zero up and negative below,
/// after the name cut to the name width.
pub proof fn law_card_fits_and_balances_are_signed(
    state: AppState,
    width: int,
    height: int,
    wallet_amounts: Seq<String>,
    flow_amounts: Seq<String>,
    prefix: Seq<char>,
    name: Seq<char>,
    amount: Seq<char>,
    balance: i64,
)
    requires
        state.snapshot is Some,
        height >= 0,
    ensures
        quick_balances_of(state, width, height, wallet_amounts, flow_amounts).len() <= height,
        ({
            let line = balance_line_of(prefix, name, name_width_of(width), amount, balance, width);
            &&& line.len() == 4
            &&& line[3] == run(amount, Some(if balance >= 0 { Tone::Positive } else { Tone::Negative }), false)
            &&& line[1].0 == pad_right(truncate_of(name, name_width_of(width) as usize), name_width_of(width) as nat)
            &&& name_width_of(width) >= 8
        }),
{
}

proof fn lemma_insert_contains(s: Seq<usize>, p: int, x: usize, k: usize)
    requires
        0 <= p <= s.len(),
    ensures
        s.insert(p, x).contains(k) <==> (s.contains(k) || k == x),
{
    let o = s.insert(p, x);
    if s.contains(k) {
        let i = choose|i: int| 0 <= i < s.len() && s[i] == k;
        if i < p {
            assert(o[i] == k);
        } else {
            assert(o[i + 1] == k);
        }
    }
    if k == x {
        assert(o[p] == k);
    }
    if o.contains(k) {
        let i = choose|i: int| 0 <= i < o.len() && o[i] == k;
        if i < p {
            assert(s[i] == k);
        } else if i > p {
            assert(s[i - 1] == k);
        }
    }
}

/// `order` lists wallets by balance from largest to smallest, equal
/// balances by index.
pub open spec fn by_balance(ws: Seq<WalletInfo>, order: Seq<usize>) -> bool {
    forall|i: int, j: int|
        0 <= i < j < order.len() ==> ws[#[trigger] order[i] as int].balance_minor >= ws[#[trigger] order[j] as int].balance_minor
            && (ws[order[i] as int].balance_minor == ws[order[j] as int].balance_minor ==> order[i] < order[j])
}

#[verifier::spinoff_prover]
proof fn lemma_insert_by_balance(ws: Seq<WalletInfo>, prev: Seq<usize>, x: usize)
    requires
        by_balance(ws, prev),
        forall|i: int| 0 <= i < prev.len() ==> (#[trigger] prev[i]) < x,
        first_below(ws, prev, ws[x as int].balance_minor, 0) <= prev.len(),
        forall|i: int|
            0 <= i < first_below(ws, prev, ws[x as int].balance_minor, 0) ==> ws[#[trigger] prev[i] as int].balance_minor
                >= ws[x as int].balance_minor,
        first_below(ws, prev, ws[x as int].balance_minor, 0) < prev.len() ==> ws[prev[first_below(
            ws,
            prev,
            ws[x as int].balance_minor,
            0,
        )] as int].balance_minor < ws[x as int].balance_minor,
        0 <= first_below(ws, prev, ws[x as int].balance_minor, 0),
    ensures
        by_balance(ws, prev.insert(first_below(ws, prev, ws[x as int].balance_minor, 0), x)),
{
    let b = ws[x as int].balance_minor;
    let p = first_below(ws, prev, b, 0);
    let o = prev.insert(p, x);
    assert forall|i: int, j: int| 0 <= i < j < o.len() implies ws[#[trigger] o[i] as int].balance_minor
        >= ws[#[trigger] o[j] as int].balance_minor && (ws[o[i] as int].balance_minor == ws[o[j] as int].balance_minor
        ==> o[i] < o[j]) by {
        if j < p {
            assert(o[i] == prev[i] && o[j] == prev[j]);
        } else if j == p {
            assert(o[i] == prev[i]);
        } else if i > p {
            assert(o[i] == prev[i - 1] && o[j] == prev[j - 1]);
        } else if i == p {
            assert(o[j] == prev[j - 1]);
            if j - 1 > p {
                assert(ws[prev[p] as int].balance_minor >= ws[prev[j - 1] as int].balance_minor);
            }
        } else {
            assert(o[i] == prev[i] && o[j] == prev[j - 1]);
        }
    }
}

/// Law: the wallet order holds each active wallet once and no other, by
/// balance from largest to smallest, wallets of equal balance in the order
/// of the snapshot.
pub proof fn law_wallet_order(ws: Seq<WalletInfo>, n: int)
    requires
        0 <= n <= ws.len() <= usize::MAX,
    ensures
        forall|i: int| 0 <= i < balance_order(ws, n).len() ==> (#[trigger] balance_order(ws, n)[i]) < n,
        forall|k: int| 0 <= k < ws.len() ==> (balance_order(ws, n).contains(k as usize) <==> k < n && !ws[k].archived),
        by_balance(ws, balance_order(ws, n)),
    decreases n,
{
    if n > 0 {
        law_wallet_order(ws, n - 1);
        let prev = balance_order(ws, n - 1);
        if !ws[n - 1].archived {
            let b = ws[n - 1].balance_minor;
            let x = (n - 1) as usize;
            lemma_first_below(ws, prev, b, 0);
            let p = first_below(ws, prev, b, 0);
            let o = prev.insert(p, x);
            assert(o == balance_order(ws, n));
            assert forall|i: int| 0 <= i < o.len() implies (#[trigger] o[i]) < n by {
                if i < p {
                    assert(o[i] == prev[i]);
                } else if i > p {
                    assert(o[i] == prev[i - 1]);
                }
            }
            assert forall|k: int| 0 <= k < ws.len() implies (o.contains(k as usize) <==> k < n && !ws[k].archived) by {
                lemma_insert_contains(prev, p, x, k as usize);
            }
            lemma_insert_by_balance(ws, prev, x);
        }
    }
}

fn insert_position(ws: &Vec<WalletInfo>, order: &Vec<usize>, b: i64) -> (r: usize)
    requires
        forall|k: int| 0 <= k < order@.len() ==> (#[trigger] order@[k]) < ws@.len(),
    ensures
        r as int == first_below(ws@, order@, b, 0),
        r <= order@.len(),
{
    let mut k: usize = 0;
    while k < order.len() && ws[order[k]].balance_minor >= b
        invariant
            k <= order@.len(),
            forall|j: int| 0 <= j < order@.len() ==> (#[trigger] order@[j]) < ws@.len(),
            first_below(ws@, order@, b, k as int) == first_below(ws@, order@, b, 0),
        decreases order.len() - k,
    {
        k = k + 1;
    }
    k
}

/// The indices of the active wallets, by balance, largest first.
pub fn wallets_by_balance(ws: &Vec<WalletInfo>) -> (r: Vec<usize>)
    ensures
        r@ == balance_order(ws@, ws@.len() as int),
        forall|k: int| 0 <= k < r@.len() ==> (#[trigger] r@[k]) < ws@.len(),
{
    let mut order: Vec<usize> = Vec::new();
    let mut i: usize = 0;
    while i < ws.len()
        invariant
            i <= ws@.len(),
            order@ == balance_order(ws@, i as int),
            forall|k: int| 0 <= k < order@.len() ==> (#[trigger] order@[k]) < i,
        decreases ws.len() - i,
    {
        if !ws[i].archived {
            let p = insert_position(ws, &order, ws[i].balance_minor);
            let ghost before = order@;
            order.insert(p, i);
            assert forall|k: int| 0 <= k < order@.len() implies (#[trigger] order@[k]) < i + 1 by {
                if k < p {
                    assert(order@[k] == before[k]);
                } else if k > p {
                    assert(order@[k] == before[k - 1]);
                }
            }
        }
        i = i + 1;
    }
    order
}

/// The indices of the budgets, in snapshot order.
pub fn budgets_of(fs: &Vec<FlowInfo>) -> (r: Vec<usize>)
    ensures
        r@ == budget_indices(fs@, fs@.len() as int),
        forall|k: int| 0 <= k < r@.len() ==> (#[trigger] r@[k]) < fs@.len(),
{
    let mut idx: Vec<usize> = Vec::new();
    let mut i: usize = 0;
    while i < fs.len()
        invariant
            i <= fs@.len(),
            idx@ == budget_indices(fs@, i as int),
            forall|k: int| 0 <= k < idx@.len() ==> (#[trigger] idx@[k]) < i,
        decreases fs.len() - i,
    {
        if !fs[i].archived && !fs[i].is_unallocated {
            idx.push(i);
        }
        i = i + 1;
    }
    idx
}

fn balance_line(prefix: &str, name: &str, nw: usize, amount: &str, balance: i64, width: usize) -> (r: Vec<Piece>)
    requires
        nw as int == name_width_of(width as int),
    ensures
        pieces_view(r@) == balance_line_of(prefix@, name@, nw as int, amount@, balance, width as int),
{
    let used: u128 = 5 + nw as u128 + byte_len(amount);
    let mut gap = String::new();
    if (width as u128) > used {
        push_spaces(&mut gap, (width as u128 - used) as usize);
    }
    assert(gap@ =~= spaces(if width as int > used as int { (width as int - used as int) as nat } else { 0 }));
    let mut v: Vec<Piece> = Vec::new();
    v.push(piece(prefix, None, false));
    v.push(Piece { text: padded_right(truncate(name, nw).as_str(), nw), tone: Some(Tone::Text), bold: false });
    v.push(Piece { text: gap, tone: None, bold: false });
    v.push(piece(amount, Some(if balance >= 0 { Tone::Positive } else { Tone::Negative }), false));
    assert(pieces_view(v@) =~= balance_line_of(prefix@, name@, nw as int, amount@, balance, width as int));
    v
}

/// The quick balances card.
#[derive(Debug, Clone)]
pub struct QuickBalances {
    pub title: &'static str,
    /// Whether the lines are centered: the no-data message is.
    pub centered: bool,
    pub lines: Vec<Vec<Piece>>,
}

/// The quick balances card of `state`, `width` columns by `height` rows,
/// under the locale's title. `wallet_amounts` and `flow_amounts` hold the
/// written balance of each wallet and each flow of the snapshot.
#[verifier::spinoff_prover]
#[verifier::rlimit(40)]
pub fn quick_balances(
    state: &AppState,
    width: u16,
    height: u16,
    wallet_amounts: &[String],
    flow_amounts: &[String],
) -> (r: QuickBalances)
    requires
        state.snapshot matches Some(s) ==> wallet_amounts@.len() == s.wallets@.len() && flow_amounts@.len()
            == s.flows@.len(),
        quick_balances_fit(*state, height as int),
    ensures
        r.title@ == message(state.locale, TextKey::HomeQuickBalances),
        r.centered <==> state.snapshot is None,
        lines_view(r.lines@) == quick_balances_of(
            *state,
            width as int,
            height as int,
            wallet_amounts@,
            flow_amounts@,
        ),
{
    let title = t(state.locale, TextKey::HomeQuickBalances);
    let snap = match &state.snapshot {
        Some(s) => s,
        None => {
            let mut a: Vec<Piece> = Vec::new();
            a.push(piece(t(state.locale, TextKey::HomeNoDataYet), Some(Tone::Muted), false));
            let mut b: Vec<Piece> = Vec::new();
            b.push(piece(t(state.locale, TextKey::HomeAddFirstTxn), Some(Tone::Muted), false));
            let e1: Vec<Piece> = Vec::new();
            let e2: Vec<Piece> = Vec::new();
            let ghost (av, bv, ev1, ev2) = (pieces_view(a@), pieces_view(b@), pieces_view(e1@), pieces_view(e2@));
            let mut lines: Vec<Vec<Piece>> = Vec::new();
            lines.push(e1);
            lines.push(a);
            lines.push(e2);
            lines.push(b);
            assert(ev1 =~= Seq::<(Seq<char>, Option<Tone>, bool)>::empty());
            assert(ev2 =~= Seq::<(Seq<char>, Option<Tone>, bool)>::empty());
            assert(lines_view(lines@) =~= seq![ev1, av, ev2, bv]);
            assert(av =~= seq![run(message(state.locale, TextKey::HomeNoDataYet), Some(Tone::Muted), false)]);
            assert(bv =~= seq![run(message(state.locale, TextKey::HomeAddFirstTxn), Some(Tone::Muted), false)]);
            assert(lines_view(lines@) == quick_balances_of(
                *state,
                width as int,
                height as int,
                wallet_amounts@,
                flow_amounts@,
            ));
            return QuickBalances { title, centered: true, lines };
        },
    };
    let w = width as usize;
    let h = height as usize;
    let nw: usize = if w > 30 { w - 22 } else { 8 };
    let ghost ws = snap.wallets@;
    let ghost fs = snap.flows@;
    let mut lines: Vec<Vec<Piece>> = Vec::new();
    let order = wallets_by_balance(&snap.wallets);
    let ghost wsec = wallet_section(*state, w as int, h as int, wallet_amounts@);
    if order.len() > 0 {
        let mut head: Vec<Piece> = Vec::new();
        head.push(piece(t(state.locale, TextKey::HomeWallets), Some(Tone::Muted), true));
        assert(pieces_view(head@) =~= header_of(message(state.locale, TextKey::HomeWallets)));
        lines.push(head);
        let most: usize = if h / 2 > 2 { h / 2 } else { 2 };
        let shown: usize = if most < order.len() { most } else { order.len() };
        let mut k: usize = 0;
        while k < shown
            invariant
                k <= shown,
                shown as int == wallets_shown(h as int, order@.len() as int),
                shown <= order@.len(),
                order@ == balance_order(ws, ws.len() as int),
                ws == snap.wallets@,
                wallet_amounts@.len() == ws.len(),
                nw as int == name_width_of(w as int),
                forall|j: int| 0 <= j < order@.len() ==> (#[trigger] order@[j]) < ws.len(),
                lines@.len() == k + 1,
                lines_view(lines@) == wsec.take(k + 1),
                wsec.len() == shown + 1,
                wsec == wallet_section(*state, w as int, h as int, wallet_amounts@),
                state.snapshot is Some && state.snapshot->0.wallets@ == ws,
            decreases shown - k,
        {
            let i = order[k];
            let line = balance_line(
                "  💰 ",
                snap.wallets[i].name.as_str(),
                nw,
                wallet_amounts[i].as_str(),
                snap.wallets[i].balance_minor,
                w,
            );
            let ghost before = lines_view(lines@);
            assert(wsec[k + 1] == balance_line_of(
                "  💰 "@,
                ws[order@[k as int] as int].name@,
                name_width_of(w as int),
                wallet_amounts@[order@[k as int] as int]@,
                ws[order@[k as int] as int].balance_minor,
                w as int,
            ));
            lines.push(line);
            assert(lines_view(lines@) =~= before.push(wsec[k + 1]));
            assert(wsec.take(k + 2) =~= wsec.take(k + 1).push(wsec[k + 1]));
            k = k + 1;
        }
        assert(wsec.take(shown + 1) =~= wsec);
    } else {
        assert(lines_view(lines@) =~= wsec);
    }
    let ghost wlen = lines@.len();
    let ghost bsec = budget_section(*state, w as int, h as int - wlen, flow_amounts@);
    let budgets = budgets_of(&snap.flows);
    if budgets.len() > 0 {
        let remaining = h - lines.len();
        if remaining > 2 {
            let ghost before_all = lines_view(lines@);
            let mut head: Vec<Piece> = Vec::new();
            head.push(piece(t(state.locale, TextKey::HomeBudgets), Some(Tone::Muted), true));
            assert(pieces_view(head@) =~= header_of(message(state.locale, TextKey::HomeBudgets)));
            let gap: Vec<Piece> = Vec::new();
            assert(pieces_view(gap@) =~= Seq::<(Seq<char>, Option<Tone>, bool)>::empty());
            lines.push(gap);
            lines.push(head);
            let most: usize = if remaining - 3 > 1 { remaining - 3 } else { 1 };
            let shown: usize = if most < budgets.len() { most } else { budgets.len() };
            assert(lines_view(lines@) =~= before_all + bsec.take(2));
            let mut k: usize = 0;
            while k < shown
                invariant
                    k <= shown,
                    shown as int == budgets_shown(remaining as int, budgets@.len() as int),
                    remaining as int == h as int - wlen,
                    shown <= budgets@.len(),
                    budgets@ == budget_indices(fs, fs.len() as int),
                    fs == snap.flows@,
                    flow_amounts@.len() == fs.len(),
                    nw as int == name_width_of(w as int),
                    forall|j: int| 0 <= j < budgets@.len() ==> (#[trigger] budgets@[j]) < fs.len(),
                    lines_view(lines@) == before_all + bsec.take(k + 2),
                    bsec.len() == shown + 2,
                    bsec == budget_section(*state, w as int, remaining as int, flow_amounts@),
                    state.snapshot is Some && state.snapshot->0.flows@ == fs,
                decreases shown - k,
            {
                let i = budgets[k];
                let line = balance_line(
                    "  📦 ",
                    snap.flows[i].name.as_str(),
                    nw,
                    flow_amounts[i].as_str(),
                    snap.flows[i].balance_minor,
                    w,
                );
                let ghost before = lines_view(lines@);
                assert(bsec[k + 2] == balance_line_of(
                    "  📦 "@,
                    fs[budgets@[k as int] as int].name@,
                    name_width_of(w as int),
                    flow_amounts@[budgets@[k as int] as int]@,
                    fs[budgets@[k as int] as int].balance_minor,
                    w as int,
                ));
                lines.push(line);
                assert(lines_view(lines@) =~= before.push(bsec[k + 2]));
                assert(bsec.take(k + 3) =~= bsec.take(k + 2).push(bsec[k + 2]));
                k = k + 1;
            }
            assert(bsec.take(shown + 2) =~= bsec);
        } else {
            assert(bsec =~= Seq::<Seq<(Seq<char>, Option<Tone>, bool)>>::empty());
        }
    } else {
        assert(bsec =~= Seq::<Seq<(Seq<char>, Option<Tone>, bool)>>::empty());
    }
    assert(lines_view(lines@) =~= wsec + bsec);
    let ghost all = lines_view(lines@);
    assert(wlen == wsec.len());
    assert(all == wallet_section(*state, w as int, h as int, wallet_amounts@) + budget_section(
        *state,
        w as int,
        h as int - wallet_section(*state, w as int, h as int, wallet_amounts@).len(),
        flow_amounts@,
    ));
    lines.truncate(h);
    assert(lines_view(lines@) =~= if all.len() > h { all.take(h as int) } else { all });
    assert(lines_view(lines@) == quick_balances_of(*state, w as int, h as int, wallet_amounts@, flow_amounts@));
    QuickBalances { title, centered: false, lines }
}

} // verus!
