//! Helpers of the members, categories, vault, home, login and flow screens.

use super::state::{AppState, FlowInfo};
use super::{Piece, Tone, piece, pieces_view};
use crate::text::{Locale, TextKey, message, t};
use crate::strings::{push_char, same_text, string_from, to_chars, trim, trim_bounds, string_of};
use vstd::prelude::*;
use vstd::string::StringSliceAdditionalSpecFns;

verus! {

/// The flows a member can be given access to: active and not the unallocated one.
pub open spec fn assignable_flows(fs: Seq<FlowInfo>) -> Seq<FlowInfo>
    decreases fs.len(),
{
    if fs.len() == 0 {
        Seq::empty()
    } else {
        let before = assignable_flows(fs.drop_last());
        if !fs.last().archived && !fs.last().is_unallocated {
            before.push(fs.last())
        } else {
            before
        }
    }
}

/// The name of the flow picked on the members screen.
pub open spec fn member_flow_name_of(state: AppState) -> Option<Seq<char>> {
    match state.snapshot {
        Some(s) => {
            let fs = assignable_flows(s.flows@);
            if state.members.flow_index < fs.len() {
                Some(fs[state.members.flow_index as int].name@)
            } else {
                None
            }
        },
        None => None,
    }
}

/// The name of the flow picked on the members screen, among the active,
/// allocated flows.
pub fn member_flow_name(state: &AppState) -> (r: Option<String>)
    ensures
        r is None <==> member_flow_name_of(*state) is None,
        r matches Some(n) ==> n@ == member_flow_name_of(*state)->0,
{
    let snapshot = match &state.snapshot {
        Some(s) => s,
        None => return None,
    };
    let fs = &snapshot.flows;
    let mut picked: Vec<usize> = Vec::new();
    let mut i: usize = 0;
    assert(fs@.take(0) =~= Seq::<FlowInfo>::empty());
    while i < fs.len()
        invariant
            i <= fs@.len(),
            picked@.len() == assignable_flows(fs@.take(i as int)).len(),
            forall|k: int| 0 <= k < picked@.len() ==> #[trigger] picked@[k] < fs@.len() &&
                fs@[picked@[k] as int] == assignable_flows(fs@.take(i as int))[k],
        decreases fs.len() - i,
    {
        assert(fs@.take(i + 1).drop_last() =~= fs@.take(i as int));
        assert(fs@.take(i + 1).last() == fs@[i as int]);
        if !fs[i].archived && !fs[i].is_unallocated {
            picked.push(i);
        }
        i = i + 1;
    }
    assert(fs@.take(fs@.len() as int) =~= fs@);
    let k = state.members.flow_index;
    if k < picked.len() {
        Some(fs[picked[k]].name.clone())
    } else {
        None
    }
}

/// The names of the two categories picked for a merge.
pub open spec fn merge_pair_of(state: AppState) -> Option<(Seq<char>, Seq<char>)> {
    let items = state.categories.items@;
    let from = state.categories.merge.from_index;
    let into = state.categories.merge.target_index;
    if from < items.len() && into < items.len() {
        Some((items[from as int].name@, items[into as int].name@))
    } else {
        None
    }
}

/// The names of the category to merge and of the one it merges into.
pub fn merge_pair(state: &AppState) -> (r: Option<(String, String)>)
    ensures
        r is None <==> merge_pair_of(*state) is None,
        r matches Some(p) ==> (p.0@, p.1@) == merge_pair_of(*state)->0,
{
    let items = &state.categories.items;
    let from = state.categories.merge.from_index;
    let into = state.categories.merge.target_index;
    if from < items.len() && into < items.len() {
        Some((items[from].name.clone(), items[into].name.clone()))
    } else {
        None
    }
}

/// The message for a merge conflict of kind `kind` about `value`.
pub open spec fn merge_conflict_text(kind: Seq<char>, value: Seq<char>) -> Seq<char> {
    if kind == "same_category"@ {
        "Cannot merge category with itself"@
    } else if kind == "source_system"@ {
        "System category: "@ + value
    } else if kind == "target_archived"@ {
        "Target is archived: "@ + value
    } else if kind == "alias_conflict"@ {
        "Alias conflict: "@ + value
    } else if kind == "name_conflict"@ {
        "Name conflict: "@ + value
    } else {
        "Conflict: "@ + kind + " ("@ + value + seq![')']
    }
}

/// The message shown for a conflict the server reports on a merge.
pub fn merge_conflict_label(kind: &str, value: &str) -> (r: String)
    ensures
        r@ == merge_conflict_text(kind@, value@),
{
    if same_text(kind, "same_category") {
        string_from("Cannot merge category with itself")
    } else if same_text(kind, "source_system") {
        let mut r = string_from("System category: ");
        r.append(value);
        r
    } else if same_text(kind, "target_archived") {
        let mut r = string_from("Target is archived: ");
        r.append(value);
        r
    } else if same_text(kind, "alias_conflict") {
        let mut r = string_from("Alias conflict: ");
        r.append(value);
        r
    } else if same_text(kind, "name_conflict") {
        let mut r = string_from("Name conflict: ");
        r.append(value);
        r
    } else {
        let mut r = string_from("Conflict: ");
        r.append(kind);
        r.append(" (");
        r.append(value);
        push_char(&mut r, ')');
        r
    }
}

/// The name of the open vault, with its owner when someone else owns it.
pub open spec fn vault_name_of(state: AppState) -> Option<Seq<char>> {
    match state.vault {
        Some(v) => match v.name {
            Some(name) => match v.owner {
                Some(owner) => if owner@.len() > 0 && owner@ != trim(state.login.username@) {
                    Some(name@ + " ("@ + owner@ + seq![')'])
                } else {
                    Some(name@)
                },
                None => Some(name@),
            },
            None => None,
        },
        None => None,
    }
}

/// The vault name shown in the header: `name (owner)` when the vault belongs
/// to someone other than the logged-in user.
pub fn display_vault_name(state: &AppState) -> (r: Option<String>)
    ensures
        r is None <==> vault_name_of(*state) is None,
        r matches Some(n) ==> n@ == vault_name_of(*state)->0,
{
    let vault = match &state.vault {
        Some(v) => v,
        None => return None,
    };
    let name = match &vault.name {
        Some(n) => n,
        None => return None,
    };
    let user = to_chars(state.login.username.as_str());
    let (lo, hi) = trim_bounds(&user);
    let username = string_of(&user, lo, hi);
    match &vault.owner {
        Some(owner) => {
            if owner.unicode_len() > 0 && !same_text(owner.as_str(), username.as_str()) {
                let mut r = name.clone();
                r.append(" (");
                r.append(owner.as_str());
                push_char(&mut r, ')');
                Some(r)
            } else {
                Some(name.clone())
            }
        },
        None => Some(name.clone()),
    }
}

/// `s` cut to `max_len` characters, the last of which becomes `…` when cut.
pub open spec fn truncate_of(s: Seq<char>, max_len: usize) -> Seq<char> {
    if s.len() <= max_len {
        s
    } else {
        s.take(max_len - 1) + "…"@
    }
}

/// Shortens a text to `max_len` characters, ending it with `…` when cut.
pub fn truncate(s: &str, max_len: usize) -> (r: String)
    requires
        s@.len() > max_len ==> max_len >= 1,
    ensures
        r@ == truncate_of(s@, max_len),
{
    let cs = to_chars(s);
    if cs.len() <= max_len {
        string_from(s)
    } else {
        let mut r = string_of(&cs, 0, max_len - 1);
        r.append("…");
        r
    }
}

/// Law: a shortened text never has more than `max_len` characters, is the
/// text itself when it fits, and else keeps the text's first `max_len - 1`
/// characters.
pub proof fn law_truncate_fits(s: Seq<char>, max_len: usize)
    requires
        s.len() > max_len ==> max_len >= 1,
    ensures
        truncate_of(s, max_len).len() <= max_len,
        s.len() <= max_len ==> truncate_of(s, max_len) == s,
        s.len() > max_len ==> truncate_of(s, max_len).take(max_len - 1) == s.take(max_len - 1),
{
    if s.len() > max_len {
        reveal_strlit("…");
        let t = truncate_of(s, max_len);
        assert(t.take(max_len - 1) =~= s.take(max_len - 1));
    }
}

/// A password shown as one bullet per character.
pub open spec fn masked_text(password: Seq<char>) -> Seq<char> {
    Seq::new(password.len(), |i: int| '•')
}

/// Masks a password with bullets, one per character.
pub fn mask_password(password: &str) -> (r: String)
    ensures
        r@ == masked_text(password@),
{
    let n = password.unicode_len();
    let mut r = String::new();
    let mut i: usize = 0;
    while i < n
        invariant
            n == password@.len(),
            i <= n,
            r@ == Seq::new(i as nat, |k: int| '•'),
        decreases n - i,
    {
        push_char(&mut r, '•');
        i = i + 1;
        assert(r@ =~= Seq::new(i as nat, |k: int| '•'));
    }
    assert(r@ =~= masked_text(password@));
    r
}

/// What the flow detail reads of a flow's balances.
#[derive(Debug, Clone, Copy, Default)]
pub struct CashFlowInfo {
    /// The cap of the flow, if it has one.
    pub max_balance: Option<i64>,
    /// The income received so far, for flows capped on income.
    pub income_balance: Option<i64>,
    /// The current balance.
    pub balance: i64,
}

/// The cap line of a flow: which total is capped, its value (at least 0) and the cap.
pub open spec fn cap_values_of(detail: CashFlowInfo) -> Option<(Seq<char>, i64, i64)> {
    match detail.max_balance {
        Some(cap) => if cap <= 0 {
            None
        } else {
            match detail.income_balance {
                Some(income) => Some(("Income cap"@, if income < 0 { 0 } else { income }, cap)),
                None => Some(
                    ("Net cap"@, if detail.balance < 0 { 0 } else { detail.balance }, cap),
                ),
            }
        },
        None => None,
    }
}

/// The label, current usage and cap of a capped flow, or nothing when the
/// flow has no positive cap.
pub fn cap_values(detail: &CashFlowInfo) -> (r: Option<(&'static str, i64, i64)>)
    ensures
        r is None <==> cap_values_of(*detail) is None,
        r matches Some(v) ==> (v.0@, v.1, v.2) == cap_values_of(*detail)->0,
{
    let cap = match detail.max_balance {
        Some(c) => c,
        None => return None,
    };
    if cap <= 0 {
        return None;
    }
    let (label, current) = match detail.income_balance {
        Some(income) => ("Income cap", income),
        None => ("Net cap", detail.balance),
    };
    Some((label, if current < 0 { 0 } else { current }, cap))
}

/// Roles of a vault member.
#[derive(Debug, Clone, Copy, PartialEq, Eq, Structural, Default)]
pub enum MembershipRole {
    Owner,
    Editor,
    #[default]
    Viewer,
}

/// The chip text and tone of a member's role.
pub open spec fn role_chip_of(role: MembershipRole) -> (Seq<char>, Tone) {
    match role {
        MembershipRole::Owner => ("OWNER"@, Tone::Accent),
        MembershipRole::Editor => ("EDITOR"@, Tone::Positive),
        MembershipRole::Viewer => ("VIEWER"@, Tone::Muted),
    }
}

/// The chip of a member's role: its name and tone.
pub fn role_chip(role: MembershipRole) -> (r: (&'static str, Tone))
    ensures
        (r.0@, r.1) == role_chip_of(role),
{
    match role {
        MembershipRole::Owner => ("OWNER", Tone::Accent),
        MembershipRole::Editor => ("EDITOR", Tone::Positive),
        MembershipRole::Viewer => ("VIEWER", Tone::Muted),
    }
}

/// A role badge: the label in brackets, in the given tone.
pub fn role_badge(label: &str, tone: Tone) -> (r: Piece)
    ensures
        r@ == (seq!['['] + label@ + seq![']'], Some(tone), false),
{
    let mut text = String::new();
    push_char(&mut text, '[');
    text.append(label);
    push_char(&mut text, ']');
    Piece { text, tone: Some(tone), bold: false }
}

/// The header of a wallet or flow list: the search box while searching or
/// when a query is typed, else the keys of the list.
pub open spec fn search_header_of(search_active: bool, query: Seq<char>, locale: Locale) -> Seq<
    (Seq<char>, Option<Tone>, bool),
> {
    if search_active || query.len() > 0 {
        seq![
            (message(locale, TextKey::SearchLabel), Some(Tone::Muted), false),
            (
                if query.len() == 0 {
                    "..."@
                } else {
                    query
                },
                Some(
                    if search_active {
                        Tone::Accent
                    } else {
                        Tone::Text
                    },
                ),
                false,
            ),
            (message(locale, TextKey::SearchClearShort), Some(Tone::Muted), false),
        ]
    } else {
        seq![
            ("[c]"@, Some(Tone::Accent), false),
            (" create  "@, Some(Tone::Muted), false),
            ("[Ctrl+F]"@, Some(Tone::Accent), false),
            (" search  "@, Some(Tone::Muted), false),
            ("[Enter]"@, Some(Tone::Accent), false),
            (" details"@, Some(Tone::Muted), false),
        ]
    }
}

/// The header pieces of a wallet or flow list.
pub fn render_search_header_spans(search_active: bool, search_query: &str, locale: Locale) -> (r:
    Vec<Piece>)
    ensures
        pieces_view(r@) == search_header_of(search_active, search_query@, locale),
{
    let mut v: Vec<Piece> = Vec::new();
    let empty = search_query.unicode_len() == 0;
    if search_active || !empty {
        v.push(piece(t(locale, TextKey::SearchLabel), Some(Tone::Muted), false));
        let tone = if search_active {
            Tone::Accent
        } else {
            Tone::Text
        };
        v.push(piece(if empty { "..." } else { search_query }, Some(tone), false));
        v.push(piece(t(locale, TextKey::SearchClearShort), Some(Tone::Muted), false));
    } else {
        v.push(piece("[c]", Some(Tone::Accent), false));
        v.push(piece(" create  ", Some(Tone::Muted), false));
        v.push(piece("[Ctrl+F]", Some(Tone::Accent), false));
        v.push(piece(" search  ", Some(Tone::Muted), false));
        v.push(piece("[Enter]", Some(Tone::Accent), false));
        v.push(piece(" details", Some(Tone::Muted), false));
    }
    assert(pieces_view(v@) =~= search_header_of(search_active, search_query@, locale));
    v
}

} // verus!
