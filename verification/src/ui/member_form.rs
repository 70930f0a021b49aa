//! The form that adds or edits a member of the vault.

use super::entities::{role_badge, role_chip, role_chip_of};
use super::settings::run;
use super::state::{AppState, MemberFormField, MembersMode};
use super::{LineView, Piece, Tone, lines_view, piece, pieces_view};
use vstd::prelude::*;

verus! {

/// The look of a label: accented and bold when its field has the focus,
/// muted otherwise.
pub open spec fn label_of(text: Seq<char>, focused: bool) -> (Seq<char>, Option<Tone>, bool) {
    run(text, Some(if focused { Tone::Accent } else { Tone::Muted }), focused)
}

/// The lines of the member form of `state`: the username (`_` while empty
/// and focused) with a cursor when focused; the role's badge with how to
/// change it when focused; and the error after a gap.
pub open spec fn member_form_of(state: AppState) -> Seq<LineView> {
    let f = state.members.form;
    let uf = f.focus == MemberFormField::Username;
    let rf = f.focus == MemberFormField::Role;
    let (role, tone) = role_chip_of(f.role);
    let lines = seq![
        seq![
            label_of("  Username  "@, uf),
            run(if f.username@.len() == 0 && uf { "_"@ } else { f.username@ }, Some(Tone::Text), false),
            if uf { run("_"@, Some(Tone::Accent), false) } else { run(""@, None, false) },
        ],
        seq![
            label_of("  Role      "@, rf),
            run(seq!['['] + role + seq![']'], Some(tone), false),
            if rf { run("  ↑↓ change"@, Some(Tone::Muted), false) } else { run(""@, None, false) },
        ],
    ];
    match f.error {
        Some(e) => lines + seq![
            Seq::empty(),
            seq![run("  ✗ "@, Some(Tone::Negative), false), run(e@, Some(Tone::Negative), false)],
        ],
        None => lines,
    }
}

/// The member form: its title, whether it has the focus, and its lines.
#[derive(Debug, Clone)]
pub struct MemberFormScreen {
    pub title: &'static str,
    pub focused: bool,
    pub lines: Vec<Vec<Piece>>,
}

/// The member form of `state`: titled for adding or editing, focused while
/// the screen is in its form mode; see [`member_form_of`] for the lines.
pub fn member_form(state: &AppState) -> (r: MemberFormScreen)
    ensures
        r.title@ == (if state.members.form.editing { " Edit Member "@ } else { " Add Member "@ }),
        r.focused == (state.members.mode == MembersMode::Form),
        lines_view(r.lines@) == member_form_of(*state),
{
    let f = &state.members.form;
    let uf = f.focus == MemberFormField::Username;
    let rf = f.focus == MemberFormField::Role;
    let mut user: Vec<Piece> = Vec::new();
    user.push(piece("  Username  ", Some(if uf { Tone::Accent } else { Tone::Muted }), uf));
    if f.username.unicode_len() == 0 && uf {
        user.push(piece("_", Some(Tone::Text), false));
    } else {
        user.push(piece(f.username.as_str(), Some(Tone::Text), false));
    }
    if uf {
        user.push(piece("_", Some(Tone::Accent), false));
    } else {
        user.push(piece("", None, false));
    }
    let (role, tone) = role_chip(f.role);
    let mut role_line: Vec<Piece> = Vec::new();
    role_line.push(piece("  Role      ", Some(if rf { Tone::Accent } else { Tone::Muted }), rf));
    role_line.push(role_badge(role, tone));
    if rf {
        role_line.push(piece("  ↑↓ change", Some(Tone::Muted), false));
    } else {
        role_line.push(piece("", None, false));
    }
    let ghost (uv, rv) = (pieces_view(user@), pieces_view(role_line@));
    let mut lines: Vec<Vec<Piece>> = Vec::new();
    lines.push(user);
    lines.push(role_line);
    let ghost want = member_form_of(*state);
    assert(uv =~= want[0]);
    assert(rv =~= want[1]);
    if let Some(e) = &f.error {
        let gap: Vec<Piece> = Vec::new();
        assert(pieces_view(gap@) =~= Seq::<(Seq<char>, Option<Tone>, bool)>::empty());
        let mut err: Vec<Piece> = Vec::new();
        err.push(piece("  ✗ ", Some(Tone::Negative), false));
        err.push(Piece { text: e.clone(), tone: Some(Tone::Negative), bold: false });
        assert(pieces_view(err@) =~= want[3]);
        lines.push(gap);
        lines.push(err);
    }
    assert(lines_view(lines@) =~= want);
    MemberFormScreen {
        title: if f.editing { " Edit Member " } else { " Add Member " },
        focused: state.members.mode == MembersMode::Form,
        lines,
    }
}

} // verus!
