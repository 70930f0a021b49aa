//! The list of the aliases of the selected category.

use super::settings::run;
use super::state::{AliasFocus, AppState};
use super::{LineView, Piece, Tone, lines_view, piece, pieces_view};
use crate::strings::string_from;
use vstd::prelude::*;

verus! {

/// The name of the selected category, or `?`.
pub open spec fn selected_category_of(state: AppState) -> Seq<char> {
    let items = state.categories.items@;
    let i = state.categories.selected;
    if i < items.len() {
        items[i as int].name@
    } else {
        "?"@
    }
}

/// The empty alias list: there is none, and how to add one.
pub open spec fn no_aliases_lines() -> Seq<LineView> {
    seq![
        Seq::empty(),
        seq![run("No aliases for this category"@, Some(Tone::Muted), false)],
        Seq::empty(),
        seq![run("Type in the input below to add one"@, Some(Tone::Muted), false)],
    ]
}

/// The row of an alias: indented, in the text tone.
pub open spec fn alias_row_of(alias: Seq<char>) -> LineView {
    seq![run("  "@, None, false), run(alias, Some(Tone::Text), false)]
}

/// What the alias list shows.
#[derive(Debug, Clone)]
pub enum AliasBody {
    /// No alias: the empty state.
    Empty(Vec<Vec<Piece>>),
    /// A row per alias, and the highlighted one.
    Rows { rows: Vec<Vec<Piece>>, highlighted: usize },
}

/// The alias list: its title, whether its border is accented (the list has
/// the focus) and its body.
#[derive(Debug, Clone)]
pub struct AliasList {
    pub title: String,
    pub focused: bool,
    pub body: AliasBody,
}

fn no_pieces() -> (r: Vec<Piece>)
    ensures
        pieces_view(r@) == Seq::<(Seq<char>, Option<Tone>, bool)>::empty(),
{
    let v: Vec<Piece> = Vec::new();
    assert(pieces_view(v@) =~= Seq::<(Seq<char>, Option<Tone>, bool)>::empty());
    v
}

/// The alias list of the selected category, titled `Aliases for` and its
/// name (`?` when none is selected): the empty state without aliases, else
/// a row per alias with the selected one highlighted, or the last when the
/// selection is past the end.
pub fn alias_list(state: &AppState) -> (r: AliasList)
    ensures
        r.title@ == " Aliases for "@ + selected_category_of(*state) + " "@,
        r.focused == (state.categories.aliases.focus == AliasFocus::List),
        state.categories.aliases.items@.len() == 0 ==> (r.body matches AliasBody::Empty(l) && lines_view(l@)
            == no_aliases_lines()),
        state.categories.aliases.items@.len() > 0 ==> (r.body matches AliasBody::Rows { rows, highlighted } && {
            let items = state.categories.aliases.items@;
            &&& lines_view(rows@) == Seq::new(items.len(), |i: int| alias_row_of(items[i]@))
            &&& highlighted == (if state.categories.aliases.selected < items.len() {
                state.categories.aliases.selected as int
            } else {
                items.len() - 1
            })
        }),
{
    let c = &state.categories;
    let mut title = string_from(" Aliases for ");
    if c.selected < c.items.len() {
        title.append(c.items[c.selected].name.as_str());
    } else {
        title.append("?");
    }
    title.append(" ");
    let focused = c.aliases.focus == AliasFocus::List;
    let items = &c.aliases.items;
    if items.len() == 0 {
        let mut a: Vec<Piece> = Vec::new();
        a.push(piece("No aliases for this category", Some(Tone::Muted), false));
        let mut b: Vec<Piece> = Vec::new();
        b.push(piece("Type in the input below to add one", Some(Tone::Muted), false));
        let ghost (av, bv) = (pieces_view(a@), pieces_view(b@));
        let mut lines: Vec<Vec<Piece>> = Vec::new();
        lines.push(no_pieces());
        lines.push(a);
        lines.push(no_pieces());
        lines.push(b);
        assert(av =~= seq![run("No aliases for this category"@, Some(Tone::Muted), false)]);
        assert(bv =~= seq![run("Type in the input below to add one"@, Some(Tone::Muted), false)]);
        assert(lines_view(lines@) =~= no_aliases_lines());
        return AliasList { title, focused, body: AliasBody::Empty(lines) };
    }
    let ghost want = Seq::new(items@.len(), |i: int| alias_row_of(items@[i]@));
    let mut rows: Vec<Vec<Piece>> = Vec::new();
    let mut i: usize = 0;
    while i < items.len()
        invariant
            i <= items@.len(),
            want == Seq::new(items@.len(), |i: int| alias_row_of(items@[i]@)),
            lines_view(rows@) == want.take(i as int),
        decreases items.len() - i,
    {
        let mut row: Vec<Piece> = Vec::new();
        row.push(piece("  ", None, false));
        row.push(Piece { text: items[i].clone(), tone: Some(Tone::Text), bold: false });
        let ghost before = lines_view(rows@);
        assert(pieces_view(row@) =~= want[i as int]);
        rows.push(row);
        assert(lines_view(rows@) =~= before.push(want[i as int]));
        assert(want.take(i + 1) =~= want.take(i as int).push(want[i as int]));
        i = i + 1;
    }
    assert(want.take(items@.len() as int) =~= want);
    let highlighted = if c.aliases.selected < items.len() { c.aliases.selected } else { items.len() - 1 };
    AliasList { title, focused, body: AliasBody::Rows { rows, highlighted } }
}

} // verus!
