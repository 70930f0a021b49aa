//! The lines of the preferences screen.

use super::state::{AppState, Density, PreferencesField};
use super::{Piece, Tone, lines_view, piece, pieces_view};
use crate::strings::string_from;
use vstd::prelude::*;

verus! {

/// A styled run, as a value.
pub open spec fn run(text: Seq<char>, tone: Option<Tone>, bold: bool) -> (Seq<char>, Option<Tone>, bool) {
    (text, tone, bold)
}

/// The name of a density.
pub open spec fn density_label_of(d: Density) -> Seq<char> {
    match d {
        Density::Compact => "Compact"@,
        Density::Normal => "Normal"@,
        Density::Comfortable => "Comfortable"@,
    }
}

/// The look of a field's label: accented and bold when focused.
pub open spec fn label_look(focused: bool) -> (Option<Tone>, bool) {
    if focused {
        (Some(Tone::Accent), true)
    } else {
        (Some(Tone::Muted), false)
    }
}

/// One density option: bracketed when it is the chosen one, then the gap
/// to the next option.
pub open spec fn density_option(d: Density, chosen: Density, focused: bool, last: bool) -> Seq<
    (Seq<char>, Option<Tone>, bool),
> {
    let sel = d == chosen;
    let look: (Option<Tone>, bool) = if sel {
        (Some(Tone::Accent), focused)
    } else {
        (Some(Tone::Muted), false)
    };
    seq![
        run(if sel { "["@ } else { " "@ }, look.0, look.1),
        run(density_label_of(d), look.0, look.1),
        run(if sel { "]"@ } else { " "@ }, look.0, look.1),
        run(if last { ""@ } else { "  "@ }, None, false),
    ]
}

/// The lines of the preferences screen: the emoji mode and its preview,
/// the density and its options, the preview of both, and the keys.
pub open spec fn preferences_lines_of(state: AppState) -> Seq<Seq<(Seq<char>, Option<Tone>, bool)>> {
    let emoji_focused = state.preferences.focus == PreferencesField::EmojiMode;
    let density_focused = state.preferences.focus == PreferencesField::Density;
    let emoji_value = if state.emoji_mode { "On"@ } else { "Off"@ };
    let emoji_preview = if state.emoji_mode {
        "\u{1F4B0} \u{1F4B8} \u{1F3F7}\u{FE0F} \u{1F4E6}"@
    } else {
        "EUR $ # []"@
    };
    let preview_title = if state.emoji_mode { "\u{1F4CB} Preview"@ } else { "Preview"@ };
    let el = label_look(emoji_focused);
    let dl = label_look(density_focused);
    seq![
        seq![
            run("  Emoji Mode"@, el.0, el.1),
            if emoji_focused {
                run("  [Space] toggle"@, Some(Tone::Muted), false)
            } else {
                run(""@, None, false)
            },
        ],
        seq![
            run("    "@, None, false),
            run(emoji_value, Some(Tone::Text), emoji_focused),
            run("  "@, None, false),
            run(emoji_preview, Some(Tone::Muted), false),
        ],
        seq![
            run("  Density"@, dl.0, dl.1),
            if density_focused {
                run("  [Space/Enter] cycle  [\u{2190}\u{2192}] change"@, Some(Tone::Muted), false)
            } else {
                run(""@, None, false)
            },
        ],
        seq![run("    "@, None, false)] + density_option(Density::Compact, state.density, density_focused, false)
            + density_option(Density::Normal, state.density, density_focused, false)
            + density_option(Density::Comfortable, state.density, density_focused, true),
        seq![run("  "@ + preview_title, Some(Tone::Info), true)],
        seq![
            run("    "@, None, false),
            run(
                "Density: "@ + density_label_of(state.density) + " | Emoji: "@ + emoji_value,
                Some(Tone::Muted),
                false,
            ),
        ],
        seq![
            run("[Tab/\u{2191}\u{2193}]"@, Some(Tone::Accent), false),
            run(" navigate  "@, Some(Tone::Muted), false),
            run("[Space]"@, Some(Tone::Accent), false),
            run(" toggle/cycle  "@, Some(Tone::Muted), false),
            run("[Esc]"@, Some(Tone::Accent), false),
            run(" back"@, Some(Tone::Muted), false),
        ],
    ]
}

fn density_label(d: Density) -> (r: &'static str)
    ensures
        r@ == density_label_of(d),
{
    match d {
        Density::Compact => "Compact",
        Density::Normal => "Normal",
        Density::Comfortable => "Comfortable",
    }
}

fn push_density_option(line: &mut Vec<Piece>, d: Density, chosen: Density, focused: bool, last: bool)
    ensures
        pieces_view(final(line)@) == pieces_view(old(line)@) + density_option(d, chosen, focused, last),
{
    let sel = d == chosen;
    let (tone, bold) = if sel {
        (Some(Tone::Accent), focused)
    } else {
        (Some(Tone::Muted), false)
    };
    let ghost before = pieces_view(line@);
    line.push(piece(if sel { "[" } else { " " }, tone, bold));
    line.push(piece(density_label(d), tone, bold));
    line.push(piece(if sel { "]" } else { " " }, tone, bold));
    line.push(piece(if last { "" } else { "  " }, None, false));
    assert(pieces_view(line@) =~= before + density_option(d, chosen, focused, last));
}

/// The lines of the preferences screen.
pub fn preferences_lines(state: &AppState) -> (r: Vec<Vec<Piece>>)
    ensures
        lines_view(r@) == preferences_lines_of(*state),
{
    let emoji_focused = state.preferences.focus == PreferencesField::EmojiMode;
    let density_focused = state.preferences.focus == PreferencesField::Density;
    let emoji_value = if state.emoji_mode { "On" } else { "Off" };
    let emoji_preview = if state.emoji_mode {
        "\u{1F4B0} \u{1F4B8} \u{1F3F7}\u{FE0F} \u{1F4E6}"
    } else {
        "EUR $ # []"
    };
    let preview_title = if state.emoji_mode { "\u{1F4CB} Preview" } else { "Preview" };
    let (et, eb) = if emoji_focused { (Some(Tone::Accent), true) } else { (Some(Tone::Muted), false) };
    let (dt, db) = if density_focused { (Some(Tone::Accent), true) } else { (Some(Tone::Muted), false) };
    let want = Ghost(preferences_lines_of(*state));

    let mut l0: Vec<Piece> = Vec::new();
    l0.push(piece("  Emoji Mode", et, eb));
    if emoji_focused {
        l0.push(piece("  [Space] toggle", Some(Tone::Muted), false));
    } else {
        l0.push(piece("", None, false));
    }
    assert(pieces_view(l0@) =~= want@[0]);

    let mut l1: Vec<Piece> = Vec::new();
    l1.push(piece("    ", None, false));
    l1.push(piece(emoji_value, Some(Tone::Text), emoji_focused));
    l1.push(piece("  ", None, false));
    l1.push(piece(emoji_preview, Some(Tone::Muted), false));
    assert(pieces_view(l1@) =~= want@[1]);

    let mut l2: Vec<Piece> = Vec::new();
    l2.push(piece("  Density", dt, db));
    if density_focused {
        l2.push(piece("  [Space/Enter] cycle  [\u{2190}\u{2192}] change", Some(Tone::Muted), false));
    } else {
        l2.push(piece("", None, false));
    }
    assert(pieces_view(l2@) =~= want@[2]);

    let mut l3: Vec<Piece> = Vec::new();
    l3.push(piece("    ", None, false));
    assert(pieces_view(l3@) =~= seq![run("    "@, None, false)]);
    push_density_option(&mut l3, Density::Compact, state.density, density_focused, false);
    push_density_option(&mut l3, Density::Normal, state.density, density_focused, false);
    push_density_option(&mut l3, Density::Comfortable, state.density, density_focused, true);
    assert(pieces_view(l3@) =~= want@[3]);

    let mut title = string_from("  ");
    title.append(preview_title);
    let mut l4: Vec<Piece> = Vec::new();
    l4.push(Piece { text: title, tone: Some(Tone::Info), bold: true });
    assert(pieces_view(l4@) =~= want@[4]);

    let mut summary = string_from("Density: ");
    summary.append(density_label(state.density));
    summary.append(" | Emoji: ");
    summary.append(emoji_value);
    let mut l5: Vec<Piece> = Vec::new();
    l5.push(piece("    ", None, false));
    l5.push(Piece { text: summary, tone: Some(Tone::Muted), bold: false });
    assert(pieces_view(l5@) =~= want@[5]);

    let mut l6: Vec<Piece> = Vec::new();
    l6.push(piece("[Tab/\u{2191}\u{2193}]", Some(Tone::Accent), false));
    l6.push(piece(" navigate  ", Some(Tone::Muted), false));
    l6.push(piece("[Space]", Some(Tone::Accent), false));
    l6.push(piece(" toggle/cycle  ", Some(Tone::Muted), false));
    l6.push(piece("[Esc]", Some(Tone::Accent), false));
    l6.push(piece(" back", Some(Tone::Muted), false));
    assert(pieces_view(l6@) =~= want@[6]);

    let mut lines: Vec<Vec<Piece>> = Vec::new();
    lines.push(l0);
    lines.push(l1);
    lines.push(l2);
    lines.push(l3);
    lines.push(l4);
    lines.push(l5);
    lines.push(l6);
    assert(lines_view(lines@) =~= want@);
    lines
}

} // verus!
