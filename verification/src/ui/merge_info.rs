//! The panel of a category merge: which category goes into which, and what
//! the preview of the merge found.

use super::entities::{merge_conflict_label, merge_conflict_text, merge_pair, merge_pair_of};
use super::settings::run;
use super::state::{AppState, MergeConflict};
use super::{LineView, Piece, Tone, lines_view, piece, pieces_view};
use crate::strings::string_from;
use vstd::prelude::*;

verus! {

/// The line of a conflict: indented behind a bullet.
pub open spec fn conflict_line_of(c: MergeConflict) -> LineView {
    seq![run("    • "@ + merge_conflict_text(c.kind@, c.value@), Some(Tone::Text), false)]
}

/// What the preview says: that the merge can go ahead (and what Enter does
/// next), the conflicts it found, or how to ask for one.
pub open spec fn preview_lines_of(state: AppState) -> Seq<LineView> {
    let m = state.categories.merge;
    match m.preview {
        Some(p) => if p.ok {
            seq![
                seq![
                    run(
                        if m.confirming {
                            "  ✓ Preview OK. Press [Enter] to merge."@
                        } else {
                            "  ✓ Preview OK. Press [Enter] to confirm."@
                        },
                        Some(Tone::Positive),
                        false,
                    ),
                ],
            ]
        } else {
            seq![seq![run("  ⚠ Conflicts:"@, Some(Tone::Negative), false)]] + Seq::new(
                p.conflicts@.len(),
                |i: int| conflict_line_of(p.conflicts@[i]),
            )
        },
        None => seq![
            seq![run("  Select target and press [Enter] for preview"@, Some(Tone::Muted), false)],
        ],
    }
}

/// The lines of the merge panel of `state`: the pair (`-` for each when
/// the picks are out of range), the preview's lines and the keys.
pub open spec fn merge_info_of(state: AppState) -> Seq<LineView> {
    let (from, into) = match merge_pair_of(state) {
        Some(p) => p,
        None => ("-"@, "-"@),
    };
    seq![
        Seq::empty(),
        seq![
            run("  Merge: "@, Some(Tone::Muted), false),
            run(from, Some(Tone::Negative), false),
            run(" → "@, Some(Tone::Muted), false),
            run(into, Some(Tone::Positive), false),
        ],
        Seq::empty(),
    ] + preview_lines_of(state) + seq![
        Seq::empty(),
        seq![
            run("  [Enter]"@, Some(Tone::Accent), false),
            run(" preview/merge  "@, Some(Tone::Muted), false),
            run("[Esc]"@, Some(Tone::Accent), false),
            run(" cancel"@, Some(Tone::Muted), false),
        ],
    ]
}

fn no_pieces() -> (r: Vec<Piece>)
    ensures
        pieces_view(r@) == Seq::<(Seq<char>, Option<Tone>, bool)>::empty(),
{
    let v: Vec<Piece> = Vec::new();
    assert(pieces_view(v@) =~= Seq::<(Seq<char>, Option<Tone>, bool)>::empty());
    v
}

fn one_piece(text: &str, tone: Tone) -> (r: Vec<Piece>)
    ensures
        pieces_view(r@) == seq![run(text@, Some(tone), false)],
{
    let mut v: Vec<Piece> = Vec::new();
    v.push(piece(text, Some(tone), false));
    assert(pieces_view(v@) =~= seq![run(text@, Some(tone), false)]);
    v
}

/// The lines of the merge panel; see [`merge_info_of`].
pub fn merge_info_lines(state: &AppState) -> (r: Vec<Vec<Piece>>)
    ensures
        lines_view(r@) == merge_info_of(*state),
{
    let (from, into) = match merge_pair(state) {
        Some(p) => p,
        None => (string_from("-"), string_from("-")),
    };
    let mut pair: Vec<Piece> = Vec::new();
    pair.push(piece("  Merge: ", Some(Tone::Muted), false));
    pair.push(Piece { text: from, tone: Some(Tone::Negative), bold: false });
    pair.push(piece(" → ", Some(Tone::Muted), false));
    pair.push(Piece { text: into, tone: Some(Tone::Positive), bold: false });
    let ghost pv = pieces_view(pair@);
    let ghost names = match merge_pair_of(*state) {
        Some(p) => p,
        None => ("-"@, "-"@),
    };
    assert(pv =~= seq![
        run("  Merge: "@, Some(Tone::Muted), false),
        run(names.0, Some(Tone::Negative), false),
        run(" → "@, Some(Tone::Muted), false),
        run(names.1, Some(Tone::Positive), false),
    ]);
    let mut lines: Vec<Vec<Piece>> = Vec::new();
    lines.push(no_pieces());
    lines.push(pair);
    lines.push(no_pieces());
    let ghost top = lines_view(lines@);
    let m = &state.categories.merge;
    let ghost want_preview = preview_lines_of(*state);
    match &m.preview {
        Some(p) => {
            if p.ok {
                lines.push(one_piece(
                    if m.confirming {
                        "  ✓ Preview OK. Press [Enter] to merge."
                    } else {
                        "  ✓ Preview OK. Press [Enter] to confirm."
                    },
                    Tone::Positive,
                ));
                assert(lines_view(lines@) =~= top + want_preview);
            } else {
                lines.push(one_piece("  ⚠ Conflicts:", Tone::Negative));
                let mut i: usize = 0;
                while i < p.conflicts.len()
                    invariant
                        i <= p.conflicts@.len(),
                        want_preview == seq![seq![run("  ⚠ Conflicts:"@, Some(Tone::Negative), false)]] + Seq::new(
                            p.conflicts@.len(),
                            |i: int| conflict_line_of(p.conflicts@[i]),
                        ),
                        lines_view(lines@) == top + want_preview.take(i + 1),
                    decreases p.conflicts.len() - i,
                {
                    let mut text = string_from("    • ");
                    let label = merge_conflict_label(p.conflicts[i].kind.as_str(), p.conflicts[i].value.as_str());
                    text.append(label.as_str());
                    let mut line: Vec<Piece> = Vec::new();
                    line.push(Piece { text, tone: Some(Tone::Text), bold: false });
                    let ghost before = lines_view(lines@);
                    assert(pieces_view(line@) =~= want_preview[i + 1]);
                    lines.push(line);
                    assert(lines_view(lines@) =~= before.push(want_preview[i + 1]));
                    assert(want_preview.take(i + 2) =~= want_preview.take(i + 1).push(want_preview[i + 1]));
                    i = i + 1;
                }
                assert(want_preview.take(p.conflicts@.len() as int + 1) =~= want_preview);
            }
        },
        None => {
            lines.push(one_piece("  Select target and press [Enter] for preview", Tone::Muted));
            assert(lines_view(lines@) =~= top + want_preview);
        },
    }
    let ghost mid = lines_view(lines@);
    assert(mid == top + want_preview);
    let mut keys: Vec<Piece> = Vec::new();
    keys.push(piece("  [Enter]", Some(Tone::Accent), false));
    keys.push(piece(" preview/merge  ", Some(Tone::Muted), false));
    keys.push(piece("[Esc]", Some(Tone::Accent), false));
    keys.push(piece(" cancel", Some(Tone::Muted), false));
    let ghost kv = pieces_view(keys@);
    lines.push(no_pieces());
    lines.push(keys);
    proof {
        reveal_strlit("-");
        let want = merge_info_of(*state);
        let keys_line = seq![
            run("  [Enter]"@, Some(Tone::Accent), false),
            run(" preview/merge  "@, Some(Tone::Muted), false),
            run("[Esc]"@, Some(Tone::Accent), false),
            run(" cancel"@, Some(Tone::Muted), false),
        ];
        assert(kv =~= keys_line);
        assert(lines_view(lines@) =~= mid + seq![Seq::empty(), keys_line]);
        assert(lines_view(lines@) =~= want);
    }
    lines
}

} // verus!
