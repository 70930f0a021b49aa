//! The shared list screen of wallets and flows: the totals line, the footer
//! with the search and the archived filter, the rows of the entities and the
//! empty state.

use super::entities::{render_search_header_spans, search_header_of};
use super::settings::run;
use super::{LineView, Piece, Tone, lines_view, piece, pieces_view};
use crate::strings::{decimal, pad_left, pad_right, padded_left, padded_right, push_decimal, string_from};
use crate::text::{Locale, TextKey, message, t};
use vstd::prelude::*;

verus! {


/// An entity of the list: its name, balance, whether it is archived, the
/// badges shown after its bar and its emoji.
#[derive(Debug, Clone)]
pub struct EntityItem {
    pub name: String,
    pub balance_minor: i64,
    pub archived: bool,
    pub badges: Vec<(&'static str, Tone)>,
    pub emoji: &'static str,
}

/// The tone of a balance: positive from zero up.
pub open spec fn balance_tone(balance: int) -> Tone {
    if balance >= 0 {
        Tone::Positive
    } else {
        Tone::Negative
    }
}

/// The totals line: the label, the written total in the tone of its sign,
/// the count of entities and, when some are archived, their count.
pub open spec fn stats_line_of(
    label: Seq<char>,
    total_text: Seq<char>,
    total: int,
    count: nat,
    entity_label: Seq<char>,
    archived_count: nat,
    locale: Locale,
) -> LineView {
    seq![
        run(" "@ + label + " "@, Some(Tone::Muted), false),
        run(total_text, Some(balance_tone(total)), true),
        run(" ("@ + decimal(count) + " "@ + entity_label + ")"@, Some(Tone::Muted), false),
    ] + if archived_count > 0 {
        seq![
            run("  │  "@, Some(Tone::Border), false),
            run(message(locale, TextKey::EntityArchivedCount) + decimal(archived_count), Some(Tone::Warning), false),
        ]
    } else {
        Seq::empty()
    }
}

/// The totals line of the entity list.
pub fn entity_stats_line(
    label: &str,
    total_text: &str,
    total: i64,
    count: usize,
    entity_label: &str,
    archived_count: usize,
    locale: Locale,
) -> (r: Vec<Piece>)
    ensures
        pieces_view(r@) == stats_line_of(
            label@,
            total_text@,
            total as int,
            count as nat,
            entity_label@,
            archived_count as nat,
            locale,
        ),
{
    let mut head = string_from(" ");
    head.append(label);
    head.append(" ");
    let mut counted = string_from(" (");
    push_decimal(&mut counted, count as u64);
    counted.append(" ");
    counted.append(entity_label);
    counted.append(")");
    let mut v: Vec<Piece> = Vec::new();
    v.push(Piece { text: head, tone: Some(Tone::Muted), bold: false });
    v.push(piece(total_text, Some(if total >= 0 { Tone::Positive } else { Tone::Negative }), true));
    v.push(Piece { text: counted, tone: Some(Tone::Muted), bold: false });
    let ghost first = pieces_view(v@);
    if archived_count > 0 {
        let mut archived = string_from(t(locale, TextKey::EntityArchivedCount));
        push_decimal(&mut archived, archived_count as u64);
        v.push(piece("  │  ", Some(Tone::Border), false));
        v.push(Piece { text: archived, tone: Some(Tone::Warning), bold: false });
    }
    assert(pieces_view(v@) =~= stats_line_of(
        label@,
        total_text@,
        total as int,
        count as nat,
        entity_label@,
        archived_count as nat,
        locale,
    ));
    v
}

/// The footer of the list: the search, then a note when archived entities
/// are shown.
pub open spec fn footer_of(search_active: bool, query: Seq<char>, show_archived: bool, locale: Locale) -> LineView {
    search_header_of(search_active, query, locale) + if show_archived {
        seq![
            run("  "@, None, false),
            run(message(locale, TextKey::EntityArchivedOn), Some(Tone::Warning), false),
        ]
    } else {
        Seq::empty()
    }
}

/// The footer of the entity list.
pub fn entity_list_footer(search_active: bool, query: &str, show_archived: bool, locale: Locale) -> (r: Vec<Piece>)
    ensures
        pieces_view(r@) == footer_of(search_active, query@, show_archived, locale),
{
    let mut v = render_search_header_spans(search_active, query, locale);
    let ghost before = pieces_view(v@);
    if show_archived {
        v.push(piece("  ", None, false));
        v.push(piece(t(locale, TextKey::EntityArchivedOn), Some(Tone::Warning), false));
    }
    assert(pieces_view(v@) =~= before + if show_archived {
        seq![
            run("  "@, None, false),
            run(message(locale, TextKey::EntityArchivedOn), Some(Tone::Warning), false),
        ]
    } else {
        Seq::<(Seq<char>, Option<Tone>, bool)>::empty()
    });
    v
}

/// Each badge after two spaces, in its tone.
pub open spec fn badges_of(b: Seq<(&'static str, Tone)>) -> LineView
    decreases b.len(),
{
    if b.len() == 0 {
        Seq::empty()
    } else {
        badges_of(b.drop_last()) + seq![run("  "@, None, false), run(b.last().0@, Some(b.last().1), false)]
    }
}

/// Each key, in the accent, followed by its label, muted.
pub open spec fn key_pairs_of(h: Seq<(&'static str, &'static str)>) -> LineView
    decreases h.len(),
{
    if h.len() == 0 {
        Seq::empty()
    } else {
        key_pairs_of(h.drop_last()) + seq![
            run(h.last().0@, Some(Tone::Accent), false),
            run(h.last().1@, Some(Tone::Muted), false),
        ]
    }
}

/// The line of an entity: its emoji, its name padded to 16 columns (muted
/// when archived), its written balance right-aligned in 12 columns in the
/// tone of its sign, its bar, its badges and the archived badge.
pub open spec fn item_line_of(item: EntityItem, amount: Seq<char>, bar: Seq<char>, locale: Locale) -> LineView {
    seq![
        run("  "@ + item.emoji@ + " "@, None, false),
        run(pad_right(item.name@, 16), Some(if item.archived { Tone::Muted } else { Tone::Text }), false),
        run(pad_left(amount, 12), Some(balance_tone(item.balance_minor as int)), false),
        run("  "@, None, false),
        run(bar, Some(Tone::Accent), false),
    ] + badges_of(item.badges@) + if item.archived {
        seq![
            run("  "@, None, false),
            run(message(locale, TextKey::EntityBadgeArchived), Some(Tone::Warning), false),
        ]
    } else {
        Seq::empty()
    }
}

/// The lines of an entity: its line, and under the selected one while the
/// list has the focus, the action hints.
pub open spec fn item_lines_of(
    item: EntityItem,
    amount: Seq<char>,
    bar: Seq<char>,
    with_hints: bool,
    hints: Seq<(&'static str, &'static str)>,
    locale: Locale,
) -> Seq<LineView> {
    if with_hints {
        seq![item_line_of(item, amount, bar, locale), seq![run("     "@, None, false)] + key_pairs_of(hints)]
    } else {
        seq![item_line_of(item, amount, bar, locale)]
    }
}

fn push_key_pairs(v: &mut Vec<Piece>, hints: &[(&'static str, &'static str)])
    ensures
        pieces_view(final(v)@) == pieces_view(old(v)@) + key_pairs_of(hints@),
{
    let ghost start = pieces_view(v@);
    let mut i: usize = 0;
    while i < hints.len()
        invariant
            i <= hints.len(),
            pieces_view(v@) == start + key_pairs_of(hints@.take(i as int)),
        decreases hints.len() - i,
    {
        let ghost before = pieces_view(v@);
        let (key, label) = hints[i];
        v.push(piece(key, Some(Tone::Accent), false));
        v.push(piece(label, Some(Tone::Muted), false));
        assert(hints@.take(i + 1).drop_last() =~= hints@.take(i as int));
        assert(pieces_view(v@) =~= before + seq![
            run(key@, Some(Tone::Accent), false),
            run(label@, Some(Tone::Muted), false),
        ]);
        i = i + 1;
    }
    assert(hints@.take(hints.len() as int) =~= hints@);
}

fn push_badges(v: &mut Vec<Piece>, badges: &Vec<(&'static str, Tone)>)
    ensures
        pieces_view(final(v)@) == pieces_view(old(v)@) + badges_of(badges@),
{
    let ghost start = pieces_view(v@);
    let mut i: usize = 0;
    while i < badges.len()
        invariant
            i <= badges.len(),
            pieces_view(v@) == start + badges_of(badges@.take(i as int)),
        decreases badges.len() - i,
    {
        let ghost before = pieces_view(v@);
        let (text, tone) = badges[i];
        v.push(piece("  ", None, false));
        v.push(piece(text, Some(tone), false));
        assert(badges@.take(i + 1).drop_last() =~= badges@.take(i as int));
        assert(pieces_view(v@) =~= before + seq![run("  "@, None, false), run(text@, Some(tone), false)]);
        i = i + 1;
    }
    assert(badges@.take(badges.len() as int) =~= badges@);
}

/// The lines of an entity of the list; `amount` is its written balance and
/// `bar` its drawn share of the largest balance.
pub fn entity_item_lines(
    item: &EntityItem,
    amount: &str,
    bar: &str,
    with_hints: bool,
    hints: &[(&'static str, &'static str)],
    locale: Locale,
) -> (r: Vec<Vec<Piece>>)
    ensures
        lines_view(r@) == item_lines_of(*item, amount@, bar@, with_hints, hints@, locale),
{
    let mut head = string_from("  ");
    head.append(item.emoji);
    head.append(" ");
    let mut line: Vec<Piece> = Vec::new();
    line.push(Piece { text: head, tone: None, bold: false });
    line.push(Piece {
        text: padded_right(item.name.as_str(), 16),
        tone: Some(if item.archived { Tone::Muted } else { Tone::Text }),
        bold: false,
    });
    line.push(Piece {
        text: padded_left(amount, 12),
        tone: Some(if item.balance_minor >= 0 { Tone::Positive } else { Tone::Negative }),
        bold: false,
    });
    line.push(piece("  ", None, false));
    line.push(piece(bar, Some(Tone::Accent), false));
    let ghost a = pieces_view(line@);
    push_badges(&mut line, &item.badges);
    let ghost b = pieces_view(line@);
    if item.archived {
        line.push(piece("  ", None, false));
        line.push(piece(t(locale, TextKey::EntityBadgeArchived), Some(Tone::Warning), false));
    }
    assert(a =~= seq![
        run("  "@ + item.emoji@ + " "@, None, false),
        run(pad_right(item.name@, 16), Some(if item.archived { Tone::Muted } else { Tone::Text }), false),
        run(pad_left(amount@, 12), Some(balance_tone(item.balance_minor as int)), false),
        run("  "@, None, false),
        run(bar@, Some(Tone::Accent), false),
    ]);
    assert(pieces_view(line@) =~= b + if item.archived {
        seq![
            run("  "@, None, false),
            run(message(locale, TextKey::EntityBadgeArchived), Some(Tone::Warning), false),
        ]
    } else {
        Seq::<(Seq<char>, Option<Tone>, bool)>::empty()
    });
    assert(pieces_view(line@) =~= item_line_of(*item, amount@, bar@, locale));
    let mut lines: Vec<Vec<Piece>> = Vec::new();
    let ghost lv = pieces_view(line@);
    lines.push(line);
    if with_hints {
        let mut h: Vec<Piece> = Vec::new();
        h.push(piece("     ", None, false));
        let ghost h0 = pieces_view(h@);
        assert(h0 =~= seq![run("     "@, None, false)]);
        push_key_pairs(&mut h, hints);
        let ghost hv = pieces_view(h@);
        lines.push(h);
        assert(lines_view(lines@) =~= seq![lv, hv]);
    } else {
        assert(lines_view(lines@) =~= seq![lv]);
    }
    lines
}

/// Each description line, muted.
pub open spec fn desc_lines_of(d: Seq<&'static str>) -> Seq<LineView> {
    Seq::new(d.len(), |i: int| seq![run(d[i]@, Some(Tone::Muted), false)])
}

/// The empty entity list: no results for the query when there is one,
/// else the welcome title, its description and the keys to create one.
pub open spec fn empty_lines_of(
    query: Seq<char>,
    title: Seq<char>,
    desc: Seq<&'static str>,
    hints: Seq<(&'static str, &'static str)>,
    locale: Locale,
) -> Seq<LineView> {
    if query.len() > 0 {
        seq![
            Seq::empty(),
            seq![
                run(message(locale, TextKey::SearchNoResults), None, false),
                run(seq!['"'] + query + seq!['"'], Some(Tone::Accent), false),
            ],
            Seq::empty(),
            seq![run(message(locale, TextKey::SearchClearHint), Some(Tone::Muted), false)],
        ]
    } else {
        seq![Seq::empty(), seq![run(title, Some(Tone::Accent), true)], Seq::empty()] + desc_lines_of(desc)
            + seq![Seq::empty(), key_pairs_of(hints)]
    }
}

fn no_pieces() -> (r: Vec<Piece>)
    ensures
        pieces_view(r@) == Seq::<(Seq<char>, Option<Tone>, bool)>::empty(),
{
    let v: Vec<Piece> = Vec::new();
    assert(pieces_view(v@) =~= Seq::<(Seq<char>, Option<Tone>, bool)>::empty());
    v
}

/// The lines of the empty entity list.
pub fn entity_empty_lines(
    query: &str,
    title: &str,
    desc: &[&'static str],
    hints: &[(&'static str, &'static str)],
    locale: Locale,
) -> (r: Vec<Vec<Piece>>)
    ensures
        lines_view(r@) == empty_lines_of(query@, title@, desc@, hints@, locale),
{
    let mut lines: Vec<Vec<Piece>> = Vec::new();
    let ghost empty_line = Seq::<(Seq<char>, Option<Tone>, bool)>::empty();
    if query.unicode_len() > 0 {
        let mut quoted = string_from("\"");
        quoted.append(query);
        quoted.append("\"");
        proof {
            reveal_strlit("\"");
        }
        assert(quoted@ =~= seq!['"'] + query@ + seq!['"']);
        let mut second: Vec<Piece> = Vec::new();
        second.push(piece(t(locale, TextKey::SearchNoResults), None, false));
        second.push(Piece { text: quoted, tone: Some(Tone::Accent), bold: false });
        let mut fourth: Vec<Piece> = Vec::new();
        fourth.push(piece(t(locale, TextKey::SearchClearHint), Some(Tone::Muted), false));
        let ghost sv = pieces_view(second@);
        let ghost fv = pieces_view(fourth@);
        lines.push(no_pieces());
        lines.push(second);
        lines.push(no_pieces());
        lines.push(fourth);
        assert(lines_view(lines@) =~= seq![empty_line, sv, empty_line, fv]);
        assert(sv =~= seq![
            run(message(locale, TextKey::SearchNoResults), None, false),
            run(seq!['"'] + query@ + seq!['"'], Some(Tone::Accent), false),
        ]);
        assert(fv =~= seq![run(message(locale, TextKey::SearchClearHint), Some(Tone::Muted), false)]);
        assert(lines_view(lines@) =~= empty_lines_of(query@, title@, desc@, hints@, locale));
    } else {
        let mut head: Vec<Piece> = Vec::new();
        head.push(piece(title, Some(Tone::Accent), true));
        let ghost hv = pieces_view(head@);
        assert(hv =~= seq![run(title@, Some(Tone::Accent), true)]);
        lines.push(no_pieces());
        lines.push(head);
        lines.push(no_pieces());
        let ghost top = seq![empty_line, hv, empty_line];
        assert(lines_view(lines@) =~= top);
        let mut i: usize = 0;
        while i < desc.len()
            invariant
                i <= desc.len(),
                lines_view(lines@) == top + desc_lines_of(desc@.take(i as int)),
            decreases desc.len() - i,
        {
            let ghost before = lines_view(lines@);
            let mut l: Vec<Piece> = Vec::new();
            l.push(piece(desc[i], Some(Tone::Muted), false));
            let ghost lv = pieces_view(l@);
            assert(lv =~= seq![run(desc@.take(i + 1)[i as int]@, Some(Tone::Muted), false)]);
            lines.push(l);
            assert(lines_view(lines@) =~= before.push(lv));
            assert(desc_lines_of(desc@.take(i + 1)) =~= desc_lines_of(desc@.take(i as int)).push(lv));
            i = i + 1;
        }
        assert(desc@.take(desc.len() as int) =~= desc@);
        let ghost mid = lines_view(lines@);
        let mut keys: Vec<Piece> = Vec::new();
        push_key_pairs(&mut keys, hints);
        let ghost kv = pieces_view(keys@);
        lines.push(no_pieces());
        lines.push(keys);
        assert(kv =~= Seq::<(Seq<char>, Option<Tone>, bool)>::empty() + key_pairs_of(hints@));
        assert(lines_view(lines@) =~= mid + seq![empty_line, kv]);
        assert(lines_view(lines@) =~= empty_lines_of(query@, title@, desc@, hints@, locale));
    }
    lines
}

/// What the entity list shows under its header.
#[derive(Debug, Clone)]
pub enum EntityListBody {
    /// No snapshot yet: the loading message.
    Loading(&'static str),
    /// No entity to show: the empty state.
    Empty(Vec<Vec<Piece>>),
    /// The lines of each entity, and the highlighted one.
    Items { rows: Vec<Vec<Vec<Piece>>>, highlighted: usize },
}

/// The body of the entity list: loading without a snapshot, the empty state
/// without entities, else the lines of each entity (the hints under the one
/// at `selected` while the list has the focus) with `selected` highlighted,
/// or the last entity when `selected` is past the end. `amounts` and `bars`
/// hold the written balance and the bar of each entity.
pub fn entity_list_body(
    has_snapshot: bool,
    items: &[EntityItem],
    amounts: &[String],
    bars: &[String],
    selected: usize,
    list_mode: bool,
    hints: &[(&'static str, &'static str)],
    query: &str,
    title: &str,
    desc: &[&'static str],
    welcome_hints: &[(&'static str, &'static str)],
    locale: Locale,
) -> (r: EntityListBody)
    requires
        amounts@.len() == items@.len(),
        bars@.len() == items@.len(),
    ensures
        !has_snapshot ==> (r matches EntityListBody::Loading(m) && m@ == message(locale, TextKey::LoadingGeneric)),
        has_snapshot && items@.len() == 0 ==> (r matches EntityListBody::Empty(l) && lines_view(l@)
            == empty_lines_of(query@, title@, desc@, welcome_hints@, locale)),
        has_snapshot && items@.len() > 0 ==> (r matches EntityListBody::Items { rows, highlighted } && {
            &&& rows@.len() == items@.len()
            &&& forall|i: int|
                0 <= i < items@.len() ==> lines_view(#[trigger] rows@[i]@) == item_lines_of(
                    items@[i],
                    amounts@[i]@,
                    bars@[i]@,
                    i == selected && list_mode,
                    hints@,
                    locale,
                )
            &&& highlighted == (if selected < items@.len() { selected as int } else { items@.len() - 1 })
        }),
{
    if !has_snapshot {
        return EntityListBody::Loading(t(locale, TextKey::LoadingGeneric));
    }
    if items.len() == 0 {
        return EntityListBody::Empty(entity_empty_lines(query, title, desc, welcome_hints, locale));
    }
    let mut rows: Vec<Vec<Vec<Piece>>> = Vec::new();
    let mut i: usize = 0;
    while i < items.len()
        invariant
            i <= items@.len(),
            amounts@.len() == items@.len(),
            bars@.len() == items@.len(),
            rows@.len() == i,
            forall|k: int|
                0 <= k < i ==> lines_view(#[trigger] rows@[k]@) == item_lines_of(
                    items@[k],
                    amounts@[k]@,
                    bars@[k]@,
                    k == selected && list_mode,
                    hints@,
                    locale,
                ),
        decreases items.len() - i,
    {
        let lines = entity_item_lines(
            &items[i],
            amounts[i].as_str(),
            bars[i].as_str(),
            i == selected && list_mode,
            hints,
            locale,
        );
        rows.push(lines);
        i = i + 1;
    }
    let highlighted = if selected < items.len() { selected } else { items.len() - 1 };
    EntityListBody::Items { rows, highlighted }
}

} // verus!
