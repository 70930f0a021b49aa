//! The quick-add bar at the top of the transaction list.

use super::settings::run;
use super::state::{AppState, QuickAddAmbiguousKind, QuickAmbiguous, TransactionKind};
use super::stats::{lowercase, std_to_lowercase};
use super::transactions::{
    ambiguous_display_of, default_flow_name_of, default_wallet_name_of, default_wallet_flow_names,
    resolve_ambiguous_display,
};
use super::{Piece, Tone, lines_view, piece, pieces_view};
use crate::strings::{join, join_strings, push_char, string_from, string_views};
use crate::text::{Locale, TextKey, message, t};
use vstd::prelude::*;

verus! {

/// The input line: the prompt, the text (or the placeholder, muted, when
/// empty) and the cursor while the bar has the focus.
pub open spec fn input_line_of(state: AppState) -> Seq<(Seq<char>, Option<Tone>, bool)> {
    let input = state.transactions.quick_input@;
    seq![
        run("> "@, Some(Tone::Accent), false),
        if input.len() == 0 {
            run(message(state.locale, TextKey::QuickAddPlaceholder), Some(Tone::Muted), false)
        } else {
            run(input, Some(Tone::Text), false)
        },
        run(if state.transactions.quick_active { "_"@ } else { ""@ }, Some(Tone::Accent), false),
    ]
}

/// The help lines of the bar when it is folded: syntax, examples and keys.
pub open spec fn folded_lines_of(locale: Locale) -> Seq<Seq<(Seq<char>, Option<Tone>, bool)>> {
    seq![
        seq![
            run("⚡ "@, Some(Tone::Warning), false),
            run("Syntax: "@, Some(Tone::Muted), false),
            run(message(locale, TextKey::QuickAddSyntaxShort), Some(Tone::Muted), false),
        ],
        seq![
            run(message(locale, TextKey::QuickAddExamples), Some(Tone::Muted), false),
            run("50 lunch #food @main"@, Some(Tone::Muted), false),
            run("  |  "@, Some(Tone::Border), false),
            run("+100 salary >income"@, Some(Tone::Muted), false),
            run("  |  "@, Some(Tone::Border), false),
            run("r30 refund"@, Some(Tone::Muted), false),
        ],
        seq![
            run("   [a]"@, Some(Tone::Accent), false),
            run(" quick add  "@, Some(Tone::Muted), false),
            run("[i]"@, Some(Tone::Accent), false),
            run(" income  "@, Some(Tone::Muted), false),
            run("[e]"@, Some(Tone::Accent), false),
            run(" expense  "@, Some(Tone::Muted), false),
            run("[t]"@, Some(Tone::Accent), false),
            run(" transfer  "@, Some(Tone::Muted), false),
            run("[?]"@, Some(Tone::Accent), false),
            run(" help"@, Some(Tone::Muted), false),
        ],
    ]
}

/// The lines of the quick-add bar: the input line, then the error of the
/// last entry; else the preview of what is typed (`preview`, when the entry
/// reads as a transaction); else the syntax hint while the bar has the
/// focus; else the folded help.
pub open spec fn quick_add_lines_of(
    state: AppState,
    preview: Option<Seq<Seq<(Seq<char>, Option<Tone>, bool)>>>,
) -> Seq<Seq<(Seq<char>, Option<Tone>, bool)>> {
    let first = seq![input_line_of(state)];
    match state.transactions.quick_error {
        Some(e) => first.push(seq![run("⚠ "@ + e@, Some(Tone::Negative), false)]),
        None => match preview {
            Some(p) => first + p,
            None => if state.transactions.quick_active {
                first.push(
                    seq![run(message(state.locale, TextKey::QuickAddSyntaxHint), Some(Tone::Muted), false)],
                )
            } else {
                first + folded_lines_of(state.locale)
            },
        },
    }
}

/// The lines of the quick-add bar, with `preview` the preview of the typed
/// entry (see [`quick_preview_lines`]) when it reads as a transaction.
pub fn quick_add_lines(state: &AppState, preview: Option<Vec<Vec<Piece>>>) -> (r: Vec<Vec<Piece>>)
    ensures
        lines_view(r@) == quick_add_lines_of(
            *state,
            match preview {
                Some(p) => Some(lines_view(p@)),
                None => None,
            },
        ),
{
    let tx = &state.transactions;
    let locale = state.locale;
    let mut first: Vec<Piece> = Vec::new();
    first.push(piece("> ", Some(Tone::Accent), false));
    if tx.quick_input.unicode_len() == 0 {
        first.push(piece(t(locale, TextKey::QuickAddPlaceholder), Some(Tone::Muted), false));
    } else {
        first.push(piece(tx.quick_input.as_str(), Some(Tone::Text), false));
    }
    first.push(piece(if tx.quick_active { "_" } else { "" }, Some(Tone::Accent), false));
    assert(pieces_view(first@) =~= input_line_of(*state));
    let mut lines: Vec<Vec<Piece>> = Vec::new();
    lines.push(first);
    assert(lines_view(lines@) =~= seq![input_line_of(*state)]);
    let ghost base = lines_view(lines@);
    match &tx.quick_error {
        Some(e) => {
            let mut m = string_from("⚠ ");
            m.append(e.as_str());
            let mut l: Vec<Piece> = Vec::new();
            l.push(Piece { text: m, tone: Some(Tone::Negative), bold: false });
            assert(pieces_view(l@) =~= seq![run("⚠ "@ + e@, Some(Tone::Negative), false)]);
            lines.push(l);
            assert(lines_view(lines@) =~= base.push(pieces_view(l@)));
        },
        None => match preview {
            Some(p) => {
                let mut p = p;
                let ghost added = p@;
                lines.append(&mut p);
                assert(lines_view(lines@) =~= base + lines_view(added));
            },
            None => {
                if tx.quick_active {
                    let mut l: Vec<Piece> = Vec::new();
                    l.push(piece(t(locale, TextKey::QuickAddSyntaxHint), Some(Tone::Muted), false));
                    assert(pieces_view(l@) =~= seq![
                        run(message(locale, TextKey::QuickAddSyntaxHint), Some(Tone::Muted), false),
                    ]);
                    lines.push(l);
                    assert(lines_view(lines@) =~= base.push(pieces_view(l@)));
                } else {
                    let want = Ghost(folded_lines_of(locale));
                    let mut a: Vec<Piece> = Vec::new();
                    a.push(piece("⚡ ", Some(Tone::Warning), false));
                    a.push(piece("Syntax: ", Some(Tone::Muted), false));
                    a.push(piece(t(locale, TextKey::QuickAddSyntaxShort), Some(Tone::Muted), false));
                    assert(pieces_view(a@) =~= want@[0]);
                    let mut b: Vec<Piece> = Vec::new();
                    b.push(piece(t(locale, TextKey::QuickAddExamples), Some(Tone::Muted), false));
                    b.push(piece("50 lunch #food @main", Some(Tone::Muted), false));
                    b.push(piece("  |  ", Some(Tone::Border), false));
                    b.push(piece("+100 salary >income", Some(Tone::Muted), false));
                    b.push(piece("  |  ", Some(Tone::Border), false));
                    b.push(piece("r30 refund", Some(Tone::Muted), false));
                    assert(pieces_view(b@) =~= want@[1]);
                    let mut c: Vec<Piece> = Vec::new();
                    c.push(piece("   [a]", Some(Tone::Accent), false));
                    c.push(piece(" quick add  ", Some(Tone::Muted), false));
                    c.push(piece("[i]", Some(Tone::Accent), false));
                    c.push(piece(" income  ", Some(Tone::Muted), false));
                    c.push(piece("[e]", Some(Tone::Accent), false));
                    c.push(piece(" expense  ", Some(Tone::Muted), false));
                    c.push(piece("[t]", Some(Tone::Accent), false));
                    c.push(piece(" transfer  ", Some(Tone::Muted), false));
                    c.push(piece("[?]", Some(Tone::Accent), false));
                    c.push(piece(" help", Some(Tone::Muted), false));
                    assert(pieces_view(c@) =~= want@[2]);
                    lines.push(a);
                    lines.push(b);
                    lines.push(c);
                    assert(lines_view(lines@) =~= base + want@);
                }
            },
        },
    }
    lines
}

/// The options of an ambiguous field, the selected one in brackets.
pub open spec fn option_names(amb: QuickAmbiguous) -> Seq<Seq<char>> {
    Seq::new(
        amb.options@.len(),
        |i: int|
            if i == amb.selected {
                seq!['['] + amb.options@[i].1@ + seq![']']
            } else {
                amb.options@[i].1@
            },
    )
}

/// The sign that starts a field of a kind: `#`, `@` or `>`.
pub open spec fn kind_prefix(kind: QuickAddAmbiguousKind) -> Seq<char> {
    match kind {
        QuickAddAmbiguousKind::Category => "#"@,
        QuickAddAmbiguousKind::Wallet => "@"@,
        QuickAddAmbiguousKind::Flow => ">"@,
    }
}

/// The line that lists the options of an ambiguous field.
pub open spec fn ambiguous_line_of(amb: QuickAmbiguous, locale: Locale) -> Seq<(Seq<char>, Option<Tone>, bool)> {
    seq![
        run(kind_prefix(amb.kind) + "? "@, Some(Tone::Warning), false),
        run(join(option_names(amb), " | "@), Some(Tone::Muted), false),
        run("  "@, None, false),
        run("[Ctrl+R]"@, Some(Tone::Accent), false),
        run(message(locale, TextKey::QuickAddCycle), Some(Tone::Muted), false),
    ]
}

/// The line listing the options of an ambiguous quick-add field, the
/// selected one in brackets, with the key that cycles them.
pub fn ambiguous_options_line(amb: &QuickAmbiguous, locale: Locale) -> (r: Vec<Piece>)
    ensures
        pieces_view(r@) == ambiguous_line_of(*amb, locale),
{
    let mut names: Vec<String> = Vec::new();
    let mut i: usize = 0;
    while i < amb.options.len()
        invariant
            i <= amb.options@.len(),
            string_views(names@) == option_names(*amb).take(i as int),
        decreases amb.options.len() - i,
    {
        let name = if i == amb.selected {
            let mut n = String::new();
            push_char(&mut n, '[');
            n.append(amb.options[i].1.as_str());
            push_char(&mut n, ']');
            n
        } else {
            amb.options[i].1.clone()
        };
        assert(name@ =~= option_names(*amb)[i as int]);
        let ghost before = string_views(names@);
        let ghost nv = name@;
        names.push(name);
        assert(string_views(names@) =~= before.push(nv));
        assert(string_views(names@) =~= option_names(*amb).take(i + 1));
        i = i + 1;
    }
    assert(option_names(*amb).take(amb.options@.len() as int) =~= option_names(*amb));
    let mut head = string_from(match amb.kind {
        QuickAddAmbiguousKind::Category => "#",
        QuickAddAmbiguousKind::Wallet => "@",
        QuickAddAmbiguousKind::Flow => ">",
    });
    head.append("? ");
    let mut v: Vec<Piece> = Vec::new();
    v.push(Piece { text: head, tone: Some(Tone::Warning), bold: false });
    v.push(Piece { text: join_strings(&names, " | "), tone: Some(Tone::Muted), bold: false });
    v.push(piece("  ", None, false));
    v.push(piece("[Ctrl+R]", Some(Tone::Accent), false));
    v.push(piece(t(locale, TextKey::QuickAddCycle), Some(Tone::Muted), false));
    assert(pieces_view(v@) =~= ambiguous_line_of(*amb, locale));
    v
}

/// What the quick-add parser read from the typed entry.
#[derive(Debug, Clone)]
pub struct QuickParsed {
    pub kind: TransactionKind,
    pub note: Option<String>,
    pub category: Option<String>,
    pub wallet: Option<String>,
    pub flow: Option<String>,
    pub from_wallet: Option<String>,
    pub to_wallet: Option<String>,
    pub from_flow: Option<String>,
    pub to_flow: Option<String>,
}

/// The text of an optional string, or `-`.
pub open spec fn or_dash(o: Option<String>) -> Seq<char> {
    match o {
        Some(s) => s@,
        None => "-"@,
    }
}

/// The view of an optional string.
pub open spec fn opt_view(o: Option<String>) -> Option<Seq<char>> {
    match o {
        Some(s) => Some(s@),
        None => None,
    }
}

/// The icon and tone of a kind in the preview.
pub open spec fn preview_icon(kind: TransactionKind) -> (Seq<char>, Tone) {
    match kind {
        TransactionKind::Income => ("▲"@, Tone::Positive),
        TransactionKind::Expense => ("▼"@, Tone::Negative),
        TransactionKind::Refund => ("↩"@, Tone::Warning),
        _ => ("⇄"@, Tone::Info),
    }
}

/// How a wallet or flow field of the preview shows: resolved against its
/// matches when typed, else the default one, muted.
pub open spec fn field_display(
    state: AppState,
    query: Option<Seq<char>>,
    matches: Seq<(u128, String)>,
    kind: QuickAddAmbiguousKind,
    prefix: Seq<char>,
    default_name: Seq<char>,
) -> (Seq<char>, Tone, bool) {
    if query is Some {
        ambiguous_display_of(state, query, matches, kind, prefix)
    } else {
        (prefix + default_name, Tone::Muted, false)
    }
}

/// The names of the first three matches joined with ` | `.
pub open spec fn first_three(matches: Seq<(u128, String)>) -> Seq<char> {
    let n = if matches.len() < 3 { matches.len() as int } else { 3int };
    join(Seq::new(n as nat, |i: int| matches[i].1@), " | "@)
}

/// The hints of the fields with several matches.
pub open spec fn match_hints(
    cats: Seq<(u128, String)>,
    wallets: Seq<(u128, String)>,
    flows: Seq<(u128, String)>,
) -> Seq<Seq<char>> {
    let a: Seq<Seq<char>> = if cats.len() > 1 { seq!["#? "@ + first_three(cats)] } else { Seq::empty() };
    let b = if wallets.len() > 1 { a.push("@? "@ + first_three(wallets)) } else { a };
    if flows.len() > 1 { b.push(">? "@ + first_three(flows)) } else { b }
}

/// The preview lines of a typed entry that reads as `p`, with `amount` the
/// written amount, the matches of its fields and the envelope `suggestions`
/// for its flow.
pub open spec fn quick_preview_of(
    state: AppState,
    p: QuickParsed,
    amount: Seq<char>,
    cats: Seq<(u128, String)>,
    wallets: Seq<(u128, String)>,
    flows: Seq<(u128, String)>,
    suggestions: Seq<Seq<char>>,
) -> Seq<Seq<(Seq<char>, Option<Tone>, bool)>> {
    let locale = state.locale;
    let (icon, tone) = preview_icon(p.kind);
    let c = ambiguous_display_of(state, opt_view(p.category), cats, QuickAddAmbiguousKind::Category, "#"@);
    let w = field_display(state, opt_view(p.wallet), wallets, QuickAddAmbiguousKind::Wallet, "@"@, default_wallet_name_of(state));
    let f = field_display(state, opt_view(p.flow), flows, QuickAddAmbiguousKind::Flow, ">"@, default_flow_name_of(state));
    let bar = run("  │  "@, None, false);
    let today = run(message(locale, TextKey::QuickAddToday), Some(Tone::Muted), false);
    let head = seq![
        run(icon, Some(tone), false),
        run(" "@, None, false),
        run(amount, Some(tone), false),
        run("  "@, None, false),
        run(or_dash(p.note), Some(Tone::Text), false),
        bar,
    ];
    let preview: Seq<(Seq<char>, Option<Tone>, bool)> = if p.kind == TransactionKind::TransferWallet {
        head + seq![run("@"@ + or_dash(p.from_wallet) + " → @"@ + or_dash(p.to_wallet), Some(Tone::Info), false), bar, today]
    } else if p.kind == TransactionKind::TransferFlow {
        head + seq![run(">"@ + or_dash(p.from_flow) + " → >"@ + or_dash(p.to_flow), Some(Tone::Info), false), bar, today]
    } else {
        head + seq![
            run(c.0, Some(c.1), false),
            bar,
            run(f.0, Some(f.1), false),
            bar,
            run(w.0, Some(w.1), false),
            bar,
            today,
        ]
    };
    let active = state.transactions.quick_active;
    let ambiguous = c.2 || w.2 || f.2;
    let extra: Seq<Seq<(Seq<char>, Option<Tone>, bool)>> = if active && ambiguous {
        match state.transactions.quick_ambiguous {
            Some(amb) => seq![ambiguous_line_of(amb, locale)],
            None => {
                let hints = match_hints(cats, wallets, flows);
                if hints.len() > 0 {
                    seq![
                        seq![
                            run(join(hints, "  "@), Some(Tone::Warning), false),
                            run("  "@, None, false),
                            run("[Ctrl+R]"@, Some(Tone::Accent), false),
                            run(message(locale, TextKey::QuickAddCycle), Some(Tone::Muted), false),
                        ],
                    ]
                } else {
                    Seq::empty()
                }
            },
        }
    } else if active && p.flow is Some && (flows.len() == 0 || std_to_lowercase(flows[0].1@)
        != std_to_lowercase(p.flow->0@)) && suggestions.len() > 0 {
        seq![
            seq![
                run(message(locale, TextKey::QuickAddEnvelopeSuggestions) + join(suggestions, ", "@), Some(Tone::Muted), false),
            ],
        ]
    } else {
        Seq::empty()
    };
    seq![preview] + extra
}

fn first_three_names(matches: &[(u128, String)]) -> (r: String)
    ensures
        r@ == first_three(matches@),
{
    let n = if matches.len() < 3 { matches.len() } else { 3 };
    let mut names: Vec<String> = Vec::new();
    let mut i: usize = 0;
    while i < n
        invariant
            n <= matches@.len(),
            i <= n,
            string_views(names@) == Seq::new(i as nat, |k: int| matches@[k].1@),
        decreases n - i,
    {
        let ghost before = string_views(names@);
        let name = matches[i].1.clone();
        let ghost nv = name@;
        names.push(name);
        assert(string_views(names@) =~= before.push(nv));
        i = i + 1;
        assert(string_views(names@) =~= Seq::new(i as nat, |k: int| matches@[k].1@));
    }
    join_strings(&names, " | ")
}

fn prefixed(prefix: &str, text: &str) -> (r: String)
    ensures
        r@ == prefix@ + text@,
{
    let mut r = string_from(prefix);
    r.append(text);
    r
}

fn dash_or(o: &Option<String>) -> (r: String)
    ensures
        r@ == or_dash(*o),
{
    match o {
        Some(s) => s.clone(),
        None => string_from("-"),
    }
}

/// The preview lines of a typed entry that the quick-add parser read as `p`:
/// the entry as it will be saved (kind, `amount` as written, note, and the
/// category, flow and wallet as resolved against their `*_matches`, or the
/// transfer's ends), then the options of an ambiguous field, or else the
/// envelope `suggestions` when the typed flow matches none exactly.
pub fn quick_preview_lines(
    state: &AppState,
    p: &QuickParsed,
    amount: &str,
    category_matches: &[(u128, String)],
    wallet_matches: &[(u128, String)],
    flow_matches: &[(u128, String)],
    suggestions: &Vec<String>,
) -> (r: Vec<Vec<Piece>>)
    ensures
        lines_view(r@) == quick_preview_of(
            *state,
            *p,
            amount@,
            category_matches@,
            wallet_matches@,
            flow_matches@,
            string_views(suggestions@),
        ),
{
    let locale = state.locale;
    let (icon, tone) = match p.kind {
        TransactionKind::Income => ("▲", Tone::Positive),
        TransactionKind::Expense => ("▼", Tone::Negative),
        TransactionKind::Refund => ("↩", Tone::Warning),
        _ => ("⇄", Tone::Info),
    };
    let (default_wallet, default_flow) = default_wallet_flow_names(state);
    let c = resolve_ambiguous_display(state, &p.category, category_matches, QuickAddAmbiguousKind::Category, "#");
    let w = if p.wallet.is_some() {
        resolve_ambiguous_display(state, &p.wallet, wallet_matches, QuickAddAmbiguousKind::Wallet, "@")
    } else {
        (prefixed("@", default_wallet.as_str()), Tone::Muted, false)
    };
    let f = if p.flow.is_some() {
        resolve_ambiguous_display(state, &p.flow, flow_matches, QuickAddAmbiguousKind::Flow, ">")
    } else {
        (prefixed(">", default_flow.as_str()), Tone::Muted, false)
    };
    let ghost want = quick_preview_of(
        *state,
        *p,
        amount@,
        category_matches@,
        wallet_matches@,
        flow_matches@,
        string_views(suggestions@),
    );
    let mut line: Vec<Piece> = Vec::new();
    line.push(piece(icon, Some(tone), false));
    line.push(piece(" ", None, false));
    line.push(piece(amount, Some(tone), false));
    line.push(piece("  ", None, false));
    line.push(Piece { text: dash_or(&p.note), tone: Some(Tone::Text), bold: false });
    line.push(piece("  │  ", None, false));
    if p.kind == TransactionKind::TransferWallet || p.kind == TransactionKind::TransferFlow {
        let (mark, from, to) = if p.kind == TransactionKind::TransferWallet {
            ("@", &p.from_wallet, &p.to_wallet)
        } else {
            (">", &p.from_flow, &p.to_flow)
        };
        let mut ends = prefixed(mark, dash_or(from).as_str());
        ends.append(if p.kind == TransactionKind::TransferWallet { " → @" } else { " → >" });
        ends.append(dash_or(to).as_str());
        line.push(Piece { text: ends, tone: Some(Tone::Info), bold: false });
    } else {
        line.push(Piece { text: c.0, tone: Some(c.1), bold: false });
        line.push(piece("  │  ", None, false));
        line.push(Piece { text: f.0, tone: Some(f.1), bold: false });
        line.push(piece("  │  ", None, false));
        line.push(Piece { text: w.0, tone: Some(w.1), bold: false });
    }
    line.push(piece("  │  ", None, false));
    line.push(piece(t(locale, TextKey::QuickAddToday), Some(Tone::Muted), false));
    assert(pieces_view(line@) =~= want[0]);
    let mut lines: Vec<Vec<Piece>> = Vec::new();
    lines.push(line);
    let ghost base = lines_view(lines@);
    assert(base =~= seq![want[0]]);
    let active = state.transactions.quick_active;
    if active && (c.2 || w.2 || f.2) {
        match &state.transactions.quick_ambiguous {
            Some(amb) => {
                let l = ambiguous_options_line(amb, locale);
                lines.push(l);
                assert(lines_view(lines@) =~= want);
            },
            None => {
                let mut hints: Vec<String> = Vec::new();
                if category_matches.len() > 1 {
                    hints.push(prefixed("#? ", first_three_names(category_matches).as_str()));
                }
                let ghost h1 = string_views(hints@);
                if wallet_matches.len() > 1 {
                    hints.push(prefixed("@? ", first_three_names(wallet_matches).as_str()));
                }
                let ghost h2 = string_views(hints@);
                if flow_matches.len() > 1 {
                    hints.push(prefixed(">? ", first_three_names(flow_matches).as_str()));
                }
                assert(string_views(hints@) =~= match_hints(category_matches@, wallet_matches@, flow_matches@));
                if hints.len() > 0 {
                    let mut l: Vec<Piece> = Vec::new();
                    l.push(Piece { text: join_strings(&hints, "  "), tone: Some(Tone::Warning), bold: false });
                    l.push(piece("  ", None, false));
                    l.push(piece("[Ctrl+R]", Some(Tone::Accent), false));
                    l.push(piece(t(locale, TextKey::QuickAddCycle), Some(Tone::Muted), false));
                    assert(pieces_view(l@) =~= seq![
                        run(join(string_views(hints@), "  "@), Some(Tone::Warning), false),
                        run("  "@, None, false),
                        run("[Ctrl+R]"@, Some(Tone::Accent), false),
                        run(message(locale, TextKey::QuickAddCycle), Some(Tone::Muted), false),
                    ]);
                    let ghost lv = pieces_view(l@);
                    lines.push(l);
                    assert(lines_view(lines@) =~= base.push(lv));
                } else {
                    assert(lines_view(lines@) =~= base);
                }
                assert(lines_view(lines@) =~= want);
            },
        }
    } else {
        let mut show = false;
        if active && suggestions.len() > 0 {
            if let Some(q) = &p.flow {
                if flow_matches.len() == 0 {
                    show = true;
                } else {
                    let a = lowercase(flow_matches[0].1.as_str());
                    let b = lowercase(q.as_str());
                    show = !crate::strings::same_text(a.as_str(), b.as_str());
                }
            }
        }
        if show {
            let mut text = string_from(t(locale, TextKey::QuickAddEnvelopeSuggestions));
            text.append(crate::strings::join_strings(suggestions, ", ").as_str());
            let mut l: Vec<Piece> = Vec::new();
            l.push(Piece { text, tone: Some(Tone::Muted), bold: false });
            let ghost lv = pieces_view(l@);
            assert(lv =~= seq![
                run(message(locale, TextKey::QuickAddEnvelopeSuggestions) + join(string_views(suggestions@), ", "@), Some(Tone::Muted), false),
            ]);
            lines.push(l);
            assert(lines_view(lines@) =~= base.push(lv));
        } else {
            assert(lines_view(lines@) =~= base);
        }
        assert(lines_view(lines@) =~= want);
    }
    lines
}

} // verus!
