use sparagne_tui::text::Locale;
use sparagne_tui::ui::entities::CashFlowInfo;
use sparagne_tui::ui::flow_detail::{flow_detail, FlowDetail};
use sparagne_tui::ui::forms::{transaction_form, transfer_form};
use sparagne_tui::ui::home::{activity_feed_rows, FeedEntry, FeedRow};
use sparagne_tui::ui::list::{transaction_list_rows, ListRow};
use sparagne_tui::ui::quick_add::{ambiguous_options_line, quick_add_lines, quick_preview_lines, QuickParsed};
use sparagne_tui::ui::settings::preferences_lines;
use sparagne_tui::ui::transactions::{amount_span, group_total_span, kind_chip, leg_amount_span};
use sparagne_tui::ui::state::{
    AppState, CalendarDate, Density, DefaultsField, FlowInfo, FlowTransaction, GroupedTransaction,
    GroupingMode, PreferencesField, QuickAddAmbiguousKind, QuickAmbiguous, Snapshot, TransactionFormField, TransactionKind,
    TransactionsMode, TransferField, WalletInfo,
};
use sparagne_tui::ui::stats::month_summary_values;
use sparagne_tui::ui::vault::defaults_screen;
use sparagne_tui::ui::{Piece, Tone};

fn wallet(id: u128, name: &str, archived: bool) -> WalletInfo {
    WalletInfo { id, name: name.to_string(), archived, balance_minor: 0 }
}

fn flow(id: u128, name: &str, archived: bool, balance_minor: i64) -> FlowInfo {
    FlowInfo { id, name: name.to_string(), archived, is_unallocated: false, balance_minor }
}

fn state() -> AppState {
    let mut state = AppState::default();
    state.locale = Locale::En;
    state.snapshot = Some(Snapshot {
        wallets: vec![wallet(1, "Cash", false), wallet(2, "Old", true), wallet(3, "Bank", false)],
        flows: vec![flow(10, "Food", false, 500), flow(11, "Trips", true, -20), flow(12, "Car", false, 0)],
    });
    state
}

fn day(d: u32) -> CalendarDate {
    CalendarDate { year: 2024, month: 3, day: d }
}

fn tx(d: u32, category: &str, kind: TransactionKind, amount: i64) -> GroupedTransaction {
    GroupedTransaction {
        date: day(d),
        category: Some(category.to_string()),
        wallet_id: Some(1),
        flow_id: None,
        kind,
        amount_minor: amount,
    }
}

fn texts(pieces: &[Piece]) -> String {
    pieces.iter().map(|p| p.text.as_str()).collect::<Vec<_>>().concat()
}

fn header(row: &ListRow) -> (String, i128) {
    match row {
        ListRow::Header { title, total_minor } => (title.clone(), *total_minor),
        ListRow::Item { .. } => panic!("expected a header"),
    }
}

fn item(row: &ListRow) -> (usize, bool) {
    match row {
        ListRow::Item { index, selected } => (*index, *selected),
        ListRow::Header { .. } => panic!("expected an item"),
    }
}

#[test]
fn list_rows_group_in_first_occurrence_order() {
    let state = state();
    let txs = vec![
        tx(15, "Food", TransactionKind::Expense, 1000),
        tx(14, "Rent", TransactionKind::Expense, 50000),
        tx(15, "Food", TransactionKind::Income, 300),
        tx(13, "  ", TransactionKind::Refund, 200),
    ];
    let rows = transaction_list_rows(&state, &txs, GroupingMode::Category, day(15), day(14), 2);
    assert_eq!(rows.len(), 7);
    assert_eq!(header(&rows[0]), ("Category: Food".to_string(), -700));
    assert_eq!(item(&rows[1]), (0, false));
    assert_eq!(item(&rows[2]), (2, true));
    assert_eq!(header(&rows[3]), ("Category: Rent".to_string(), -50000));
    assert_eq!(item(&rows[4]), (1, false));
    assert_eq!(header(&rows[5]), ("Category: Uncategorized".to_string(), 200));
    assert_eq!(item(&rows[6]), (3, false));
}

#[test]
fn list_rows_by_date_and_each_transaction_once() {
    let state = state();
    let txs = vec![
        tx(15, "a", TransactionKind::Expense, 100),
        tx(14, "b", TransactionKind::Expense, 200),
        tx(15, "c", TransactionKind::Expense, 300),
    ];
    let rows = transaction_list_rows(&state, &txs, GroupingMode::Date, day(15), day(14), 9);
    assert_eq!(header(&rows[0]), ("Today".to_string(), -400));
    assert_eq!(header(&rows[3]), ("Yesterday".to_string(), -200));
    let mut seen: Vec<usize> = rows
        .iter()
        .filter_map(|r| match r {
            ListRow::Item { index, .. } => Some(*index),
            _ => None,
        })
        .collect();
    seen.sort();
    assert_eq!(seen, vec![0, 1, 2]);
    assert!(transaction_list_rows(&state, &[], GroupingMode::Date, day(15), day(14), 0).is_empty());
}

#[test]
fn activity_feed_date_runs() {
    let entries = vec![
        FeedEntry::Alert { index: 0 },
        FeedEntry::Transaction { index: 0, date: day(15) },
        FeedEntry::Transaction { index: 1, date: day(15) },
        FeedEntry::Transaction { index: 2, date: day(14) },
    ];
    let rows = activity_feed_rows(&entries, day(15), day(14), 3, true);
    let shape: Vec<String> = rows
        .iter()
        .map(|r| match r {
            FeedRow::Alert { entry, selected } => format!("alert{entry}{selected}"),
            FeedRow::Gap => "gap".to_string(),
            FeedRow::DateHeader { label } => format!("day:{label}"),
            FeedRow::Insight => "insight".to_string(),
            FeedRow::Transaction { entry, selected } => format!("tx{entry}{selected}"),
        })
        .collect();
    assert_eq!(
        shape,
        vec![
            "alert0false", "day:Today", "insight", "tx1false", "tx2false", "gap", "day:Yesterday",
            "tx3true"
        ]
    );
    let plain = activity_feed_rows(&entries[1..2], day(15), day(14), 0, false);
    assert_eq!(plain.len(), 2);
}

#[test]
fn preferences_screen_lines() {
    let mut state = state();
    state.emoji_mode = false;
    state.density = Density::Compact;
    state.preferences.focus = PreferencesField::Density;
    let lines = preferences_lines(&state);
    assert_eq!(lines.len(), 7);
    assert_eq!(texts(&lines[0]), "  Emoji Mode");
    assert_eq!(texts(&lines[1]), "    Off  EUR $ # []");
    assert_eq!(lines[2][0].tone, Some(Tone::Accent));
    assert_eq!(texts(&lines[3]), "    [Compact]   Normal    Comfortable ");
    assert!(lines[3][1].bold);
    assert_eq!(texts(&lines[5]), "    Density: Compact | Emoji: Off");
    assert_eq!(lines[4][0].tone, Some(Tone::Info));
    state.preferences.focus = PreferencesField::EmojiMode;
    state.emoji_mode = true;
    let lines = preferences_lines(&state);
    assert_eq!(texts(&lines[0]), "  Emoji Mode  [Space] toggle");
    assert!(lines[1][1].bold);
}

#[test]
fn vault_defaults_screen() {
    let mut state = state();
    state.vault_ui.defaults.wallet_index = 2;
    state.vault_ui.defaults.flow_index = 7;
    state.vault_ui.defaults.focus = DefaultsField::Flow;
    state.vault_ui.defaults.error = Some("boom".to_string());
    let screen = defaults_screen(&state).unwrap();
    assert_eq!(texts(&screen.form[0]), "  Default Wallet  Bank");
    assert_eq!(texts(&screen.form[1]), "  Default Flow    None  ↑↓");
    assert_eq!(screen.wallet_rows, vec!["None", "Cash", "Bank"]);
    assert_eq!(screen.flow_rows, vec!["None", "Food", "Car"]);
    assert_eq!(screen.wallet_selected, 2);
    assert_eq!(screen.flow_selected, 2);
    assert_eq!(texts(&screen.error.unwrap()), "✗ boom");
    assert!(defaults_screen(&AppState::default()).is_none());
}

#[test]
fn transfer_form_screen() {
    let mut state = state();
    assert!(transfer_form(&state).is_none());
    state.transactions.mode = TransactionsMode::TransferWallet;
    state.transactions.transfer.from_index = 1;
    state.transactions.transfer.to_index = 0;
    state.transactions.transfer.amount = "12,50".to_string();
    state.transactions.transfer.focus = TransferField::Amount;
    let form = transfer_form(&state).unwrap();
    assert_eq!(form.title, "Transfer Wallet");
    assert_eq!(texts(&form.lines[0]), "From    : Bank");
    assert_eq!(texts(&form.lines[1]), "To      : Cash");
    assert_eq!(form.lines[2][0].tone, Some(Tone::Accent));
    assert_eq!(texts(&form.lines[4]), "When    : -");
    assert_eq!(form.lines.len(), 6);
    assert_eq!(form.items, vec!["Cash [to]", "Bank [from]"]);
    state.transactions.mode = TransactionsMode::TransferFlow;
    state.transactions.transfer.editing = true;
    state.transactions.transfer.error = Some("bad".to_string());
    let form = transfer_form(&state).unwrap();
    assert_eq!(form.title, "Edit Transfer Flow");
    assert_eq!(form.lines.len(), 7);
    assert_eq!(form.lines[6][0].tone, Some(Tone::Negative));
}

#[test]
fn transaction_form_screen() {
    let mut state = state();
    state.transactions.form.kind = TransactionKind::Income;
    state.transactions.form.amount = "10".to_string();
    state.transactions.form.category = "  ##food ".to_string();
    state.transactions.form.note = "   ".to_string();
    state.transactions.form.wallet_index = 1;
    state.transactions.form.flow_index = 5;
    state.transactions.form.focus = TransactionFormField::Category;
    let form = transaction_form(&state, &[3, 1, 99], &[12, 11]).unwrap();
    assert_eq!(form.title, "New Income");
    assert_eq!(form.wallets, vec!["Bank", "Cash"]);
    assert_eq!(form.flows, vec!["Car", "Trips"]);
    assert_eq!(
        texts(&form.lines[0]),
        "Amount    [10]  ← Enter numerical amount (required)"
    );
    assert_eq!(texts(&form.lines[1]), "Wallet    [Cash]  ← Source/destination wallet");
    assert_eq!(texts(&form.lines[2]), "Flow      [-]  ← Envelope/budget allocation");
    assert_eq!(texts(&form.lines[3]), "Category  [#food▏]  ← Tag for analytics");
    assert_eq!(texts(&form.lines[4]), "Note      [-]  ← Optional description");
    assert!(form.lines[6].is_empty());
    assert_eq!(form.lines.len(), 8);
    state.transactions.form.editing = true;
    state.transactions.form.kind = TransactionKind::TransferFlow;
    state.transactions.form.category = "#".to_string();
    let form = transaction_form(&state, &[], &[]).unwrap();
    assert_eq!(form.title, "Edit Transaction");
    assert_eq!(texts(&form.lines[3]), "Category  [-▏]  ← Tag for analytics");
}

#[test]
fn flow_detail_screen() {
    let mut state = AppState::default();
    assert!(matches!(flow_detail(&state), FlowDetail::Message("Caricamento...")));
    state.locale = Locale::En;
    assert!(matches!(flow_detail(&state), FlowDetail::Message("Loading...")));
    state = self::state();
    assert!(matches!(flow_detail(&state), FlowDetail::Message("Select a flow to view details")));
    state.flow_detail.flow_id = Some(77);
    assert!(matches!(flow_detail(&state), FlowDetail::Message("Flow not found")));
    state.locale = Locale::It;
    assert!(matches!(flow_detail(&state), FlowDetail::Message("Flow non trovato")));
    state.locale = Locale::En;
    state.flow_detail.flow_id = Some(11);
    state.flow_detail.detail =
        Some(CashFlowInfo { max_balance: Some(1000), income_balance: None, balance: -20 });
    state.flow_detail.transactions = vec![
        FlowTransaction { kind: TransactionKind::Refund, amount_minor: 5, note: None },
        FlowTransaction { kind: TransactionKind::TransferFlow, amount_minor: 7, note: Some("x".to_string()) },
    ];
    match flow_detail(&state) {
        FlowDetail::Flow { title, balance, balance_tone, cap, error, rows, empty } => {
            assert_eq!(texts(&title), "  🎯 Trips  [archived]");
            assert_eq!(balance, -20);
            assert_eq!(balance_tone, Tone::Negative);
            assert_eq!(cap, Some(("Net cap", 0, 1000)));
            assert!(error.is_none());
            assert_eq!(rows.len(), 2);
            assert_eq!(rows[0].icon, "↩");
            assert_eq!(rows[0].icon_tone, Tone::Refund);
            assert_eq!(rows[0].note, "-");
            assert_eq!(rows[1].amount_tone, Tone::Text);
            assert!(empty.is_none());
        }
        FlowDetail::Message(_) => panic!("expected the flow"),
    }
    let transactions = std::mem::take(&mut state.flow_detail.transactions);
    match flow_detail(&state) {
        FlowDetail::Flow { rows, empty, .. } => {
            assert!(rows.is_empty());
            assert_eq!(empty, Some("No transactions for this flow"));
        }
        FlowDetail::Message(_) => panic!("expected the flow"),
    }
    state.flow_detail.transactions = transactions;
    state.flow_detail.error = Some("offline".to_string());
    match flow_detail(&state) {
        FlowDetail::Flow { error, rows, empty, .. } => {
            assert_eq!(error.unwrap(), "⚠ offline");
            assert!(rows.is_empty());
            assert!(empty.is_none());
        }
        FlowDetail::Message(_) => panic!("expected the flow"),
    }
}

#[test]
fn month_summary_figures() {
    let series = |v: &[i64]| v.iter().map(|x| ("m".to_string(), *x)).collect::<Vec<_>>();
    let s = month_summary_values(1000, 250, Some(9000), &series(&[800, 1000]), &series(&[0, 250]));
    assert_eq!(s.net, 750);
    assert_eq!(s.expense_shown, -250);
    assert_eq!(s.income_percent, 100);
    assert_eq!(s.expense_percent, 25);
    assert_eq!(s.balance, 9000);
    assert_eq!(s.income_change, Some((200, 800)));
    assert_eq!(s.expense_change, None);
    let empty = month_summary_values(0, 40, None, &[], &[]);
    assert_eq!(empty.expense_percent, 100);
    assert_eq!(empty.income_percent, 0);
    assert_eq!(empty.balance, 0);
    let over = month_summary_values(100, 300, None, &[], &[]);
    assert_eq!(over.expense_percent, 100);
    assert_eq!(over.net, -200);
}

#[test]
fn quick_add_bar_lines() {
    let mut state = state();
    let folded = quick_add_lines(&state, None);
    assert_eq!(folded.len(), 4);
    assert_eq!(texts(&folded[0]), "> Type an entry, e.g. 12.50 lunch #food");
    assert_eq!(folded[0][1].tone, Some(Tone::Muted));
    assert_eq!(texts(&folded[3]), "   [a] quick add  [i] income  [e] expense  [t] transfer  [?] help");
    state.transactions.quick_active = true;
    let active = quick_add_lines(&state, None);
    assert_eq!(active.len(), 2);
    assert_eq!(texts(&active[0]), "> Type an entry, e.g. 12.50 lunch #food_");
    state.transactions.quick_input = "12 lunch".to_string();
    let preview = vec![vec![Piece { text: "▼ 12".to_string(), tone: Some(Tone::Negative), bold: false }]];
    let shown = quick_add_lines(&state, Some(preview));
    assert_eq!(shown.len(), 2);
    assert_eq!(texts(&shown[0]), "> 12 lunch_");
    assert_eq!(texts(&shown[1]), "▼ 12");
    state.transactions.quick_error = Some("no amount".to_string());
    let failed = quick_add_lines(&state, None);
    assert_eq!(texts(&failed[1]), "⚠ no amount");
    assert_eq!(failed[1][0].tone, Some(Tone::Negative));
}

#[test]
fn ambiguous_options() {
    let amb = QuickAmbiguous {
        kind: QuickAddAmbiguousKind::Wallet,
        options: vec![(1, "Cash".to_string()), (2, "Card".to_string()), (3, "Car".to_string())],
        selected: 1,
    };
    let line = ambiguous_options_line(&amb, Locale::En);
    assert_eq!(texts(&line), "@? Cash | [Card] | Car  [Ctrl+R] cycle");
    assert_eq!(line[0].tone, Some(Tone::Warning));
}

#[test]
fn amount_tones() {
    assert_eq!(amount_span(TransactionKind::Expense, 500), (-500, Tone::Negative));
    assert_eq!(amount_span(TransactionKind::Income, 0), (0, Tone::Muted));
    assert_eq!(amount_span(TransactionKind::Refund, 20), (20, Tone::Positive));
    assert_eq!(leg_amount_span(-3), Tone::Negative);
    assert_eq!(leg_amount_span(0), Tone::Muted);
    assert_eq!(group_total_span(0), Tone::Positive);
    assert_eq!(group_total_span(-1), Tone::Negative);
    assert_eq!(kind_chip(TransactionKind::TransferWallet), ("⇄", Tone::Info));
    assert_eq!(kind_chip(TransactionKind::Refund), ("↩", Tone::Refund));
}

fn parsed(kind: TransactionKind) -> QuickParsed {
    QuickParsed {
        kind,
        note: Some("lunch".to_string()),
        category: Some("fo".to_string()),
        wallet: None,
        flow: Some("tr".to_string()),
        from_wallet: Some("Cash".to_string()),
        to_wallet: None,
        from_flow: None,
        to_flow: None,
    }
}

#[test]
fn quick_preview() {
    let mut state = state();
    let cats = vec![(1u128, "food".to_string())];
    let flows = vec![(11u128, "Trips".to_string()), (12u128, "Travel".to_string())];
    let lines = quick_preview_lines(
        &state,
        &parsed(TransactionKind::Expense),
        "12.00 EUR",
        &cats,
        &[],
        &flows,
        &Vec::new(),
    );
    assert_eq!(lines.len(), 1);
    assert_eq!(
        texts(&lines[0]),
        "▼ 12.00 EUR  lunch  │  #food  │  >Trips  │  @Cash  │  today"
    );
    assert_eq!(lines[0][0].tone, Some(Tone::Negative));
    assert_eq!(lines[0][6].tone, Some(Tone::Accent));
    assert_eq!(lines[0][8].tone, Some(Tone::Warning));
    assert_eq!(lines[0][10].tone, Some(Tone::Muted));
    state.transactions.quick_active = true;
    let lines =
        quick_preview_lines(&state, &parsed(TransactionKind::Expense), "12", &cats, &[], &flows, &Vec::new());
    assert_eq!(lines.len(), 2);
    assert_eq!(texts(&lines[1]), ">? Trips | Travel  [Ctrl+R] cycle");
    let one = vec![(12u128, "Travel".to_string())];
    let lines = quick_preview_lines(
        &state,
        &parsed(TransactionKind::Expense),
        "12",
        &cats,
        &[],
        &one,
        &vec!["Travel".to_string(), "Trips".to_string()],
    );
    assert_eq!(texts(&lines[1]), "Envelopes: Travel, Trips");
    let lines = quick_preview_lines(
        &state,
        &parsed(TransactionKind::TransferWallet),
        "5",
        &cats,
        &[],
        &one,
        &Vec::new(),
    );
    assert_eq!(texts(&lines[0]), "⇄ 5  lunch  │  @Cash → @-  │  today");
}
