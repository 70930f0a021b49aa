use sparagne_tui::text::Locale;
use sparagne_tui::ui::alias_list::{alias_list, AliasBody};
use sparagne_tui::ui::category_list::category_list;
use sparagne_tui::ui::entity_list::{
    entity_empty_lines, entity_item_lines, entity_list_body, entity_list_footer, entity_stats_line, EntityItem,
    EntityListBody,
};
use sparagne_tui::ui::filter_form::filter_form_lines;
use sparagne_tui::ui::forms::{transaction_form, transfer_form};
use sparagne_tui::ui::home::{
    activity_feed, feed_alert_line, feed_date_label, feed_empty_lines, feed_transaction_line, Feed,
    FeedEntry,
};
use sparagne_tui::ui::list::{list_empty_lines, transaction_list, transaction_row_lines, TransactionList};
use sparagne_tui::ui::member_form::member_form;
use sparagne_tui::ui::merge_info::merge_info_lines;
use sparagne_tui::ui::month_card::month_card;
use sparagne_tui::ui::quick_balances::{byte_len, quick_balances, wallets_by_balance};
use sparagne_tui::ui::recurring_form::recurring_form;
use sparagne_tui::ui::scope_picker::scope_picker;
use sparagne_tui::ui::stats::get_category_icon;
use sparagne_tui::ui::state::{
    AliasFocus, AppState, CalendarDate, CategoryInfo, FilterField, FlowInfo, FlowTransaction, GroupedTransaction,
    GroupingMode, LegTarget, MemberFormField, MembersMode, MergeConflict, MergePreview, RecurringFormField, Snapshot,
    TransactionDetail, TransactionKind, TransactionLeg, TransactionsMode, VaultInfo, WalletInfo,
};
use sparagne_tui::ui::transaction_detail::{transaction_detail_panel, TransactionDetailPanel};
use sparagne_tui::ui::trend_card::{monthly_trend_card, TrendCard, TrendRow};
use sparagne_tui::ui::vault_view::vault_view;
use sparagne_tui::ui::wallet_detail::{wallet_detail, WalletDetail};
use sparagne_tui::ui::{Piece, Tone};

fn texts(pieces: &[Piece]) -> String {
    pieces.iter().map(|p| p.text.as_str()).collect::<Vec<_>>().concat()
}

fn day(d: u32) -> CalendarDate {
    CalendarDate { year: 2024, month: 3, day: d }
}

fn english() -> AppState {
    let mut state = AppState::default();
    state.locale = Locale::En;
    state
}

#[test]
fn list_empty_state_quotes_trimmed_query() {
    let mut state = english();
    state.transactions.search_query = "  car ".to_string();
    let lines = list_empty_lines(&state);
    assert_eq!(lines.len(), 2);
    assert_eq!(texts(&lines[0]), "No results for \"car\".");
    assert_eq!(lines[0][1].text, "\"car\"");
    assert_eq!(lines[0][1].tone, Some(Tone::Accent));
    assert_eq!(texts(&lines[1]), "Ctrl+F to edit • Esc to clear");
    assert_eq!(lines[1][0].tone, Some(Tone::Muted));
}

#[test]
fn list_empty_state_without_query() {
    let mut state = english();
    state.transactions.search_query = "   ".to_string();
    let lines = list_empty_lines(&state);
    assert_eq!(lines.len(), 1);
    assert_eq!(texts(&lines[0]), "No transactions yet. Press n to add one.");
    assert_eq!(lines[0][1].tone, Some(Tone::Accent));
}

#[test]
fn transaction_list_empty_or_rows() {
    let state = english();
    match transaction_list(&state, &[], GroupingMode::Date, day(15), day(14), 0) {
        TransactionList::Empty(lines) => assert_eq!(lines.len(), 1),
        TransactionList::Rows(_) => panic!("expected the empty state"),
    }
    let txs = vec![GroupedTransaction {
        date: day(15),
        category: None,
        wallet_id: None,
        flow_id: None,
        kind: TransactionKind::Expense,
        amount_minor: 300,
    }];
    match transaction_list(&state, &txs, GroupingMode::Date, day(15), day(14), 0) {
        TransactionList::Rows(rows) => assert_eq!(rows.len(), 2),
        TransactionList::Empty(_) => panic!("expected rows"),
    }
}

#[test]
fn feed_empty_state_lines() {
    let lines = feed_empty_lines(Locale::En);
    assert_eq!(lines.len(), 4);
    assert!(lines[0].is_empty());
    assert_eq!(texts(&lines[1]), "No activity yet");
    assert_eq!(lines[1][0].tone, Some(Tone::Muted));
    assert!(lines[2].is_empty());
    assert_eq!(texts(&lines[3]), "Press a to add your first transaction");
    let it = feed_empty_lines(Locale::It);
    assert_eq!(texts(&it[1]), "Nessuna attività");
}

#[test]
fn activity_feed_empty_or_rows() {
    match activity_feed(&[], day(15), day(14), 0, true, Locale::En) {
        Feed::Empty(lines) => assert_eq!(lines.len(), 4),
        Feed::Rows(_) => panic!("expected the empty state"),
    }
    let entries = vec![FeedEntry::Transaction { index: 0, date: day(15) }];
    match activity_feed(&entries, day(15), day(14), 0, false, Locale::En) {
        Feed::Rows(rows) => assert_eq!(rows.len(), 2),
        Feed::Empty(_) => panic!("expected rows"),
    }
}

#[test]
fn feed_row_of_an_expense() {
    let line = feed_transaction_line(
        TransactionKind::Expense,
        1250,
        "-12.50 EUR",
        Some("Lunch"),
        Some("Food"),
        "12:30",
        80,
        None,
    );
    let shown: Vec<&str> = line.iter().map(|p| p.text.as_str()).collect();
    assert_eq!(shown[0], "  ");
    assert_eq!(shown[1], "▼");
    assert_eq!(shown[3], "    -12.50 EUR");
    assert_eq!(line[3].tone, Some(Tone::Negative));
    assert_eq!(shown[5], "12:30");
    assert_eq!(shown[7], format!("Lunch{}", " ".repeat(34)));
    assert_eq!(shown[8], "");
    assert_eq!(shown[9], "🏷Food");
    assert_eq!(line.len(), 10);
}

#[test]
fn feed_row_of_an_income_gets_a_plus() {
    let line = feed_transaction_line(
        TransactionKind::Income,
        5000,
        "50.00 EUR",
        None,
        Some("Salary"),
        "09:00",
        40,
        Some("💰"),
    );
    let shown: Vec<&str> = line.iter().map(|p| p.text.as_str()).collect();
    assert_eq!(shown[3], "💰 ");
    assert_eq!(shown[4], "    +50.00 EUR");
    assert_eq!(line[4].tone, Some(Tone::Positive));
    assert_eq!(shown[6], format!("-{}", " ".repeat(16)));
    assert_eq!(line.len(), 7);
}

#[test]
fn feed_alert_row() {
    let line = feed_alert_line("Groceries", false, "10.00", "5.00");
    assert_eq!(texts(&line), "  ⚠ Alert: Groceries ≤ 10.00 (5.00)");
    let line = feed_alert_line("Groceries", true, "10.00", "-5.00");
    assert_eq!(texts(&line), "  ⚠ Alert: Groceries deficit (-5.00)");
    assert_eq!(line[5].tone, Some(Tone::Warning));
}

#[test]
fn feed_day_labels() {
    assert_eq!(feed_date_label(day(15), day(15), day(14)), "Today");
    assert_eq!(feed_date_label(day(14), day(15), day(14)), "Yesterday");
    assert_eq!(feed_date_label(day(3), day(15), day(14)), "03 Mar");
    let last_year = CalendarDate { year: 2023, month: 12, day: 31 };
    assert_eq!(feed_date_label(last_year, day(15), day(14)), "31 Dec 2023");
}

fn stats_state() -> AppState {
    let mut state = english();
    state.stats.current_year = 2024;
    state.stats.current_month = 3;
    state.stats.current_month_income = 1000;
    state.stats.current_month_expenses = 250;
    state.stats.balance = Some(9000);
    state
}

#[test]
fn month_card_with_income() {
    let state = stats_state();
    let card = month_card(&state, "7.50 EUR", "90.00 EUR", None, None);
    assert_eq!(card.title, "Month Summary");
    assert_eq!(texts(&card.change_line), "MoM Inc N/A  Exp N/A");
    assert_eq!(card.income_row.amount, 1000);
    assert_eq!(card.income_row.percent, 100);
    assert_eq!(card.expense_row.amount, -250);
    assert_eq!(card.expense_row.percent, 25);
    assert_eq!(card.gauge, Some(("Expenses / income", 250, 1000)));
    assert!(card.no_income_line.is_none());
    assert_eq!(card.net, 750);
    assert_eq!(texts(&card.net_line), format!("Net{}7.50 EUR", " ".repeat(9)));
    assert_eq!(card.net_line[1].tone, Some(Tone::Positive));
    assert_eq!(card.balance, 9000);
    assert_eq!(texts(&card.balance_line), format!("Balance{}90.00 EUR", " ".repeat(5)));
    assert!(card.error_line.is_none());
}

#[test]
fn month_card_without_income_and_with_an_error() {
    let mut state = stats_state();
    state.stats.current_month_income = 0;
    state.stats.balance = None;
    state.stats.error = Some("offline".to_string());
    let change = Piece { text: "+5%".to_string(), tone: Some(Tone::Positive), bold: false };
    let card = month_card(&state, "-2.50 EUR", "0.00 EUR", Some(change), None);
    assert_eq!(texts(&card.change_line), "MoM Inc +5%  Exp N/A");
    assert_eq!(card.expense_row.percent, 100);
    assert!(card.gauge.is_none());
    assert_eq!(texts(card.no_income_line.as_ref().unwrap()), "No income to compare");
    assert_eq!(card.net, -250);
    assert_eq!(card.net_line[1].tone, Some(Tone::Negative));
    assert_eq!(card.balance, 0);
    let error = card.error_line.unwrap();
    assert_eq!(texts(&error), "offline");
    assert_eq!(error[0].tone, Some(Tone::Negative));
}

#[test]
fn transaction_row_two_lines() {
    let mut state = english();
    state.snapshot = Some(Snapshot {
        wallets: vec![WalletInfo { id: 1, name: "Cash".to_string(), archived: false, balance_minor: 0 }],
        flows: vec![FlowInfo { id: 10, name: "Food".to_string(), archived: false, is_unallocated: false, balance_minor: 0 }],
    });
    let tx = GroupedTransaction {
        date: day(5),
        category: Some("groceries".to_string()),
        wallet_id: Some(1),
        flow_id: Some(10),
        kind: TransactionKind::Expense,
        amount_minor: 1250,
    };
    let lines = transaction_row_lines(&state, &tx, GroupingMode::Date, Some("Lunch"), false, false, "12:30", "-12.50");
    assert_eq!(lines.len(), 2);
    assert_eq!(texts(&lines[0]), format!("12:30  ▼ -12.50{} Lunch", " ".repeat(8)));
    assert_eq!(lines[0][4].tone, Some(Tone::Negative));
    assert_eq!(texts(&lines[1]), "      #groceries  @Cash  >Food");
    assert_eq!(lines[1][5].tone, Some(Tone::Info));
    state.transactions.visual_mode = true;
    let lines = transaction_row_lines(&state, &tx, GroupingMode::Category, None, true, true, "08:00", "-12.50");
    assert_eq!(texts(&lines[0]), format!("* 05 Mar 08:00  ▼ [VOID] -12.50{}", " ".repeat(9)));
    assert_eq!(lines[0][0].tone, Some(Tone::Warning));
    let bare = GroupedTransaction { category: None, wallet_id: None, flow_id: None, ..tx };
    let lines = transaction_row_lines(&state, &bare, GroupingMode::Date, None, false, false, "08:00", "-12.50");
    assert_eq!(texts(&lines[1]), "      ");
}

#[test]
fn trend_card_without_data() {
    let state = english();
    match monthly_trend_card(&state) {
        TrendCard::NoData { title, message } => {
            assert_eq!(title, "Monthly Trend");
            assert_eq!(message, "No trend data yet");
        }
        TrendCard::Trends { .. } => panic!("expected no data"),
    }
}

#[test]
fn trend_card_figures() {
    let mut state = english();
    state.stats.monthly_income = vec![("Jan".to_string(), 800), ("Feb".to_string(), 1000)];
    state.stats.monthly_trend = vec![("Jan".to_string(), 400), ("Feb".to_string(), -50)];
    match monthly_trend_card(&state) {
        TrendCard::Trends { title, income, expense, net, income_chart, income_bars, expense_chart, expense_bars } => {
            assert_eq!(title, "Financial Trends");
            assert_eq!(income, TrendRow { label: "Income", amount: 1000, change: Some((200, 800)) });
            assert_eq!(expense, TrendRow { label: "Expenses", amount: 50, change: Some((-450, 400)) });
            assert_eq!(net.label, "Net savings");
            assert_eq!(net.amount, 1050);
            assert_eq!(net.change, Some((650, 400)));
            assert_eq!(income_chart, "Income");
            assert_eq!(income_bars, vec![("Jan".to_string(), 800), ("Feb".to_string(), 1000)]);
            assert_eq!(expense_chart, "Expenses");
            assert_eq!(expense_bars, vec![("Jan".to_string(), 400), ("Feb".to_string(), 0)]);
        }
        TrendCard::NoData { .. } => panic!("expected trends"),
    }
}

fn wallet_item(name: &str, balance: i64, archived: bool) -> EntityItem {
    EntityItem { name: name.to_string(), balance_minor: balance, archived, badges: Vec::new(), emoji: "💰" }
}

#[test]
fn entity_totals_line() {
    let line = entity_stats_line("Total:", "12.00", 1200, 3, "wallets", 1, Locale::En);
    assert_eq!(texts(&line), " Total: 12.00 (3 wallets)  │  Archived: 1");
    assert_eq!(line[1].tone, Some(Tone::Positive));
    assert!(line[1].bold);
    assert_eq!(line[3].tone, Some(Tone::Border));
    let line = entity_stats_line("Total:", "-1.00", -100, 0, "wallets", 0, Locale::En);
    assert_eq!(texts(&line), " Total: -1.00 (0 wallets)");
    assert_eq!(line[1].tone, Some(Tone::Negative));
}

#[test]
fn entity_footer_with_archived() {
    let line = entity_list_footer(false, "", true, Locale::En);
    assert_eq!(line[line.len() - 1].text, "Archived shown");
    assert_eq!(line[line.len() - 1].tone, Some(Tone::Warning));
}

#[test]
fn entity_item_line_and_hints() {
    let mut item = wallet_item("Cash", -500, true);
    item.badges.push(("[default]", Tone::Info));
    let hints = [("[e]", " edit"), ("[a]", " archive")];
    let lines = entity_item_lines(&item, "-5.00", "███", true, &hints, Locale::En);
    assert_eq!(lines.len(), 2);
    assert_eq!(
        texts(&lines[0]),
        format!("  💰 Cash{}{}-5.00  ███  [default]  [archived]", " ".repeat(12), " ".repeat(7))
    );
    assert_eq!(lines[0][1].tone, Some(Tone::Muted));
    assert_eq!(lines[0][2].tone, Some(Tone::Negative));
    assert_eq!(texts(&lines[1]), "     [e] edit[a] archive");
    let lines = entity_item_lines(&wallet_item("Bank", 0, false), "0.00", "", false, &hints, Locale::En);
    assert_eq!(lines.len(), 1);
    assert_eq!(lines[0][1].tone, Some(Tone::Text));
    assert_eq!(lines[0][2].tone, Some(Tone::Positive));
}

#[test]
fn entity_empty_states() {
    let lines = entity_empty_lines("bank", "Welcome!", &["No wallets yet."], &[("[c]", " create")], Locale::En);
    assert_eq!(lines.len(), 4);
    assert_eq!(texts(&lines[1]), "No results for \"bank\"");
    assert_eq!(texts(&lines[3]), "Press Esc to clear the search");
    let lines =
        entity_empty_lines("", "Welcome!", &["No wallets yet.", "Add one."], &[("[c]", " create")], Locale::En);
    let shown: Vec<String> = lines.iter().map(|l| texts(l)).collect();
    assert_eq!(shown, vec!["", "Welcome!", "", "No wallets yet.", "Add one.", "", "[c] create"]);
    assert!(lines[1][0].bold);
}

#[test]
fn entity_list_body_states() {
    let hints = [("[e]", " edit")];
    let none: Vec<EntityItem> = Vec::new();
    let strings: Vec<String> = Vec::new();
    assert!(matches!(
        entity_list_body(false, &none, &strings, &strings, 0, true, &hints, "", "W", &[], &[], Locale::En),
        EntityListBody::Loading("Loading...")
    ));
    assert!(matches!(
        entity_list_body(true, &none, &strings, &strings, 0, true, &hints, "", "W", &[], &[], Locale::En),
        EntityListBody::Empty(_)
    ));
    let items = vec![wallet_item("A", 1, false), wallet_item("B", 2, false)];
    let texts2 = vec!["0.01".to_string(), "0.02".to_string()];
    match entity_list_body(true, &items, &texts2, &texts2, 5, true, &hints, "", "W", &[], &[], Locale::En) {
        EntityListBody::Items { rows, highlighted } => {
            assert_eq!(highlighted, 1);
            assert_eq!(rows[0].len(), 1);
            assert_eq!(rows[1].len(), 1);
        }
        _ => panic!("expected rows"),
    }
    match entity_list_body(true, &items, &texts2, &texts2, 0, true, &hints, "", "W", &[], &[], Locale::En) {
        EntityListBody::Items { rows, highlighted } => {
            assert_eq!(highlighted, 0);
            assert_eq!(rows[0].len(), 2);
        }
        _ => panic!("expected rows"),
    }
}

#[test]
fn wallet_detail_screen() {
    let mut state = AppState::default();
    assert!(matches!(
        wallet_detail(&state),
        WalletDetail::Message { title: "Dettaglio wallet", message: "Caricamento..." }
    ));
    state.locale = Locale::En;
    state.snapshot = Some(Snapshot {
        wallets: vec![
            WalletInfo { id: 1, name: "Cash".to_string(), archived: false, balance_minor: 1500 },
            WalletInfo { id: 2, name: "Old".to_string(), archived: true, balance_minor: -30 },
        ],
        flows: Vec::new(),
    });
    assert!(matches!(
        wallet_detail(&state),
        WalletDetail::Message { title: "Wallet Detail", message: "Select a wallet to view details" }
    ));
    state.wallet_detail.wallet_id = Some(9);
    assert!(matches!(wallet_detail(&state), WalletDetail::Message { message: "Wallet not found", .. }));
    state.wallet_detail.wallet_id = Some(2);
    match wallet_detail(&state) {
        WalletDetail::Wallet { title, name_line, balance, balance_tone, error, rows, empty } => {
            assert_eq!(title, "Wallet Detail");
            assert_eq!(texts(&name_line), "  💰 Old  [archived]");
            assert!(name_line[1].bold);
            assert_eq!(balance, -30);
            assert_eq!(balance_tone, Tone::Negative);
            assert!(error.is_none());
            assert!(rows.is_empty());
            assert_eq!(empty, Some("No transactions for this wallet"));
        }
        WalletDetail::Message { .. } => panic!("expected the wallet"),
    }
    state.wallet_detail.wallet_id = Some(1);
    state.wallet_detail.transactions =
        vec![FlowTransaction { kind: TransactionKind::Income, amount_minor: 900, note: None }];
    match wallet_detail(&state) {
        WalletDetail::Wallet { name_line, balance_tone, rows, empty, .. } => {
            assert_eq!(texts(&name_line), "  💰 Cash  [active]");
            assert_eq!(balance_tone, Tone::Positive);
            assert_eq!(rows.len(), 1);
            assert_eq!(rows[0].icon, "▲");
            assert_eq!(rows[0].amount_tone, Tone::Positive);
            assert_eq!(rows[0].note, "-");
            assert!(empty.is_none());
        }
        WalletDetail::Message { .. } => panic!("expected the wallet"),
    }
    state.wallet_detail.error = Some("offline".to_string());
    match wallet_detail(&state) {
        WalletDetail::Wallet { error, rows, empty, .. } => {
            assert_eq!(error.unwrap(), "⚠ offline");
            assert!(rows.is_empty());
            assert!(empty.is_none());
        }
        WalletDetail::Message { .. } => panic!("expected the wallet"),
    }
}

fn bal_wallet(id: u128, name: &str, archived: bool, balance: i64) -> WalletInfo {
    WalletInfo { id, name: name.to_string(), archived, balance_minor: balance }
}

#[test]
fn wallets_ordered_by_balance_stably() {
    let ws = vec![
        bal_wallet(1, "A", false, 100),
        bal_wallet(2, "B", false, 300),
        bal_wallet(3, "C", true, 900),
        bal_wallet(4, "D", false, 100),
        bal_wallet(5, "E", false, -5),
        bal_wallet(6, "F", false, 300),
    ];
    assert_eq!(wallets_by_balance(&ws), vec![1, 5, 0, 3, 4]);
}

#[test]
fn utf8_lengths() {
    assert_eq!(byte_len("12.00"), 5);
    assert_eq!(byte_len("12,00 €"), 9);
    assert_eq!(byte_len("💰"), 4);
}

#[test]
fn quick_balances_card() {
    let mut state = english();
    let none = quick_balances(&state, 40, 10, &[], &[]);
    assert_eq!(none.title, "Quick Balances");
    assert!(none.centered);
    let shown: Vec<String> = none.lines.iter().map(|l| texts(l)).collect();
    assert_eq!(shown, vec!["", "No data yet", "", "Press a to add your first transaction"]);
    state.snapshot = Some(Snapshot {
        wallets: vec![bal_wallet(1, "Cash", false, 500), bal_wallet(2, "Bank", false, 9000)],
        flows: vec![
            FlowInfo { id: 10, name: "Unallocated".to_string(), archived: false, is_unallocated: true, balance_minor: 0 },
            FlowInfo { id: 11, name: "Food".to_string(), archived: false, is_unallocated: false, balance_minor: -100 },
        ],
    });
    let amounts = vec!["5.00".to_string(), "90.00".to_string()];
    let flow_amounts = vec!["0.00".to_string(), "-1.00".to_string()];
    let card = quick_balances(&state, 40, 10, &amounts, &flow_amounts);
    assert!(!card.centered);
    let shown: Vec<String> = card.lines.iter().map(|l| texts(l)).collect();
    assert_eq!(shown.len(), 6);
    assert_eq!(shown[0], "Wallets");
    assert!(card.lines[0][0].bold);
    assert_eq!(shown[1], format!("  💰 Bank{}{}90.00", " ".repeat(14), " ".repeat(12)));
    assert_eq!(shown[2], format!("  💰 Cash{}{}5.00", " ".repeat(14), " ".repeat(13)));
    assert_eq!(card.lines[2][3].tone, Some(Tone::Positive));
    assert_eq!(shown[3], "");
    assert_eq!(shown[4], "Budgets");
    assert_eq!(shown[5], format!("  📦 Food{}{}-1.00", " ".repeat(14), " ".repeat(12)));
    assert_eq!(card.lines[5][3].tone, Some(Tone::Negative));
    let short = quick_balances(&state, 40, 4, &amounts, &flow_amounts);
    assert_eq!(short.lines.len(), 3);
}

#[test]
fn category_breakdown_rows() {
    let mut state = english();
    state.stats.category_breakdown = vec![
        ("Groceries and household".to_string(), 600),
        ("Fuel".to_string(), 300),
        ("Cinema".to_string(), 100),
    ];
    let amounts = vec!["6.00".to_string(), "3.00".to_string(), "1.00".to_string()];
    let bars = vec!["#####".to_string(), "##".to_string(), "#".to_string()];
    let card = category_list(&state, 2, &amounts, &bars);
    assert_eq!(card.title, "Category Breakdown");
    assert_eq!(card.rows.len(), 2);
    let first: Vec<&str> = card.rows[0].iter().map(|p| p.text.as_str()).collect();
    assert_eq!(first[0], "1. ");
    assert_eq!(first[2], "Groceries an… ");
    assert_eq!(first[3], "      6.00");
    assert_eq!(first[5], "#####");
    assert_eq!(first[6], " 60%");
    assert_eq!(first[7], " ❗");
    assert_eq!(card.rows[0][7].tone, Some(Tone::Warning));
    let second: Vec<&str> = card.rows[1].iter().map(|p| p.text.as_str()).collect();
    assert_eq!(second[0], "2. ");
    assert_eq!(second[2], format!("Fuel{}", " ".repeat(10)));
    assert_eq!(second[6], " 30%");
    assert_eq!(second[7], "   ");
    let all = category_list(&state, 10, &amounts, &bars);
    assert_eq!(all.rows.len(), 3);
    assert_eq!(all.rows[2][6].text, " 10%");
}

#[test]
fn scope_picker_entries() {
    let mut state = english();
    state.transactions.mode = TransactionsMode::PickWallet;
    assert!(scope_picker(&state).is_none());
    state.snapshot = Some(Snapshot {
        wallets: vec![bal_wallet(1, "Cash", false, 0), bal_wallet(2, "Old", true, 0)],
        flows: vec![
            FlowInfo { id: 10, name: "Free".to_string(), archived: false, is_unallocated: true, balance_minor: 0 },
            FlowInfo { id: 11, name: "Trip".to_string(), archived: true, is_unallocated: false, balance_minor: 0 },
        ],
    });
    state.transactions.picker_index = 2;
    let p = scope_picker(&state).unwrap();
    assert_eq!(p.title, " Select wallet ");
    assert_eq!(p.entries, vec!["All wallets", "Cash", "Old (archived)"]);
    assert_eq!(p.selected, 2);
    state.transactions.mode = TransactionsMode::PickFlow;
    let p = scope_picker(&state).unwrap();
    assert_eq!(p.title, " Select flow ");
    assert_eq!(p.entries, vec!["All flows", "Free [default]", "Trip (archived)"]);
    state.transactions.mode = TransactionsMode::List;
    assert!(scope_picker(&state).is_none());
}

#[test]
fn forms_in_italian() {
    let mut state = AppState::default();
    state.snapshot = Some(Snapshot {
        wallets: vec![bal_wallet(1, "Cassa", false, 0), bal_wallet(2, "Banca", false, 0)],
        flows: Vec::new(),
    });
    state.transactions.form.kind = TransactionKind::Expense;
    let form = transaction_form(&state, &[1], &[]).unwrap();
    assert_eq!(form.title, "Nuova uscita");
    assert_eq!(texts(&form.lines[0]), "Importo   [▏]  ← Inserisci l'importo (obbligatorio)");
    assert_eq!(texts(&form.lines[7]), "[Enter] Salva  [Esc] Annulla  [Tab] Campo successivo  [↑↓] Scorri le scelte");
    state.transactions.mode = TransactionsMode::TransferWallet;
    state.transactions.transfer.to_index = 1;
    let transfer = transfer_form(&state).unwrap();
    assert_eq!(transfer.title, "Trasferimento tra wallet");
    assert_eq!(texts(&transfer.lines[0]), "Da      : Cassa");
    assert_eq!(texts(&transfer.lines[1]), "A       : Banca");
    assert_eq!(texts(&transfer.lines[5]), "Tab: avanti • ↑/↓: cambia • Invio: salva • Esc: annulla");
}

#[test]
fn filter_form_screen() {
    let mut state = english();
    state.transactions.filter.from_input = "2024-03-01".to_string();
    state.transactions.filter.kind_income = true;
    state.transactions.filter.kind_transfer_flow = true;
    let lines = filter_form_lines(&state);
    let shown: Vec<String> = lines.iter().map(|l| texts(l)).collect();
    assert_eq!(shown.len(), 8);
    assert_eq!(shown[0], "From    : 2024-03-01");
    assert_eq!(lines[0][0].tone, Some(Tone::Accent));
    assert_eq!(shown[1], "To      : ");
    assert_eq!(shown[3], "Transaction Types (press key to toggle)");
    assert_eq!(lines[3][0].tone, Some(Tone::Text));
    assert_eq!(
        shown[4],
        "  [✓] ▲ Income (i)    [✗] ▼ Expense (e)    [✗] ↩ Refund (r)"
    );
    assert_eq!(lines[4][1].tone, Some(Tone::Positive));
    assert_eq!(lines[4][3].tone, Some(Tone::Muted));
    assert_eq!(shown[5], "  [✗] ⇄ Wallet Transfer (w)    [✓] ⇄ Flow Transfer (f)");
    assert_eq!(shown[7], "[Tab] next  [Enter] apply  [Esc] cancel");
    state.transactions.filter.focus = FilterField::Kinds;
    state.transactions.filter.error = Some("bad date".to_string());
    let lines = filter_form_lines(&state);
    assert_eq!(lines.len(), 9);
    assert!(lines[3][0].bold);
    assert_eq!(lines[3][0].tone, Some(Tone::Accent));
    assert_eq!(texts(&lines[8]), "bad date");
}

#[test]
fn transaction_detail_panel_lines() {
    let mut state = english();
    match transaction_detail_panel(&state, "", &[]) {
        TransactionDetailPanel::Empty { title, message } => {
            assert_eq!(title, " Transaction ");
            assert_eq!(message, "No detail available");
        }
        TransactionDetailPanel::Detail { .. } => panic!("expected no detail"),
    }
    state.snapshot = Some(Snapshot { wallets: vec![bal_wallet(1, "Cash", false, 0)], flows: Vec::new() });
    state.transactions.detail = Some(TransactionDetail {
        kind: TransactionKind::Expense,
        date: CalendarDate { year: 2024, month: 3, day: 5 },
        hour: 9,
        minute: 7,
        amount_minor: 1250,
        category: Some("food".to_string()),
        note: None,
        voided: true,
        legs: vec![
            TransactionLeg { target: LegTarget::Wallet(1), amount_minor: -1250 },
            TransactionLeg { target: LegTarget::Flow(0xab), amount_minor: 0 },
        ],
    });
    let legs = vec!["-12.50".to_string(), "0.00".to_string()];
    match transaction_detail_panel(&state, "12.50", &legs) {
        TransactionDetailPanel::Detail { title, info, legs_title, legs } => {
            assert_eq!(title, " Details ");
            let shown: Vec<String> = info.iter().map(|l| texts(l)).collect();
            assert_eq!(shown[0], "Kind: ▼   Voided: yes");
            assert_eq!(info[0][6].tone, Some(Tone::Negative));
            assert_eq!(shown[1], "When: 05 Mar 2024 09:07");
            assert_eq!(shown[2], "Amount: 12.50");
            assert_eq!(shown[3], "Category: #food");
            assert_eq!(shown[4], "Note: -");
            assert_eq!(legs_title, " Legs ");
            assert_eq!(texts(&legs[0]), "Wallet: Cash  -12.50");
            assert_eq!(legs[0][4].tone, Some(Tone::Negative));
            assert_eq!(texts(&legs[1]), "Flow  : 00000000-0000-0000-0000-0000000000ab  0.00");
            assert_eq!(legs[1][4].tone, Some(Tone::Muted));
        }
        TransactionDetailPanel::Empty { .. } => panic!("expected the detail"),
    }
}

#[test]
fn recurring_form_rows() {
    let mut state = english();
    state.snapshot = Some(Snapshot { wallets: vec![bal_wallet(1, "Cash", false, 0)], flows: Vec::new() });
    state.recurring.form.amount = "9,99".to_string();
    state.recurring.form.focus = RecurringFormField::Amount;
    state.recurring.form.flow_index = 3;
    let form = recurring_form(&state);
    assert_eq!(form.title, " Recurring transaction ");
    assert_eq!(form.rows.len(), 12);
    let shown: Vec<String> = form.rows.iter().map(|l| texts(l)).collect();
    assert_eq!(shown[0], "  Kind: Expense");
    assert_eq!(form.rows[0][1].tone, Some(Tone::Muted));
    assert_eq!(shown[1], "▸ Amount: 9,99");
    assert_eq!(form.rows[1][1].tone, Some(Tone::Accent));
    assert!(form.rows[1][1].bold);
    assert_eq!(shown[2], "  Wallet: Cash");
    assert_eq!(shown[3], "  Flow: -");
    assert_eq!(shown[6], "  Frequency: Monthly");
    assert_eq!(shown[9], "  End date: ");
    assert_eq!(shown[10], "");
    assert_eq!(shown[11], " Save   Cancel  ");
    state.recurring.form.error = Some("amount required".to_string());
    let form = recurring_form(&state);
    assert_eq!(texts(&form.rows[10]), "amount required");
    assert_eq!(form.rows[10][0].tone, Some(Tone::Negative));
}

#[test]
fn alias_list_states() {
    let mut state = english();
    let list = alias_list(&state);
    assert_eq!(list.title, " Aliases for ? ");
    assert!(list.focused);
    match list.body {
        AliasBody::Empty(lines) => {
            let shown: Vec<String> = lines.iter().map(|l| texts(l)).collect();
            assert_eq!(shown, vec!["", "No aliases for this category", "", "Type in the input below to add one"]);
        }
        AliasBody::Rows { .. } => panic!("expected the empty state"),
    }
    state.categories.items = vec![CategoryInfo { name: "food".to_string() }];
    state.categories.aliases.items = vec!["grocery".to_string(), "market".to_string()];
    state.categories.aliases.selected = 7;
    state.categories.aliases.focus = AliasFocus::Input;
    let list = alias_list(&state);
    assert_eq!(list.title, " Aliases for food ");
    assert!(!list.focused);
    match list.body {
        AliasBody::Rows { rows, highlighted } => {
            assert_eq!(highlighted, 1);
            assert_eq!(texts(&rows[0]), "  grocery");
            assert_eq!(rows[1][1].tone, Some(Tone::Text));
        }
        AliasBody::Empty(_) => panic!("expected rows"),
    }
}

#[test]
fn merge_info_panel() {
    let mut state = english();
    let shown: Vec<String> = merge_info_lines(&state).iter().map(|l| texts(l)).collect();
    assert_eq!(
        shown,
        vec![
            "",
            "  Merge: - → -",
            "",
            "  Select target and press [Enter] for preview",
            "",
            "  [Enter] preview/merge  [Esc] cancel"
        ]
    );
    state.categories.items = vec![CategoryInfo { name: "food".to_string() }, CategoryInfo { name: "meals".to_string() }];
    state.categories.merge.from_index = 1;
    state.categories.merge.target_index = 0;
    state.categories.merge.preview = Some(MergePreview { ok: true, conflicts: Vec::new() });
    state.categories.merge.confirming = true;
    let lines = merge_info_lines(&state);
    assert_eq!(texts(&lines[1]), "  Merge: meals → food");
    assert_eq!(lines[1][1].tone, Some(Tone::Negative));
    assert_eq!(lines[1][3].tone, Some(Tone::Positive));
    assert_eq!(texts(&lines[3]), "  ✓ Preview OK. Press [Enter] to merge.");
    state.categories.merge.preview = Some(MergePreview {
        ok: false,
        conflicts: vec![MergeConflict { kind: "same_category".to_string(), value: String::new() }],
    });
    let lines = merge_info_lines(&state);
    assert_eq!(lines.len(), 7);
    assert_eq!(texts(&lines[3]), "  ⚠ Conflicts:");
    assert_eq!(texts(&lines[4]), "    • Cannot merge category with itself");
}

#[test]
fn member_form_lines() {
    let mut state = english();
    let form = member_form(&state);
    assert_eq!(form.title, " Add Member ");
    assert!(!form.focused);
    let shown: Vec<String> = form.lines.iter().map(|l| texts(l)).collect();
    assert_eq!(shown, vec!["  Username  __", "  Role      [VIEWER]"]);
    assert!(form.lines[0][0].bold);
    assert_eq!(form.lines[0][2].tone, Some(Tone::Accent));
    assert_eq!(form.lines[1][1].tone, Some(Tone::Muted));
    state.members.mode = MembersMode::Form;
    state.members.form.editing = true;
    state.members.form.username = "ada".to_string();
    state.members.form.focus = MemberFormField::Role;
    state.members.form.error = Some("unknown user".to_string());
    let form = member_form(&state);
    assert_eq!(form.title, " Edit Member ");
    assert!(form.focused);
    let shown: Vec<String> = form.lines.iter().map(|l| texts(l)).collect();
    assert_eq!(shown, vec!["  Username  ada", "  Role      [VIEWER]  ↑↓ change", "", "  ✗ unknown user"]);
    assert_eq!(form.lines[0][0].tone, Some(Tone::Muted));
}

#[test]
fn vault_overview_lines() {
    let mut state = english();
    let view = vault_view(&state);
    assert_eq!(view.title, "🏦 My vault");
    let shown: Vec<String> = view.lines.iter().map(|l| texts(l)).collect();
    assert_eq!(shown[0], format!("  Vault ID{}-", " ".repeat(6)));
    assert_eq!(shown[1], format!("  Currency{}EUR", " ".repeat(6)));
    assert_eq!(shown[2], format!("  Wallets{}0    Flows  0", " ".repeat(7)));
    assert_eq!(shown[3], "");
    assert_eq!(shown[4], "  Quick defaults");
    assert!(view.lines[4][0].bold);
    assert_eq!(shown[5], "  Default wallet  None");
    assert_eq!(view.lines[5][1].tone, Some(Tone::Muted));
    assert_eq!(shown[7], "");
    state.vault = Some(VaultInfo {
        name: Some("Home".to_string()),
        owner: None,
        id: Some("v-1".to_string()),
        currency: Some("Usd".to_string()),
    });
    state.snapshot = Some(Snapshot { wallets: vec![bal_wallet(1, "Cash", false, 0)], flows: Vec::new() });
    state.default_wallet_id = Some(1);
    state.vault_ui.error = Some("denied".to_string());
    let view = vault_view(&state);
    assert_eq!(view.title, "🏦 Home");
    let shown: Vec<String> = view.lines.iter().map(|l| texts(l)).collect();
    assert_eq!(shown[0], format!("  Vault ID{}v-1", " ".repeat(6)));
    assert_eq!(shown[1], format!("  Currency{}Usd", " ".repeat(6)));
    assert_eq!(shown[2], format!("  Wallets{}1    Flows  0", " ".repeat(7)));
    assert_eq!(shown[5], "  Default wallet  Cash");
    assert_eq!(view.lines[5][1].tone, Some(Tone::Text));
    assert_eq!(shown[7], "  ✗ denied");
}

#[test]
fn category_icons_are_one_char() {
    for name in ["Groceries", "Rent", "Car", "Pharmacy", "Cinema", "Shopping", "Bills", "Streaming", "Travel", "School", "Insurance", "Misc"] {
        let icon = get_category_icon(name);
        assert_eq!(icon.chars().count(), 1);
        assert!(!icon.contains('\u{FE0F}'));
    }
    assert_eq!(get_category_icon("Misc"), "📁");
}
