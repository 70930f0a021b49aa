use sparagne_tui::text::{format_number, t, Locale, NumberKey, TextKey};
use sparagne_tui::ui::entities::{
    cap_values, display_vault_name, mask_password, member_flow_name, merge_conflict_label,
    merge_pair, render_search_header_spans, role_badge, role_chip, truncate, CashFlowInfo,
    MembershipRole,
};
use sparagne_tui::ui::recurring::{self, format_amount, frequency_label, RecurrenceFrequency};
use sparagne_tui::ui::shell::{
    get_accounts_hints, get_categories_hints, get_context_hints, get_members_hints,
    get_preferences_hints, get_recurring_hints, get_settings_hints, get_transactions_hints,
    get_vault_hints, ContextHints, KeyHint, KeyName,
};
use sparagne_tui::ui::state::{
    find_flow, find_wallet, AccountsTab, AppState, CalendarDate, CategoryInfo, EntityListMode,
    FlowInfo, FlowQuery, GroupedTransaction, GroupingMode, MembersMode, QuickAddAmbiguousKind, QuickAmbiguous, RecurringMode,
    Section, SettingsTab, Snapshot, TransactionKind, TransactionsMode, VaultInfo, WalletInfo,
};
use sparagne_tui::ui::stats::{
    build_month_timeline, category_icon_of_lowercase, get_category_icon, month_name,
    month_short_name, net_change_parts, offset_month, percentage_change_parts, refresh_hint_spans,
    truncate_string,
};
use sparagne_tui::ui::transactions::{
    default_wallet_flow_names, filter_summary, filter_toggle_with_icon, format_date_label,
    group_title, grouping_key_label, recent_flow_names, recent_wallet_names, recents_line,
    resolve_ambiguous_display, resolve_flow_name, resolve_wallet_name, scope_label,
    signed_amount_minor, void_chip,
};
use sparagne_tui::ui::{Piece, Tone};
use sparagne_tui::validation::amount::parse_amount;

fn wallet(id: u128, name: &str, archived: bool) -> WalletInfo {
    WalletInfo { id, name: name.to_string(), archived, balance_minor: 0 }
}

fn flow(id: u128, name: &str, archived: bool, is_unallocated: bool) -> FlowInfo {
    FlowInfo { id, name: name.to_string(), archived, is_unallocated, balance_minor: 0 }
}

fn sample_state() -> AppState {
    let mut state = AppState::default();
    state.snapshot = Some(Snapshot {
        wallets: vec![
            wallet(1, "Cash", false),
            wallet(2, "Old bank", true),
            wallet(3, "Bank", false),
        ],
        flows: vec![
            flow(10, "Unallocated", false, true),
            flow(11, "Groceries", false, false),
            flow(12, "Holidays", true, false),
            flow(13, "Car", false, false),
        ],
    });
    state
}

fn keys(hints: &ContextHints) -> Vec<KeyHint> {
    match hints {
        ContextHints::Keys(v) => v.clone(),
        _ => Vec::new(),
    }
}

#[test]
fn text_catalogue() {
    assert_eq!(t(Locale::En, TextKey::TxnScopeAll), "All");
    assert_eq!(t(Locale::It, TextKey::TxnScopeAll), "Tutti");
    assert_eq!(format_number(Locale::It, NumberKey::ValidationLengthMax, 120), "Massimo 120 caratteri");
    assert_eq!(format_number(Locale::En, NumberKey::ValidationLengthMin, 0), "Minimum 0 characters");
    assert_eq!(Locale::default(), Locale::It);
}

#[test]
fn find_wallet_and_flow() {
    let state = sample_state();
    let snap = state.snapshot.as_ref().unwrap();
    assert_eq!(find_wallet(&snap.wallets, Some(2), false), Some(1));
    assert_eq!(find_wallet(&snap.wallets, Some(2), true), None);
    assert_eq!(find_wallet(&snap.wallets, None, true), Some(0));
    assert_eq!(find_flow(&snap.flows, FlowQuery::Id(12)), Some(2));
    assert_eq!(find_flow(&snap.flows, FlowQuery::ActiveId(12)), None);
    assert_eq!(find_flow(&snap.flows, FlowQuery::Unallocated), Some(0));
}

#[test]
fn scope_label_cases() {
    let mut state = sample_state();
    assert_eq!(scope_label(&state), "Tutti");
    state.locale = Locale::En;
    assert_eq!(scope_label(&state), "All");
    state.transactions.scope_wallet_id = Some(2);
    assert_eq!(scope_label(&state), "Wallet: Old bank");
    state.transactions.scope_wallet_id = Some(99);
    assert_eq!(scope_label(&state), "Wallet: ?");
    state.transactions.scope_flow_id = Some(13);
    assert_eq!(scope_label(&state), "Flow: Car");
    state.transactions.scope_flow_id = Some(98);
    assert_eq!(scope_label(&state), "Flow: ?");
}

#[test]
fn recent_names_skip_archived_and_unknown() {
    let mut state = sample_state();
    state.transactions.recent_wallet_ids = vec![3, 2, 77, 1];
    state.transactions.recent_flow_ids = vec![12, 13, 11];
    assert_eq!(recent_wallet_names(&state), vec!["Bank".to_string(), "Cash".to_string()]);
    assert_eq!(recent_flow_names(&state), vec!["Car".to_string(), "Groceries".to_string()]);
    let empty = AppState::default();
    assert!(recent_wallet_names(&empty).is_empty());
}

#[test]
fn recents_line_cases() {
    let mut state = sample_state();
    state.locale = Locale::En;
    assert_eq!(recents_line(&state), None);
    state.transactions.recent_categories =
        vec!["food".to_string(), "rent".to_string(), "fun".to_string(), "misc".to_string()];
    state.transactions.recent_wallet_ids = vec![1, 3];
    state.transactions.recent_flow_ids = vec![11];
    assert_eq!(
        recents_line(&state).unwrap(),
        "Recent: Categories: #food #rent #fun • Wallet: Cash, Bank • Flow: Groceries"
    );
}

#[test]
fn default_names_follow_priority() {
    let mut state = sample_state();
    assert_eq!(
        default_wallet_flow_names(&state),
        ("Cash".to_string(), "Unallocated".to_string())
    );
    state.transactions.recent_wallet_ids = vec![3];
    state.last_flow_id = Some(13);
    assert_eq!(default_wallet_flow_names(&state), ("Bank".to_string(), "Car".to_string()));
    state.default_wallet_id = Some(1);
    state.default_flow_id = Some(12);
    state.transactions.recent_flow_ids = vec![11];
    assert_eq!(
        default_wallet_flow_names(&state),
        ("Cash".to_string(), "Groceries".to_string())
    );
    state.transactions.scope_wallet_id = Some(3);
    state.transactions.scope_flow_id = Some(13);
    assert_eq!(default_wallet_flow_names(&state), ("Bank".to_string(), "Car".to_string()));
    assert_eq!(
        default_wallet_flow_names(&AppState::default()),
        ("-".to_string(), "-".to_string())
    );
    let mut no_flows = AppState::default();
    no_flows.snapshot = Some(Snapshot::default());
    assert_eq!(
        default_wallet_flow_names(&no_flows),
        ("-".to_string(), "Non in flow".to_string())
    );
}

#[test]
fn signed_amounts() {
    assert_eq!(signed_amount_minor(TransactionKind::Expense, 500), -500);
    assert_eq!(signed_amount_minor(TransactionKind::Expense, -500), -500);
    assert_eq!(signed_amount_minor(TransactionKind::Income, 500), 500);
    assert_eq!(signed_amount_minor(TransactionKind::Refund, -3), -3);
}

#[test]
fn resolve_names_fall_back_to_uuid() {
    let state = sample_state();
    assert_eq!(resolve_wallet_name(&state, 2), "Old bank");
    assert_eq!(resolve_flow_name(&state, 12), "Holidays");
    assert_eq!(
        resolve_wallet_name(&state, 0x0123_4567_89ab_cdef_0011_2233_4455_6677),
        "01234567-89ab-cdef-0011-223344556677"
    );
    assert_eq!(resolve_flow_name(&AppState::default(), 255), "00000000-0000-0000-0000-0000000000ff");
}

#[test]
fn filter_summary_cases() {
    let mut state = AppState::default();
    state.transactions.include_transfers = true;
    assert_eq!(filter_summary(&state), None);
    state.transactions.include_transfers = false;
    assert_eq!(filter_summary(&state).unwrap(), "transfers off");
    state.transactions.filter_from = Some(CalendarDate { year: 2024, month: 3, day: 5 });
    state.transactions.filter_to = Some(CalendarDate { year: 12024, month: 12, day: 31 });
    state.transactions.filter_kinds =
        Some(vec![TransactionKind::Income, TransactionKind::TransferFlow]);
    assert_eq!(
        filter_summary(&state).unwrap(),
        "from 2024-03-05 • to +12024-12-31 • kinds inc,tf • transfers off"
    );
    state.transactions.filter_kinds = Some(Vec::new());
    state.transactions.include_transfers = true;
    state.transactions.filter_to = None;
    state.transactions.filter_from = Some(CalendarDate { year: 24, month: 1, day: 9 });
    assert_eq!(filter_summary(&state).unwrap(), "from 0024-01-09");
}

#[test]
fn ambiguous_display_cases() {
    let mut state = AppState::default();
    let matches = vec![(1u128, "Cash".to_string()), (2u128, "Card".to_string())];
    let none: Option<String> = None;
    let query = Some("ca".to_string());
    assert_eq!(
        resolve_ambiguous_display(&state, &none, &matches, QuickAddAmbiguousKind::Wallet, "@"),
        ("-".to_string(), Tone::Muted, false)
    );
    assert_eq!(
        resolve_ambiguous_display(&state, &query, &[], QuickAddAmbiguousKind::Wallet, "@"),
        ("?@ca".to_string(), Tone::Warning, false)
    );
    assert_eq!(
        resolve_ambiguous_display(&state, &query, &matches[..1], QuickAddAmbiguousKind::Wallet, "@"),
        ("@Cash".to_string(), Tone::Accent, false)
    );
    assert_eq!(
        resolve_ambiguous_display(&state, &query, &matches, QuickAddAmbiguousKind::Wallet, "@"),
        ("@Cash".to_string(), Tone::Warning, true)
    );
    state.transactions.quick_ambiguous = Some(QuickAmbiguous {
        kind: QuickAddAmbiguousKind::Wallet,
        options: matches.clone(),
        selected: 1,
    });
    assert_eq!(
        resolve_ambiguous_display(&state, &query, &matches, QuickAddAmbiguousKind::Wallet, "@"),
        ("@Card".to_string(), Tone::Warning, true)
    );
    assert_eq!(
        resolve_ambiguous_display(&state, &query, &matches, QuickAddAmbiguousKind::Flow, "/"),
        ("/Cash".to_string(), Tone::Warning, true)
    );
    let amb = state.transactions.quick_ambiguous.as_ref().unwrap();
    assert_eq!(amb.current(), Some(&(2u128, "Card".to_string())));
}

#[test]
fn filter_toggle_text_and_tone() {
    assert_eq!(
        filter_toggle_with_icon("⇄", "Transfers", "t", true),
        ("[✓] ⇄ Transfers (t)".to_string(), Tone::Positive)
    );
    assert_eq!(
        filter_toggle_with_icon("⇄", "Transfers", "t", false),
        ("[✗] ⇄ Transfers (t)".to_string(), Tone::Muted)
    );
}

#[test]
fn month_names() {
    assert_eq!(month_name(1), "January");
    assert_eq!(month_name(12), "December");
    assert_eq!(month_name(13), "Unknown");
    assert_eq!(month_short_name(9), "Sep");
    assert_eq!(month_short_name(0), "???");
}

#[test]
fn offset_month_cases() {
    assert_eq!(offset_month(2024, 3, 0), (2024, 3));
    assert_eq!(offset_month(2024, 1, -1), (2023, 12));
    assert_eq!(offset_month(2024, 12, 1), (2025, 1));
    assert_eq!(offset_month(2024, 6, -18), (2022, 12));
    assert_eq!(offset_month(2024, 6, 30), (2026, 12));
    // Adding then going back gives the start month.
    let (y, m) = offset_month(2024, 5, 7);
    assert_eq!(offset_month(y, m, -7), (2024, 5));
    // Before year 0 the year is rounded toward zero.
    assert_eq!(offset_month(0, 1, -1), (0, 12));
}

#[test]
fn truncate_string_by_bytes() {
    assert_eq!(truncate_string("hello", 5), "hello");
    assert_eq!(truncate_string("hello world", 6), "hello…");
    assert_eq!(truncate_string("", 0), "");
}

#[test]
fn category_icons() {
    assert_eq!(get_category_icon("Food & Drinks"), "🍴");
    assert_eq!(get_category_icon("AFFITTO"), "🏠");
    assert_eq!(get_category_icon("Benzina"), "🚗");
    assert_eq!(get_category_icon("Bolletta luce"), "💡");
    assert_eq!(get_category_icon("Misc"), "📁");
    assert_eq!(category_icon_of_lowercase("netflix streaming"), "📱");
    assert_eq!(category_icon_of_lowercase("Viaggio"), "📁");
}

#[test]
fn recurring_helpers() {
    assert_eq!(frequency_label(RecurrenceFrequency::Monthly, Locale::En), "Monthly");
    assert_eq!(frequency_label(RecurrenceFrequency::Daily, Locale::It), "Giornaliera");
    assert_eq!(format_amount(12345), "123.45");
    assert_eq!(format_amount(-12305), "-123.05");
    assert_eq!(format_amount(-5), "0.05");
    assert_eq!(format_amount(0), "0.00");
    assert_eq!(format_amount(i64::MIN), "-92233720368547758.08");
    let state = sample_state();
    assert_eq!(recurring::resolve_wallet_name(&state, 2), "Bank");
    assert_eq!(recurring::resolve_wallet_name(&state, 3), "-");
    assert_eq!(recurring::resolve_flow_name(&state, 1), "Groceries");
    assert_eq!(recurring::resolve_flow_name(&AppState::default(), 0), "-");
}

#[test]
fn member_flow_and_merge() {
    let mut state = sample_state();
    assert_eq!(member_flow_name(&state), Some("Groceries".to_string()));
    state.members.flow_index = 1;
    assert_eq!(member_flow_name(&state), Some("Car".to_string()));
    state.members.flow_index = 2;
    assert_eq!(member_flow_name(&state), None);
    state.categories.items = vec![
        CategoryInfo { name: "Food".to_string() },
        CategoryInfo { name: "Meals".to_string() },
    ];
    state.categories.merge.from_index = 1;
    assert_eq!(merge_pair(&state), Some(("Meals".to_string(), "Food".to_string())));
    state.categories.merge.target_index = 5;
    assert_eq!(merge_pair(&state), None);
}

#[test]
fn merge_conflicts() {
    assert_eq!(merge_conflict_label("same_category", "x"), "Cannot merge category with itself");
    assert_eq!(merge_conflict_label("source_system", "Other"), "System category: Other");
    assert_eq!(merge_conflict_label("target_archived", "Old"), "Target is archived: Old");
    assert_eq!(merge_conflict_label("alias_conflict", "eat"), "Alias conflict: eat");
    assert_eq!(merge_conflict_label("name_conflict", "Food"), "Name conflict: Food");
    assert_eq!(merge_conflict_label("weird", "v"), "Conflict: weird (v)");
}

#[test]
fn vault_name_display() {
    let mut state = AppState::default();
    assert_eq!(display_vault_name(&state), None);
    state.vault = Some(VaultInfo {
        name: Some("Home".to_string()),
        owner: Some("anna".to_string()),
        id: None,
        currency: None,
    });
    state.login.username = "  anna ".to_string();
    assert_eq!(display_vault_name(&state), Some("Home".to_string()));
    state.login.username = "marco".to_string();
    assert_eq!(display_vault_name(&state), Some("Home (anna)".to_string()));
    state.vault = Some(VaultInfo {
        name: Some("Home".to_string()),
        owner: Some(String::new()),
        id: None,
        currency: None,
    });
    assert_eq!(display_vault_name(&state), Some("Home".to_string()));
    state.vault = Some(VaultInfo { name: None, owner: None, id: None, currency: None });
    assert_eq!(display_vault_name(&state), None);
}

#[test]
fn truncate_and_mask() {
    assert_eq!(truncate("abc", 3), "abc");
    assert_eq!(truncate("日本語です", 3), "日本…");
    assert_eq!(mask_password("abc"), "•••");
    assert_eq!(mask_password("é"), "•");
    assert_eq!(mask_password("日本"), "••");
    assert_eq!(mask_password(""), "");
}

#[test]
fn cap_values_cases() {
    let none = CashFlowInfo { max_balance: None, income_balance: None, balance: 5 };
    assert_eq!(cap_values(&none), None);
    let zero = CashFlowInfo { max_balance: Some(0), income_balance: None, balance: 5 };
    assert_eq!(cap_values(&zero), None);
    let net = CashFlowInfo { max_balance: Some(1000), income_balance: None, balance: -20 };
    assert_eq!(cap_values(&net), Some(("Net cap", 0, 1000)));
    let income = CashFlowInfo { max_balance: Some(1000), income_balance: Some(300), balance: -20 };
    assert_eq!(cap_values(&income), Some(("Income cap", 300, 1000)));
}

#[test]
fn context_hints_by_section() {
    let mut state = AppState::default();
    assert!(matches!(get_context_hints(&state), ContextHints::QuickAdd));
    state.section = Section::Analytics;
    assert_eq!(
        keys(&get_context_hints(&state)),
        vec![KeyHint { key: KeyName::R, label: TextKey::HintRefresh }]
    );
    state.section = Section::Transactions;
    assert!(matches!(get_transactions_hints(&state), ContextHints::QuickAdd));
    state.transactions.mode = TransactionsMode::Detail;
    assert_eq!(
        keys(&get_context_hints(&state)),
        vec![
            KeyHint { key: KeyName::E, label: TextKey::HintEdit },
            KeyHint { key: KeyName::D, label: TextKey::HintDelete },
        ]
    );
    state.transactions.mode = TransactionsMode::Filter;
    assert!(matches!(get_context_hints(&state), ContextHints::FormEditing));
    state.transactions.recurring_mode = true;
    assert_eq!(
        keys(&get_context_hints(&state)),
        vec![
            KeyHint { key: KeyName::C, label: TextKey::HintCreate },
            KeyHint { key: KeyName::E, label: TextKey::HintEdit },
        ]
    );
    state.recurring.mode = RecurringMode::Edit;
    assert!(matches!(get_recurring_hints(&state), ContextHints::FormEditing));
}

#[test]
fn context_hints_accounts_and_settings() {
    let mut state = AppState::default();
    state.section = Section::Accounts;
    assert_eq!(
        keys(&get_accounts_hints(&state)),
        vec![KeyHint { key: KeyName::C, label: TextKey::HintCreate }]
    );
    state.accounts_tab = AccountsTab::Budget;
    state.flows.mode = EntityListMode::Detail;
    assert!(matches!(get_context_hints(&state), ContextHints::DetailView));
    state.flows.mode = EntityListMode::Rename;
    assert!(matches!(get_context_hints(&state), ContextHints::FormEditing));
    state.section = Section::Settings;
    assert_eq!(keys(&get_categories_hints(&state)).len(), 1);
    state.settings_tab = SettingsTab::Members;
    assert_eq!(
        keys(&get_members_hints(&state)),
        vec![KeyHint { key: KeyName::A, label: TextKey::HintAdd }]
    );
    state.members.mode = MembersMode::Form;
    assert!(matches!(get_settings_hints(&state), ContextHints::FormEditing));
    state.settings_tab = SettingsTab::Preferences;
    assert_eq!(keys(&get_settings_hints(&state)), keys(&get_preferences_hints(&state)));
    assert_eq!(KeyName::Space.label(), "Space");
    state.settings_tab = SettingsTab::Vault;
    assert_eq!(keys(&get_vault_hints(&state)).len(), 1);
}

fn texts(pieces: &[Piece]) -> String {
    pieces.iter().map(|p| p.text.as_str()).collect::<Vec<_>>().join("|")
}

#[test]
fn month_timeline_line() {
    let line = build_month_timeline(2024, 1);
    assert_eq!(
        texts(&line),
        "Month: |January 2024|  |[◀|[Nov]|  |[Dec]|  |[Jan]*|  |[Feb]|  |[Mar]|▶]"
    );
    assert_eq!(line[8].tone, Some(Tone::Accent));
    assert!(line[8].bold);
    assert_eq!(line[4].tone, Some(Tone::Muted));
    assert_eq!(line[2].tone, None);
    let late = build_month_timeline(-3, 12);
    assert_eq!(late[1].text, "December -3");
}

#[test]
fn refresh_hint_pieces() {
    let hint = refresh_hint_spans(Locale::En);
    assert_eq!(texts(&hint), "No data. Press |r| to refresh.");
    assert_eq!(hint[1].tone, Some(Tone::Accent));
}

#[test]
fn change_parts_of_series() {
    let s = |v: &[i64]| v.iter().map(|x| ("m".to_string(), *x)).collect::<Vec<_>>();
    assert_eq!(percentage_change_parts(&s(&[100, 150])), Some((50, 100)));
    assert_eq!(percentage_change_parts(&s(&[5, -200, 100])), Some((300, 200)));
    assert_eq!(percentage_change_parts(&s(&[0, 10])), None);
    assert_eq!(percentage_change_parts(&s(&[10])), None);
    assert_eq!(
        percentage_change_parts(&s(&[i64::MIN, i64::MAX])),
        Some((i64::MAX as i128 - i64::MIN as i128, 1u128 << 63))
    );
    assert_eq!(net_change_parts(&s(&[100, 300]), &s(&[50, 100])), Some((150, 50)));
    assert_eq!(net_change_parts(&s(&[100, 300]), &s(&[100, 100])), None);
    assert_eq!(net_change_parts(&s(&[100]), &s(&[50, 100])), None);
}

#[test]
fn date_labels() {
    let today = CalendarDate { year: 2024, month: 3, day: 15 };
    let yesterday = CalendarDate { year: 2024, month: 3, day: 14 };
    assert_eq!(format_date_label(today, today, yesterday), "Today");
    assert_eq!(format_date_label(yesterday, today, yesterday), "Yesterday");
    let earlier = CalendarDate { year: 2024, month: 1, day: 5 };
    assert_eq!(format_date_label(earlier, today, yesterday), "Friday, 05 Jan");
    let leap = CalendarDate { year: 2024, month: 2, day: 29 };
    assert_eq!(format_date_label(leap, today, yesterday), "Thursday, 29 Feb");
    let christmas = CalendarDate { year: 2024, month: 12, day: 25 };
    assert_eq!(format_date_label(christmas, today, yesterday), "Wednesday, 25 Dec");
    let old_day = CalendarDate { year: -44, month: 3, day: 15 };
    let old_today = CalendarDate { year: -44, month: 6, day: 1 };
    assert_eq!(
        format_date_label(old_day, old_today, old_today),
        chrono::NaiveDate::from_ymd_opt(-44, 3, 15).unwrap().format("%A, %d %b").to_string()
    );
    let last_year = CalendarDate { year: 2023, month: 12, day: 31 };
    assert_eq!(format_date_label(last_year, today, yesterday), "31 Dec 2023");
}

#[test]
fn grouping_keys_and_labels() {
    let mut state = sample_state();
    state.locale = Locale::En;
    let today = CalendarDate { year: 2024, month: 3, day: 15 };
    let yesterday = CalendarDate { year: 2024, month: 3, day: 14 };
    let mut tx = GroupedTransaction {
        date: CalendarDate { year: 2024, month: 3, day: 14 },
        category: Some("  ".to_string()),
        wallet_id: Some(3),
        flow_id: None,
        kind: TransactionKind::Expense,
        amount_minor: 100,
    };
    assert_eq!(
        grouping_key_label(&state, &tx, GroupingMode::Date, today, yesterday),
        ("2024-03-14".to_string(), "Yesterday".to_string())
    );
    assert_eq!(
        grouping_key_label(&state, &tx, GroupingMode::Category, today, yesterday),
        ("Uncategorized".to_string(), "Uncategorized".to_string())
    );
    tx.category = Some("Food".to_string());
    assert_eq!(
        grouping_key_label(&state, &tx, GroupingMode::Category, today, yesterday),
        ("Food".to_string(), "Food".to_string())
    );
    assert_eq!(
        grouping_key_label(&state, &tx, GroupingMode::Wallet, today, yesterday),
        ("wallet:00000000-0000-0000-0000-000000000003".to_string(), "Bank".to_string())
    );
    assert_eq!(
        grouping_key_label(&state, &tx, GroupingMode::Envelope, today, yesterday),
        ("flow:none".to_string(), "No envelope".to_string())
    );
    tx.wallet_id = None;
    assert_eq!(
        grouping_key_label(&state, &tx, GroupingMode::Wallet, today, yesterday).1,
        "No wallet"
    );
    state.locale = Locale::It;
    assert_eq!(
        grouping_key_label(&state, &tx, GroupingMode::Wallet, today, yesterday).1,
        "Nessun wallet"
    );
    assert_eq!(group_title(GroupingMode::Date, "Today"), "Today");
    assert_eq!(group_title(GroupingMode::Envelope, "Car"), "Envelope: Car");
    assert_eq!(group_title(GroupingMode::Category, "Food"), "Category: Food");
}

#[test]
fn chips_and_badges() {
    let chip = void_chip(true).unwrap();
    assert_eq!(chip.text, "[VOID]");
    assert_eq!(chip.tone, Some(Tone::Negative));
    assert!(chip.bold);
    assert!(void_chip(false).is_none());
    assert_eq!(role_chip(MembershipRole::Owner), ("OWNER", Tone::Accent));
    assert_eq!(role_chip(MembershipRole::Viewer), ("VIEWER", Tone::Muted));
    let badge = role_badge("EDITOR", Tone::Positive);
    assert_eq!(badge.text, "[EDITOR]");
    assert_eq!(badge.tone, Some(Tone::Positive));
}

#[test]
fn search_header() {
    assert_eq!(
        texts(&render_search_header_spans(false, "", Locale::En)),
        "[c]| create  |[Ctrl+F]| search  |[Enter]| details"
    );
    let active = render_search_header_spans(true, "", Locale::En);
    assert_eq!(texts(&active), "Search: |...|  [Esc] clear");
    assert_eq!(active[1].tone, Some(Tone::Accent));
    let typed = render_search_header_spans(false, "car", Locale::It);
    assert_eq!(texts(&typed), "Cerca: |car|  [Esc] annulla");
    assert_eq!(typed[1].tone, Some(Tone::Text));
}

#[test]
fn format_amount_reads_back() {
    for x in [0i64, 5, 99, 100, 12345, -100, -12345, i64::MAX, -i64::MAX] {
        assert_eq!(parse_amount(&format_amount(x)), Some(x));
    }
    // Below one unit under zero the text carries no sign.
    assert_eq!(parse_amount(&format_amount(-5)), Some(5));
    assert_eq!(parse_amount(&format_amount(i64::MIN)), None);
}

#[test]
fn truncate_keeps_within_limit() {
    let s = "abcdefghij";
    for max in 1..12usize {
        let r = truncate(s, max);
        assert!(r.chars().count() <= max);
        if max >= s.len() {
            assert_eq!(r, s);
        } else {
            assert!(r.starts_with(&s[..max - 1]));
        }
    }
}
