//! What the screens read of the application state, held as plain values.
//!
//! Identifiers of wallets and flows are UUIDs held as their 128-bit value.

use crate::text::Locale;
use vstd::prelude::*;

verus! {

/// A wallet as the screens see it.
#[derive(Debug, Clone, Default)]
pub struct WalletInfo {
    pub id: u128,
    pub name: String,
    pub archived: bool,
    pub balance_minor: i64,
}

/// A flow (budget envelope) as the screens see it.
#[derive(Debug, Clone, Default)]
pub struct FlowInfo {
    pub id: u128,
    pub name: String,
    pub archived: bool,
    /// The flow that collects money not assigned to any other flow.
    pub is_unallocated: bool,
    /// The current balance, in minor units.
    pub balance_minor: i64,
}

/// The wallets and flows of the open vault.
#[derive(Debug, Clone, Default)]
pub struct Snapshot {
    pub wallets: Vec<WalletInfo>,
    pub flows: Vec<FlowInfo>,
}

/// Kinds of transactions.
#[derive(Debug, Clone, Copy, PartialEq, Eq, Structural, Default)]
pub enum TransactionKind {
    Income,
    #[default]
    Expense,
    Refund,
    TransferWallet,
    TransferFlow,
}

/// A calendar date.
#[derive(Debug, Clone, Copy, PartialEq, Eq, Structural, Default)]
pub struct CalendarDate {
    pub year: i32,
    pub month: u32,
    pub day: u32,
}

/// Which quick-add field a disambiguation is about.
#[derive(Debug, Clone, Copy, PartialEq, Eq, Structural)]
pub enum QuickAddAmbiguousKind {
    Category,
    Wallet,
    Flow,
}

/// A quick-add field that matched several entries, with the one selected.
#[derive(Debug, Clone)]
pub struct QuickAmbiguous {
    pub kind: QuickAddAmbiguousKind,
    pub options: Vec<(u128, String)>,
    pub selected: usize,
}

impl QuickAmbiguous {
    /// The selected option, if the selection is within the options.
    pub fn current(&self) -> (r: Option<&(u128, String)>)
        ensures
            self.selected < self.options@.len() ==> r == Some(&self.options@[self.selected as int]),
            self.selected >= self.options@.len() ==> r is None,
    {
        if self.selected < self.options.len() {
            Some(&self.options[self.selected])
        } else {
            None
        }
    }
}

/// Modes of the transactions screen.
#[derive(Debug, Clone, Copy, PartialEq, Eq, Structural, Default)]
pub enum TransactionsMode {
    #[default]
    List,
    Detail,
    Form,
    Edit,
    PickWallet,
    PickFlow,
    TransferPicker,
    TransferWallet,
    TransferFlow,
    Filter,
}

/// Where a leg of a transaction moves money: a wallet or a flow.
#[derive(Debug, Clone, Copy, PartialEq, Eq, Structural)]
pub enum LegTarget {
    Wallet(u128),
    Flow(u128),
}

/// A leg of a transaction: its target and signed amount.
#[derive(Debug, Clone, Copy, PartialEq, Eq, Structural)]
pub struct TransactionLeg {
    pub target: LegTarget,
    pub amount_minor: i64,
}

/// The detail of a transaction: its kind, when it happened (date, hour and
/// minute), amount, category, note, whether it is voided, and its legs.
#[derive(Debug, Clone)]
pub struct TransactionDetail {
    pub kind: TransactionKind,
    pub date: CalendarDate,
    pub hour: u32,
    pub minute: u32,
    pub amount_minor: i64,
    pub category: Option<String>,
    pub note: Option<String>,
    pub voided: bool,
    pub legs: Vec<TransactionLeg>,
}

/// The field of the filter form that has the focus.
#[derive(Debug, Clone, Copy, PartialEq, Eq, Structural, Default)]
pub enum FilterField {
    #[default]
    From,
    To,
    Kinds,
}

/// The filter form of the transaction list: the date range as typed, the
/// kinds shown and the error of the last apply.
#[derive(Debug, Clone, Default)]
pub struct FilterForm {
    pub from_input: String,
    pub to_input: String,
    pub focus: FilterField,
    pub kind_income: bool,
    pub kind_expense: bool,
    pub kind_refund: bool,
    pub kind_transfer_wallet: bool,
    pub kind_transfer_flow: bool,
    pub error: Option<String>,
}

/// The field of the transfer form that has the focus.
#[derive(Debug, Clone, Copy, PartialEq, Eq, Structural, Default)]
pub enum TransferField {
    #[default]
    From,
    To,
    Amount,
    Note,
    OccurredAt,
}

/// The transfer form: between two wallets or two flows.
#[derive(Debug, Clone, Default)]
pub struct TransferState {
    /// Whether an existing transfer is being edited.
    pub editing: bool,
    /// Positions among the active wallets (or flows).
    pub from_index: usize,
    pub to_index: usize,
    pub amount: String,
    pub note: String,
    pub occurred_at: String,
    pub focus: TransferField,
    pub error: Option<String>,
}

/// The field of the transaction form that has the focus.
#[derive(Debug, Clone, Copy, PartialEq, Eq, Structural, Default)]
pub enum TransactionFormField {
    #[default]
    Amount,
    Wallet,
    Flow,
    Category,
    Note,
    OccurredAt,
}

/// The transaction form.
#[derive(Debug, Clone, Default)]
pub struct TransactionForm {
    pub kind: TransactionKind,
    /// Whether an existing transaction is being edited.
    pub editing: bool,
    pub amount: String,
    /// Positions in the form's wallet and flow lists.
    pub wallet_index: usize,
    pub flow_index: usize,
    pub category: String,
    pub note: String,
    pub occurred_at: String,
    pub focus: TransactionFormField,
    pub error: Option<String>,
}

/// State of the transactions screen.
#[derive(Debug, Clone, Default)]
pub struct TransactionsState {
    pub scope_wallet_id: Option<u128>,
    pub scope_flow_id: Option<u128>,
    pub recent_wallet_ids: Vec<u128>,
    pub recent_flow_ids: Vec<u128>,
    pub recent_categories: Vec<String>,
    pub filter_from: Option<CalendarDate>,
    pub filter_to: Option<CalendarDate>,
    pub filter_kinds: Option<Vec<TransactionKind>>,
    pub include_transfers: bool,
    pub quick_ambiguous: Option<QuickAmbiguous>,
    pub mode: TransactionsMode,
    pub recurring_mode: bool,
    pub transfer: TransferState,
    pub form: TransactionForm,
    /// The text of the quick-add bar.
    pub quick_input: String,
    /// Whether the quick-add bar has the focus.
    pub quick_active: bool,
    /// The error of the last quick-add entry.
    pub quick_error: Option<String>,
    /// The search query of the transaction list.
    pub search_query: String,
    /// Whether transactions are being marked for a bulk action.
    pub visual_mode: bool,
    /// The highlighted entry of the wallet or flow picker.
    pub picker_index: usize,
    /// The filter form.
    pub filter: FilterForm,
    /// The detail of the selected transaction, once loaded.
    pub detail: Option<TransactionDetail>,
}

/// How the transaction list is grouped.
#[derive(Debug, Clone, Copy, PartialEq, Eq, Structural, Default)]
pub enum GroupingMode {
    #[default]
    Date,
    Category,
    Wallet,
    Envelope,
}

/// What the transaction list reads of a transaction.
#[derive(Debug, Clone)]
pub struct GroupedTransaction {
    /// The day it happened on, in the local zone.
    pub date: CalendarDate,
    pub category: Option<String>,
    pub wallet_id: Option<u128>,
    pub flow_id: Option<u128>,
    pub kind: TransactionKind,
    /// The amount in minor units, as stored (without the sign of its kind).
    pub amount_minor: i64,
}

/// Top-level sections of the interface.
#[derive(Debug, Clone, Copy, PartialEq, Eq, Structural, Default)]
pub enum Section {
    #[default]
    Home,
    Transactions,
    Accounts,
    Analytics,
    Settings,
}

/// Tabs of the accounts section.
#[derive(Debug, Clone, Copy, PartialEq, Eq, Structural, Default)]
pub enum AccountsTab {
    #[default]
    Wallets,
    Budget,
}

/// Modes of the wallet and flow lists.
#[derive(Debug, Clone, Copy, PartialEq, Eq, Structural, Default)]
pub enum EntityListMode {
    #[default]
    List,
    Detail,
    Create,
    Rename,
}

/// Tabs of the settings section.
#[derive(Debug, Clone, Copy, PartialEq, Eq, Structural, Default)]
pub enum SettingsTab {
    #[default]
    Categories,
    Vault,
    Members,
    Preferences,
}

/// Modes of the categories screen.
#[derive(Debug, Clone, Copy, PartialEq, Eq, Structural, Default)]
pub enum CategoriesMode {
    #[default]
    List,
    Merge,
    Create,
    Rename,
    Aliases,
}

/// Modes of the vault screen.
#[derive(Debug, Clone, Copy, PartialEq, Eq, Structural, Default)]
pub enum VaultMode {
    #[default]
    View,
    Create,
    Defaults,
    Select,
}

/// Modes of the members screen.
#[derive(Debug, Clone, Copy, PartialEq, Eq, Structural, Default)]
pub enum MembersMode {
    #[default]
    List,
    Form,
}

/// Modes of the recurring transactions screen.
#[derive(Debug, Clone, Copy, PartialEq, Eq, Structural, Default)]
pub enum RecurringMode {
    #[default]
    List,
    Create,
    Edit,
}

/// A category as the screens see it.
#[derive(Debug, Clone, Default)]
pub struct CategoryInfo {
    pub name: String,
}

/// A conflict found by a merge preview: its kind and the value involved.
#[derive(Debug, Clone)]
pub struct MergeConflict {
    pub kind: String,
    pub value: String,
}

/// The answer to a merge preview: whether the merge can go ahead, and the
/// conflicts when it cannot.
#[derive(Debug, Clone)]
pub struct MergePreview {
    pub ok: bool,
    pub conflicts: Vec<MergeConflict>,
}

/// The two categories picked for a merge, as positions in the list, the
/// preview of the merge and whether it awaits the final confirmation.
#[derive(Debug, Clone, Default)]
pub struct MergeState {
    pub from_index: usize,
    pub target_index: usize,
    pub preview: Option<MergePreview>,
    pub confirming: bool,
}

/// State of the categories screen.
#[derive(Debug, Clone, Default)]
pub struct CategoriesState {
    pub items: Vec<CategoryInfo>,
    pub merge: MergeState,
    pub mode: CategoriesMode,
    /// The position of the selected category.
    pub selected: usize,
    pub aliases: AliasesState,
}

/// The part of the alias screen that has the focus.
#[derive(Debug, Clone, Copy, PartialEq, Eq, Structural, Default)]
pub enum AliasFocus {
    #[default]
    List,
    Input,
}

/// The aliases of the selected category: the aliases, the selected one and
/// the focus.
#[derive(Debug, Clone, Default)]
pub struct AliasesState {
    pub items: Vec<String>,
    pub selected: usize,
    pub focus: AliasFocus,
}

/// State of the members screen.
#[derive(Debug, Clone, Default)]
pub struct MembersState {
    /// Position of the picked flow among the active, allocated flows.
    pub flow_index: usize,
    pub mode: MembersMode,
    pub form: MemberForm,
}

/// The field of the member form that has the focus.
#[derive(Debug, Clone, Copy, PartialEq, Eq, Structural, Default)]
pub enum MemberFormField {
    #[default]
    Username,
    Role,
}

/// The form that adds or edits a member: the username typed, the role, the
/// focus and the error.
#[derive(Debug, Clone, Default)]
pub struct MemberForm {
    pub username: String,
    pub role: crate::ui::entities::MembershipRole,
    pub editing: bool,
    pub focus: MemberFormField,
    pub error: Option<String>,
}

/// The open vault.
#[derive(Debug, Clone, Default)]
pub struct VaultInfo {
    pub name: Option<String>,
    /// The user who owns the vault.
    pub owner: Option<String>,
    pub id: Option<String>,
    /// The code of the vault's currency, as written.
    pub currency: Option<String>,
}

/// What the login form holds.
#[derive(Debug, Clone, Default)]
pub struct LoginState {
    pub username: String,
}

/// State of a wallet or flow list screen.
#[derive(Debug, Clone, Copy, Default)]
pub struct EntityListState {
    pub mode: EntityListMode,
}

/// State of the vault screen.
#[derive(Debug, Clone, Default)]
pub struct VaultUiState {
    pub mode: VaultMode,
    pub defaults: DefaultsState,
    /// The error of the last vault action.
    pub error: Option<String>,
}

/// The field of the quick defaults form that has the focus.
#[derive(Debug, Clone, Copy, PartialEq, Eq, Structural, Default)]
pub enum DefaultsField {
    #[default]
    Wallet,
    Flow,
}

/// State of the quick defaults form: the picked rows (0 is "None", `k`
/// the `k`-th active entry), the focus and the last error.
#[derive(Debug, Clone, Default)]
pub struct DefaultsState {
    pub wallet_index: usize,
    pub flow_index: usize,
    pub focus: DefaultsField,
    pub error: Option<String>,
}

/// State of the recurring transactions screen.
#[derive(Debug, Clone, Default)]
pub struct RecurringState {
    pub mode: RecurringMode,
    pub form: RecurringForm,
}

/// Whether a recurring transaction is an income or an expense.
#[derive(Debug, Clone, Copy, PartialEq, Eq, Structural, Default)]
pub enum RecurringKind {
    Income,
    #[default]
    Expense,
}

/// The field of the recurring form that has the focus.
#[derive(Debug, Clone, Copy, PartialEq, Eq, Structural, Default)]
pub enum RecurringFormField {
    #[default]
    Kind,
    Amount,
    Wallet,
    Flow,
    Category,
    Note,
    Frequency,
    DayOfPeriod,
    StartDate,
    EndDate,
}

/// The form of a recurring transaction: the texts typed, the wallet and
/// flow picked by position, the frequency, the focus and the error.
#[derive(Debug, Clone, Default)]
pub struct RecurringForm {
    pub kind: RecurringKind,
    pub amount: String,
    pub wallet_index: usize,
    pub flow_index: usize,
    pub category: String,
    pub note: String,
    pub frequency: crate::ui::recurring::RecurrenceFrequency,
    pub day_of_period: String,
    pub start_date: String,
    pub end_date: String,
    pub focus: RecurringFormField,
    pub error: Option<String>,
}

/// How much space the lists take.
#[derive(Debug, Clone, Copy, PartialEq, Eq, Structural, Default)]
pub enum Density {
    Compact,
    #[default]
    Normal,
    Comfortable,
}

/// The field of the preferences screen that has the focus.
#[derive(Debug, Clone, Copy, PartialEq, Eq, Structural, Default)]
pub enum PreferencesField {
    #[default]
    EmojiMode,
    Density,
}

/// State of the preferences screen.
#[derive(Debug, Clone, Copy, Default)]
pub struct PreferencesState {
    pub focus: PreferencesField,
}

/// A recent transaction of a flow, as the flow detail shows it.
#[derive(Debug, Clone)]
pub struct FlowTransaction {
    pub kind: TransactionKind,
    pub amount_minor: i64,
    pub note: Option<String>,
}

/// State of the flow detail: the flow shown, its balances, its recent
/// transactions and the error of loading them.
#[derive(Debug, Clone, Default)]
pub struct FlowDetailState {
    pub flow_id: Option<u128>,
    pub detail: Option<crate::ui::entities::CashFlowInfo>,
    pub transactions: Vec<FlowTransaction>,
    pub error: Option<String>,
}

/// State of the wallet detail: the wallet shown, its recent transactions and
/// the error of loading them.
#[derive(Debug, Clone, Default)]
pub struct WalletDetailState {
    pub wallet_id: Option<u128>,
    pub transactions: Vec<FlowTransaction>,
    pub error: Option<String>,
}

/// What the statistics screens read.
#[derive(Debug, Clone, Default)]
pub struct StatsState {
    /// The month shown: its year and its month (1 to 12).
    pub current_year: i32,
    pub current_month: u32,
    pub current_month_income: i64,
    pub current_month_expenses: i64,
    /// The all-time balance of the vault, once loaded.
    pub balance: Option<i64>,
    /// Income and expenses by month, oldest first.
    pub monthly_income: Vec<(String, i64)>,
    pub monthly_trend: Vec<(String, i64)>,
    /// The month's expenses by category, in the order the screen lists them.
    pub category_breakdown: Vec<(String, i64)>,
    /// The error of the last load.
    pub error: Option<String>,
}

/// The application state the screens read.
#[derive(Debug, Clone, Default)]
pub struct AppState {
    pub locale: Locale,
    pub section: Section,
    pub accounts_tab: AccountsTab,
    pub settings_tab: SettingsTab,
    pub snapshot: Option<Snapshot>,
    pub transactions: TransactionsState,
    pub default_wallet_id: Option<u128>,
    pub default_flow_id: Option<u128>,
    pub last_flow_id: Option<u128>,
    pub categories: CategoriesState,
    pub members: MembersState,
    pub vault: Option<VaultInfo>,
    pub login: LoginState,
    pub wallets: EntityListState,
    pub flows: EntityListState,
    pub vault_ui: VaultUiState,
    pub recurring: RecurringState,
    /// Whether amounts and labels are decorated with emoji.
    pub emoji_mode: bool,
    pub density: Density,
    pub preferences: PreferencesState,
    pub flow_detail: FlowDetailState,
    pub wallet_detail: WalletDetailState,
    pub stats: StatsState,
}

/// A wallet is picked by `id` (any id when `None`), and must be active when `active_only`.
pub open spec fn wallet_fits(w: WalletInfo, id: Option<u128>, active_only: bool) -> bool {
    (id is None || w.id == id->0) && (!active_only || !w.archived)
}

/// The first wallet at or after `from` that fits.
pub open spec fn wallet_from(ws: Seq<WalletInfo>, id: Option<u128>, active_only: bool, from: int) -> Option<int>
    decreases ws.len() - from,
{
    if from < 0 || from >= ws.len() {
        None
    } else if wallet_fits(ws[from], id, active_only) {
        Some(from)
    } else {
        wallet_from(ws, id, active_only, from + 1)
    }
}

/// Ways of picking a flow.
#[derive(Debug, Clone, Copy, PartialEq, Eq, Structural)]
pub enum FlowQuery {
    /// The flow with this id.
    Id(u128),
    /// The active flow with this id.
    ActiveId(u128),
    /// The flow that collects unallocated money.
    Unallocated,
}

/// Whether a flow answers a query.
pub open spec fn flow_fits(f: FlowInfo, q: FlowQuery) -> bool {
    match q {
        FlowQuery::Id(id) => f.id == id,
        FlowQuery::ActiveId(id) => f.id == id && !f.archived,
        FlowQuery::Unallocated => f.is_unallocated,
    }
}

/// The first flow at or after `from` that answers the query.
pub open spec fn flow_from(fs: Seq<FlowInfo>, q: FlowQuery, from: int) -> Option<int>
    decreases fs.len() - from,
{
    if from < 0 || from >= fs.len() {
        None
    } else if flow_fits(fs[from], q) {
        Some(from)
    } else {
        flow_from(fs, q, from + 1)
    }
}

/// The position of the first wallet that fits.
pub fn find_wallet(ws: &Vec<WalletInfo>, id: Option<u128>, active_only: bool) -> (r: Option<usize>)
    ensures
        r is Some <==> wallet_from(ws@, id, active_only, 0) is Some,
        r matches Some(i) ==> wallet_from(ws@, id, active_only, 0) == Some(i as int) && i < ws@.len(),
{
    let mut i: usize = 0;
    while i < ws.len()
        invariant
            i <= ws@.len(),
            wallet_from(ws@, id, active_only, 0) == wallet_from(ws@, id, active_only, i as int),
        decreases ws.len() - i,
    {
        let w = &ws[i];
        let fits = (match id {
            None => true,
            Some(x) => w.id == x,
        }) && (!active_only || !w.archived);
        if fits {
            return Some(i);
        }
        i = i + 1;
    }
    None
}

/// The position of the first flow that answers the query.
pub fn find_flow(fs: &Vec<FlowInfo>, q: FlowQuery) -> (r: Option<usize>)
    ensures
        r is Some <==> flow_from(fs@, q, 0) is Some,
        r matches Some(i) ==> flow_from(fs@, q, 0) == Some(i as int) && i < fs@.len(),
{
    let mut i: usize = 0;
    while i < fs.len()
        invariant
            i <= fs@.len(),
            flow_from(fs@, q, 0) == flow_from(fs@, q, i as int),
        decreases fs.len() - i,
    {
        let f = &fs[i];
        let fits = match q {
            FlowQuery::Id(id) => f.id == id,
            FlowQuery::ActiveId(id) => f.id == id && !f.archived,
            FlowQuery::Unallocated => f.is_unallocated,
        };
        if fits {
            return Some(i);
        }
        i = i + 1;
    }
    None
}

} // verus!
