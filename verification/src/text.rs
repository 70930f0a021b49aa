//! Localized user-facing texts.
//!
//! Every message the library shows is looked up by a [`TextKey`] in the
//! catalogue of a [`Locale`].  Messages that carry a value (such as a length
//! limit) are made of the text before and the text after that value.

use crate::strings::{decimal, push_decimal};
use vstd::prelude::*;

verus! {

/// Languages the interface is available in.
#[derive(Debug, Clone, Copy, PartialEq, Eq, Structural, Default)]
pub enum Locale {
    /// English.
    En,
    /// Italian.
    #[default]
    It,
}

/// Keys of the message catalogue.
#[derive(Debug, Clone, Copy, PartialEq, Eq, Structural)]
pub enum TextKey {
    ValidationRequired,
    ValidationAmountInvalid,
    ValidationAmountPositive,
    ValidationDateInvalid,
    ValidationDateRequired,
    TxnScopeAll,
    TxnRecentsPrefix,
    TxnRecentsCategories,
    TxnRecentsWallet,
    TxnRecentsFlow,
    RecurringFreqDaily,
    RecurringFreqWeekly,
    RecurringFreqMonthly,
    RecurringFreqYearly,
    HintRefresh,
    HintEdit,
    HintDelete,
    HintCreate,
    HintToggle,
    HintBack,
    HintAdd,
    StatsNa,
    StatsNoData,
    StatsRefreshHint,
    SearchLabel,
    SearchClearShort,
    TxnUncategorized,
    TxnNoWallet,
    TxnNoEnvelope,
    StatsMoM,
    StatsThisMonth,
    QuickAddPlaceholder,
    QuickAddSyntaxHint,
    QuickAddSyntaxShort,
    QuickAddExamples,
    QuickAddCycle,
    QuickAddToday,
    QuickAddEnvelopeSuggestions,
    LoadingGeneric,
    FlowSelectPrompt,
    FlowNotFound,
    HomeNoActivityYet,
    HomeAddFirstTxn,
    StatsMonthSummary,
    StatsInc,
    StatsExp,
    StatsIncome,
    StatsExpenses,
    StatsExpenseOverIncome,
    StatsNoIncomeToCompare,
    StatsNet,
    StatsBalance,
    StatsMonthlyTrend,
    StatsMonthlyTrendNoData,
    StatsFinancialTrends,
    StatsNetSavings,
    EntityArchivedOn,
    EntityBadgeArchived,
    EntityArchivedCount,
    SearchNoResults,
    SearchClearHint,
    WalletDetailTitle,
    WalletSelectPrompt,
    WalletNotFound,
    WalletNoTransactions,
    HomeQuickBalances,
    HomeNoDataYet,
    HomeWallets,
    HomeBudgets,
    StatsCategoryBreakdown,
    PickerAllWallets,
    PickerAllFlows,
    PickerSelectWallet,
    PickerSelectFlow,
    PickerSuffixArchived,
    PickerBadgeUnallocated,
    FormAmount,
    FormWallet,
    FormFlow,
    FormCategory,
    FormNote,
    FormWhen,
    FormHelperAmount,
    FormHelperWallet,
    FormHelperFlow,
    FormHelperCategory,
    FormHelperNote,
    FormHelperWhen,
    FormHintSave,
    FormHintCancel,
    FormHintNextField,
    FormHintCycleChoices,
    FormNewIncome,
    FormEditIncome,
    FormNewExpense,
    FormEditExpense,
    FormNewRefund,
    FormEditRefund,
    FormNewTransaction,
    FormEditTransaction,
    TransferWalletTitle,
    TransferEditWalletTitle,
    TransferFlowTitle,
    TransferEditFlowTitle,
    TransferFrom,
    TransferTo,
    TransferFormHints,
    FlowNoTransactions,
    DialogTransaction,
    UiNoDetailAvailable,
    TxnDetailTitle,
    TxnDetailKind,
    TxnDetailVoided,
    TxnDetailVoidedYes,
    TxnDetailVoidedNo,
    TxnDetailWhen,
    TxnDetailAmount,
    TxnDetailCategory,
    TxnDetailNote,
    TxnDetailLegsTitle,
    TxnDetailLegWallet,
    TxnDetailLegFlow,
    RecurringFormTitle,
    RecurringKindIncome,
    RecurringKindExpense,
    RecurringFormKind,
    RecurringFormAmount,
    RecurringFormFrequency,
    RecurringFormDay,
    RecurringFormStartDate,
    RecurringFormEndDate,
    VaultDefaultName,
    VaultIdLabel,
    VaultCurrencyLabel,
    SectionWallets,
    SectionFlows,
    VaultQuickDefaults,
    VaultDefaultWallet,
    VaultDefaultFlow,
    UiNone,
}

/// Keys of the messages that carry one number.
#[derive(Debug, Clone, Copy, PartialEq, Eq, Structural)]
pub enum NumberKey {
    /// A text is shorter than its minimum length.
    ValidationLengthMin,
    /// A text is longer than its maximum length.
    ValidationLengthMax,
}

/// The catalogue: the text of `key` in `locale`.
pub open spec fn message(locale: Locale, key: TextKey) -> Seq<char> {
    match locale {
        Locale::En => match key {
            TextKey::ValidationRequired => "This field is required"@,
            TextKey::ValidationAmountInvalid => "Invalid amount"@,
            TextKey::ValidationAmountPositive => "Amount must be positive"@,
            TextKey::ValidationDateInvalid => "Invalid date"@,
            TextKey::ValidationDateRequired => "Date is required"@,
            TextKey::TxnScopeAll => "All"@,
            TextKey::TxnRecentsPrefix => "Recent: "@,
            TextKey::TxnRecentsCategories => "Categories: "@,
            TextKey::TxnRecentsWallet => "Wallet: "@,
            TextKey::TxnRecentsFlow => "Flow: "@,
            TextKey::RecurringFreqDaily => "Daily"@,
            TextKey::RecurringFreqWeekly => "Weekly"@,
            TextKey::RecurringFreqMonthly => "Monthly"@,
            TextKey::RecurringFreqYearly => "Yearly"@,
            TextKey::HintRefresh => "refresh"@,
            TextKey::HintEdit => "edit"@,
            TextKey::HintDelete => "delete"@,
            TextKey::HintCreate => "create"@,
            TextKey::HintToggle => "toggle"@,
            TextKey::HintBack => "back"@,
            TextKey::HintAdd => "add"@,
            TextKey::StatsNa => "N/A"@,
            TextKey::StatsNoData => "No data. Press "@,
            TextKey::StatsRefreshHint => " to refresh."@,
            TextKey::SearchLabel => "Search: "@,
            TextKey::SearchClearShort => "  [Esc] clear"@,
            TextKey::TxnUncategorized => "Uncategorized"@,
            TextKey::TxnNoWallet => "No wallet"@,
            TextKey::TxnNoEnvelope => "No envelope"@,
            TextKey::StatsMoM => "MoM"@,
            TextKey::StatsThisMonth => "This month"@,
            TextKey::QuickAddPlaceholder => "Type an entry, e.g. 12.50 lunch #food"@,
            TextKey::QuickAddSyntaxHint => "amount note #category @wallet >flow"@,
            TextKey::QuickAddSyntaxShort => "amount note #category @wallet >flow"@,
            TextKey::QuickAddExamples => "Examples: "@,
            TextKey::QuickAddCycle => " cycle"@,
            TextKey::QuickAddToday => "today"@,
            TextKey::QuickAddEnvelopeSuggestions => "Envelopes: "@,
            TextKey::LoadingGeneric => "Loading..."@,
            TextKey::FlowSelectPrompt => "Select a flow to view details"@,
            TextKey::FlowNotFound => "Flow not found"@,
            TextKey::HomeNoActivityYet => "No activity yet"@,
            TextKey::HomeAddFirstTxn => "Press a to add your first transaction"@,
            TextKey::StatsMonthSummary => "Month Summary"@,
            TextKey::StatsInc => "Inc"@,
            TextKey::StatsExp => "Exp"@,
            TextKey::StatsIncome => "Income"@,
            TextKey::StatsExpenses => "Expenses"@,
            TextKey::StatsExpenseOverIncome => "Expenses / income"@,
            TextKey::StatsNoIncomeToCompare => "No income to compare"@,
            TextKey::StatsNet => "Net"@,
            TextKey::StatsBalance => "Balance"@,
            TextKey::StatsMonthlyTrend => "Monthly Trend"@,
            TextKey::StatsMonthlyTrendNoData => "No trend data yet"@,
            TextKey::StatsFinancialTrends => "Financial Trends"@,
            TextKey::StatsNetSavings => "Net savings"@,
            TextKey::EntityArchivedOn => "Archived shown"@,
            TextKey::EntityBadgeArchived => "[archived]"@,
            TextKey::EntityArchivedCount => "Archived: "@,
            TextKey::SearchNoResults => "No results for "@,
            TextKey::SearchClearHint => "Press Esc to clear the search"@,
            TextKey::WalletDetailTitle => "Wallet Detail"@,
            TextKey::WalletSelectPrompt => "Select a wallet to view details"@,
            TextKey::WalletNotFound => "Wallet not found"@,
            TextKey::WalletNoTransactions => "No transactions for this wallet"@,
            TextKey::HomeQuickBalances => "Quick Balances"@,
            TextKey::HomeNoDataYet => "No data yet"@,
            TextKey::HomeWallets => "Wallets"@,
            TextKey::HomeBudgets => "Budgets"@,
            TextKey::StatsCategoryBreakdown => "Category Breakdown"@,
            TextKey::PickerAllWallets => "All wallets"@,
            TextKey::PickerAllFlows => "All flows"@,
            TextKey::PickerSelectWallet => " Select wallet "@,
            TextKey::PickerSelectFlow => " Select flow "@,
            TextKey::PickerSuffixArchived => " (archived)"@,
            TextKey::PickerBadgeUnallocated => " [default]"@,
            TextKey::FormAmount => "Amount"@,
            TextKey::FormWallet => "Wallet"@,
            TextKey::FormFlow => "Flow"@,
            TextKey::FormCategory => "Category"@,
            TextKey::FormNote => "Note"@,
            TextKey::FormWhen => "When"@,
            TextKey::FormHelperAmount => "Enter numerical amount (required)"@,
            TextKey::FormHelperWallet => "Source/destination wallet"@,
            TextKey::FormHelperFlow => "Envelope/budget allocation"@,
            TextKey::FormHelperCategory => "Tag for analytics"@,
            TextKey::FormHelperNote => "Optional description"@,
            TextKey::FormHelperWhen => "Date & time (default: now)"@,
            TextKey::FormHintSave => " Save  "@,
            TextKey::FormHintCancel => " Cancel  "@,
            TextKey::FormHintNextField => " Next field  "@,
            TextKey::FormHintCycleChoices => " Cycle choices"@,
            TextKey::FormNewIncome => "New Income"@,
            TextKey::FormEditIncome => "Edit Income"@,
            TextKey::FormNewExpense => "New Expense"@,
            TextKey::FormEditExpense => "Edit Expense"@,
            TextKey::FormNewRefund => "New Refund"@,
            TextKey::FormEditRefund => "Edit Refund"@,
            TextKey::FormNewTransaction => "New Transaction"@,
            TextKey::FormEditTransaction => "Edit Transaction"@,
            TextKey::TransferWalletTitle => "Transfer Wallet"@,
            TextKey::TransferEditWalletTitle => "Edit Transfer Wallet"@,
            TextKey::TransferFlowTitle => "Transfer Flow"@,
            TextKey::TransferEditFlowTitle => "Edit Transfer Flow"@,
            TextKey::TransferFrom => "From"@,
            TextKey::TransferTo => "To"@,
            TextKey::TransferFormHints => "Tab: next • ↑/↓: change • Enter: save • Esc: cancel"@,
            TextKey::FlowNoTransactions => "No transactions for this flow"@,
            TextKey::DialogTransaction => " Transaction "@,
            TextKey::UiNoDetailAvailable => "No detail available"@,
            TextKey::TxnDetailTitle => " Details "@,
            TextKey::TxnDetailKind => "Kind"@,
            TextKey::TxnDetailVoided => "Voided"@,
            TextKey::TxnDetailVoidedYes => "yes"@,
            TextKey::TxnDetailVoidedNo => "no"@,
            TextKey::TxnDetailWhen => "When"@,
            TextKey::TxnDetailAmount => "Amount"@,
            TextKey::TxnDetailCategory => "Category"@,
            TextKey::TxnDetailNote => "Note"@,
            TextKey::TxnDetailLegsTitle => " Legs "@,
            TextKey::TxnDetailLegWallet => "Wallet"@,
            TextKey::TxnDetailLegFlow => "Flow"@,
            TextKey::RecurringFormTitle => "Recurring transaction"@,
            TextKey::RecurringKindIncome => "Income"@,
            TextKey::RecurringKindExpense => "Expense"@,
            TextKey::RecurringFormKind => "Kind"@,
            TextKey::RecurringFormAmount => "Amount"@,
            TextKey::RecurringFormFrequency => "Frequency"@,
            TextKey::RecurringFormDay => "Day"@,
            TextKey::RecurringFormStartDate => "Start date"@,
            TextKey::RecurringFormEndDate => "End date"@,
            TextKey::VaultDefaultName => "My vault"@,
            TextKey::VaultIdLabel => "Vault ID"@,
            TextKey::VaultCurrencyLabel => "Currency"@,
            TextKey::SectionWallets => "Wallets"@,
            TextKey::SectionFlows => "Flows"@,
            TextKey::VaultQuickDefaults => "Quick defaults"@,
            TextKey::VaultDefaultWallet => "Default wallet"@,
            TextKey::VaultDefaultFlow => "Default flow"@,
            TextKey::UiNone => "None"@,
        },
        Locale::It => match key {
            TextKey::ValidationRequired => "Campo obbligatorio"@,
            TextKey::ValidationAmountInvalid => "Importo non valido"@,
            TextKey::ValidationAmountPositive => "L'importo deve essere positivo"@,
            TextKey::ValidationDateInvalid => "Data non valida"@,
            TextKey::ValidationDateRequired => "Data obbligatoria"@,
            TextKey::TxnScopeAll => "Tutti"@,
            TextKey::TxnRecentsPrefix => "Recenti: "@,
            TextKey::TxnRecentsCategories => "Categorie: "@,
            TextKey::TxnRecentsWallet => "Wallet: "@,
            TextKey::TxnRecentsFlow => "Flow: "@,
            TextKey::RecurringFreqDaily => "Giornaliera"@,
            TextKey::RecurringFreqWeekly => "Settimanale"@,
            TextKey::RecurringFreqMonthly => "Mensile"@,
            TextKey::RecurringFreqYearly => "Annuale"@,
            TextKey::HintRefresh => "aggiorna"@,
            TextKey::HintEdit => "modifica"@,
            TextKey::HintDelete => "elimina"@,
            TextKey::HintCreate => "crea"@,
            TextKey::HintToggle => "attiva/disattiva"@,
            TextKey::HintBack => "indietro"@,
            TextKey::HintAdd => "aggiungi"@,
            TextKey::StatsNa => "N/D"@,
            TextKey::StatsNoData => "Nessun dato. Premi "@,
            TextKey::StatsRefreshHint => " per aggiornare."@,
            TextKey::SearchLabel => "Cerca: "@,
            TextKey::SearchClearShort => "  [Esc] annulla"@,
            TextKey::TxnUncategorized => "Senza categoria"@,
            TextKey::TxnNoWallet => "Nessun wallet"@,
            TextKey::TxnNoEnvelope => "Nessuna busta"@,
            TextKey::StatsMoM => "vs mese prec."@,
            TextKey::StatsThisMonth => "Questo mese"@,
            TextKey::QuickAddPlaceholder => "Scrivi una voce, es. 12,50 pranzo #cibo"@,
            TextKey::QuickAddSyntaxHint => "importo nota #categoria @wallet >flow"@,
            TextKey::QuickAddSyntaxShort => "importo nota #categoria @wallet >flow"@,
            TextKey::QuickAddExamples => "Esempi: "@,
            TextKey::QuickAddCycle => " cambia"@,
            TextKey::QuickAddToday => "oggi"@,
            TextKey::QuickAddEnvelopeSuggestions => "Buste: "@,
            TextKey::LoadingGeneric => "Caricamento..."@,
            TextKey::FlowSelectPrompt => "Seleziona un flow per vederne i dettagli"@,
            TextKey::FlowNotFound => "Flow non trovato"@,
            TextKey::HomeNoActivityYet => "Nessuna attività"@,
            TextKey::HomeAddFirstTxn => "Premi a per aggiungere la prima transazione"@,
            TextKey::StatsMonthSummary => "Riepilogo del mese"@,
            TextKey::StatsInc => "Ent"@,
            TextKey::StatsExp => "Usc"@,
            TextKey::StatsIncome => "Entrate"@,
            TextKey::StatsExpenses => "Uscite"@,
            TextKey::StatsExpenseOverIncome => "Uscite / entrate"@,
            TextKey::StatsNoIncomeToCompare => "Nessuna entrata da confrontare"@,
            TextKey::StatsNet => "Netto"@,
            TextKey::StatsBalance => "Saldo"@,
            TextKey::StatsMonthlyTrend => "Andamento mensile"@,
            TextKey::StatsMonthlyTrendNoData => "Ancora nessun dato di andamento"@,
            TextKey::StatsFinancialTrends => "Andamento finanziario"@,
            TextKey::StatsNetSavings => "Risparmio netto"@,
            TextKey::EntityArchivedOn => "Archiviati visibili"@,
            TextKey::EntityBadgeArchived => "[archiviato]"@,
            TextKey::EntityArchivedCount => "Archiviati: "@,
            TextKey::SearchNoResults => "Nessun risultato per "@,
            TextKey::SearchClearHint => "Premi Esc per cancellare la ricerca"@,
            TextKey::WalletDetailTitle => "Dettaglio wallet"@,
            TextKey::WalletSelectPrompt => "Seleziona un wallet per vederne i dettagli"@,
            TextKey::WalletNotFound => "Wallet non trovato"@,
            TextKey::WalletNoTransactions => "Nessuna transazione per questo wallet"@,
            TextKey::HomeQuickBalances => "Saldi rapidi"@,
            TextKey::HomeNoDataYet => "Ancora nessun dato"@,
            TextKey::HomeWallets => "Wallet"@,
            TextKey::HomeBudgets => "Budget"@,
            TextKey::StatsCategoryBreakdown => "Spese per categoria"@,
            TextKey::PickerAllWallets => "Tutti i wallet"@,
            TextKey::PickerAllFlows => "Tutti i flow"@,
            TextKey::PickerSelectWallet => " Scegli un wallet "@,
            TextKey::PickerSelectFlow => " Scegli un flow "@,
            TextKey::PickerSuffixArchived => " (archiviato)"@,
            TextKey::PickerBadgeUnallocated => " [predefinito]"@,
            TextKey::FormAmount => "Importo"@,
            TextKey::FormWallet => "Wallet"@,
            TextKey::FormFlow => "Flow"@,
            TextKey::FormCategory => "Categoria"@,
            TextKey::FormNote => "Nota"@,
            TextKey::FormWhen => "Quando"@,
            TextKey::FormHelperAmount => "Inserisci l'importo (obbligatorio)"@,
            TextKey::FormHelperWallet => "Wallet di origine/destinazione"@,
            TextKey::FormHelperFlow => "Busta/budget di destinazione"@,
            TextKey::FormHelperCategory => "Etichetta per le statistiche"@,
            TextKey::FormHelperNote => "Descrizione facoltativa"@,
            TextKey::FormHelperWhen => "Data e ora (predefinito: adesso)"@,
            TextKey::FormHintSave => " Salva  "@,
            TextKey::FormHintCancel => " Annulla  "@,
            TextKey::FormHintNextField => " Campo successivo  "@,
            TextKey::FormHintCycleChoices => " Scorri le scelte"@,
            TextKey::FormNewIncome => "Nuova entrata"@,
            TextKey::FormEditIncome => "Modifica entrata"@,
            TextKey::FormNewExpense => "Nuova uscita"@,
            TextKey::FormEditExpense => "Modifica uscita"@,
            TextKey::FormNewRefund => "Nuovo rimborso"@,
            TextKey::FormEditRefund => "Modifica rimborso"@,
            TextKey::FormNewTransaction => "Nuova transazione"@,
            TextKey::FormEditTransaction => "Modifica transazione"@,
            TextKey::TransferWalletTitle => "Trasferimento tra wallet"@,
            TextKey::TransferEditWalletTitle => "Modifica trasferimento tra wallet"@,
            TextKey::TransferFlowTitle => "Trasferimento tra flow"@,
            TextKey::TransferEditFlowTitle => "Modifica trasferimento tra flow"@,
            TextKey::TransferFrom => "Da"@,
            TextKey::TransferTo => "A"@,
            TextKey::TransferFormHints => "Tab: avanti • ↑/↓: cambia • Invio: salva • Esc: annulla"@,
            TextKey::FlowNoTransactions => "Nessuna transazione per questo flow"@,
            TextKey::DialogTransaction => " Transazione "@,
            TextKey::UiNoDetailAvailable => "Nessun dettaglio disponibile"@,
            TextKey::TxnDetailTitle => " Dettagli "@,
            TextKey::TxnDetailKind => "Tipo"@,
            TextKey::TxnDetailVoided => "Annullata"@,
            TextKey::TxnDetailVoidedYes => "sì"@,
            TextKey::TxnDetailVoidedNo => "no"@,
            TextKey::TxnDetailWhen => "Quando"@,
            TextKey::TxnDetailAmount => "Importo"@,
            TextKey::TxnDetailCategory => "Categoria"@,
            TextKey::TxnDetailNote => "Nota"@,
            TextKey::TxnDetailLegsTitle => " Movimenti "@,
            TextKey::TxnDetailLegWallet => "Wallet"@,
            TextKey::TxnDetailLegFlow => "Flow"@,
            TextKey::RecurringFormTitle => "Transazione ricorrente"@,
            TextKey::RecurringKindIncome => "Entrata"@,
            TextKey::RecurringKindExpense => "Uscita"@,
            TextKey::RecurringFormKind => "Tipo"@,
            TextKey::RecurringFormAmount => "Importo"@,
            TextKey::RecurringFormFrequency => "Frequenza"@,
            TextKey::RecurringFormDay => "Giorno"@,
            TextKey::RecurringFormStartDate => "Data di inizio"@,
            TextKey::RecurringFormEndDate => "Data di fine"@,
            TextKey::VaultDefaultName => "Il mio vault"@,
            TextKey::VaultIdLabel => "ID del vault"@,
            TextKey::VaultCurrencyLabel => "Valuta"@,
            TextKey::SectionWallets => "Wallet"@,
            TextKey::SectionFlows => "Flow"@,
            TextKey::VaultQuickDefaults => "Predefiniti rapidi"@,
            TextKey::VaultDefaultWallet => "Wallet predefinito"@,
            TextKey::VaultDefaultFlow => "Flow predefinito"@,
            TextKey::UiNone => "Nessuno"@,
        },
    }
}

/// The text of `key` in `locale`.
pub fn t(locale: Locale, key: TextKey) -> (r: &'static str)
    ensures
        r@ == message(locale, key),
{
    match locale {
        Locale::En => match key {
            TextKey::ValidationRequired => "This field is required",
            TextKey::ValidationAmountInvalid => "Invalid amount",
            TextKey::ValidationAmountPositive => "Amount must be positive",
            TextKey::ValidationDateInvalid => "Invalid date",
            TextKey::ValidationDateRequired => "Date is required",
            TextKey::TxnScopeAll => "All",
            TextKey::TxnRecentsPrefix => "Recent: ",
            TextKey::TxnRecentsCategories => "Categories: ",
            TextKey::TxnRecentsWallet => "Wallet: ",
            TextKey::TxnRecentsFlow => "Flow: ",
            TextKey::RecurringFreqDaily => "Daily",
            TextKey::RecurringFreqWeekly => "Weekly",
            TextKey::RecurringFreqMonthly => "Monthly",
            TextKey::RecurringFreqYearly => "Yearly",
            TextKey::HintRefresh => "refresh",
            TextKey::HintEdit => "edit",
            TextKey::HintDelete => "delete",
            TextKey::HintCreate => "create",
            TextKey::HintToggle => "toggle",
            TextKey::HintBack => "back",
            TextKey::HintAdd => "add",
            TextKey::StatsNa => "N/A",
            TextKey::StatsNoData => "No data. Press ",
            TextKey::StatsRefreshHint => " to refresh.",
            TextKey::SearchLabel => "Search: ",
            TextKey::SearchClearShort => "  [Esc] clear",
            TextKey::TxnUncategorized => "Uncategorized",
            TextKey::TxnNoWallet => "No wallet",
            TextKey::TxnNoEnvelope => "No envelope",
            TextKey::StatsMoM => "MoM",
            TextKey::StatsThisMonth => "This month",
            TextKey::QuickAddPlaceholder => "Type an entry, e.g. 12.50 lunch #food",
            TextKey::QuickAddSyntaxHint => "amount note #category @wallet >flow",
            TextKey::QuickAddSyntaxShort => "amount note #category @wallet >flow",
            TextKey::QuickAddExamples => "Examples: ",
            TextKey::QuickAddCycle => " cycle",
            TextKey::QuickAddToday => "today",
            TextKey::QuickAddEnvelopeSuggestions => "Envelopes: ",
            TextKey::LoadingGeneric => "Loading...",
            TextKey::FlowSelectPrompt => "Select a flow to view details",
            TextKey::FlowNotFound => "Flow not found",
            TextKey::HomeNoActivityYet => "No activity yet",
            TextKey::HomeAddFirstTxn => "Press a to add your first transaction",
            TextKey::StatsMonthSummary => "Month Summary",
            TextKey::StatsInc => "Inc",
            TextKey::StatsExp => "Exp",
            TextKey::StatsIncome => "Income",
            TextKey::StatsExpenses => "Expenses",
            TextKey::StatsExpenseOverIncome => "Expenses / income",
            TextKey::StatsNoIncomeToCompare => "No income to compare",
            TextKey::StatsNet => "Net",
            TextKey::StatsBalance => "Balance",
            TextKey::StatsMonthlyTrend => "Monthly Trend",
            TextKey::StatsMonthlyTrendNoData => "No trend data yet",
            TextKey::StatsFinancialTrends => "Financial Trends",
            TextKey::StatsNetSavings => "Net savings",
            TextKey::EntityArchivedOn => "Archived shown",
            TextKey::EntityBadgeArchived => "[archived]",
            TextKey::EntityArchivedCount => "Archived: ",
            TextKey::SearchNoResults => "No results for ",
            TextKey::SearchClearHint => "Press Esc to clear the search",
            TextKey::WalletDetailTitle => "Wallet Detail",
            TextKey::WalletSelectPrompt => "Select a wallet to view details",
            TextKey::WalletNotFound => "Wallet not found",
            TextKey::WalletNoTransactions => "No transactions for this wallet",
            TextKey::HomeQuickBalances => "Quick Balances",
            TextKey::HomeNoDataYet => "No data yet",
            TextKey::HomeWallets => "Wallets",
            TextKey::HomeBudgets => "Budgets",
            TextKey::StatsCategoryBreakdown => "Category Breakdown",
            TextKey::PickerAllWallets => "All wallets",
            TextKey::PickerAllFlows => "All flows",
            TextKey::PickerSelectWallet => " Select wallet ",
            TextKey::PickerSelectFlow => " Select flow ",
            TextKey::PickerSuffixArchived => " (archived)",
            TextKey::PickerBadgeUnallocated => " [default]",
            TextKey::FormAmount => "Amount",
            TextKey::FormWallet => "Wallet",
            TextKey::FormFlow => "Flow",
            TextKey::FormCategory => "Category",
            TextKey::FormNote => "Note",
            TextKey::FormWhen => "When",
            TextKey::FormHelperAmount => "Enter numerical amount (required)",
            TextKey::FormHelperWallet => "Source/destination wallet",
            TextKey::FormHelperFlow => "Envelope/budget allocation",
            TextKey::FormHelperCategory => "Tag for analytics",
            TextKey::FormHelperNote => "Optional description",
            TextKey::FormHelperWhen => "Date & time (default: now)",
            TextKey::FormHintSave => " Save  ",
            TextKey::FormHintCancel => " Cancel  ",
            TextKey::FormHintNextField => " Next field  ",
            TextKey::FormHintCycleChoices => " Cycle choices",
            TextKey::FormNewIncome => "New Income",
            TextKey::FormEditIncome => "Edit Income",
            TextKey::FormNewExpense => "New Expense",
            TextKey::FormEditExpense => "Edit Expense",
            TextKey::FormNewRefund => "New Refund",
            TextKey::FormEditRefund => "Edit Refund",
            TextKey::FormNewTransaction => "New Transaction",
            TextKey::FormEditTransaction => "Edit Transaction",
            TextKey::TransferWalletTitle => "Transfer Wallet",
            TextKey::TransferEditWalletTitle => "Edit Transfer Wallet",
            TextKey::TransferFlowTitle => "Transfer Flow",
            TextKey::TransferEditFlowTitle => "Edit Transfer Flow",
            TextKey::TransferFrom => "From",
            TextKey::TransferTo => "To",
            TextKey::TransferFormHints => "Tab: next • ↑/↓: change • Enter: save • Esc: cancel",
            TextKey::FlowNoTransactions => "No transactions for this flow",
            TextKey::DialogTransaction => " Transaction ",
            TextKey::UiNoDetailAvailable => "No detail available",
            TextKey::TxnDetailTitle => " Details ",
            TextKey::TxnDetailKind => "Kind",
            TextKey::TxnDetailVoided => "Voided",
            TextKey::TxnDetailVoidedYes => "yes",
            TextKey::TxnDetailVoidedNo => "no",
            TextKey::TxnDetailWhen => "When",
            TextKey::TxnDetailAmount => "Amount",
            TextKey::TxnDetailCategory => "Category",
            TextKey::TxnDetailNote => "Note",
            TextKey::TxnDetailLegsTitle => " Legs ",
            TextKey::TxnDetailLegWallet => "Wallet",
            TextKey::TxnDetailLegFlow => "Flow",
            TextKey::RecurringFormTitle => "Recurring transaction",
            TextKey::RecurringKindIncome => "Income",
            TextKey::RecurringKindExpense => "Expense",
            TextKey::RecurringFormKind => "Kind",
            TextKey::RecurringFormAmount => "Amount",
            TextKey::RecurringFormFrequency => "Frequency",
            TextKey::RecurringFormDay => "Day",
            TextKey::RecurringFormStartDate => "Start date",
            TextKey::RecurringFormEndDate => "End date",
            TextKey::VaultDefaultName => "My vault",
            TextKey::VaultIdLabel => "Vault ID",
            TextKey::VaultCurrencyLabel => "Currency",
            TextKey::SectionWallets => "Wallets",
            TextKey::SectionFlows => "Flows",
            TextKey::VaultQuickDefaults => "Quick defaults",
            TextKey::VaultDefaultWallet => "Default wallet",
            TextKey::VaultDefaultFlow => "Default flow",
            TextKey::UiNone => "None",
        },
        Locale::It => match key {
            TextKey::ValidationRequired => "Campo obbligatorio",
            TextKey::ValidationAmountInvalid => "Importo non valido",
            TextKey::ValidationAmountPositive => "L'importo deve essere positivo",
            TextKey::ValidationDateInvalid => "Data non valida",
            TextKey::ValidationDateRequired => "Data obbligatoria",
            TextKey::TxnScopeAll => "Tutti",
            TextKey::TxnRecentsPrefix => "Recenti: ",
            TextKey::TxnRecentsCategories => "Categorie: ",
            TextKey::TxnRecentsWallet => "Wallet: ",
            TextKey::TxnRecentsFlow => "Flow: ",
            TextKey::RecurringFreqDaily => "Giornaliera",
            TextKey::RecurringFreqWeekly => "Settimanale",
            TextKey::RecurringFreqMonthly => "Mensile",
            TextKey::RecurringFreqYearly => "Annuale",
            TextKey::HintRefresh => "aggiorna",
            TextKey::HintEdit => "modifica",
            TextKey::HintDelete => "elimina",
            TextKey::HintCreate => "crea",
            TextKey::HintToggle => "attiva/disattiva",
            TextKey::HintBack => "indietro",
            TextKey::HintAdd => "aggiungi",
            TextKey::StatsNa => "N/D",
            TextKey::StatsNoData => "Nessun dato. Premi ",
            TextKey::StatsRefreshHint => " per aggiornare.",
            TextKey::SearchLabel => "Cerca: ",
            TextKey::SearchClearShort => "  [Esc] annulla",
            TextKey::TxnUncategorized => "Senza categoria",
            TextKey::TxnNoWallet => "Nessun wallet",
            TextKey::TxnNoEnvelope => "Nessuna busta",
            TextKey::StatsMoM => "vs mese prec.",
            TextKey::StatsThisMonth => "Questo mese",
            TextKey::QuickAddPlaceholder => "Scrivi una voce, es. 12,50 pranzo #cibo",
            TextKey::QuickAddSyntaxHint => "importo nota #categoria @wallet >flow",
            TextKey::QuickAddSyntaxShort => "importo nota #categoria @wallet >flow",
            TextKey::QuickAddExamples => "Esempi: ",
            TextKey::QuickAddCycle => " cambia",
            TextKey::QuickAddToday => "oggi",
            TextKey::QuickAddEnvelopeSuggestions => "Buste: ",
            TextKey::LoadingGeneric => "Caricamento...",
            TextKey::FlowSelectPrompt => "Seleziona un flow per vederne i dettagli",
            TextKey::FlowNotFound => "Flow non trovato",
            TextKey::HomeNoActivityYet => "Nessuna attività",
            TextKey::HomeAddFirstTxn => "Premi a per aggiungere la prima transazione",
            TextKey::StatsMonthSummary => "Riepilogo del mese",
            TextKey::StatsInc => "Ent",
            TextKey::StatsExp => "Usc",
            TextKey::StatsIncome => "Entrate",
            TextKey::StatsExpenses => "Uscite",
            TextKey::StatsExpenseOverIncome => "Uscite / entrate",
            TextKey::StatsNoIncomeToCompare => "Nessuna entrata da confrontare",
            TextKey::StatsNet => "Netto",
            TextKey::StatsBalance => "Saldo",
            TextKey::StatsMonthlyTrend => "Andamento mensile",
            TextKey::StatsMonthlyTrendNoData => "Ancora nessun dato di andamento",
            TextKey::StatsFinancialTrends => "Andamento finanziario",
            TextKey::StatsNetSavings => "Risparmio netto",
            TextKey::EntityArchivedOn => "Archiviati visibili",
            TextKey::EntityBadgeArchived => "[archiviato]",
            TextKey::EntityArchivedCount => "Archiviati: ",
            TextKey::SearchNoResults => "Nessun risultato per ",
            TextKey::SearchClearHint => "Premi Esc per cancellare la ricerca",
            TextKey::WalletDetailTitle => "Dettaglio wallet",
            TextKey::WalletSelectPrompt => "Seleziona un wallet per vederne i dettagli",
            TextKey::WalletNotFound => "Wallet non trovato",
            TextKey::WalletNoTransactions => "Nessuna transazione per questo wallet",
            TextKey::HomeQuickBalances => "Saldi rapidi",
            TextKey::HomeNoDataYet => "Ancora nessun dato",
            TextKey::HomeWallets => "Wallet",
            TextKey::HomeBudgets => "Budget",
            TextKey::StatsCategoryBreakdown => "Spese per categoria",
            TextKey::PickerAllWallets => "Tutti i wallet",
            TextKey::PickerAllFlows => "Tutti i flow",
            TextKey::PickerSelectWallet => " Scegli un wallet ",
            TextKey::PickerSelectFlow => " Scegli un flow ",
            TextKey::PickerSuffixArchived => " (archiviato)",
            TextKey::PickerBadgeUnallocated => " [predefinito]",
            TextKey::FormAmount => "Importo",
            TextKey::FormWallet => "Wallet",
            TextKey::FormFlow => "Flow",
            TextKey::FormCategory => "Categoria",
            TextKey::FormNote => "Nota",
            TextKey::FormWhen => "Quando",
            TextKey::FormHelperAmount => "Inserisci l'importo (obbligatorio)",
            TextKey::FormHelperWallet => "Wallet di origine/destinazione",
            TextKey::FormHelperFlow => "Busta/budget di destinazione",
            TextKey::FormHelperCategory => "Etichetta per le statistiche",
            TextKey::FormHelperNote => "Descrizione facoltativa",
            TextKey::FormHelperWhen => "Data e ora (predefinito: adesso)",
            TextKey::FormHintSave => " Salva  ",
            TextKey::FormHintCancel => " Annulla  ",
            TextKey::FormHintNextField => " Campo successivo  ",
            TextKey::FormHintCycleChoices => " Scorri le scelte",
            TextKey::FormNewIncome => "Nuova entrata",
            TextKey::FormEditIncome => "Modifica entrata",
            TextKey::FormNewExpense => "Nuova uscita",
            TextKey::FormEditExpense => "Modifica uscita",
            TextKey::FormNewRefund => "Nuovo rimborso",
            TextKey::FormEditRefund => "Modifica rimborso",
            TextKey::FormNewTransaction => "Nuova transazione",
            TextKey::FormEditTransaction => "Modifica transazione",
            TextKey::TransferWalletTitle => "Trasferimento tra wallet",
            TextKey::TransferEditWalletTitle => "Modifica trasferimento tra wallet",
            TextKey::TransferFlowTitle => "Trasferimento tra flow",
            TextKey::TransferEditFlowTitle => "Modifica trasferimento tra flow",
            TextKey::TransferFrom => "Da",
            TextKey::TransferTo => "A",
            TextKey::TransferFormHints => "Tab: avanti • ↑/↓: cambia • Invio: salva • Esc: annulla",
            TextKey::FlowNoTransactions => "Nessuna transazione per questo flow",
            TextKey::DialogTransaction => " Transazione ",
            TextKey::UiNoDetailAvailable => "Nessun dettaglio disponibile",
            TextKey::TxnDetailTitle => " Dettagli ",
            TextKey::TxnDetailKind => "Tipo",
            TextKey::TxnDetailVoided => "Annullata",
            TextKey::TxnDetailVoidedYes => "sì",
            TextKey::TxnDetailVoidedNo => "no",
            TextKey::TxnDetailWhen => "Quando",
            TextKey::TxnDetailAmount => "Importo",
            TextKey::TxnDetailCategory => "Categoria",
            TextKey::TxnDetailNote => "Nota",
            TextKey::TxnDetailLegsTitle => " Movimenti ",
            TextKey::TxnDetailLegWallet => "Wallet",
            TextKey::TxnDetailLegFlow => "Flow",
            TextKey::RecurringFormTitle => "Transazione ricorrente",
            TextKey::RecurringKindIncome => "Entrata",
            TextKey::RecurringKindExpense => "Uscita",
            TextKey::RecurringFormKind => "Tipo",
            TextKey::RecurringFormAmount => "Importo",
            TextKey::RecurringFormFrequency => "Frequenza",
            TextKey::RecurringFormDay => "Giorno",
            TextKey::RecurringFormStartDate => "Data di inizio",
            TextKey::RecurringFormEndDate => "Data di fine",
            TextKey::VaultDefaultName => "Il mio vault",
            TextKey::VaultIdLabel => "ID del vault",
            TextKey::VaultCurrencyLabel => "Valuta",
            TextKey::SectionWallets => "Wallet",
            TextKey::SectionFlows => "Flow",
            TextKey::VaultQuickDefaults => "Predefiniti rapidi",
            TextKey::VaultDefaultWallet => "Wallet predefinito",
            TextKey::VaultDefaultFlow => "Flow predefinito",
            TextKey::UiNone => "Nessuno",
        },
    }
}

/// The text before and the text after the number in the message `key`.
pub open spec fn number_message_parts(locale: Locale, key: NumberKey) -> (Seq<char>, Seq<char>) {
    match (locale, key) {
        (Locale::En, NumberKey::ValidationLengthMin) => ("Minimum "@, " characters"@),
        (Locale::En, NumberKey::ValidationLengthMax) => ("Maximum "@, " characters"@),
        (Locale::It, NumberKey::ValidationLengthMin) => ("Minimo "@, " caratteri"@),
        (Locale::It, NumberKey::ValidationLengthMax) => ("Massimo "@, " caratteri"@),
    }
}

/// The message `key` in `locale` with the number `n` in its place.
pub open spec fn number_message(locale: Locale, key: NumberKey, n: nat) -> Seq<char> {
    number_message_parts(locale, key).0 + decimal(n) + number_message_parts(locale, key).1
}

/// The message `key` in `locale`, carrying the number `n`.
pub fn format_number(locale: Locale, key: NumberKey, n: usize) -> (r: String)
    ensures
        r@ == number_message(locale, key, n as nat),
{
    let (before, after): (&str, &str) = match (locale, key) {
        (Locale::En, NumberKey::ValidationLengthMin) => ("Minimum ", " characters"),
        (Locale::En, NumberKey::ValidationLengthMax) => ("Maximum ", " characters"),
        (Locale::It, NumberKey::ValidationLengthMin) => ("Minimo ", " caratteri"),
        (Locale::It, NumberKey::ValidationLengthMax) => ("Massimo ", " caratteri"),
    };
    let mut r = String::new();
    r.append(before);
    push_decimal(&mut r, n as u64);
    r.append(after);
    r
}

} // verus!
