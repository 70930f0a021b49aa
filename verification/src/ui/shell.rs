//! The key hints of the bottom bar, chosen by section and mode.

use super::state::{
    AccountsTab, AppState, CategoriesMode, EntityListMode, MembersMode, RecurringMode, Section,
    SettingsTab, TransactionsMode, VaultMode,
};
use crate::text::TextKey;
use vstd::prelude::*;

verus! {

/// Keys named in hints.
#[derive(Debug, Clone, Copy, PartialEq, Eq, Structural)]
pub enum KeyName {
    A,
    C,
    D,
    E,
    R,
    Space,
    Esc,
}

impl KeyName {
    /// How the key is written in the bar.
    pub fn label(self) -> (r: &'static str)
        ensures
            r@ == key_label(self),
    {
        match self {
            KeyName::A => "a",
            KeyName::C => "c",
            KeyName::D => "d",
            KeyName::E => "e",
            KeyName::R => "r",
            KeyName::Space => "Space",
            KeyName::Esc => "Esc",
        }
    }
}

/// How a key is written in the bar.
pub open spec fn key_label(k: KeyName) -> Seq<char> {
    match k {
        KeyName::A => "a"@,
        KeyName::C => "c"@,
        KeyName::D => "d"@,
        KeyName::E => "e"@,
        KeyName::R => "r"@,
        KeyName::Space => "Space"@,
        KeyName::Esc => "Esc"@,
    }
}

/// A key and what it does.
#[derive(Debug, Clone, Copy, PartialEq, Eq, Structural)]
pub struct KeyHint {
    pub key: KeyName,
    pub label: TextKey,
}

/// The hints of a context: a list of its own, or one of the shared sets.
#[derive(Debug, Clone)]
pub enum ContextHints {
    /// These keys.
    Keys(Vec<KeyHint>),
    /// The quick-add hint.
    QuickAdd,
    /// The hints of a form being edited.
    FormEditing,
    /// The hints of a detail view.
    DetailView,
}

/// [`ContextHints`] as a value.
pub enum HintsSpec {
    Keys(Seq<KeyHint>),
    QuickAdd,
    FormEditing,
    DetailView,
}

impl View for ContextHints {
    type V = HintsSpec;

    open spec fn view(&self) -> HintsSpec {
        match self {
            ContextHints::Keys(v) => HintsSpec::Keys(v@),
            ContextHints::QuickAdd => HintsSpec::QuickAdd,
            ContextHints::FormEditing => HintsSpec::FormEditing,
            ContextHints::DetailView => HintsSpec::DetailView,
        }
    }
}

/// The hint `key`: `label`.
pub open spec fn hint(key: KeyName, label: TextKey) -> KeyHint {
    KeyHint { key, label }
}

/// The hints of the recurring transactions screen.
pub open spec fn recurring_hints_of(state: AppState) -> HintsSpec {
    match state.recurring.mode {
        RecurringMode::List => HintsSpec::Keys(
            seq![hint(KeyName::C, TextKey::HintCreate), hint(KeyName::E, TextKey::HintEdit)],
        ),
        _ => HintsSpec::FormEditing,
    }
}

/// The hints of the transactions section.
pub open spec fn transactions_hints_of(state: AppState) -> HintsSpec {
    if state.transactions.recurring_mode {
        recurring_hints_of(state)
    } else {
        match state.transactions.mode {
            TransactionsMode::List => HintsSpec::QuickAdd,
            TransactionsMode::Detail => HintsSpec::Keys(
                seq![hint(KeyName::E, TextKey::HintEdit), hint(KeyName::D, TextKey::HintDelete)],
            ),
            _ => HintsSpec::FormEditing,
        }
    }
}

/// The hints of a wallet or flow list in `mode`.
pub open spec fn entity_hints_of(mode: EntityListMode) -> HintsSpec {
    match mode {
        EntityListMode::List => HintsSpec::Keys(seq![hint(KeyName::C, TextKey::HintCreate)]),
        EntityListMode::Detail => HintsSpec::DetailView,
        _ => HintsSpec::FormEditing,
    }
}

/// The hints of the accounts section.
pub open spec fn accounts_hints_of(state: AppState) -> HintsSpec {
    match state.accounts_tab {
        AccountsTab::Wallets => entity_hints_of(state.wallets.mode),
        AccountsTab::Budget => entity_hints_of(state.flows.mode),
    }
}

/// The hints of the settings section.
pub open spec fn settings_hints_of(state: AppState) -> HintsSpec {
    match state.settings_tab {
        SettingsTab::Categories => match state.categories.mode {
            CategoriesMode::List => HintsSpec::Keys(seq![hint(KeyName::C, TextKey::HintCreate)]),
            _ => HintsSpec::FormEditing,
        },
        SettingsTab::Vault => match state.vault_ui.mode {
            VaultMode::View => HintsSpec::Keys(seq![hint(KeyName::C, TextKey::HintCreate)]),
            _ => HintsSpec::FormEditing,
        },
        SettingsTab::Members => match state.members.mode {
            MembersMode::List => HintsSpec::Keys(seq![hint(KeyName::A, TextKey::HintAdd)]),
            MembersMode::Form => HintsSpec::FormEditing,
        },
        SettingsTab::Preferences => HintsSpec::Keys(
            seq![hint(KeyName::Space, TextKey::HintToggle), hint(KeyName::Esc, TextKey::HintBack)],
        ),
    }
}

/// The hints of the bottom bar for the current section and mode: one or
/// two of the most important keys of each context.
pub open spec fn context_hints_of(state: AppState) -> HintsSpec {
    match state.section {
        Section::Home => HintsSpec::QuickAdd,
        Section::Transactions => transactions_hints_of(state),
        Section::Accounts => accounts_hints_of(state),
        Section::Analytics => HintsSpec::Keys(seq![hint(KeyName::R, TextKey::HintRefresh)]),
        Section::Settings => settings_hints_of(state),
    }
}

fn keys1(a: KeyHint) -> (r: ContextHints)
    ensures
        r@ == HintsSpec::Keys(seq![a]),
{
    let mut v = Vec::new();
    v.push(a);
    assert(v@ =~= seq![a]);
    ContextHints::Keys(v)
}

fn keys2(a: KeyHint, b: KeyHint) -> (r: ContextHints)
    ensures
        r@ == HintsSpec::Keys(seq![a, b]),
{
    let mut v = Vec::new();
    v.push(a);
    v.push(b);
    assert(v@ =~= seq![a, b]);
    ContextHints::Keys(v)
}

/// The hints of the bottom bar for the current section and mode.
pub fn get_context_hints(state: &AppState) -> (r: ContextHints)
    ensures
        r@ == context_hints_of(*state),
{
    match state.section {
        Section::Home => ContextHints::QuickAdd,
        Section::Transactions => get_transactions_hints(state),
        Section::Accounts => get_accounts_hints(state),
        Section::Analytics => keys1(KeyHint { key: KeyName::R, label: TextKey::HintRefresh }),
        Section::Settings => get_settings_hints(state),
    }
}

/// The hints of the transactions section.
pub fn get_transactions_hints(state: &AppState) -> (r: ContextHints)
    ensures
        r@ == transactions_hints_of(*state),
{
    if state.transactions.recurring_mode {
        return get_recurring_hints(state);
    }
    match state.transactions.mode {
        TransactionsMode::List => ContextHints::QuickAdd,
        TransactionsMode::Detail => keys2(
            KeyHint { key: KeyName::E, label: TextKey::HintEdit },
            KeyHint { key: KeyName::D, label: TextKey::HintDelete },
        ),
        _ => ContextHints::FormEditing,
    }
}

fn entity_hints(mode: EntityListMode) -> (r: ContextHints)
    ensures
        r@ == entity_hints_of(mode),
{
    match mode {
        EntityListMode::List => keys1(KeyHint { key: KeyName::C, label: TextKey::HintCreate }),
        EntityListMode::Detail => ContextHints::DetailView,
        _ => ContextHints::FormEditing,
    }
}

/// The hints of the accounts section.
pub fn get_accounts_hints(state: &AppState) -> (r: ContextHints)
    ensures
        r@ == accounts_hints_of(*state),
{
    match state.accounts_tab {
        AccountsTab::Wallets => entity_hints(state.wallets.mode),
        AccountsTab::Budget => entity_hints(state.flows.mode),
    }
}

/// The hints of the settings section.
pub fn get_settings_hints(state: &AppState) -> (r: ContextHints)
    ensures
        r@ == settings_hints_of(*state),
{
    match state.settings_tab {
        SettingsTab::Categories => get_categories_hints(state),
        SettingsTab::Vault => get_vault_hints(state),
        SettingsTab::Members => get_members_hints(state),
        SettingsTab::Preferences => get_preferences_hints(state),
    }
}

/// The hints of the preferences tab.
pub fn get_preferences_hints(state: &AppState) -> (r: ContextHints)
    ensures
        r@ == HintsSpec::Keys(
            seq![hint(KeyName::Space, TextKey::HintToggle), hint(KeyName::Esc, TextKey::HintBack)],
        ),
{
    keys2(
        KeyHint { key: KeyName::Space, label: TextKey::HintToggle },
        KeyHint { key: KeyName::Esc, label: TextKey::HintBack },
    )
}

/// The hints of the categories tab.
pub fn get_categories_hints(state: &AppState) -> (r: ContextHints)
    ensures
        state.categories.mode is List ==> r@ == HintsSpec::Keys(
            seq![hint(KeyName::C, TextKey::HintCreate)],
        ),
        !(state.categories.mode is List) ==> r@ == HintsSpec::FormEditing,
{
    match state.categories.mode {
        CategoriesMode::List => keys1(KeyHint { key: KeyName::C, label: TextKey::HintCreate }),
        _ => ContextHints::FormEditing,
    }
}

/// The hints of the vault tab.
pub fn get_vault_hints(state: &AppState) -> (r: ContextHints)
    ensures
        state.vault_ui.mode is View ==> r@ == HintsSpec::Keys(
            seq![hint(KeyName::C, TextKey::HintCreate)],
        ),
        !(state.vault_ui.mode is View) ==> r@ == HintsSpec::FormEditing,
{
    match state.vault_ui.mode {
        VaultMode::View => keys1(KeyHint { key: KeyName::C, label: TextKey::HintCreate }),
        _ => ContextHints::FormEditing,
    }
}

/// The hints of the members tab.
pub fn get_members_hints(state: &AppState) -> (r: ContextHints)
    ensures
        state.members.mode is List ==> r@ == HintsSpec::Keys(
            seq![hint(KeyName::A, TextKey::HintAdd)],
        ),
        state.members.mode is Form ==> r@ == HintsSpec::FormEditing,
{
    match state.members.mode {
        MembersMode::List => keys1(KeyHint { key: KeyName::A, label: TextKey::HintAdd }),
        MembersMode::Form => ContextHints::FormEditing,
    }
}

/// The hints of the recurring transactions screen.
pub fn get_recurring_hints(state: &AppState) -> (r: ContextHints)
    ensures
        r@ == recurring_hints_of(*state),
{
    match state.recurring.mode {
        RecurringMode::List => keys2(
            KeyHint { key: KeyName::C, label: TextKey::HintCreate },
            KeyHint { key: KeyName::E, label: TextKey::HintEdit },
        ),
        _ => ContextHints::FormEditing,
    }
}

/// Law: each context shows one or two keys of its own.
pub proof fn law_hints_are_few(state: AppState)
    ensures
        context_hints_of(state) matches HintsSpec::Keys(k) ==> 1 <= k.len() <= 2,
{
}

} // verus!
