# sparagne_tui

The verified core of the Sparagne terminal client, a personal budget tracker.

- `src/` is the library, written in Verus: every function carries a contract
  that Verus proves.
  - `validation/`: amount, date and text validation of form fields, with the
    laws of amount and date reading (`law_*` proof functions).
  - `ui/`: the decisions and texts of the screens, over a plain model of
    the application state in `ui/state.rs`: the grouped transaction list
    with its totals and its empty state (`list.rs`), the activity feed with
    its day headers, rows and empty state (`home.rs`), the month summary
    card with its figures and error row (`month_card.rs`, `stats.rs`), the
    monthly trend card (`trend_card.rs`), the category breakdown
    (`category_list.rs`), the quick balances with the wallets ordered by
    balance (`quick_balances.rs`), the shared wallets/flows list
    (`entity_list.rs`), the wallet and flow details (`wallet_detail.rs`,
    `flow_detail.rs`), the transaction detail (`transaction_detail.rs`),
    the scope picker (`scope_picker.rs`), the transaction, transfer, filter
    and recurring forms (`forms.rs`, `filter_form.rs`,
    `recurring_form.rs`), the category aliases and merge (`alias_list.rs`, `merge_info.rs`), the
    member form (`member_form.rs`), the vault overview (`vault_view.rs`), the
    quick-add bar, the preferences, the vault defaults, key hints, labels,
    month arithmetic and category icons.
    Screen lines are rows of `Piece`s: text with a `Tone` and a weight.
    Money is written by the caller: the functions that show an amount take
    its written form beside its value.
  - `text.rs`: the message catalogue; `strings.rs`: text helpers and their
    lemmas.
- `tests/`: unit tests of the library.
- `app/`: the `ratatui` glue (theme, spans, layout, drawing of the screens)
  and the helpers that compute in floating point.

Dates are read with `chrono` and placed in a time zone with `chrono-tz`;
identifiers are written with `uuid`. Those calls sit behind small trusted
wrappers whose contracts are documented where they are declared.
