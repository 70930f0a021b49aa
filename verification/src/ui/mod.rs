//! Decisions and texts of the terminal screens.

pub mod state;
pub mod alias_list;
pub mod category_list;
pub mod entities;
pub mod entity_list;
pub mod filter_form;
pub mod month_card;
pub mod quick_add;
pub mod quick_balances;
pub mod scope_picker;
pub mod flow_detail;
pub mod forms;
pub mod vault;
pub mod vault_view;
pub mod wallet_detail;
pub mod settings;
pub mod home;
pub mod list;
pub mod member_form;
pub mod merge_info;
pub mod recurring;
pub mod recurring_form;
pub mod shell;
pub mod stats;
pub mod transaction_detail;
pub mod transactions;
pub mod trend_card;

use vstd::prelude::*;

verus! {

/// The colour role a piece of text is shown in; the theme maps roles to colours.
#[derive(Debug, Clone, Copy, PartialEq, Eq, Structural)]
pub enum Tone {
    Text,
    Muted,
    Accent,
    Positive,
    Negative,
    Warning,
    Info,
    /// The colour of refunds.
    Refund,
    /// The colour of borders and separators.
    Border,
}

/// A run of text of a screen line with its look: its tone (plain text when
/// none) and whether it is bold.
#[derive(Debug, Clone)]
pub struct Piece {
    pub text: String,
    pub tone: Option<Tone>,
    pub bold: bool,
}

impl View for Piece {
    type V = (Seq<char>, Option<Tone>, bool);

    open spec fn view(&self) -> (Seq<char>, Option<Tone>, bool) {
        (self.text@, self.tone, self.bold)
    }
}

/// A line of a screen as values: its pieces, each as its view.
pub type LineView = Seq<(Seq<char>, Option<Tone>, bool)>;

/// The pieces of a line, each as its view.
pub open spec fn pieces_view(v: Seq<Piece>) -> Seq<(Seq<char>, Option<Tone>, bool)> {
    Seq::new(v.len(), |i: int| v[i]@)
}

/// The lines of a screen, each as the views of its pieces.
pub open spec fn lines_view(v: Seq<Vec<Piece>>) -> Seq<Seq<(Seq<char>, Option<Tone>, bool)>> {
    Seq::new(v.len(), |i: int| pieces_view(v[i]@))
}

/// A piece with the text `text`.
pub fn piece(text: &str, tone: Option<Tone>, bold: bool) -> (r: Piece)
    ensures
        r@ == (text@, tone, bold),
{
    let mut s = String::new();
    s.append(text);
    Piece { text: s, tone, bold }
}

} // verus!
