//! The month summary card of the cash flow screen.

use super::home::feed_amount_tone;
use super::settings::run;
use super::state::AppState;
use super::stats::{
    build_month_timeline, month_summary_values, offset_month_fits, share_percent_of,
    timeline_of, MonthSummary,
};
use super::{LineView, Piece, Tone, piece, pieces_view};
use crate::strings::{pad_right, padded_right};
use crate::text::{TextKey, message, t};
use vstd::prelude::*;

verus! {

/// A row of a statistic: its label, amount, bar share in percent and tone.
#[derive(Debug, Clone, Copy, PartialEq, Eq)]
pub struct StatRow {
    pub label: &'static str,
    pub amount: i128,
    pub percent: u64,
    pub tone: Tone,
}

/// The month summary card.
#[derive(Debug, Clone)]
pub struct MonthCard {
    pub title: &'static str,
    /// The month navigation line.
    pub timeline: Vec<Piece>,
    /// The month-over-month changes of income and expenses.
    pub change_line: Vec<Piece>,
    pub income_row: StatRow,
    pub expense_row: StatRow,
    /// The gauge of expenses against income: its label, the expenses and
    /// the income; none without income.
    pub gauge: Option<(&'static str, i64, i64)>,
    /// The note shown in place of the gauge.
    pub no_income_line: Option<Vec<Piece>>,
    /// The month's net (income less expenses), written on the net line.
    pub net: i128,
    pub net_line: Vec<Piece>,
    /// The balance written on the balance line: 0 while it is unknown.
    pub balance: i64,
    pub balance_line: Vec<Piece>,
    /// The error of the last load, on the card's last row.
    pub error_line: Option<Vec<Piece>>,
}


/// [`MonthCard`] as values.
pub struct MonthCardView {
    pub title: Seq<char>,
    pub timeline: LineView,
    pub change_line: LineView,
    pub income_row: (Seq<char>, int, int, Tone),
    pub expense_row: (Seq<char>, int, int, Tone),
    pub gauge: Option<(Seq<char>, int, int)>,
    pub no_income_line: Option<LineView>,
    pub net: int,
    pub net_line: LineView,
    pub balance: int,
    pub balance_line: LineView,
    pub error_line: Option<LineView>,
}

/// The view of a stat row.
pub open spec fn stat_view(r: StatRow) -> (Seq<char>, int, int, Tone) {
    (r.label@, r.amount as int, r.percent as int, r.tone)
}

/// The view of an optional line.
pub open spec fn opt_line(o: Option<Vec<Piece>>) -> Option<LineView> {
    match o {
        Some(l) => Some(pieces_view(l@)),
        None => None,
    }
}

impl View for MonthCard {
    type V = MonthCardView;

    open spec fn view(&self) -> MonthCardView {
        MonthCardView {
            title: self.title@,
            timeline: pieces_view(self.timeline@),
            change_line: pieces_view(self.change_line@),
            income_row: stat_view(self.income_row),
            expense_row: stat_view(self.expense_row),
            gauge: match self.gauge {
                Some(g) => Some((g.0@, g.1 as int, g.2 as int)),
                None => None,
            },
            no_income_line: opt_line(self.no_income_line),
            net: self.net as int,
            net_line: pieces_view(self.net_line@),
            balance: self.balance as int,
            balance_line: pieces_view(self.balance_line@),
            error_line: opt_line(self.error_line),
        }
    }
}

/// A change of the change line: the styled change when there is one, else
/// `N/A`, muted.
pub open spec fn change_piece(state: AppState, change: Option<Piece>) -> (Seq<char>, Option<Tone>, bool) {
    match change {
        Some(p) => p@,
        None => run(message(state.locale, TextKey::StatsNa), Some(Tone::Muted), false),
    }
}

/// The month summary card of `state`. `net` and `balance` are the written
/// forms of the month's net and of the balance; `income_change` and
/// `expense_change` are the styled month-over-month changes, when there are
/// any.
pub open spec fn month_card_of(
    state: AppState,
    net: Seq<char>,
    balance: Seq<char>,
    income_change: Option<Piece>,
    expense_change: Option<Piece>,
) -> MonthCardView {
    let st = state.stats;
    let locale = state.locale;
    let income = st.current_month_income;
    let expenses = st.current_month_expenses;
    let muted = |k: TextKey| run(message(locale, k), Some(Tone::Muted), false);
    MonthCardView {
        title: message(locale, TextKey::StatsMonthSummary),
        timeline: timeline_of(st.current_year, st.current_month),
        change_line: seq![
            muted(TextKey::StatsMoM),
            run(" "@, None, false),
            muted(TextKey::StatsInc),
            run(" "@, None, false),
            change_piece(state, income_change),
            run("  "@, None, false),
            muted(TextKey::StatsExp),
            run(" "@, None, false),
            change_piece(state, expense_change),
        ],
        income_row: (
            message(locale, TextKey::StatsIncome),
            income as int,
            share_percent_of(income as int, income as int),
            Tone::Positive,
        ),
        expense_row: (
            message(locale, TextKey::StatsExpenses),
            -expenses,
            if income == 0 && expenses > 0 {
                100
            } else {
                share_percent_of(expenses as int, income as int)
            },
            Tone::Negative,
        ),
        gauge: if income > 0 {
            Some((message(locale, TextKey::StatsExpenseOverIncome), expenses as int, income as int))
        } else {
            None
        },
        no_income_line: if income > 0 {
            None
        } else {
            Some(seq![muted(TextKey::StatsNoIncomeToCompare)])
        },
        net: income - expenses,
        net_line: seq![
            run(pad_right(message(locale, TextKey::StatsNet), 12), Some(Tone::Muted), false),
            run(net, Some(feed_amount_tone(income - expenses)), true),
        ],
        balance: match st.balance {
            Some(b) => b as int,
            None => 0,
        },
        balance_line: seq![
            run(pad_right(message(locale, TextKey::StatsBalance), 12), Some(Tone::Muted), false),
            run(balance, Some(Tone::Text), true),
        ],
        error_line: match st.error {
            Some(e) => Some(seq![run(e@, Some(Tone::Negative), false)]),
            None => None,
        },
    }
}

fn change_or_na(state: &AppState, change: Option<Piece>) -> (r: Piece)
    ensures
        r@ == change_piece(*state, change),
{
    match change {
        Some(p) => p,
        None => piece(t(state.locale, TextKey::StatsNa), Some(Tone::Muted), false),
    }
}

/// The month summary card: the month navigation, the changes of income and
/// expenses, the income and expense rows, the gauge of expenses against
/// income (or a note when there is no income), the net and the balance, and
/// the error of the last load on the last row.
pub fn month_card(
    state: &AppState,
    net: &str,
    balance: &str,
    income_change: Option<Piece>,
    expense_change: Option<Piece>,
) -> (r: MonthCard)
    requires
        offset_month_fits(state.stats.current_year, state.stats.current_month, -2i32),
        offset_month_fits(state.stats.current_year, state.stats.current_month, -1i32),
        offset_month_fits(state.stats.current_year, state.stats.current_month, 1i32),
        offset_month_fits(state.stats.current_year, state.stats.current_month, 2i32),
    ensures
        r@ == month_card_of(*state, net@, balance@, income_change, expense_change),
{
    let st = &state.stats;
    let locale = state.locale;
    let income = st.current_month_income;
    let expenses = st.current_month_expenses;
    let figures: MonthSummary = month_summary_values(
        income,
        expenses,
        st.balance,
        st.monthly_income.as_slice(),
        st.monthly_trend.as_slice(),
    );
    let ghost ic = income_change;
    let ghost ec = expense_change;
    let mut change_line: Vec<Piece> = Vec::new();
    change_line.push(piece(t(locale, TextKey::StatsMoM), Some(Tone::Muted), false));
    change_line.push(piece(" ", None, false));
    change_line.push(piece(t(locale, TextKey::StatsInc), Some(Tone::Muted), false));
    change_line.push(piece(" ", None, false));
    change_line.push(change_or_na(state, income_change));
    change_line.push(piece("  ", None, false));
    change_line.push(piece(t(locale, TextKey::StatsExp), Some(Tone::Muted), false));
    change_line.push(piece(" ", None, false));
    change_line.push(change_or_na(state, expense_change));
    let (gauge, no_income_line) = if income > 0 {
        (Some((t(locale, TextKey::StatsExpenseOverIncome), expenses, income)), None)
    } else {
        let mut l: Vec<Piece> = Vec::new();
        l.push(piece(t(locale, TextKey::StatsNoIncomeToCompare), Some(Tone::Muted), false));
        (None, Some(l))
    };
    let mut net_line: Vec<Piece> = Vec::new();
    net_line.push(Piece {
        text: padded_right(t(locale, TextKey::StatsNet), 12),
        tone: Some(Tone::Muted),
        bold: false,
    });
    let net_tone = if figures.net > 0 {
        Tone::Positive
    } else if figures.net < 0 {
        Tone::Negative
    } else {
        Tone::Text
    };
    net_line.push(piece(net, Some(net_tone), true));
    let mut balance_line: Vec<Piece> = Vec::new();
    balance_line.push(Piece {
        text: padded_right(t(locale, TextKey::StatsBalance), 12),
        tone: Some(Tone::Muted),
        bold: false,
    });
    balance_line.push(piece(balance, Some(Tone::Text), true));
    let error_line = match &st.error {
        Some(e) => {
            let mut l: Vec<Piece> = Vec::new();
            l.push(Piece { text: e.clone(), tone: Some(Tone::Negative), bold: false });
            Some(l)
        },
        None => None,
    };
    let card = MonthCard {
        title: t(locale, TextKey::StatsMonthSummary),
        timeline: build_month_timeline(st.current_year, st.current_month),
        change_line,
        income_row: StatRow {
            label: t(locale, TextKey::StatsIncome),
            amount: income as i128,
            percent: figures.income_percent,
            tone: Tone::Positive,
        },
        expense_row: StatRow {
            label: t(locale, TextKey::StatsExpenses),
            amount: figures.expense_shown,
            percent: figures.expense_percent,
            tone: Tone::Negative,
        },
        gauge,
        no_income_line,
        net: figures.net,
        net_line,
        balance: figures.balance,
        balance_line,
        error_line,
    };
    proof {
        let want = month_card_of(*state, net@, balance@, ic, ec);
        assert(card@.change_line =~= want.change_line);
        assert(card@.net_line =~= want.net_line);
        assert(card@.balance_line =~= want.balance_line);
        if income <= 0 {
            assert(card@.no_income_line->0 =~= want.no_income_line->0);
        }
        if st.error is Some {
            assert(card@.error_line->0 =~= want.error_line->0);
        }
    }
    card
}

} // verus!
