//! The monthly trend card of the cash flow screen: the latest income,
//! expenses and net savings with the parts of their month-over-month
//! changes, and the bars of the monthly series.

use super::state::AppState;
use super::stats::{
    net_change_of, net_change_parts, parts_as_ints, percentage_change_parts, series_amounts,
    series_change_of,
};
use crate::text::{TextKey, message, t};
use vstd::prelude::*;

verus! {

/// A row of the trend card: its label, the amount shown and the two integer
/// parts of its month-over-month change, when there is one.
#[derive(Debug, Clone, Copy, PartialEq, Eq)]
pub struct TrendRow {
    pub label: &'static str,
    pub amount: i64,
    pub change: Option<(i128, u128)>,
}

/// The monthly trend card.
#[derive(Debug, Clone)]
pub enum TrendCard {
    /// Neither series has a month yet.
    NoData { title: &'static str, message: &'static str },
    /// The trend rows, and the bars of each series (label and height), with
    /// the titles of the two charts.
    Trends {
        title: &'static str,
        income: TrendRow,
        expense: TrendRow,
        net: TrendRow,
        income_chart: &'static str,
        income_bars: Vec<(String, u64)>,
        expense_chart: &'static str,
        expense_bars: Vec<(String, u64)>,
    },
}

/// The last amount of a series, 0 when it is empty.
pub open spec fn last_amount(series: Seq<(String, i64)>) -> int {
    if series.len() == 0 {
        0
    } else {
        series.last().1 as int
    }
}

/// The bars of a series: each month's label and its amount, 0 when below.
pub open spec fn bars_of(series: Seq<(String, i64)>) -> Seq<(Seq<char>, int)> {
    Seq::new(
        series.len(),
        |i: int| (series[i].0@, if series[i].1 > 0 { series[i].1 as int } else { 0 }),
    )
}

/// The bars, as values.
pub open spec fn bars_view(bars: Seq<(String, u64)>) -> Seq<(Seq<char>, int)> {
    Seq::new(bars.len(), |i: int| (bars[i].0@, bars[i].1 as int))
}

/// A trend row as values.
pub open spec fn trend_row_view(r: TrendRow) -> (Seq<char>, int, Option<(int, int)>) {
    (r.label@, r.amount as int, parts_as_ints(r.change))
}

/// The figures of the card can be written: the latest net and the latest
/// expenses negated fit in an `i64`.
pub open spec fn trend_fits(state: AppState) -> bool {
    let income = last_amount(state.stats.monthly_income@);
    let expense = last_amount(state.stats.monthly_trend@);
    &&& i64::MIN <= income - expense <= i64::MAX
    &&& expense != i64::MIN
}

fn last_or_zero(series: &Vec<(String, i64)>) -> (r: i64)
    ensures
        r == last_amount(series@),
{
    if series.len() == 0 {
        0
    } else {
        series[series.len() - 1].1
    }
}

fn bars(series: &Vec<(String, i64)>) -> (r: Vec<(String, u64)>)
    ensures
        bars_view(r@) == bars_of(series@),
{
    let mut out: Vec<(String, u64)> = Vec::new();
    let mut i: usize = 0;
    while i < series.len()
        invariant
            i <= series.len(),
            out.len() == i,
            forall|k: int| 0 <= k < i ==> (#[trigger] bars_view(out@)[k]) == bars_of(series@)[k],
        decreases series.len() - i,
    {
        let (label, value) = &series[i];
        let height: u64 = if *value > 0 { *value as u64 } else { 0 };
        let ghost before = out@;
        out.push((label.clone(), height));
        proof {
            assert forall|k: int| 0 <= k <= i implies (#[trigger] bars_view(out@)[k]) == bars_of(series@)[k] by {
                if k < i {
                    assert(out@[k] == before[k]);
                    assert(bars_view(before)[k] == bars_of(series@)[k]);
                }
            }
        }
        i = i + 1;
    }
    assert(bars_view(out@) =~= bars_of(series@));
    out
}

/// The monthly trend card: with no month in either series, the card's
/// title and its no-data message; else the latest income, the latest
/// expenses (shown negative) and the latest net savings, each with the
/// parts of its month-over-month change, and the bars of the income and of
/// the expenses.
pub fn monthly_trend_card(state: &AppState) -> (r: TrendCard)
    requires
        trend_fits(*state),
    ensures
        (state.stats.monthly_income@.len() == 0 && state.stats.monthly_trend@.len() == 0) <==> r is NoData,
        r matches TrendCard::NoData { title, message: m } ==> title@ == message(
            state.locale,
            TextKey::StatsMonthlyTrend,
        ) && m@ == message(state.locale, TextKey::StatsMonthlyTrendNoData),
        r matches TrendCard::Trends {
            title,
            income,
            expense,
            net,
            income_chart,
            income_bars,
            expense_chart,
            expense_bars,
        } ==> {
            let inc = series_amounts(state.stats.monthly_income@);
            let exp = series_amounts(state.stats.monthly_trend@);
            let li = last_amount(state.stats.monthly_income@);
            let le = last_amount(state.stats.monthly_trend@);
            &&& title@ == message(state.locale, TextKey::StatsFinancialTrends)
            &&& trend_row_view(income) == (
                message(state.locale, TextKey::StatsIncome),
                li,
                series_change_of(inc),
            )
            &&& trend_row_view(expense) == (
                message(state.locale, TextKey::StatsExpenses),
                -le,
                series_change_of(exp),
            )
            &&& trend_row_view(net) == (
                message(state.locale, TextKey::StatsNetSavings),
                li - le,
                net_change_of(inc, exp),
            )
            &&& income_chart@ == message(state.locale, TextKey::StatsIncome)
            &&& bars_view(income_bars@) == bars_of(state.stats.monthly_income@)
            &&& expense_chart@ == message(state.locale, TextKey::StatsExpenses)
            &&& bars_view(expense_bars@) == bars_of(state.stats.monthly_trend@)
        },
{
    let st = &state.stats;
    let locale = state.locale;
    if st.monthly_income.len() == 0 && st.monthly_trend.len() == 0 {
        return TrendCard::NoData {
            title: t(locale, TextKey::StatsMonthlyTrend),
            message: t(locale, TextKey::StatsMonthlyTrendNoData),
        };
    }
    let income = last_or_zero(&st.monthly_income);
    let expense = last_or_zero(&st.monthly_trend);
    let income_change = percentage_change_parts(st.monthly_income.as_slice());
    let expense_change = percentage_change_parts(st.monthly_trend.as_slice());
    let net_change = net_change_parts(st.monthly_income.as_slice(), st.monthly_trend.as_slice());
    assert(parts_as_ints(income_change) == series_change_of(series_amounts(st.monthly_income@)));
    assert(parts_as_ints(expense_change) == series_change_of(series_amounts(st.monthly_trend@)));
    assert(parts_as_ints(net_change) == net_change_of(
        series_amounts(st.monthly_income@),
        series_amounts(st.monthly_trend@),
    ));
    TrendCard::Trends {
        title: t(locale, TextKey::StatsFinancialTrends),
        income: TrendRow { label: t(locale, TextKey::StatsIncome), amount: income, change: income_change },
        expense: TrendRow {
            label: t(locale, TextKey::StatsExpenses),
            amount: -expense,
            change: expense_change,
        },
        net: TrendRow {
            label: t(locale, TextKey::StatsNetSavings),
            amount: income - expense,
            change: net_change,
        },
        income_chart: t(locale, TextKey::StatsIncome),
        income_bars: bars(&st.monthly_income),
        expense_chart: t(locale, TextKey::StatsExpenses),
        expense_bars: bars(&st.monthly_trend),
    }
}

} // verus!
