//! Multi-section statements: the income statement and the balance sheet.
//!
//! hledger writes both as `{cbrTitle, cbrDates, cbrSubreports, cbrTotals}`,
//! each subreport a positional `[name, periodic data, increases_total]`.

use crate::args::{
    flag_if, head, joined_if, number_if, one_flag, opt_text_view, pair_if, period_flag_last_wins,
    period_last_wins, push_all, push_flag, push_joined, push_number, push_one, push_pair, push_text,
    start_args, texts,
};
use crate::balance::text_or_empty;
use crate::error::{parse_error, HLedgerError};
use crate::json::{
    glue, json_document, lemma_parse_each_all, lemma_parse_each_start, lemma_parse_each_step, parse_each, parse_json, text_or,
    JsonValue,
};
use crate::periodic::{
    dates_of, dates_view, opt_row_of, opt_row_view, parse_opt_row, parse_period_dates, parse_periodic_data,
    periodic_of, rows_view, PeriodDate, PeriodDateView, PeriodicBalanceRow, PeriodicView, RowView,
};
use vstd::prelude::*;

verus! {

/// Options of the incomestatement and balancesheet commands. Flags of one
/// axis that are set together are resolved as hledger does when the last one
/// given wins.
#[derive(Clone, Debug)]
pub struct IncomeStatementOptions {
    pub sum: bool,
    pub valuechange: bool,
    pub gain: bool,
    pub change: bool,
    pub cumulative: bool,
    pub historical: bool,
    pub flat: bool,
    pub tree: bool,
    pub drop: Option<u32>,
    pub declared: bool,
    pub average: bool,
    pub row_total: bool,
    pub summary_only: bool,
    pub no_total: bool,
    pub no_elide: bool,
    pub sort_amount: bool,
    pub percent: bool,
    pub layout: Option<String>,
    pub daily: bool,
    pub weekly: bool,
    pub monthly: bool,
    pub quarterly: bool,
    pub yearly: bool,
    pub period: Option<String>,
    pub begin: Option<String>,
    pub end: Option<String>,
    pub depth: Option<u32>,
    pub unmarked: bool,
    pub pending: bool,
    pub cleared: bool,
    pub real: bool,
    pub empty: bool,
    pub cost: bool,
    pub market: bool,
    pub exchange: Option<String>,
    pub value: Option<String>,
    pub queries: Vec<String>,
}

/// The balance sheet takes the same options.
pub type BalanceSheetOptions = IncomeStatementOptions;

impl IncomeStatementOptions {
    /// No flags, no filters, no patterns.
    pub fn new() -> (r: Self)
        ensures
            r == (Self { sum: false, valuechange: false, gain: false, change: false, cumulative: false, historical: false, flat: false, tree: false, drop: None, declared: false, average: false, row_total: false, summary_only: false, no_total: false, no_elide: false, sort_amount: false, percent: false, layout: None, daily: false, weekly: false, monthly: false, quarterly: false, yearly: false, period: None, begin: None, end: None, depth: None, unmarked: false, pending: false, cleared: false, real: false, empty: false, cost: false, market: false, exchange: None, value: None, queries: r.queries }),
            r.queries@.len() == 0,
    {
        IncomeStatementOptions {
            sum: false,
            valuechange: false,
            gain: false,
            change: false,
            cumulative: false,
            historical: false,
            flat: false,
            tree: false,
            drop: None,
            declared: false,
            average: false,
            row_total: false,
            summary_only: false,
            no_total: false,
            no_elide: false,
            sort_amount: false,
            percent: false,
            layout: None,
            daily: false,
            weekly: false,
            monthly: false,
            quarterly: false,
            yearly: false,
            period: None,
            begin: None,
            end: None,
            depth: None,
            unmarked: false,
            pending: false,
            cleared: false,
            real: false,
            empty: false,
            cost: false,
            market: false,
            exchange: None,
            value: None,
            queries: Vec::new(),
        }
    }

    /// Daily periods.
    pub fn daily(self) -> (r: Self)
        ensures
            r == (Self { daily: true, ..self }),
    {
        let mut o = self;
        o.daily = true;
        o
    }

    /// Weekly periods.
    pub fn weekly(self) -> (r: Self)
        ensures
            r == (Self { weekly: true, ..self }),
    {
        let mut o = self;
        o.weekly = true;
        o
    }

    /// Monthly periods.
    pub fn monthly(self) -> (r: Self)
        ensures
            r == (Self { monthly: true, ..self }),
    {
        let mut o = self;
        o.monthly = true;
        o
    }

    /// Quarterly periods.
    pub fn quarterly(self) -> (r: Self)
        ensures
            r == (Self { quarterly: true, ..self }),
    {
        let mut o = self;
        o.quarterly = true;
        o
    }

    /// Yearly periods.
    pub fn yearly(self) -> (r: Self)
        ensures
            r == (Self { yearly: true, ..self }),
    {
        let mut o = self;
        o.yearly = true;
        o
    }

    /// Report over this period expression.
    pub fn period(self, period: &str) -> (r: Self)
        ensures
            r.period matches Some(s) && s@ == period@,
            r == (Self { period: r.period, ..self }),
    {
        let mut o = self;
        o.period = Some(period.to_string());
        o
    }

    /// Accumulate from the journal start.
    pub fn historical(self) -> (r: Self)
        ensures
            r == (Self { historical: true, ..self }),
    {
        let mut o = self;
        o.historical = true;
        o
    }

    /// Accumulate from the report start.
    pub fn cumulative(self) -> (r: Self)
        ensures
            r == (Self { cumulative: true, ..self }),
    {
        let mut o = self;
        o.cumulative = true;
        o
    }

    /// Accumulate within each period.
    pub fn change(self) -> (r: Self)
        ensures
            r == (Self { change: true, ..self }),
    {
        let mut o = self;
        o.change = true;
        o
    }

    /// Show accounts as a tree.
    pub fn tree(self) -> (r: Self)
        ensures
            r == (Self { tree: true, flat: false, ..self }),
    {
        let mut o = self;
        o.tree = true;
        o.flat = false;
        o
    }

    /// Show accounts as a flat list.
    pub fn flat(self) -> (r: Self)
        ensures
            r == (Self { flat: true, tree: false, ..self }),
    {
        let mut o = self;
        o.flat = true;
        o.tree = false;
        o
    }

    /// Show a row total column.
    pub fn row_total(self) -> (r: Self)
        ensures
            r == (Self { row_total: true, ..self }),
    {
        let mut o = self;
        o.row_total = true;
        o
    }

    /// Show a row average column.
    pub fn average(self) -> (r: Self)
        ensures
            r == (Self { average: true, ..self }),
    {
        let mut o = self;
        o.average = true;
        o
    }

    /// Omit the final total row.
    pub fn no_total(self) -> (r: Self)
        ensures
            r == (Self { no_total: true, ..self }),
    {
        let mut o = self;
        o.no_total = true;
        o
    }

    /// Show accounts down to this depth.
    pub fn depth(self, n: u32) -> (r: Self)
        ensures
            r == (Self { depth: Some(n), ..self }),
    {
        let mut o = self;
        o.depth = Some(n);
        o
    }

    /// Show zero items too.
    pub fn empty(self) -> (r: Self)
        ensures
            r == (Self { empty: true, ..self }),
    {
        let mut o = self;
        o.empty = true;
        o
    }

    /// Include transactions on or after this date.
    pub fn begin(self, date: &str) -> (r: Self)
        ensures
            r.begin matches Some(s) && s@ == date@,
            r == (Self { begin: r.begin, ..self }),
    {
        let mut o = self;
        o.begin = Some(date.to_string());
        o
    }

    /// Include transactions before this date.
    pub fn end(self, date: &str) -> (r: Self)
        ensures
            r.end matches Some(s) && s@ == date@,
            r == (Self { end: r.end, ..self }),
    {
        let mut o = self;
        o.end = Some(date.to_string());
        o
    }

    /// Add a query pattern after the others.
    pub fn query(self, pattern: &str) -> (r: Self)
        ensures
            texts(r.queries@) == texts(self.queries@).push(pattern@),
            r == (Self { queries: r.queries, ..self }),
    {
        let mut o = self;
        o.queries.push(pattern.to_string());
        assert(texts(o.queries@) =~= texts(self.queries@).push(pattern@));
        o
    }

    /// Replace the query patterns.
    pub fn queries(self, queries: Vec<String>) -> (r: Self)
        ensures
            r == (Self { queries: queries, ..self }),
    {
        let mut o = self;
        o.queries = queries;
        o
    }

    /// Convert to cost.
    pub fn cost(self) -> (r: Self)
        ensures
            r == (Self { cost: true, ..self }),
    {
        let mut o = self;
        o.cost = true;
        o
    }

    /// Convert to market value at period end.
    pub fn market(self) -> (r: Self)
        ensures
            r == (Self { market: true, ..self }),
    {
        let mut o = self;
        o.market = true;
        o
    }

    /// Sort by amount instead of account name.
    pub fn sort_amount(self) -> (r: Self)
        ensures
            r == (Self { sort_amount: true, ..self }),
    {
        let mut o = self;
        o.sort_amount = true;
        o
    }

    /// Show the change in period-end value.
    pub fn valuechange(self) -> (r: Self)
        ensures
            r == (Self { valuechange: true, ..self }),
    {
        let mut o = self;
        o.valuechange = true;
        o
    }

    /// Show unrealised capital gain or loss.
    pub fn gain(self) -> (r: Self)
        ensures
            r == (Self { gain: true, ..self }),
    {
        let mut o = self;
        o.gain = true;
        o
    }
}

impl Default for IncomeStatementOptions {
    fn default() -> (r: Self)
        ensures
            r == (Self { sum: false, valuechange: false, gain: false, change: false, cumulative: false, historical: false, flat: false, tree: false, drop: None, declared: false, average: false, row_total: false, summary_only: false, no_total: false, no_elide: false, sort_amount: false, percent: false, layout: None, daily: false, weekly: false, monthly: false, quarterly: false, yearly: false, period: None, begin: None, end: None, depth: None, unmarked: false, pending: false, cleared: false, real: false, empty: false, cost: false, market: false, exchange: None, value: None, queries: r.queries }),
            r.queries@.len() == 0,
    {
        Self::new()
    }
}

/// The calculation mode flag: gain, then valuechange.
pub open spec fn statement_calc(o: IncomeStatementOptions) -> Option<Seq<char>> {
    if o.gain {
        Some("--gain"@)
    } else if o.valuechange {
        Some("--valuechange"@)
    } else {
        None
    }
}

/// The accumulation mode flag: historical, then cumulative, then change.
pub open spec fn statement_accumulation(o: IncomeStatementOptions) -> Option<Seq<char>> {
    if o.historical {
        Some("--historical"@)
    } else if o.cumulative {
        Some("--cumulative"@)
    } else if o.change {
        Some("--change"@)
    } else {
        None
    }
}

/// Period, calculation, accumulation and list mode flags, after `prev`.
#[verifier::opaque]
pub open spec fn statement_modes(prev: Seq<Seq<char>>, o: IncomeStatementOptions) -> Seq<Seq<char>> {
    prev + one_flag(period_last_wins(o.daily, o.weekly, o.monthly, o.quarterly, o.yearly))
        + pair_if(o.period, "--period"@) + one_flag(statement_calc(o))
        + one_flag(statement_accumulation(o)) + seq![if o.tree { "--tree"@ } else { "--flat"@ }]
        + number_if(o.drop, "--drop="@) + flag_if(o.declared, "--declared"@)
}

/// Column, sorting and layout flags, after `prev`.
#[verifier::opaque]
pub open spec fn statement_display(prev: Seq<Seq<char>>, o: IncomeStatementOptions) -> Seq<Seq<char>> {
    prev + flag_if(o.average, "--average"@) + flag_if(o.row_total, "--row-total"@)
        + flag_if(o.summary_only, "--summary-only"@) + flag_if(o.no_total, "--no-total"@)
        + flag_if(o.no_elide, "--no-elide"@) + flag_if(o.sort_amount, "--sort-amount"@)
        + flag_if(o.percent, "--percent"@) + joined_if(o.layout, "--layout="@)
}

/// Filter and valuation flags, after `prev`.
#[verifier::opaque]
pub open spec fn statement_filters(prev: Seq<Seq<char>>, o: IncomeStatementOptions) -> Seq<Seq<char>> {
    prev + number_if(o.depth, "--depth="@) + flag_if(o.empty, "--empty"@)
        + pair_if(o.begin, "--begin"@) + pair_if(o.end, "--end"@)
        + flag_if(o.unmarked, "--unmarked"@) + flag_if(o.pending, "--pending"@)
        + flag_if(o.cleared, "--cleared"@) + flag_if(o.real, "--real"@)
        + flag_if(o.cost, "--cost"@) + flag_if(o.market, "--market"@)
        + pair_if(o.exchange, "--exchange"@) + joined_if(o.value, "--value="@)
}

/// The flags of a statement invocation, before the query patterns.
pub open spec fn statement_flags(
    journal: Option<Seq<char>>,
    command: Seq<char>,
    o: IncomeStatementOptions,
) -> Seq<Seq<char>> {
    statement_filters(
        statement_display(
            statement_modes(head(journal, command) + seq!["--output-format"@, "json"@], o),
            o,
        ),
        o,
    )
}

/// The whole argument list: the flags, then the query patterns in their order.
pub open spec fn statement_argv(
    journal: Option<Seq<char>>,
    command: Seq<char>,
    o: IncomeStatementOptions,
) -> Seq<Seq<char>> {
    statement_flags(journal, command, o) + texts(o.queries@)
}

fn push_statement_modes(a: &mut Vec<String>, o: &IncomeStatementOptions)
    ensures
        texts(final(a)@) == statement_modes(texts(old(a)@), *o),
{
    reveal(statement_modes);
    push_one(a, period_flag_last_wins(o.daily, o.weekly, o.monthly, o.quarterly, o.yearly));
    push_pair(a, &o.period, "--period");
    push_one(
        a,
        if o.gain {
            Some("--gain")
        } else if o.valuechange {
            Some("--valuechange")
        } else {
            None
        },
    );
    push_one(
        a,
        if o.historical {
            Some("--historical")
        } else if o.cumulative {
            Some("--cumulative")
        } else if o.change {
            Some("--change")
        } else {
            None
        },
    );
    let ghost before = texts(a@);
    push_text(a, if o.tree { "--tree" } else { "--flat" });
    assert(before.push(if o.tree { "--tree"@ } else { "--flat"@ }) =~= before + seq![if o.tree { "--tree"@ } else { "--flat"@ }]);
    push_number(a, o.drop, "--drop=");
    push_flag(a, o.declared, "--declared");
}

fn push_statement_display(a: &mut Vec<String>, o: &IncomeStatementOptions)
    ensures
        texts(final(a)@) == statement_display(texts(old(a)@), *o),
{
    reveal(statement_display);
    push_flag(a, o.average, "--average");
    push_flag(a, o.row_total, "--row-total");
    push_flag(a, o.summary_only, "--summary-only");
    push_flag(a, o.no_total, "--no-total");
    push_flag(a, o.no_elide, "--no-elide");
    push_flag(a, o.sort_amount, "--sort-amount");
    push_flag(a, o.percent, "--percent");
    push_joined(a, &o.layout, "--layout=");
}

fn push_statement_filters(a: &mut Vec<String>, o: &IncomeStatementOptions)
    ensures
        texts(final(a)@) == statement_filters(texts(old(a)@), *o),
{
    reveal(statement_filters);
    push_number(a, o.depth, "--depth=");
    push_flag(a, o.empty, "--empty");
    push_pair(a, &o.begin, "--begin");
    push_pair(a, &o.end, "--end");
    push_flag(a, o.unmarked, "--unmarked");
    push_flag(a, o.pending, "--pending");
    push_flag(a, o.cleared, "--cleared");
    push_flag(a, o.real, "--real");
    push_flag(a, o.cost, "--cost");
    push_flag(a, o.market, "--market");
    push_pair(a, &o.exchange, "--exchange");
    push_joined(a, &o.value, "--value=");
}

/// The arguments that ask hledger for `command` (a statement) in JSON.
pub fn statement_args(journal: Option<&str>, command: &str, o: &IncomeStatementOptions) -> (r: Vec<String>)
    ensures
        texts(r@) == statement_argv(opt_text_view(journal), command@, *o),
{
    let mut a = start_args(journal, command);
    let ghost start = texts(a@);
    push_text(&mut a, "--output-format");
    push_text(&mut a, "json");
    assert(texts(a@) =~= start + seq!["--output-format"@, "json"@]);
    push_statement_modes(&mut a, o);
    push_statement_display(&mut a, o);
    push_statement_filters(&mut a, o);
    push_all(&mut a, &o.queries);
    a
}

/// The arguments that ask hledger for an income statement in JSON.
pub fn incomestatement_args(journal: Option<&str>, o: &IncomeStatementOptions) -> (r: Vec<String>)
    ensures
        texts(r@) == statement_argv(opt_text_view(journal), "incomestatement"@, *o),
{
    statement_args(journal, "incomestatement", o)
}

/// The arguments that ask hledger for a balance sheet in JSON.
pub fn balancesheet_args(journal: Option<&str>, o: &BalanceSheetOptions) -> (r: Vec<String>)
    ensures
        texts(r@) == statement_argv(opt_text_view(journal), "balancesheet"@, *o),
{
    statement_args(journal, "balancesheet", o)
}

/// One section of a statement (Revenues, Expenses; Assets, Liabilities).
#[derive(Clone, Debug)]
pub struct IncomeStatementSubreport {
    pub name: String,
    pub dates: Vec<PeriodDate>,
    pub rows: Vec<PeriodicBalanceRow>,
    pub totals: Option<PeriodicBalanceRow>,
    /// Whether the section adds to the grand total, as hledger says.
    pub increases_total: bool,
}

/// A statement: its title, periods, sections, and perhaps grand totals.
#[derive(Clone, Debug)]
pub struct IncomeStatementReport {
    pub title: String,
    pub dates: Vec<PeriodDate>,
    pub subreports: Vec<IncomeStatementSubreport>,
    pub totals: Option<PeriodicBalanceRow>,
}

pub type BalanceSheetSubreport = IncomeStatementSubreport;

pub type BalanceSheetReport = IncomeStatementReport;

pub struct SubreportView {
    pub name: Seq<char>,
    pub dates: Seq<PeriodDateView>,
    pub rows: Seq<RowView>,
    pub totals: Option<RowView>,
    pub increases_total: bool,
}

pub struct StatementView {
    pub title: Seq<char>,
    pub dates: Seq<PeriodDateView>,
    pub subreports: Seq<SubreportView>,
    pub totals: Option<RowView>,
}

impl View for IncomeStatementSubreport {
    type V = SubreportView;

    open spec fn view(&self) -> SubreportView {
        SubreportView {
            name: self.name@,
            dates: dates_view(self.dates@),
            rows: rows_view(self.rows@),
            totals: opt_row_view(self.totals),
            increases_total: self.increases_total,
        }
    }
}

pub open spec fn subreports_view(s: Seq<IncomeStatementSubreport>) -> Seq<SubreportView> {
    s.map_values(|x: IncomeStatementSubreport| x@)
}

impl View for IncomeStatementReport {
    type V = StatementView;

    open spec fn view(&self) -> StatementView {
        StatementView {
            title: self.title@,
            dates: dates_view(self.dates@),
            subreports: subreports_view(self.subreports@),
            totals: opt_row_view(self.totals),
        }
    }
}

/// The sign flag of a section: the boolean hledger wrote, else true.
pub open spec fn increases_flag(v: JsonValue) -> bool {
    match v.bool_view() {
        Some(b) => b,
        None => true,
    }
}

/// A section entry `[name, periodic data, increases_total, ...]`; an entry
/// of fewer than three items is skipped.
pub open spec fn section_item(v: JsonValue) -> Option<Option<(Seq<char>, PeriodicView, bool)>> {
    match v.array_view() {
        Some(a) => if a.len() >= 3 {
            match periodic_of(a[1]) {
                Some(p) => Some(Some((text_or_empty(a[0]), p, increases_flag(a[2])))),
                None => None,
            }
        } else {
            Some(None)
        },
        None => Some(None),
    }
}

/// A section entry `[name, periodic data, flag, ...]` whose data is readable
/// and whose flag is a boolean.
pub open spec fn readable_section(v: JsonValue) -> bool {
    v.array_view() matches Some(a) && a.len() >= 3 && periodic_of(a[1]) is Some && a[2].bool_view() is Some
}

pub open spec fn subreport_item(v: JsonValue) -> Option<Option<SubreportView>> {
    match section_item(v) {
        Some(Some((name, p, inc))) => Some(
            Some(
                SubreportView {
                    name,
                    dates: p.dates,
                    rows: p.rows,
                    totals: p.totals,
                    increases_total: inc,
                },
            ),
        ),
        Some(None) => Some(None),
        None => None,
    }
}

pub open spec fn subreport_items() -> spec_fn(JsonValue) -> Option<Option<SubreportView>> {
    |x: JsonValue| subreport_item(x)
}

pub open spec fn subreports_of(v: JsonValue) -> Option<Seq<SubreportView>> {
    match v.array_view() {
        Some(items) => parse_each(items, subreport_items()),
        None => Some(Seq::empty()),
    }
}

/// A statement document: an object whose `cbrDates` and `cbrSubreports` are
/// required; the title defaults to `default_title`.
pub open spec fn statement_of(v: JsonValue, default_title: Seq<char>) -> Option<StatementView> {
    if !(v is Object) {
        None
    } else {
        match (v.field("cbrDates"@), v.field("cbrSubreports"@)) {
            (Some(d), Some(s)) => match (dates_of(d), subreports_of(s), opt_row_of(v, "cbrTotals"@)) {
                (Some(dates), Some(subreports), Some(totals)) => Some(
                    StatementView {
                        title: text_or(v, "cbrTitle"@, default_title),
                        dates,
                        subreports,
                        totals,
                    },
                ),
                _ => None,
            },
            _ => None,
        }
    }
}

/// Reads one section entry; `None` when it has fewer than three items.
pub fn parse_subreport(value: &JsonValue) -> (r: Result<Option<IncomeStatementSubreport>, HLedgerError>)
    ensures
        r is Ok == subreport_item(*value) is Some,
        r matches Ok(s) ==> subreport_item(*value) == Some(
            match s {
                Some(s) => Some(s@),
                None => None,
            },
        ),
        r matches Err(e) ==> e is ParseError,
{
    if let Some(items) = value.as_array() {
        if items.len() >= 3 {
            let name = match items[0].as_str() {
                Some(s) => s.clone(),
                None => "".to_string(),
            };
            let data = parse_periodic_data(&items[1])?;
            let increases_total = match items[2].as_bool() {
                Some(b) => b,
                None => true,
            };
            return Ok(
                Some(
                    IncomeStatementSubreport {
                        name,
                        dates: data.dates,
                        rows: data.rows,
                        totals: data.totals,
                        increases_total,
                    },
                ),
            );
        }
    }
    Ok(None)
}

fn parse_subreports(value: &JsonValue) -> (r: Result<Vec<IncomeStatementSubreport>, HLedgerError>)
    ensures
        r is Ok == subreports_of(*value) is Some,
        r matches Ok(s) ==> subreports_of(*value) == Some(subreports_view(s@)),
        r matches Err(e) ==> e is ParseError,
{
    let mut out: Vec<IncomeStatementSubreport> = Vec::new();
    if let Some(items) = value.as_array() {
        let ghost f = subreport_items();
        proof {
            lemma_parse_each_start(items@, f);
        }
        let mut i: usize = 0;
        while i < items.len()
            invariant
                i <= items.len(),
                f == subreport_items(),
                value.array_view() == Some(items@),
                glue(subreports_view(out@), parse_each(items@.skip(i as int), f)) == parse_each(items@, f),
                parse_each(items@.skip(items.len() as int), f) == Some(Seq::<SubreportView>::empty()),
            decreases items.len() - i,
        {
            proof {
                lemma_parse_each_step(items@, f, i as int, subreports_view(out@));
            }
            if let Some(s) = parse_subreport(&items[i])? {
                let ghost old_out = out@;
                out.push(s);
                assert(subreports_view(out@) =~= subreports_view(old_out).push(s@));
            }
            i = i + 1;
        }
        assert(subreports_view(out@) + Seq::<SubreportView>::empty() =~= subreports_view(out@));
    }
    Ok(out)
}

/// Reads a statement document, with `default_title` when it has none.
pub fn parse_statement_report(value: &JsonValue, default_title: &str) -> (r: Result<IncomeStatementReport, HLedgerError>)
    ensures
        r is Ok == statement_of(*value, default_title@) is Some,
        r matches Ok(s) ==> statement_of(*value, default_title@) == Some(s@),
        r matches Err(e) ==> e is ParseError,
{
    if !value.is_object() {
        return Err(parse_error("Expected object for statement report"));
    }
    let title = value.text_or("cbrTitle", default_title);
    let dates_json = match value.get("cbrDates") {
        Some(d) => d,
        None => return Err(parse_error("Missing cbrDates in statement")),
    };
    let subreports_json = match value.get("cbrSubreports") {
        Some(s) => s,
        None => return Err(parse_error("Missing cbrSubreports in statement")),
    };
    let dates = parse_period_dates(dates_json);
    let subreports = parse_subreports(subreports_json)?;
    let totals = parse_opt_row(value, "cbrTotals")?;
    Ok(IncomeStatementReport { title, dates, subreports, totals })
}

/// Reads an income statement from hledger's output.
pub fn parse_incomestatement(text: &str) -> (r: Result<IncomeStatementReport, HLedgerError>)
    ensures
        json_document(text@) is None ==> r matches Err(HLedgerError::Json(_)),
        json_document(text@) matches Some(v) ==> {
            &&& r is Ok == statement_of(v, "Income Statement"@) is Some
            &&& r matches Ok(s) ==> statement_of(v, "Income Statement"@) == Some(s@)
            &&& r matches Err(e) ==> e is ParseError
        },
{
    match parse_json(text) {
        Ok(v) => parse_statement_report(&v, "Income Statement"),
        Err(e) => Err(HLedgerError::Json(e)),
    }
}

/// Reads a balance sheet from hledger's output.
pub fn parse_balancesheet(text: &str) -> (r: Result<BalanceSheetReport, HLedgerError>)
    ensures
        json_document(text@) is None ==> r matches Err(HLedgerError::Json(_)),
        json_document(text@) matches Some(v) ==> {
            &&& r is Ok == statement_of(v, "Balance Sheet"@) is Some
            &&& r matches Ok(s) ==> statement_of(v, "Balance Sheet"@) == Some(s@)
            &&& r matches Err(e) ==> e is ParseError
        },
{
    match parse_json(text) {
        Ok(v) => parse_statement_report(&v, "Balance Sheet"),
        Err(e) => Err(HLedgerError::Json(e)),
    }
}

/// The query patterns of a statement invocation come last, in their order,
/// after flags that do not depend on them.
pub proof fn lemma_statement_queries_last(
    journal: Option<Seq<char>>,
    command: Seq<char>,
    o: IncomeStatementOptions,
    other: IncomeStatementOptions,
)
    requires
        other == (IncomeStatementOptions { queries: other.queries, ..o }),
    ensures
        statement_argv(journal, command, o) == statement_flags(journal, command, o) + texts(o.queries@),
        statement_flags(journal, command, o) == statement_flags(journal, command, other),
        statement_argv(journal, command, o).subrange(
            statement_flags(journal, command, o).len() as int,
            statement_argv(journal, command, o).len() as int,
        ) == texts(o.queries@),
{
    let f = statement_flags(journal, command, o);
    assert((f + texts(o.queries@)).subrange(f.len() as int, (f.len() + o.queries@.len()) as int) =~= texts(o.queries@));
    let start = head(journal, command) + seq!["--output-format"@, "json"@];
    assert(statement_modes(start, o) == statement_modes(start, other)) by {
        reveal(statement_modes);
    }
    let m = statement_modes(start, o);
    assert(statement_display(m, o) == statement_display(m, other)) by {
        reveal(statement_display);
    }
    let d = statement_display(m, o);
    assert(statement_filters(d, o) == statement_filters(d, other)) by {
        reveal(statement_filters);
    }
}

/// A statement invocation sets at most one mode on each axis.
pub proof fn lemma_statement_axes(o: IncomeStatementOptions)
    ensures
        one_flag(period_last_wins(o.daily, o.weekly, o.monthly, o.quarterly, o.yearly)).len() <= 1,
        one_flag(statement_calc(o)).len() <= 1,
        one_flag(statement_accumulation(o)).len() <= 1,
{
}

/// A section's sign flag is passed through: a boolean third item is taken as
/// it is, whatever the section's name.
pub proof fn lemma_increases_total_passed_through(v: JsonValue, flag: bool)
    requires
        v.array_view() matches Some(a) && a.len() >= 3 && a[2] == JsonValue::Bool(flag) && periodic_of(a[1]) is Some,
    ensures
        subreport_item(v) matches Some(Some(s)) && s.increases_total == flag,
{
}

/// A statement without `cbrDates` or `cbrSubreports` is a schema error.
pub proof fn lemma_statement_requires_containers(v: JsonValue, default_title: Seq<char>)
    requires
        v.field("cbrDates"@) is None || v.field("cbrSubreports"@) is None,
    ensures
        statement_of(v, default_title) is None,
{
}

/// An empty section list is a statement without sections, not an error.
pub proof fn lemma_statement_without_sections(v: JsonValue, default_title: Seq<char>)
    requires
        v is Object,
        v.field("cbrDates"@) matches Some(d) && dates_of(d) is Some,
        v.field("cbrSubreports"@) matches Some(s) && s.array_view() == Some(Seq::<JsonValue>::empty()),
        v.field("cbrTotals"@) is None,
    ensures
        statement_of(v, default_title) matches Some(r) && r.subreports.len() == 0,
{
    let s = v.field("cbrSubreports"@).unwrap();
    assert(subreports_of(s) == Some(Seq::<SubreportView>::empty()));
}

/// Sections are passed through in order: when every entry is a
/// `[name, periodic data, flag]` whose data is readable and whose flag is a
/// boolean, there is one section per entry, with that entry's name and flag.
pub proof fn lemma_statement_sections_in_order(s: JsonValue, items: Seq<JsonValue>)
    requires
        s.array_view() == Some(items),
        forall|i: int| 0 <= i < items.len() ==> #[trigger] readable_section(items[i]),
    ensures
        subreports_of(s) matches Some(r) && r.len() == items.len() && forall|i: int|
            0 <= i < items.len() ==> {
                let a = items[i].array_view()->0;
                &&& (#[trigger] r[i]).name == text_or_empty(a[0])
                &&& Some(r[i].increases_total) == a[2].bool_view()
            },
{
    let f = subreport_items();
    assert forall|i: int| 0 <= i < items.len() implies (#[trigger] f(items[i])) matches Some(Some(_)) by {
        assert(readable_section(items[i]));
    }
    lemma_parse_each_all(items, f);
    let r = subreports_of(s)->0;
    assert forall|i: int| 0 <= i < items.len() implies {
        let a = items[i].array_view()->0;
        &&& (#[trigger] r[i]).name == text_or_empty(a[0])
        &&& Some(r[i].increases_total) == a[2].bool_view()
    } by {
        assert(readable_section(items[i]));
        assert(f(items[i]) == Some(Some(r[i])));
    }
}

} // verus!
