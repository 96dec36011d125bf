//! The cashflow statement: its options, its command line and its document.

use crate::args::{
    flag_if, head, joined_if, number_if, one_flag, opt_text_view, pair_if, push_all, push_flag,
    push_joined, push_number, push_one, push_pair, push_text, start_args, texts,
};
use crate::error::{parse_error, HLedgerError};
use crate::json::{
    glue, json_document, lemma_parse_each_all, lemma_parse_each_start, lemma_parse_each_step, parse_each, parse_json, text_or,
    JsonValue,
};
use crate::periodic::{
    dates_of, dates_view, opt_row_of, opt_row_view, parse_opt_row, parse_period_dates, parse_periodic_data,
    PeriodDate, PeriodDateView, PeriodicBalance, PeriodicBalanceRow, PeriodicView, RowView,
};
use crate::balance::text_or_empty;
use crate::statement::{readable_section, section_item};
use vstd::prelude::*;

verus! {

/// Options of the cashflow command. Its builders keep each axis to one mode;
/// flags set together directly are resolved by a fixed order, the first
/// named wins.
#[derive(Clone, Debug)]
pub struct CashflowOptions {
    pub sum: bool,
    pub valuechange: bool,
    pub gain: bool,
    pub budget: bool,
    pub change: bool,
    pub cumulative: bool,
    pub historical: bool,
    pub flat: bool,
    pub tree: bool,
    pub drop: Option<u32>,
    pub declared: bool,
    pub average: bool,
    pub row_total: bool,
    pub summary_only: bool,
    pub no_total: bool,
    pub no_elide: bool,
    pub format: Option<String>,
    pub sort_amount: bool,
    pub percent: bool,
    pub layout: Option<String>,
    pub base_url: Option<String>,
    pub begin: Option<String>,
    pub end: Option<String>,
    pub period: Option<String>,
    pub daily: bool,
    pub weekly: bool,
    pub monthly: bool,
    pub quarterly: bool,
    pub yearly: bool,
    pub depth: Option<u32>,
    pub empty: bool,
    pub query: Vec<String>,
}

impl CashflowOptions {
    /// Sum of postings, change within each period, flat list; no filters.
    pub fn new() -> (r: Self)
        ensures
            r == (Self { sum: true, valuechange: false, gain: false, budget: false, change: true, cumulative: false, historical: false, flat: true, tree: false, drop: None, declared: false, average: false, row_total: false, summary_only: false, no_total: false, no_elide: false, format: None, sort_amount: false, percent: false, layout: None, base_url: None, begin: None, end: None, period: None, daily: false, weekly: false, monthly: false, quarterly: false, yearly: false, depth: None, empty: false, query: r.query }),
            r.query@.len() == 0,
    {
        CashflowOptions {
            sum: true,
            valuechange: false,
            gain: false,
            budget: false,
            change: true,
            cumulative: false,
            historical: false,
            flat: true,
            tree: false,
            drop: None,
            declared: false,
            average: false,
            row_total: false,
            summary_only: false,
            no_total: false,
            no_elide: false,
            format: None,
            sort_amount: false,
            percent: false,
            layout: None,
            base_url: None,
            begin: None,
            end: None,
            period: None,
            daily: false,
            weekly: false,
            monthly: false,
            quarterly: false,
            yearly: false,
            depth: None,
            empty: false,
            query: Vec::new(),
        }
    }

    /// Show the change in period-end value, and no other calculation.
    pub fn valuechange(self) -> (r: Self)
        ensures
            r == (Self { valuechange: true, sum: false, gain: false, budget: false, ..self }),
    {
        let mut o = self;
        o.valuechange = true;
        o.sum = false;
        o.gain = false;
        o.budget = false;
        o
    }

    /// Show unrealised capital gain or loss, and no other calculation.
    pub fn gain(self) -> (r: Self)
        ensures
            r == (Self { gain: true, sum: false, valuechange: false, budget: false, ..self }),
    {
        let mut o = self;
        o.gain = true;
        o.sum = false;
        o.valuechange = false;
        o.budget = false;
        o
    }

    /// Compare with the budget, and no other calculation.
    pub fn budget(self) -> (r: Self)
        ensures
            r == (Self { budget: true, sum: false, valuechange: false, gain: false, ..self }),
    {
        let mut o = self;
        o.budget = true;
        o.sum = false;
        o.valuechange = false;
        o.gain = false;
        o
    }

    /// Accumulate from the report start, and in no other way.
    pub fn cumulative(self) -> (r: Self)
        ensures
            r == (Self { cumulative: true, change: false, historical: false, ..self }),
    {
        let mut o = self;
        o.cumulative = true;
        o.change = false;
        o.historical = false;
        o
    }

    /// Accumulate from the journal start, and in no other way.
    pub fn historical(self) -> (r: Self)
        ensures
            r == (Self { historical: true, change: false, cumulative: false, ..self }),
    {
        let mut o = self;
        o.historical = true;
        o.change = false;
        o.cumulative = false;
        o
    }

    /// Show accounts as a tree.
    pub fn tree(self) -> (r: Self)
        ensures
            r == (Self { tree: true, flat: false, ..self }),
    {
        let mut o = self;
        o.tree = true;
        o.flat = false;
        o
    }

    /// Show accounts down to this depth.
    pub fn depth(self, n: u32) -> (r: Self)
        ensures
            r == (Self { depth: Some(n), ..self }),
    {
        let mut o = self;
        o.depth = Some(n);
        o
    }

    /// Show zero items too.
    pub fn empty(self) -> (r: Self)
        ensures
            r == (Self { empty: true, ..self }),
    {
        let mut o = self;
        o.empty = true;
        o
    }

    /// Include transactions on or after this date.
    pub fn begin(self, date: &str) -> (r: Self)
        ensures
            r.begin matches Some(s) && s@ == date@,
            r == (Self { begin: r.begin, ..self }),
    {
        let mut o = self;
        o.begin = Some(date.to_string());
        o
    }

    /// Include transactions before this date.
    pub fn end(self, date: &str) -> (r: Self)
        ensures
            r.end matches Some(s) && s@ == date@,
            r == (Self { end: r.end, ..self }),
    {
        let mut o = self;
        o.end = Some(date.to_string());
        o
    }

    /// Report over this period expression.
    pub fn period(self, period: &str) -> (r: Self)
        ensures
            r.period matches Some(s) && s@ == period@,
            r == (Self { period: r.period, ..self }),
    {
        let mut o = self;
        o.period = Some(period.to_string());
        o
    }

    /// Daily periods, and no other interval.
    pub fn daily(self) -> (r: Self)
        ensures
            r == (Self { daily: true, weekly: false, monthly: false, quarterly: false, yearly: false, ..self }),
    {
        Self { daily: true, weekly: false, monthly: false, quarterly: false, yearly: false, ..self }
    }

    /// Weekly periods, and no other interval.
    pub fn weekly(self) -> (r: Self)
        ensures
            r == (Self { weekly: true, daily: false, monthly: false, quarterly: false, yearly: false, ..self }),
    {
        Self { weekly: true, daily: false, monthly: false, quarterly: false, yearly: false, ..self }
    }

    /// Monthly periods, and no other interval.
    pub fn monthly(self) -> (r: Self)
        ensures
            r == (Self { monthly: true, daily: false, weekly: false, quarterly: false, yearly: false, ..self }),
    {
        Self { monthly: true, daily: false, weekly: false, quarterly: false, yearly: false, ..self }
    }

    /// Quarterly periods, and no other interval.
    pub fn quarterly(self) -> (r: Self)
        ensures
            r == (Self { quarterly: true, daily: false, weekly: false, monthly: false, yearly: false, ..self }),
    {
        Self { quarterly: true, daily: false, weekly: false, monthly: false, yearly: false, ..self }
    }

    /// Yearly periods, and no other interval.
    pub fn yearly(self) -> (r: Self)
        ensures
            r == (Self { yearly: true, daily: false, weekly: false, monthly: false, quarterly: false, ..self }),
    {
        Self { yearly: true, daily: false, weekly: false, monthly: false, quarterly: false, ..self }
    }

    /// Add a query pattern after the others.
    pub fn query(self, pattern: &str) -> (r: Self)
        ensures
            texts(r.query@) == texts(self.query@).push(pattern@),
            r == (Self { query: r.query, ..self }),
    {
        let mut o = self;
        o.query.push(pattern.to_string());
        assert(texts(o.query@) =~= texts(self.query@).push(pattern@));
        o
    }

    /// Show a row average column.
    pub fn average(self) -> (r: Self)
        ensures
            r == (Self { average: true, ..self }),
    {
        let mut o = self;
        o.average = true;
        o
    }

    /// Show a row total column.
    pub fn row_total(self) -> (r: Self)
        ensures
            r == (Self { row_total: true, ..self }),
    {
        let mut o = self;
        o.row_total = true;
        o
    }

    /// Show only the row summaries.
    pub fn summary_only(self) -> (r: Self)
        ensures
            r == (Self { summary_only: true, ..self }),
    {
        let mut o = self;
        o.summary_only = true;
        o
    }

    /// Omit the final total row.
    pub fn no_total(self) -> (r: Self)
        ensures
            r == (Self { no_total: true, ..self }),
    {
        let mut o = self;
        o.no_total = true;
        o
    }

    /// Keep boring parent accounts.
    pub fn no_elide(self) -> (r: Self)
        ensures
            r == (Self { no_elide: true, ..self }),
    {
        let mut o = self;
        o.no_elide = true;
        o
    }

    /// Sort by amount instead of account name.
    pub fn sort_amount(self) -> (r: Self)
        ensures
            r == (Self { sort_amount: true, ..self }),
    {
        let mut o = self;
        o.sort_amount = true;
        o
    }

    /// Show values as percentages of the column total.
    pub fn percent(self) -> (r: Self)
        ensures
            r == (Self { percent: true, ..self }),
    {
        let mut o = self;
        o.percent = true;
        o
    }
}

impl Default for CashflowOptions {
    fn default() -> (r: Self)
        ensures
            r == (Self { sum: true, valuechange: false, gain: false, budget: false, change: true, cumulative: false, historical: false, flat: true, tree: false, drop: None, declared: false, average: false, row_total: false, summary_only: false, no_total: false, no_elide: false, format: None, sort_amount: false, percent: false, layout: None, base_url: None, begin: None, end: None, period: None, daily: false, weekly: false, monthly: false, quarterly: false, yearly: false, depth: None, empty: false, query: r.query }),
            r.query@.len() == 0,
    {
        Self::new()
    }
}

/// The calculation mode flag: valuechange, then gain, then budget.
pub open spec fn cashflow_calc(o: CashflowOptions) -> Option<Seq<char>> {
    if o.valuechange {
        Some("--valuechange"@)
    } else if o.gain {
        Some("--gain"@)
    } else if o.budget {
        Some("--budget"@)
    } else {
        None
    }
}

/// The accumulation mode flag: cumulative, then historical.
pub open spec fn cashflow_accumulation(o: CashflowOptions) -> Option<Seq<char>> {
    if o.cumulative {
        Some("--cumulative"@)
    } else if o.historical {
        Some("--historical"@)
    } else {
        None
    }
}

/// The period flag: daily, then weekly, monthly, quarterly, yearly.
pub open spec fn cashflow_interval(o: CashflowOptions) -> Option<Seq<char>> {
    if o.daily {
        Some("--daily"@)
    } else if o.weekly {
        Some("--weekly"@)
    } else if o.monthly {
        Some("--monthly"@)
    } else if o.quarterly {
        Some("--quarterly"@)
    } else if o.yearly {
        Some("--yearly"@)
    } else {
        None
    }
}

/// Mode and display flags, after `prev`.
#[verifier::opaque]
pub open spec fn cashflow_modes(prev: Seq<Seq<char>>, o: CashflowOptions) -> Seq<Seq<char>> {
    prev + one_flag(cashflow_calc(o)) + one_flag(cashflow_accumulation(o))
        + flag_if(o.tree, "--tree"@) + number_if(o.drop, "--drop="@)
        + flag_if(o.declared, "--declared"@) + flag_if(o.average, "--average"@)
        + flag_if(o.row_total, "--row-total"@) + flag_if(o.summary_only, "--summary-only"@)
        + flag_if(o.no_total, "--no-total"@) + flag_if(o.no_elide, "--no-elide"@)
}

/// Format, date and period flags, after `prev`.
#[verifier::opaque]
pub open spec fn cashflow_rest(prev: Seq<Seq<char>>, o: CashflowOptions) -> Seq<Seq<char>> {
    prev + joined_if(o.format, "--format="@) + flag_if(o.sort_amount, "--sort-amount"@)
        + flag_if(o.percent, "--percent"@) + joined_if(o.layout, "--layout="@)
        + joined_if(o.base_url, "--base-url="@) + pair_if(o.begin, "--begin"@)
        + pair_if(o.end, "--end"@) + pair_if(o.period, "--period"@)
        + one_flag(cashflow_interval(o)) + number_if(o.depth, "--depth="@)
        + flag_if(o.empty, "--empty"@)
}

/// The flags of a cashflow invocation, before the query patterns.
pub open spec fn cashflow_flags(journal: Option<Seq<char>>, o: CashflowOptions) -> Seq<Seq<char>> {
    cashflow_rest(cashflow_modes(head(journal, "cashflow"@) + seq!["--output-format"@, "json"@], o), o)
}

/// The whole argument list: the flags, then the query patterns in their order.
pub open spec fn cashflow_argv(journal: Option<Seq<char>>, o: CashflowOptions) -> Seq<Seq<char>> {
    cashflow_flags(journal, o) + texts(o.query@)
}

fn push_cashflow_modes(a: &mut Vec<String>, o: &CashflowOptions)
    ensures
        texts(final(a)@) == cashflow_modes(texts(old(a)@), *o),
{
    reveal(cashflow_modes);
    push_one(
        a,
        if o.valuechange {
            Some("--valuechange")
        } else if o.gain {
            Some("--gain")
        } else if o.budget {
            Some("--budget")
        } else {
            None
        },
    );
    push_one(
        a,
        if o.cumulative {
            Some("--cumulative")
        } else if o.historical {
            Some("--historical")
        } else {
            None
        },
    );
    push_flag(a, o.tree, "--tree");
    push_number(a, o.drop, "--drop=");
    push_flag(a, o.declared, "--declared");
    push_flag(a, o.average, "--average");
    push_flag(a, o.row_total, "--row-total");
    push_flag(a, o.summary_only, "--summary-only");
    push_flag(a, o.no_total, "--no-total");
    push_flag(a, o.no_elide, "--no-elide");
}

fn push_cashflow_rest(a: &mut Vec<String>, o: &CashflowOptions)
    ensures
        texts(final(a)@) == cashflow_rest(texts(old(a)@), *o),
{
    reveal(cashflow_rest);
    push_joined(a, &o.format, "--format=");
    push_flag(a, o.sort_amount, "--sort-amount");
    push_flag(a, o.percent, "--percent");
    push_joined(a, &o.layout, "--layout=");
    push_joined(a, &o.base_url, "--base-url=");
    push_pair(a, &o.begin, "--begin");
    push_pair(a, &o.end, "--end");
    push_pair(a, &o.period, "--period");
    push_one(
        a,
        if o.daily {
            Some("--daily")
        } else if o.weekly {
            Some("--weekly")
        } else if o.monthly {
            Some("--monthly")
        } else if o.quarterly {
            Some("--quarterly")
        } else if o.yearly {
            Some("--yearly")
        } else {
            None
        },
    );
    push_number(a, o.depth, "--depth=");
    push_flag(a, o.empty, "--empty");
}

/// The arguments that ask hledger for a cashflow statement in JSON.
pub fn cashflow_args(journal: Option<&str>, o: &CashflowOptions) -> (r: Vec<String>)
    ensures
        texts(r@) == cashflow_argv(opt_text_view(journal), *o),
{
    let mut a = start_args(journal, "cashflow");
    let ghost start = texts(a@);
    push_text(&mut a, "--output-format");
    push_text(&mut a, "json");
    assert(texts(a@) =~= start + seq!["--output-format"@, "json"@]);
    push_cashflow_modes(&mut a, o);
    push_cashflow_rest(&mut a, o);
    push_all(&mut a, &o.query);
    a
}

/// The cash flows section of a cashflow statement.
#[derive(Clone, Debug)]
pub struct CashflowSubreport {
    pub name: String,
    pub data: PeriodicBalance,
    /// Whether the section adds to the grand total, as hledger says.
    pub increases_total: bool,
}

/// A cashflow statement.
#[derive(Clone, Debug)]
pub struct CashflowReport {
    pub title: String,
    pub dates: Vec<PeriodDate>,
    pub subreports: Vec<CashflowSubreport>,
    pub totals: Option<PeriodicBalanceRow>,
}

pub struct CashflowSubreportView {
    pub name: Seq<char>,
    pub data: PeriodicView,
    pub increases_total: bool,
}

pub struct CashflowView {
    pub title: Seq<char>,
    pub dates: Seq<PeriodDateView>,
    pub subreports: Seq<CashflowSubreportView>,
    pub totals: Option<RowView>,
}

impl View for CashflowSubreport {
    type V = CashflowSubreportView;

    open spec fn view(&self) -> CashflowSubreportView {
        CashflowSubreportView { name: self.name@, data: self.data@, increases_total: self.increases_total }
    }
}

pub open spec fn cashflow_subreports_view(s: Seq<CashflowSubreport>) -> Seq<CashflowSubreportView> {
    s.map_values(|x: CashflowSubreport| x@)
}

impl View for CashflowReport {
    type V = CashflowView;

    open spec fn view(&self) -> CashflowView {
        CashflowView {
            title: self.title@,
            dates: dates_view(self.dates@),
            subreports: cashflow_subreports_view(self.subreports@),
            totals: opt_row_view(self.totals),
        }
    }
}

pub open spec fn cashflow_subreport_item(v: JsonValue) -> Option<Option<CashflowSubreportView>> {
    match section_item(v) {
        Some(Some((name, data, inc))) => Some(
            Some(CashflowSubreportView { name, data, increases_total: inc }),
        ),
        Some(None) => Some(None),
        None => None,
    }
}

pub open spec fn cashflow_subreport_items() -> spec_fn(JsonValue) -> Option<Option<CashflowSubreportView>> {
    |x: JsonValue| cashflow_subreport_item(x)
}

pub open spec fn cashflow_subreports_of(v: JsonValue) -> Option<Seq<CashflowSubreportView>> {
    match v.array_view() {
        Some(items) => parse_each(items, cashflow_subreport_items()),
        None => Some(Seq::empty()),
    }
}

/// A cashflow document: an object whose `cbrDates` and `cbrSubreports` are
/// required; the title defaults to "Cashflow Statement".
pub open spec fn cashflow_of(v: JsonValue) -> Option<CashflowView> {
    if !(v is Object) {
        None
    } else {
        match (v.field("cbrDates"@), v.field("cbrSubreports"@)) {
            (Some(d), Some(s)) => match (dates_of(d), cashflow_subreports_of(s), opt_row_of(v, "cbrTotals"@)) {
                (Some(dates), Some(subreports), Some(totals)) => Some(
                    CashflowView {
                        title: text_or(v, "cbrTitle"@, "Cashflow Statement"@),
                        dates,
                        subreports,
                        totals,
                    },
                ),
                _ => None,
            },
            _ => None,
        }
    }
}

fn parse_cashflow_subreport(value: &JsonValue) -> (r: Result<Option<CashflowSubreport>, HLedgerError>)
    ensures
        r is Ok == cashflow_subreport_item(*value) is Some,
        r matches Ok(s) ==> cashflow_subreport_item(*value) == Some(
            match s {
                Some(s) => Some(s@),
                None => None,
            },
        ),
        r matches Err(e) ==> e is ParseError,
{
    if let Some(items) = value.as_array() {
        if items.len() >= 3 {
            let name = match items[0].as_str() {
                Some(s) => s.clone(),
                None => "".to_string(),
            };
            let data = parse_periodic_data(&items[1])?;
            let increases_total = match items[2].as_bool() {
                Some(b) => b,
                None => true,
            };
            return Ok(Some(CashflowSubreport { name, data, increases_total }));
        }
    }
    Ok(None)
}

fn parse_cashflow_subreports(value: &JsonValue) -> (r: Result<Vec<CashflowSubreport>, HLedgerError>)
    ensures
        r is Ok == cashflow_subreports_of(*value) is Some,
        r matches Ok(s) ==> cashflow_subreports_of(*value) == Some(cashflow_subreports_view(s@)),
        r matches Err(e) ==> e is ParseError,
{
    let mut out: Vec<CashflowSubreport> = Vec::new();
    if let Some(items) = value.as_array() {
        let ghost f = cashflow_subreport_items();
        proof {
            lemma_parse_each_start(items@, f);
        }
        let mut i: usize = 0;
        while i < items.len()
            invariant
                i <= items.len(),
                f == cashflow_subreport_items(),
                value.array_view() == Some(items@),
                glue(cashflow_subreports_view(out@), parse_each(items@.skip(i as int), f)) == parse_each(items@, f),
                parse_each(items@.skip(items.len() as int), f) == Some(Seq::<CashflowSubreportView>::empty()),
            decreases items.len() - i,
        {
            proof {
                lemma_parse_each_step(items@, f, i as int, cashflow_subreports_view(out@));
            }
            if let Some(s) = parse_cashflow_subreport(&items[i])? {
                let ghost old_out = out@;
                out.push(s);
                assert(cashflow_subreports_view(out@) =~= cashflow_subreports_view(old_out).push(s@));
            }
            i = i + 1;
        }
        assert(cashflow_subreports_view(out@) + Seq::<CashflowSubreportView>::empty() =~= cashflow_subreports_view(out@));
    }
    Ok(out)
}

/// Reads a cashflow document.
pub fn parse_cashflow_report(value: &JsonValue) -> (r: Result<CashflowReport, HLedgerError>)
    ensures
        r is Ok == cashflow_of(*value) is Some,
        r matches Ok(c) ==> cashflow_of(*value) == Some(c@),
        r matches Err(e) ==> e is ParseError,
{
    if !value.is_object() {
        return Err(parse_error("Expected JSON object for cashflow report"));
    }
    let title = value.text_or("cbrTitle", "Cashflow Statement");
    let dates_json = match value.get("cbrDates") {
        Some(d) => d,
        None => return Err(parse_error("Missing cbrDates in cashflow")),
    };
    let subreports_json = match value.get("cbrSubreports") {
        Some(s) => s,
        None => return Err(parse_error("Missing cbrSubreports in cashflow")),
    };
    let dates = parse_period_dates(dates_json);
    let subreports = parse_cashflow_subreports(subreports_json)?;
    let totals = parse_opt_row(value, "cbrTotals")?;
    Ok(CashflowReport { title, dates, subreports, totals })
}

/// Reads a cashflow statement from hledger's output.
pub fn parse_cashflow(json_str: &str) -> (r: Result<CashflowReport, HLedgerError>)
    ensures
        json_document(json_str@) is None ==> r matches Err(HLedgerError::Json(_)),
        json_document(json_str@) matches Some(v) ==> {
            &&& r is Ok == cashflow_of(v) is Some
            &&& r matches Ok(c) ==> cashflow_of(v) == Some(c@)
            &&& r matches Err(e) ==> e is ParseError
        },
{
    match parse_json(json_str) {
        Ok(v) => parse_cashflow_report(&v),
        Err(e) => Err(HLedgerError::Json(e)),
    }
}

/// The query patterns of a cashflow invocation come last, in their order,
/// after flags that do not depend on them.
pub proof fn lemma_cashflow_queries_last(journal: Option<Seq<char>>, o: CashflowOptions, other: CashflowOptions)
    requires
        other == (CashflowOptions { query: other.query, ..o }),
    ensures
        cashflow_argv(journal, o) == cashflow_flags(journal, o) + texts(o.query@),
        cashflow_flags(journal, o) == cashflow_flags(journal, other),
        cashflow_argv(journal, o).subrange(
            cashflow_flags(journal, o).len() as int,
            cashflow_argv(journal, o).len() as int,
        ) == texts(o.query@),
{
    let f = cashflow_flags(journal, o);
    assert((f + texts(o.query@)).subrange(f.len() as int, (f.len() + o.query@.len()) as int) =~= texts(o.query@));
    let start = head(journal, "cashflow"@) + seq!["--output-format"@, "json"@];
    assert(cashflow_modes(start, o) == cashflow_modes(start, other)) by {
        reveal(cashflow_modes);
    }
    let m = cashflow_modes(start, o);
    assert(cashflow_rest(m, o) == cashflow_rest(m, other)) by {
        reveal(cashflow_rest);
    }
}

/// A cashflow invocation sets at most one mode on each axis.
pub proof fn lemma_cashflow_axes(o: CashflowOptions)
    ensures
        one_flag(cashflow_calc(o)).len() <= 1,
        one_flag(cashflow_accumulation(o)).len() <= 1,
        one_flag(cashflow_interval(o)).len() <= 1,
{
}

/// Sections are passed through in order: when every entry is a
/// `[name, periodic data, flag]` whose data is readable and whose flag is a
/// boolean, there is one section per entry, with that entry's name and flag.
pub proof fn lemma_cashflow_sections_in_order(s: JsonValue, items: Seq<JsonValue>)
    requires
        s.array_view() == Some(items),
        forall|i: int| 0 <= i < items.len() ==> #[trigger] readable_section(items[i]),
    ensures
        cashflow_subreports_of(s) matches Some(r) && r.len() == items.len() && forall|i: int|
            0 <= i < items.len() ==> {
                let a = items[i].array_view()->0;
                &&& (#[trigger] r[i]).name == text_or_empty(a[0])
                &&& Some(r[i].increases_total) == a[2].bool_view()
            },
{
    let f = cashflow_subreport_items();
    assert forall|i: int| 0 <= i < items.len() implies (#[trigger] f(items[i])) matches Some(Some(_)) by {
        assert(readable_section(items[i]));
    }
    lemma_parse_each_all(items, f);
    let r = cashflow_subreports_of(s)->0;
    assert forall|i: int| 0 <= i < items.len() implies {
        let a = items[i].array_view()->0;
        &&& (#[trigger] r[i]).name == text_or_empty(a[0])
        &&& Some(r[i].increases_total) == a[2].bool_view()
    } by {
        assert(readable_section(items[i]));
        assert(f(items[i]) == Some(Some(r[i])));
    }
}

} // verus!
