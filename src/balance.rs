//! The balance report: its options, its command line, and its two shapes.

use crate::amount::{amounts_of, amounts_view, parse_amounts, Amount, AmountView};
use crate::args::{
    flag_if, head, joined_if, number_if, one_flag, opt_text_view, pair_if, period_flag_last_wins,
    period_last_wins, push_all, push_flag, push_joined, push_number, push_one, push_pair, push_text,
    start_args, texts,
};
use crate::error::{parse_error, HLedgerError};
use crate::json::{glue, json_document, lemma_parse_each_all, lemma_parse_each_start, lemma_parse_each_step, parse_each, parse_json, JsonValue};
use crate::periodic::{
    dates_of, parse_periodic_data, periodic_of, row_items, row_of, PeriodicBalance, PeriodicView,
};
use vstd::prelude::*;

verus! {

/// Options of the balance command. Flags of one axis that are set together
/// are resolved as hledger does when the last one given wins.
#[derive(Clone, Debug)]
pub struct BalanceOptions {
    pub sum: bool,
    pub valuechange: bool,
    pub gain: bool,
    pub budget: Option<String>,
    pub count: bool,
    pub change: bool,
    pub cumulative: bool,
    pub historical: bool,
    pub flat: bool,
    pub tree: bool,
    pub drop: Option<u32>,
    pub declared: bool,
    pub average: bool,
    pub row_total: bool,
    pub summary_only: bool,
    pub no_total: bool,
    pub no_elide: bool,
    pub sort_amount: bool,
    pub percent: bool,
    pub related: bool,
    pub invert: bool,
    pub transpose: bool,
    pub layout: Option<String>,
    pub daily: bool,
    pub weekly: bool,
    pub monthly: bool,
    pub quarterly: bool,
    pub yearly: bool,
    pub period: Option<String>,
    pub begin: Option<String>,
    pub end: Option<String>,
    pub depth: Option<u32>,
    pub unmarked: bool,
    pub pending: bool,
    pub cleared: bool,
    pub real: bool,
    pub empty: bool,
    pub cost: bool,
    pub market: bool,
    pub exchange: Option<String>,
    pub value: Option<String>,
    pub queries: Vec<String>,
}

impl BalanceOptions {
    /// No flags, no filters, no patterns.
    pub fn new() -> (r: Self)
        ensures
            r == (Self { sum: false, valuechange: false, gain: false, budget: None, count: false, change: false, cumulative: false, historical: false, flat: false, tree: false, drop: None, declared: false, average: false, row_total: false, summary_only: false, no_total: false, no_elide: false, sort_amount: false, percent: false, related: false, invert: false, transpose: false, layout: None, daily: false, weekly: false, monthly: false, quarterly: false, yearly: false, period: None, begin: None, end: None, depth: None, unmarked: false, pending: false, cleared: false, real: false, empty: false, cost: false, market: false, exchange: None, value: None, queries: r.queries }),
            r.queries@.len() == 0,
    {
        BalanceOptions {
            sum: false,
            valuechange: false,
            gain: false,
            budget: None,
            count: false,
            change: false,
            cumulative: false,
            historical: false,
            flat: false,
            tree: false,
            drop: None,
            declared: false,
            average: false,
            row_total: false,
            summary_only: false,
            no_total: false,
            no_elide: false,
            sort_amount: false,
            percent: false,
            related: false,
            invert: false,
            transpose: false,
            layout: None,
            daily: false,
            weekly: false,
            monthly: false,
            quarterly: false,
            yearly: false,
            period: None,
            begin: None,
            end: None,
            depth: None,
            unmarked: false,
            pending: false,
            cleared: false,
            real: false,
            empty: false,
            cost: false,
            market: false,
            exchange: None,
            value: None,
            queries: Vec::new(),
        }
    }

    /// Daily periods.
    pub fn daily(self) -> (r: Self)
        ensures
            r == (Self { daily: true, ..self }),
    {
        let mut o = self;
        o.daily = true;
        o
    }

    /// Weekly periods.
    pub fn weekly(self) -> (r: Self)
        ensures
            r == (Self { weekly: true, ..self }),
    {
        let mut o = self;
        o.weekly = true;
        o
    }

    /// Monthly periods.
    pub fn monthly(self) -> (r: Self)
        ensures
            r == (Self { monthly: true, ..self }),
    {
        let mut o = self;
        o.monthly = true;
        o
    }

    /// Quarterly periods.
    pub fn quarterly(self) -> (r: Self)
        ensures
            r == (Self { quarterly: true, ..self }),
    {
        let mut o = self;
        o.quarterly = true;
        o
    }

    /// Yearly periods.
    pub fn yearly(self) -> (r: Self)
        ensures
            r == (Self { yearly: true, ..self }),
    {
        let mut o = self;
        o.yearly = true;
        o
    }

    /// Report over this period expression.
    pub fn period(self, period: &str) -> (r: Self)
        ensures
            r.period matches Some(s) && s@ == period@,
            r == (Self { period: r.period, ..self }),
    {
        let mut o = self;
        o.period = Some(period.to_string());
        o
    }

    /// Accumulate from the journal start.
    pub fn historical(self) -> (r: Self)
        ensures
            r == (Self { historical: true, ..self }),
    {
        let mut o = self;
        o.historical = true;
        o
    }

    /// Accumulate from the report start.
    pub fn cumulative(self) -> (r: Self)
        ensures
            r == (Self { cumulative: true, ..self }),
    {
        let mut o = self;
        o.cumulative = true;
        o
    }

    /// Show accounts as a tree.
    pub fn tree(self) -> (r: Self)
        ensures
            r == (Self { tree: true, flat: false, ..self }),
    {
        let mut o = self;
        o.tree = true;
        o.flat = false;
        o
    }

    /// Show accounts as a flat list.
    pub fn flat(self) -> (r: Self)
        ensures
            r == (Self { flat: true, tree: false, ..self }),
    {
        let mut o = self;
        o.flat = true;
        o.tree = false;
        o
    }

    /// Show a row total column.
    pub fn row_total(self) -> (r: Self)
        ensures
            r == (Self { row_total: true, ..self }),
    {
        let mut o = self;
        o.row_total = true;
        o
    }

    /// Show a row average column.
    pub fn average(self) -> (r: Self)
        ensures
            r == (Self { average: true, ..self }),
    {
        let mut o = self;
        o.average = true;
        o
    }

    /// Omit the final total row.
    pub fn no_total(self) -> (r: Self)
        ensures
            r == (Self { no_total: true, ..self }),
    {
        let mut o = self;
        o.no_total = true;
        o
    }

    /// Show accounts down to this depth.
    pub fn depth(self, n: u32) -> (r: Self)
        ensures
            r == (Self { depth: Some(n), ..self }),
    {
        let mut o = self;
        o.depth = Some(n);
        o
    }

    /// Show zero items too.
    pub fn empty(self) -> (r: Self)
        ensures
            r == (Self { empty: true, ..self }),
    {
        let mut o = self;
        o.empty = true;
        o
    }

    /// Include transactions on or after this date.
    pub fn begin(self, date: &str) -> (r: Self)
        ensures
            r.begin matches Some(s) && s@ == date@,
            r == (Self { begin: r.begin, ..self }),
    {
        let mut o = self;
        o.begin = Some(date.to_string());
        o
    }

    /// Include transactions before this date.
    pub fn end(self, date: &str) -> (r: Self)
        ensures
            r.end matches Some(s) && s@ == date@,
            r == (Self { end: r.end, ..self }),
    {
        let mut o = self;
        o.end = Some(date.to_string());
        o
    }

    /// Add a query pattern after the others.
    pub fn query(self, pattern: &str) -> (r: Self)
        ensures
            texts(r.queries@) == texts(self.queries@).push(pattern@),
            r == (Self { queries: r.queries, ..self }),
    {
        let mut o = self;
        o.queries.push(pattern.to_string());
        assert(texts(o.queries@) =~= texts(self.queries@).push(pattern@));
        o
    }

    /// Replace the query patterns.
    pub fn queries(self, queries: Vec<String>) -> (r: Self)
        ensures
            r == (Self { queries: queries, ..self }),
    {
        let mut o = self;
        o.queries = queries;
        o
    }

    /// Convert to cost.
    pub fn cost(self) -> (r: Self)
        ensures
            r == (Self { cost: true, ..self }),
    {
        let mut o = self;
        o.cost = true;
        o
    }

    /// Convert to market value at period end.
    pub fn market(self) -> (r: Self)
        ensures
            r == (Self { market: true, ..self }),
    {
        let mut o = self;
        o.market = true;
        o
    }

    /// Sort by amount instead of account name.
    pub fn sort_amount(self) -> (r: Self)
        ensures
            r == (Self { sort_amount: true, ..self }),
    {
        let mut o = self;
        o.sort_amount = true;
        o
    }
}

impl Default for BalanceOptions {
    fn default() -> (r: Self)
        ensures
            r == (Self { sum: false, valuechange: false, gain: false, budget: None, count: false, change: false, cumulative: false, historical: false, flat: false, tree: false, drop: None, declared: false, average: false, row_total: false, summary_only: false, no_total: false, no_elide: false, sort_amount: false, percent: false, related: false, invert: false, transpose: false, layout: None, daily: false, weekly: false, monthly: false, quarterly: false, yearly: false, period: None, begin: None, end: None, depth: None, unmarked: false, pending: false, cleared: false, real: false, empty: false, cost: false, market: false, exchange: None, value: None, queries: r.queries }),
            r.queries@.len() == 0,
    {
        Self::new()
    }
}

/// The calculation mode flag: count, then budget, then gain, then valuechange.
pub open spec fn balance_calc(o: BalanceOptions) -> Seq<Seq<char>> {
    if o.count {
        seq!["--count"@]
    } else {
        match o.budget {
            Some(b) => seq!["--budget="@ + b@],
            None => if o.gain {
                seq!["--gain"@]
            } else if o.valuechange {
                seq!["--valuechange"@]
            } else {
                seq![]
            },
        }
    }
}

/// The accumulation mode flag: historical, then cumulative.
pub open spec fn balance_accumulation(o: BalanceOptions) -> Option<Seq<char>> {
    if o.historical {
        Some("--historical"@)
    } else if o.cumulative {
        Some("--cumulative"@)
    } else {
        None
    }
}

/// Period, calculation, accumulation and list mode flags, after `prev`.
#[verifier::opaque]
pub open spec fn balance_modes(prev: Seq<Seq<char>>, o: BalanceOptions) -> Seq<Seq<char>> {
    prev + one_flag(period_last_wins(o.daily, o.weekly, o.monthly, o.quarterly, o.yearly))
        + pair_if(o.period, "--period"@) + balance_calc(o) + one_flag(balance_accumulation(o))
        + seq![if o.tree { "--tree"@ } else { "--flat"@ }] + number_if(o.drop, "--drop="@)
        + flag_if(o.declared, "--declared"@)
}

/// Column, sorting and layout flags, after `prev`.
#[verifier::opaque]
pub open spec fn balance_display(prev: Seq<Seq<char>>, o: BalanceOptions) -> Seq<Seq<char>> {
    prev + flag_if(o.average, "--average"@) + flag_if(o.row_total, "--row-total"@)
        + flag_if(o.summary_only, "--summary-only"@) + flag_if(o.no_total, "--no-total"@)
        + flag_if(o.no_elide, "--no-elide"@) + flag_if(o.sort_amount, "--sort-amount"@)
        + flag_if(o.percent, "--percent"@) + flag_if(o.related, "--related"@)
        + flag_if(o.invert, "--invert"@) + flag_if(o.transpose, "--transpose"@)
        + joined_if(o.layout, "--layout="@)
}

/// Filter and valuation flags, after `prev`.
#[verifier::opaque]
pub open spec fn balance_filters(prev: Seq<Seq<char>>, o: BalanceOptions) -> Seq<Seq<char>> {
    prev + number_if(o.depth, "--depth="@) + flag_if(o.empty, "--empty"@)
        + pair_if(o.begin, "--begin"@) + pair_if(o.end, "--end"@)
        + flag_if(o.unmarked, "--unmarked"@) + flag_if(o.pending, "--pending"@)
        + flag_if(o.cleared, "--cleared"@) + flag_if(o.real, "--real"@)
        + flag_if(o.cost, "--cost"@) + flag_if(o.market, "--market"@)
        + pair_if(o.exchange, "--exchange"@) + joined_if(o.value, "--value="@)
}

/// The flags of a balance invocation, before the query patterns.
pub open spec fn balance_flags(journal: Option<Seq<char>>, o: BalanceOptions) -> Seq<Seq<char>> {
    balance_filters(
        balance_display(
            balance_modes(head(journal, "balance"@) + seq!["--output-format"@, "json"@], o),
            o,
        ),
        o,
    )
}

/// The whole argument list: the flags, then the query patterns in their order.
pub open spec fn balance_argv(journal: Option<Seq<char>>, o: BalanceOptions) -> Seq<Seq<char>> {
    balance_flags(journal, o) + texts(o.queries@)
}

fn push_balance_calc(args: &mut Vec<String>, o: &BalanceOptions)
    ensures
        texts(final(args)@) == texts(old(args)@) + balance_calc(*o),
{
    let ghost before = texts(args@);
    if o.count {
        push_text(args, "--count");
    } else if o.budget.is_some() {
        push_joined(args, &o.budget, "--budget=");
    } else if o.gain {
        push_text(args, "--gain");
    } else if o.valuechange {
        push_text(args, "--valuechange");
    }
    assert(texts(args@) =~= before + balance_calc(*o));
}

fn push_balance_modes(a: &mut Vec<String>, o: &BalanceOptions)
    ensures
        texts(final(a)@) == balance_modes(texts(old(a)@), *o),
{
    reveal(balance_modes);
    push_one(a, period_flag_last_wins(o.daily, o.weekly, o.monthly, o.quarterly, o.yearly));
    push_pair(a, &o.period, "--period");
    push_balance_calc(a, o);
    push_one(
        a,
        if o.historical {
            Some("--historical")
        } else if o.cumulative {
            Some("--cumulative")
        } else {
            None
        },
    );
    let ghost before = texts(a@);
    push_text(a, if o.tree { "--tree" } else { "--flat" });
    assert(before.push(if o.tree { "--tree"@ } else { "--flat"@ }) =~= before + seq![if o.tree { "--tree"@ } else { "--flat"@ }]);
    push_number(a, o.drop, "--drop=");
    push_flag(a, o.declared, "--declared");
}

fn push_balance_display(a: &mut Vec<String>, o: &BalanceOptions)
    ensures
        texts(final(a)@) == balance_display(texts(old(a)@), *o),
{
    reveal(balance_display);
    push_flag(a, o.average, "--average");
    push_flag(a, o.row_total, "--row-total");
    push_flag(a, o.summary_only, "--summary-only");
    push_flag(a, o.no_total, "--no-total");
    push_flag(a, o.no_elide, "--no-elide");
    push_flag(a, o.sort_amount, "--sort-amount");
    push_flag(a, o.percent, "--percent");
    push_flag(a, o.related, "--related");
    push_flag(a, o.invert, "--invert");
    push_flag(a, o.transpose, "--transpose");
    push_joined(a, &o.layout, "--layout=");
}

fn push_balance_filters(a: &mut Vec<String>, o: &BalanceOptions)
    ensures
        texts(final(a)@) == balance_filters(texts(old(a)@), *o),
{
    reveal(balance_filters);
    push_number(a, o.depth, "--depth=");
    push_flag(a, o.empty, "--empty");
    push_pair(a, &o.begin, "--begin");
    push_pair(a, &o.end, "--end");
    push_flag(a, o.unmarked, "--unmarked");
    push_flag(a, o.pending, "--pending");
    push_flag(a, o.cleared, "--cleared");
    push_flag(a, o.real, "--real");
    push_flag(a, o.cost, "--cost");
    push_flag(a, o.market, "--market");
    push_pair(a, &o.exchange, "--exchange");
    push_joined(a, &o.value, "--value=");
}

/// The arguments that ask hledger for a balance report in JSON.
pub fn balance_args(journal: Option<&str>, o: &BalanceOptions) -> (r: Vec<String>)
    ensures
        texts(r@) == balance_argv(opt_text_view(journal), *o),
{
    let mut a = start_args(journal, "balance");
    let ghost start = texts(a@);
    push_text(&mut a, "--output-format");
    push_text(&mut a, "json");
    assert(texts(a@) =~= start + seq!["--output-format"@, "json"@]);
    push_balance_modes(&mut a, o);
    push_balance_display(&mut a, o);
    push_balance_filters(&mut a, o);
    push_all(&mut a, &o.queries);
    a
}

/// One account of a single-period report.
#[derive(Clone, Debug)]
pub struct BalanceAccount {
    pub name: String,
    /// The name as displayed; shortened in tree mode.
    pub display_name: String,
    /// The depth in tree mode; 0 in flat mode.
    pub indent: u32,
    pub amounts: Vec<Amount>,
}

/// A single-period balance report.
#[derive(Clone, Debug)]
pub struct SimpleBalance {
    pub accounts: Vec<BalanceAccount>,
    pub totals: Vec<Amount>,
}

/// A balance report in either of the shapes hledger writes.
#[derive(Clone, Debug)]
pub enum BalanceReport {
    Simple(SimpleBalance),
    Periodic(PeriodicBalance),
}

pub struct AccountView {
    pub name: Seq<char>,
    pub display_name: Seq<char>,
    pub indent: u32,
    pub amounts: Seq<AmountView>,
}

pub struct SimpleView {
    pub accounts: Seq<AccountView>,
    pub totals: Seq<AmountView>,
}

pub enum BalanceView {
    Simple(SimpleView),
    Periodic(PeriodicView),
}

impl View for BalanceAccount {
    type V = AccountView;

    open spec fn view(&self) -> AccountView {
        AccountView {
            name: self.name@,
            display_name: self.display_name@,
            indent: self.indent,
            amounts: amounts_view(self.amounts@),
        }
    }
}

pub open spec fn accounts_view(s: Seq<BalanceAccount>) -> Seq<AccountView> {
    s.map_values(|a: BalanceAccount| a@)
}

impl View for SimpleBalance {
    type V = SimpleView;

    open spec fn view(&self) -> SimpleView {
        SimpleView { accounts: accounts_view(self.accounts@), totals: amounts_view(self.totals@) }
    }
}

impl View for BalanceReport {
    type V = BalanceView;

    open spec fn view(&self) -> BalanceView {
        match self {
            BalanceReport::Simple(s) => BalanceView::Simple(s@),
            BalanceReport::Periodic(p) => BalanceView::Periodic(p@),
        }
    }
}

/// A string, or empty for any other value.
pub open spec fn text_or_empty(v: JsonValue) -> Seq<char> {
    match v.str_view() {
        Some(s) => s,
        None => ""@,
    }
}

/// An indentation: an unsigned integer that fits 32 bits, else 0.
pub open spec fn indent_of(v: JsonValue) -> u32 {
    match v.u64_view() {
        Some(n) => if n <= u32::MAX {
            n as u32
        } else {
            0
        },
        None => 0,
    }
}

/// An account entry `[name, display_name, indent, amounts, ...]`.
pub open spec fn account_of(v: JsonValue) -> Option<AccountView> {
    match v.array_view() {
        Some(a) => if a.len() >= 4 {
            match amounts_of(a[3]) {
                Some(amounts) => Some(
                    AccountView {
                        name: text_or_empty(a[0]),
                        display_name: text_or_empty(a[1]),
                        indent: indent_of(a[2]),
                        amounts,
                    },
                ),
                None => None,
            }
        } else {
            None
        },
        None => None,
    }
}

pub open spec fn account_item(v: JsonValue) -> Option<Option<AccountView>> {
    match account_of(v) {
        Some(a) => Some(Some(a)),
        None => None,
    }
}

pub open spec fn account_items() -> spec_fn(JsonValue) -> Option<Option<AccountView>> {
    |x: JsonValue| account_item(x)
}

/// The account entries of a list; no array means no accounts.
pub open spec fn accounts_of(v: JsonValue) -> Option<Seq<AccountView>> {
    match v.array_view() {
        Some(items) => parse_each(items, account_items()),
        None => Some(Seq::empty()),
    }
}

/// A single-period report `[accounts, totals]`.
pub open spec fn simple_of(v: JsonValue) -> Option<SimpleView> {
    match v.array_view() {
        Some(items) => if items.len() == 2 {
            match (accounts_of(items[0]), amounts_of(items[1])) {
                (Some(accounts), Some(totals)) => Some(SimpleView { accounts, totals }),
                _ => None,
            }
        } else {
            None
        },
        None => None,
    }
}

/// The shape of a balance document: an array is the single-period shape, an
/// object with `prDates` the periodic one; anything else is no report.
pub open spec fn balance_of(v: JsonValue) -> Option<BalanceView> {
    if v is Array {
        match simple_of(v) {
            Some(s) => Some(BalanceView::Simple(s)),
            None => None,
        }
    } else if v is Object && v.field("prDates"@) is Some {
        match periodic_of(v) {
            Some(p) => Some(BalanceView::Periodic(p)),
            None => None,
        }
    } else {
        None
    }
}

/// Reads one account entry; it must be an array of at least four items.
pub fn parse_balance_account(value: &JsonValue) -> (r: Result<BalanceAccount, HLedgerError>)
    ensures
        r is Ok == account_of(*value) is Some,
        r matches Ok(a) ==> account_of(*value) == Some(a@),
        r matches Err(e) ==> e is ParseError,
{
    let items = match value.as_array() {
        Some(items) => items,
        None => return Err(parse_error("Account should be an array")),
    };
    if items.len() < 4 {
        return Err(parse_error("Account array should have at least 4 elements"));
    }
    let name = match items[0].as_str() {
        Some(s) => s.clone(),
        None => "".to_string(),
    };
    let display_name = match items[1].as_str() {
        Some(s) => s.clone(),
        None => "".to_string(),
    };
    let indent: u32 = match items[2].as_u64() {
        Some(n) => if n <= u32::MAX as u64 {
            n as u32
        } else {
            0
        },
        None => 0,
    };
    let amounts = parse_amounts(&items[3])?;
    Ok(BalanceAccount { name, display_name, indent, amounts })
}

fn parse_balance_accounts(value: &JsonValue) -> (r: Result<Vec<BalanceAccount>, HLedgerError>)
    ensures
        r is Ok == accounts_of(*value) is Some,
        r matches Ok(a) ==> accounts_of(*value) == Some(accounts_view(a@)),
        r matches Err(e) ==> e is ParseError,
{
    let mut out: Vec<BalanceAccount> = Vec::new();
    if let Some(items) = value.as_array() {
        let ghost f = account_items();
        proof {
            lemma_parse_each_start(items@, f);
        }
        let mut i: usize = 0;
        while i < items.len()
            invariant
                i <= items.len(),
                f == account_items(),
                value.array_view() == Some(items@),
                glue(accounts_view(out@), parse_each(items@.skip(i as int), f)) == parse_each(items@, f),
                parse_each(items@.skip(items.len() as int), f) == Some(Seq::<AccountView>::empty()),
            decreases items.len() - i,
        {
            proof {
                lemma_parse_each_step(items@, f, i as int, accounts_view(out@));
            }
            let acc = parse_balance_account(&items[i])?;
            let ghost old_out = out@;
            out.push(acc);
            assert(accounts_view(out@) =~= accounts_view(old_out).push(acc@));
            i = i + 1;
        }
        assert(accounts_view(out@) + Seq::<AccountView>::empty() =~= accounts_view(out@));
    }
    Ok(out)
}

/// Reads the single-period shape `[accounts, totals]`.
pub fn parse_simple_balance(value: &JsonValue) -> (r: Result<SimpleBalance, HLedgerError>)
    ensures
        r is Ok == simple_of(*value) is Some,
        r matches Ok(s) ==> simple_of(*value) == Some(s@),
        r matches Err(e) ==> e is ParseError,
{
    let items = match value.as_array() {
        Some(items) => items,
        None => return Err(parse_error("Expected array for simple balance")),
    };
    if items.len() != 2 {
        return Err(parse_error("Simple balance should have 2 elements"));
    }
    let accounts = parse_balance_accounts(&items[0])?;
    let totals = parse_amounts(&items[1])?;
    Ok(SimpleBalance { accounts, totals })
}

/// Tells the two balance shapes apart, and reads the one found.
pub fn parse_balance_report(value: &JsonValue) -> (r: Result<BalanceReport, HLedgerError>)
    ensures
        r is Ok == balance_of(*value) is Some,
        r matches Ok(b) ==> balance_of(*value) == Some(b@),
        r matches Err(e) ==> e is ParseError,
{
    if value.as_array().is_some() {
        Ok(BalanceReport::Simple(parse_simple_balance(value)?))
    } else if value.is_object() && value.get("prDates").is_some() {
        Ok(BalanceReport::Periodic(parse_periodic_data(value)?))
    } else {
        Err(parse_error("Unknown balance report format"))
    }
}

/// Reads a balance report from hledger's output: text that is no JSON
/// document is a JSON error, and a document of another shape a schema error.
pub fn parse_balance(text: &str) -> (r: Result<BalanceReport, HLedgerError>)
    ensures
        json_document(text@) is None ==> r matches Err(HLedgerError::Json(_)),
        json_document(text@) matches Some(v) ==> {
            &&& r is Ok == balance_of(v) is Some
            &&& r matches Ok(b) ==> balance_of(v) == Some(b@)
            &&& r matches Err(e) ==> e is ParseError
        },
{
    match parse_json(text) {
        Ok(v) => parse_balance_report(&v),
        Err(e) => Err(HLedgerError::Json(e)),
    }
}

/// The balance shape is told from the top level alone: a readable document
/// that is a two-element array is the single-period shape, and a readable
/// object with `prDates` the periodic one.
pub proof fn lemma_balance_classified(v: JsonValue)
    requires
        balance_of(v) is Some,
    ensures
        (v.array_view() matches Some(items) && items.len() == 2) ==> balance_of(v) matches Some(BalanceView::Simple(_)),
        (v is Object && v.field("prDates"@) is Some) ==> balance_of(v) matches Some(BalanceView::Periodic(_)),
{
}

/// Every other top-level shape is no balance report: an array of another
/// length, an object without `prDates`, or a scalar.
pub proof fn lemma_balance_other_shapes(v: JsonValue)
    requires
        !(v.array_view() matches Some(items) && items.len() == 2),
        !(v is Object && v.field("prDates"@) is Some),
    ensures
        balance_of(v) is None,
{
}

/// Reading a document is a function of its text: two readings of one text
/// give the same report.
pub proof fn lemma_balance_reading_deterministic(text: Seq<char>, a: BalanceView, b: BalanceView)
    requires
        json_document(text) matches Some(v) && balance_of(v) == Some(a),
        json_document(text) matches Some(v) && balance_of(v) == Some(b),
    ensures
        a == b,
{
}

/// An empty account list is a report without accounts, not an error.
pub proof fn lemma_simple_without_accounts(v: JsonValue)
    requires
        v.array_view() matches Some(items) && items.len() == 2 && items[0].array_view() == Some(
            Seq::<JsonValue>::empty(),
        ) && amounts_of(items[1]) is Some,
    ensures
        balance_of(v) matches Some(BalanceView::Simple(s)) && s.accounts.len() == 0,
{
    let items = v.array_view().unwrap();
    assert(accounts_of(items[0]) == Some(Seq::<AccountView>::empty()));
}

/// The query patterns of a balance invocation come last, in their order,
/// after flags that do not depend on them.
pub proof fn lemma_balance_queries_last(journal: Option<Seq<char>>, o: BalanceOptions, other: BalanceOptions)
    requires
        other == (BalanceOptions { queries: other.queries, ..o }),
    ensures
        balance_argv(journal, o) == balance_flags(journal, o) + texts(o.queries@),
        balance_flags(journal, o) == balance_flags(journal, other),
        balance_argv(journal, o).subrange(
            balance_flags(journal, o).len() as int,
            balance_argv(journal, o).len() as int,
        ) == texts(o.queries@),
{
    let f = balance_flags(journal, o);
    assert((f + texts(o.queries@)).subrange(f.len() as int, (f.len() + o.queries@.len()) as int) =~= texts(o.queries@));
    let start = head(journal, "balance"@) + seq!["--output-format"@, "json"@];
    assert(balance_modes(start, o) == balance_modes(start, other)) by {
        reveal(balance_modes);
    }
    let m = balance_modes(start, o);
    assert(balance_display(m, o) == balance_display(m, other)) by {
        reveal(balance_display);
    }
    let d = balance_display(m, o);
    assert(balance_filters(d, o) == balance_filters(d, other)) by {
        reveal(balance_filters);
    }
}

/// A balance invocation sets at most one mode on each axis: one period, one
/// calculation, one accumulation.
pub proof fn lemma_balance_axes(o: BalanceOptions)
    ensures
        one_flag(period_last_wins(o.daily, o.weekly, o.monthly, o.quarterly, o.yearly)).len() <= 1,
        balance_calc(o).len() <= 1,
        one_flag(balance_accumulation(o)).len() <= 1,
{
}

/// A two-element array whose account list and totals are readable is the
/// single-period shape.
pub proof fn lemma_well_formed_simple(v: JsonValue)
    requires
        v.array_view() matches Some(items) && items.len() == 2 && accounts_of(items[0]) is Some
            && amounts_of(items[1]) is Some,
    ensures
        balance_of(v) matches Some(BalanceView::Simple(_)),
{
}

/// An object with a `prDates` list and a `prRows` list of readable rows, and
/// no `prTotals`, is the periodic shape, with one row per entry, in order.
pub proof fn lemma_well_formed_periodic(v: JsonValue, rows: Seq<JsonValue>)
    requires
        v is Object,
        v.field("prDates"@) matches Some(d) && dates_of(d) is Some,
        v.field("prRows"@) matches Some(r) && r.array_view() == Some(rows),
        forall|i: int| 0 <= i < rows.len() ==> (#[trigger] row_of(rows[i])) is Some,
        v.field("prTotals"@) is None,
    ensures
        balance_of(v) matches Some(BalanceView::Periodic(p)) && p.rows.len() == rows.len() && forall|i: int|
            0 <= i < rows.len() ==> row_of(rows[i]) == Some(#[trigger] p.rows[i]),
{
    let f = row_items();
    assert forall|i: int| 0 <= i < rows.len() implies (#[trigger] f(rows[i])) matches Some(Some(_)) by {
        assert(row_of(rows[i]) is Some);
    }
    lemma_parse_each_all(rows, f);
}

} // verus!
