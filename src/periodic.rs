//! Multi-period data: the period dates, and rows with one amount list per period.

use crate::amount::{amounts_of, amounts_view, parse_amounts, Amount, AmountView};
use crate::error::{parse_error, HLedgerError};
use crate::json::{glue, lemma_parse_each_start, lemma_parse_each_step, parse_each, JsonValue};
use vstd::prelude::*;

verus! {

/// A reporting period; `end` is exclusive.
#[derive(Clone, Debug)]
pub struct PeriodDate {
    pub start: String,
    pub end: String,
}

/// One account's row of a periodic report.
#[derive(Clone, Debug)]
pub struct PeriodicBalanceRow {
    pub account: String,
    pub display_name: String,
    /// One list per period.
    pub amounts: Vec<Vec<Amount>>,
    pub total: Option<Vec<Amount>>,
    pub average: Option<Vec<Amount>>,
}

/// A periodic report: its periods, its rows, and perhaps a totals row.
#[derive(Clone, Debug)]
pub struct PeriodicBalance {
    pub dates: Vec<PeriodDate>,
    pub rows: Vec<PeriodicBalanceRow>,
    pub totals: Option<PeriodicBalanceRow>,
}

pub struct PeriodDateView {
    pub start: Seq<char>,
    pub end: Seq<char>,
}

pub struct RowView {
    pub account: Seq<char>,
    pub display_name: Seq<char>,
    pub amounts: Seq<Seq<AmountView>>,
    pub total: Option<Seq<AmountView>>,
    pub average: Option<Seq<AmountView>>,
}

pub struct PeriodicView {
    pub dates: Seq<PeriodDateView>,
    pub rows: Seq<RowView>,
    pub totals: Option<RowView>,
}

impl View for PeriodDate {
    type V = PeriodDateView;

    open spec fn view(&self) -> PeriodDateView {
        PeriodDateView { start: self.start@, end: self.end@ }
    }
}

pub open spec fn opt_amounts_view(a: Option<Vec<Amount>>) -> Option<Seq<AmountView>> {
    match a {
        Some(v) => Some(amounts_view(v@)),
        None => None,
    }
}

pub open spec fn amount_lists_view(s: Seq<Vec<Amount>>) -> Seq<Seq<AmountView>> {
    s.map_values(|a: Vec<Amount>| amounts_view(a@))
}

impl View for PeriodicBalanceRow {
    type V = RowView;

    open spec fn view(&self) -> RowView {
        RowView {
            account: self.account@,
            display_name: self.display_name@,
            amounts: amount_lists_view(self.amounts@),
            total: opt_amounts_view(self.total),
            average: opt_amounts_view(self.average),
        }
    }
}

pub open spec fn dates_view(s: Seq<PeriodDate>) -> Seq<PeriodDateView> {
    s.map_values(|d: PeriodDate| d@)
}

pub open spec fn rows_view(s: Seq<PeriodicBalanceRow>) -> Seq<RowView> {
    s.map_values(|r: PeriodicBalanceRow| r@)
}

pub open spec fn opt_row_view(r: Option<PeriodicBalanceRow>) -> Option<RowView> {
    match r {
        Some(r) => Some(r@),
        None => None,
    }
}

impl View for PeriodicBalance {
    type V = PeriodicView;

    open spec fn view(&self) -> PeriodicView {
        PeriodicView {
            dates: dates_view(self.dates@),
            rows: rows_view(self.rows@),
            totals: opt_row_view(self.totals),
        }
    }
}

/// The payload text of a tagged value `{"tag": .., "contents": "<text>"}`;
/// empty for any other shape.
pub open spec fn tagged_text(v: JsonValue) -> Seq<char> {
    match v.field("contents"@) {
        Some(c) => match c.str_view() {
            Some(s) => s,
            None => ""@,
        },
        None => ""@,
    }
}

/// An item of a date list: a pair of tagged dates; anything else is skipped.
pub open spec fn date_item(v: JsonValue) -> Option<Option<PeriodDateView>> {
    match v.array_view() {
        Some(pair) => if pair.len() == 2 {
            Some(Some(PeriodDateView { start: tagged_text(pair[0]), end: tagged_text(pair[1]) }))
        } else {
            Some(None)
        },
        None => Some(None),
    }
}

pub open spec fn date_items() -> spec_fn(JsonValue) -> Option<Option<PeriodDateView>> {
    |x: JsonValue| date_item(x)
}

/// The periods of a date list; a value that is no array has none.
pub open spec fn dates_of(v: JsonValue) -> Option<Seq<PeriodDateView>> {
    match v.array_view() {
        Some(items) => parse_each(items, date_items()),
        None => Some(Seq::empty()),
    }
}

/// An account name: a string, or (for total rows) anything else, read as empty.
pub open spec fn row_name(v: JsonValue) -> Seq<char> {
    match v.field("prrName"@) {
        Some(n) => match n.str_view() {
            Some(s) => s,
            None => ""@,
        },
        None => ""@,
    }
}

pub open spec fn amount_list_item(v: JsonValue) -> Option<Option<Seq<AmountView>>> {
    match amounts_of(v) {
        Some(a) => Some(Some(a)),
        None => None,
    }
}

pub open spec fn amount_list_items() -> spec_fn(JsonValue) -> Option<Option<Seq<AmountView>>> {
    |x: JsonValue| amount_list_item(x)
}

/// The per-period amount lists of a row; no array means no periods.
pub open spec fn period_amounts_of(v: JsonValue) -> Option<Seq<Seq<AmountView>>> {
    match v.field("prrAmounts"@) {
        Some(a) => match a.array_view() {
            Some(items) => parse_each(items, amount_list_items()),
            None => Some(Seq::empty()),
        },
        None => Some(Seq::empty()),
    }
}

/// An optional amount list: absent is none; present is read as a list.
pub open spec fn opt_amounts_of(v: JsonValue, key: Seq<char>) -> Option<Option<Seq<AmountView>>> {
    match v.field(key) {
        Some(a) => match amounts_of(a) {
            Some(l) => Some(Some(l)),
            None => None,
        },
        None => Some(None),
    }
}

/// The row a row object describes; its display name is its account name.
pub open spec fn row_of(v: JsonValue) -> Option<RowView> {
    if !(v is Object) {
        None
    } else {
        match (period_amounts_of(v), opt_amounts_of(v, "prrTotal"@), opt_amounts_of(v, "prrAverage"@)) {
            (Some(amounts), Some(total), Some(average)) => Some(
                RowView { account: row_name(v), display_name: row_name(v), amounts, total, average },
            ),
            _ => None,
        }
    }
}

pub open spec fn row_item(v: JsonValue) -> Option<Option<RowView>> {
    match row_of(v) {
        Some(r) => Some(Some(r)),
        None => None,
    }
}

pub open spec fn row_items() -> spec_fn(JsonValue) -> Option<Option<RowView>> {
    |x: JsonValue| row_item(x)
}

/// The rows of a row list; no array means no rows.
pub open spec fn rows_of(v: JsonValue) -> Option<Seq<RowView>> {
    match v.array_view() {
        Some(items) => parse_each(items, row_items()),
        None => Some(Seq::empty()),
    }
}

/// An optional row under `key`: absent is none, present must be a row.
pub open spec fn opt_row_of(v: JsonValue, key: Seq<char>) -> Option<Option<RowView>> {
    match v.field(key) {
        Some(r) => match row_of(r) {
            Some(r) => Some(Some(r)),
            None => None,
        },
        None => Some(None),
    }
}

/// The periodic data of an object with `prDates`, `prRows` and an optional
/// `prTotals`; the first two are required.
pub open spec fn periodic_of(v: JsonValue) -> Option<PeriodicView> {
    match (v.field("prDates"@), v.field("prRows"@)) {
        (Some(d), Some(r)) => match (dates_of(d), rows_of(r), opt_row_of(v, "prTotals"@)) {
            (Some(dates), Some(rows), Some(totals)) => Some(PeriodicView { dates, rows, totals }),
            _ => None,
        },
        _ => None,
    }
}

/// Reads the payload of a tagged value; any other shape reads as empty.
pub fn extract_date_from_tagged_value(value: &JsonValue) -> (r: String)
    ensures
        r@ == tagged_text(*value),
{
    match value.get("contents") {
        Some(c) => match c.as_str() {
            Some(s) => s.clone(),
            None => "".to_string(),
        },
        None => "".to_string(),
    }
}

/// Reads a list of period date pairs; malformed entries are skipped.
pub fn parse_period_dates(value: &JsonValue) -> (r: Vec<PeriodDate>)
    ensures
        dates_of(*value) == Some(dates_view(r@)),
{
    let mut out: Vec<PeriodDate> = Vec::new();
    if let Some(items) = value.as_array() {
        let ghost f = date_items();
        proof {
            lemma_parse_each_start(items@, f);
        }
        let mut i: usize = 0;
        while i < items.len()
            invariant
                i <= items.len(),
                f == date_items(),
                value.array_view() == Some(items@),
                glue(dates_view(out@), parse_each(items@.skip(i as int), f)) == parse_each(items@, f),
                parse_each(items@.skip(items.len() as int), f) == Some(Seq::<PeriodDateView>::empty()),
            decreases items.len() - i,
        {
            let item = &items[i];
            proof {
                lemma_parse_each_step(items@, f, i as int, dates_view(out@));
            }
            if let Some(pair) = item.as_array() {
                if pair.len() == 2 {
                    let start = extract_date_from_tagged_value(&pair[0]);
                    let end = extract_date_from_tagged_value(&pair[1]);
                    let ghost old_out = out@;
                    let d = PeriodDate { start, end };
                    out.push(d);
                    assert(dates_view(out@) =~= dates_view(old_out).push(d@));
                }
            }
            i = i + 1;
        }
        assert(dates_view(out@) + Seq::<PeriodDateView>::empty() =~= dates_view(out@));
    }
    out
}

fn parse_opt_amounts(value: &JsonValue, key: &str) -> (r: Result<Option<Vec<Amount>>, HLedgerError>)
    ensures
        r is Ok == opt_amounts_of(*value, key@) is Some,
        r matches Ok(a) ==> opt_amounts_of(*value, key@) == Some(opt_amounts_view(a)),
        r matches Err(e) ==> e is ParseError,
{
    match value.get(key) {
        Some(a) => Ok(Some(parse_amounts(a)?)),
        None => Ok(None),
    }
}

fn parse_period_amounts(value: &JsonValue) -> (r: Result<Vec<Vec<Amount>>, HLedgerError>)
    ensures
        r is Ok == period_amounts_of(*value) is Some,
        r matches Ok(a) ==> period_amounts_of(*value) == Some(amount_lists_view(a@)),
        r matches Err(e) ==> e is ParseError,
{
    let mut out: Vec<Vec<Amount>> = Vec::new();
    if let Some(list) = value.get("prrAmounts") {
        if let Some(items) = list.as_array() {
            let ghost f = amount_list_items();
            proof {
                lemma_parse_each_start(items@, f);
            }
            let mut i: usize = 0;
            while i < items.len()
                invariant
                    i <= items.len(),
                    f == amount_list_items(),
                    value.field("prrAmounts"@) == Some(*list),
                    list.array_view() == Some(items@),
                    glue(amount_lists_view(out@), parse_each(items@.skip(i as int), f)) == parse_each(items@, f),
                    parse_each(items@.skip(items.len() as int), f) == Some(Seq::<Seq<AmountView>>::empty()),
                decreases items.len() - i,
            {
                proof {
                    lemma_parse_each_step(items@, f, i as int, amount_lists_view(out@));
                }
                let a = parse_amounts(&items[i])?;
                let ghost old_out = out@;
                out.push(a);
                assert(amount_lists_view(out@) =~= amount_lists_view(old_out).push(amounts_view(a@)));
                i = i + 1;
            }
            assert(amount_lists_view(out@) + Seq::<Seq<AmountView>>::empty() =~= amount_lists_view(out@));
        }
    }
    Ok(out)
}

/// Reads one row object: its name (a string, or empty for total rows), one
/// amount list per period, and an optional total and average.
pub fn parse_periodic_row(value: &JsonValue) -> (r: Result<PeriodicBalanceRow, HLedgerError>)
    ensures
        r is Ok == row_of(*value) is Some,
        r matches Ok(row) ==> row_of(*value) == Some(row@),
        r matches Err(e) ==> e is ParseError,
{
    if !value.is_object() {
        return Err(parse_error("Periodic row should be an object"));
    }
    let account = match value.get("prrName") {
        Some(n) => match n.as_str() {
            Some(s) => s.clone(),
            None => "".to_string(),
        },
        None => "".to_string(),
    };
    let display_name = account.clone();
    let amounts = parse_period_amounts(value)?;
    let total = parse_opt_amounts(value, "prrTotal")?;
    let average = parse_opt_amounts(value, "prrAverage")?;
    Ok(PeriodicBalanceRow { account, display_name, amounts, total, average })
}

/// Reads a list of rows; no array means no rows.
pub fn parse_periodic_rows(value: &JsonValue) -> (r: Result<Vec<PeriodicBalanceRow>, HLedgerError>)
    ensures
        r is Ok == rows_of(*value) is Some,
        r matches Ok(rows) ==> rows_of(*value) == Some(rows_view(rows@)),
        r matches Err(e) ==> e is ParseError,
{
    let mut out: Vec<PeriodicBalanceRow> = Vec::new();
    if let Some(items) = value.as_array() {
        let ghost f = row_items();
        proof {
            lemma_parse_each_start(items@, f);
        }
        let mut i: usize = 0;
        while i < items.len()
            invariant
                i <= items.len(),
                f == row_items(),
                value.array_view() == Some(items@),
                glue(rows_view(out@), parse_each(items@.skip(i as int), f)) == parse_each(items@, f),
                parse_each(items@.skip(items.len() as int), f) == Some(Seq::<RowView>::empty()),
            decreases items.len() - i,
        {
            proof {
                lemma_parse_each_step(items@, f, i as int, rows_view(out@));
            }
            let row = parse_periodic_row(&items[i])?;
            let ghost old_out = out@;
            out.push(row);
            assert(rows_view(out@) =~= rows_view(old_out).push(row@));
            i = i + 1;
        }
        assert(rows_view(out@) + Seq::<RowView>::empty() =~= rows_view(out@));
    }
    Ok(out)
}

/// Reads an optional row stored under `key`.
pub fn parse_opt_row(value: &JsonValue, key: &str) -> (r: Result<Option<PeriodicBalanceRow>, HLedgerError>)
    ensures
        r is Ok == opt_row_of(*value, key@) is Some,
        r matches Ok(row) ==> opt_row_of(*value, key@) == Some(opt_row_view(row)),
        r matches Err(e) ==> e is ParseError,
{
    match value.get(key) {
        Some(row) => Ok(Some(parse_periodic_row(row)?)),
        None => Ok(None),
    }
}

/// Reads periodic data: `prDates` and `prRows` must be there, `prTotals` may be.
pub fn parse_periodic_data(value: &JsonValue) -> (r: Result<PeriodicBalance, HLedgerError>)
    ensures
        r is Ok == periodic_of(*value) is Some,
        r matches Ok(p) ==> periodic_of(*value) == Some(p@),
        r matches Err(e) ==> e is ParseError,
{
    let dates_json = match value.get("prDates") {
        Some(d) => d,
        None => return Err(parse_error("Missing prDates in periodic data")),
    };
    let rows_json = match value.get("prRows") {
        Some(r) => r,
        None => return Err(parse_error("Missing prRows in periodic data")),
    };
    let dates = parse_period_dates(dates_json);
    let rows = parse_periodic_rows(rows_json)?;
    let totals = parse_opt_row(value, "prTotals")?;
    Ok(PeriodicBalance { dates, rows, totals })
}

/// An empty row list is periodic data without rows, not an error.
pub proof fn lemma_periodic_without_rows(v: JsonValue)
    requires
        v.field("prDates"@) matches Some(d) && dates_of(d) is Some,
        v.field("prRows"@) matches Some(r) && r.array_view() == Some(Seq::<JsonValue>::empty()),
        v.field("prTotals"@) is None,
    ensures
        periodic_of(v) matches Some(p) && p.rows.len() == 0,
{
    let r = v.field("prRows"@).unwrap();
    assert(rows_of(r) == Some(Seq::<RowView>::empty()));
}

/// Periodic data without `prRows`, or without `prDates`, is a schema error.
pub proof fn lemma_periodic_requires_containers(v: JsonValue)
    requires
        v.field("prRows"@) is None || v.field("prDates"@) is None,
    ensures
        periodic_of(v) is None,
{
}

} // verus!
