//! The print report: transactions with their postings, tags, source
//! positions and amount display styles.

use crate::amount::{amount_of, parse_amount, Price, PriceView};
use crate::args::{
    flag_if, head, joined_if, opt_text_view, pair_if, push_all, push_flag, push_joined, push_pair, push_text,
    start_args, texts,
};
use crate::balance::text_or_empty;
use crate::error::{parse_error, HLedgerError};
use crate::json::{
    bool_or, glue, json_document, lemma_field_smaller, lemma_parse_each_start, lemma_parse_each_step, opt_text,
    opt_u64, parse_each, parse_json, text_or, JsonValue,
};
use crate::quantity::Quantity;
use vstd::prelude::*;

verus! {

/// Options of the print command.
#[derive(Clone, Debug)]
pub struct PrintOptions {
    pub explicit: bool,
    pub show_costs: bool,
    /// Rounding mode: none, soft, hard, all.
    pub round: Option<String>,
    /// Only transactions newer than those seen before.
    pub new: bool,
    /// The transaction whose description matches best.
    pub match_desc: Option<String>,
    pub begin: Option<String>,
    pub end: Option<String>,
    pub unmarked: bool,
    pub pending: bool,
    pub cleared: bool,
    pub real: bool,
    pub empty: bool,
    pub queries: Vec<String>,
}

impl PrintOptions {
    /// No flags, no filters, no patterns.
    pub fn new() -> (r: Self)
        ensures
            r == (Self { explicit: false, show_costs: false, round: None, new: false, match_desc: None, begin: None, end: None, unmarked: false, pending: false, cleared: false, real: false, empty: false, queries: r.queries }),
            r.queries@.len() == 0,
    {
        PrintOptions {
            explicit: false,
            show_costs: false,
            round: None,
            new: false,
            match_desc: None,
            begin: None,
            end: None,
            unmarked: false,
            pending: false,
            cleared: false,
            real: false,
            empty: false,
            queries: Vec::new(),
        }
    }

    /// Show all amounts explicitly.
    pub fn explicit(self) -> (r: Self)
        ensures
            r == (Self { explicit: true, ..self }),
    {
        let mut o = self;
        o.explicit = true;
        o
    }

    /// Show transaction prices even with conversion postings.
    pub fn show_costs(self) -> (r: Self)
        ensures
            r == (Self { show_costs: true, ..self }),
    {
        let mut o = self;
        o.show_costs = true;
        o
    }

    /// Round amounts in this mode: none, soft, hard or all.
    pub fn round(self, mode: &str) -> (r: Self)
        ensures
            r.round matches Some(s) && s@ == mode@,
            r == (Self { round: r.round, ..self }),
    {
        let mut o = self;
        o.round = Some(mode.to_string());
        o
    }

    /// Only transactions newer than those seen before.
    pub fn new_only(self) -> (r: Self)
        ensures
            r == (Self { new: true, ..self }),
    {
        let mut o = self;
        o.new = true;
        o
    }

    /// The transaction whose description matches this best.
    pub fn match_desc(self, desc: &str) -> (r: Self)
        ensures
            r.match_desc matches Some(s) && s@ == desc@,
            r == (Self { match_desc: r.match_desc, ..self }),
    {
        let mut o = self;
        o.match_desc = Some(desc.to_string());
        o
    }

    /// Include transactions on or after this date.
    pub fn begin(self, date: &str) -> (r: Self)
        ensures
            r.begin matches Some(s) && s@ == date@,
            r == (Self { begin: r.begin, ..self }),
    {
        let mut o = self;
        o.begin = Some(date.to_string());
        o
    }

    /// Include transactions before this date.
    pub fn end(self, date: &str) -> (r: Self)
        ensures
            r.end matches Some(s) && s@ == date@,
            r == (Self { end: r.end, ..self }),
    {
        let mut o = self;
        o.end = Some(date.to_string());
        o
    }

    /// Include only unmarked transactions.
    pub fn unmarked(self) -> (r: Self)
        ensures
            r == (Self { unmarked: true, ..self }),
    {
        let mut o = self;
        o.unmarked = true;
        o
    }

    /// Include only pending transactions.
    pub fn pending(self) -> (r: Self)
        ensures
            r == (Self { pending: true, ..self }),
    {
        let mut o = self;
        o.pending = true;
        o
    }

    /// Include only cleared transactions.
    pub fn cleared(self) -> (r: Self)
        ensures
            r == (Self { cleared: true, ..self }),
    {
        let mut o = self;
        o.cleared = true;
        o
    }

    /// Include only non-virtual postings.
    pub fn real_only(self) -> (r: Self)
        ensures
            r == (Self { real: true, ..self }),
    {
        let mut o = self;
        o.real = true;
        o
    }

    /// Show empty items too.
    pub fn empty(self) -> (r: Self)
        ensures
            r == (Self { empty: true, ..self }),
    {
        let mut o = self;
        o.empty = true;
        o
    }

    /// Add a query pattern after the others.
    pub fn query(self, pattern: &str) -> (r: Self)
        ensures
            texts(r.queries@) == texts(self.queries@).push(pattern@),
            r == (Self { queries: r.queries, ..self }),
    {
        let mut o = self;
        o.queries.push(pattern.to_string());
        assert(texts(o.queries@) =~= texts(self.queries@).push(pattern@));
        o
    }

    /// Replace the query patterns.
    pub fn queries(self, queries: Vec<String>) -> (r: Self)
        ensures
            r == (Self { queries: queries, ..self }),
    {
        let mut o = self;
        o.queries = queries;
        o
    }
}

impl Default for PrintOptions {
    fn default() -> (r: Self)
        ensures
            r == (Self { explicit: false, show_costs: false, round: None, new: false, match_desc: None, begin: None, end: None, unmarked: false, pending: false, cleared: false, real: false, empty: false, queries: r.queries }),
            r.queries@.len() == 0,
    {
        Self::new()
    }
}

/// The flags of a print invocation, before the query patterns.
pub open spec fn print_flags(journal: Option<Seq<char>>, o: PrintOptions) -> Seq<Seq<char>> {
    head(journal, "print"@) + seq!["--output-format"@, "json"@] + flag_if(o.explicit, "--explicit"@)
        + flag_if(o.show_costs, "--show-costs"@) + joined_if(o.round, "--round="@)
        + flag_if(o.new, "--new"@) + pair_if(o.match_desc, "--match"@) + pair_if(o.begin, "--begin"@)
        + pair_if(o.end, "--end"@) + flag_if(o.unmarked, "--unmarked"@)
        + flag_if(o.pending, "--pending"@) + flag_if(o.cleared, "--cleared"@)
        + flag_if(o.real, "--real"@) + flag_if(o.empty, "--empty"@)
}

/// The whole argument list: the flags, then the query patterns in their order.
pub open spec fn print_argv(journal: Option<Seq<char>>, o: PrintOptions) -> Seq<Seq<char>> {
    print_flags(journal, o) + texts(o.queries@)
}

/// The arguments that ask hledger for the print report in JSON.
pub fn print_args(journal: Option<&str>, o: &PrintOptions) -> (r: Vec<String>)
    ensures
        texts(r@) == print_argv(opt_text_view(journal), *o),
{
    let mut a = start_args(journal, "print");
    let ghost start = texts(a@);
    push_text(&mut a, "--output-format");
    push_text(&mut a, "json");
    assert(texts(a@) =~= start + seq!["--output-format"@, "json"@]);
    push_flag(&mut a, o.explicit, "--explicit");
    push_flag(&mut a, o.show_costs, "--show-costs");
    push_joined(&mut a, &o.round, "--round=");
    push_flag(&mut a, o.new, "--new");
    push_pair(&mut a, &o.match_desc, "--match");
    push_pair(&mut a, &o.begin, "--begin");
    push_pair(&mut a, &o.end, "--end");
    push_flag(&mut a, o.unmarked, "--unmarked");
    push_flag(&mut a, o.pending, "--pending");
    push_flag(&mut a, o.cleared, "--cleared");
    push_flag(&mut a, o.real, "--real");
    push_flag(&mut a, o.empty, "--empty");
    push_all(&mut a, &o.queries);
    a
}

/// Where in the journal something was written.
#[derive(Clone, Debug)]
pub struct SourcePosition {
    pub line: u32,
    pub column: u32,
    pub file: String,
}

/// How hledger displays an amount; kept as data, never applied here.
#[derive(Clone, Debug)]
pub struct AmountStyle {
    pub commodity_side: String,
    pub commodity_spaced: bool,
    pub decimal_mark: Option<String>,
    pub digit_groups: Option<String>,
    pub precision: u16,
    pub rounding: String,
}

/// An amount of a posting, with its display style.
#[derive(Clone, Debug)]
pub struct PrintAmount {
    pub commodity: String,
    pub quantity: Quantity,
    pub price: Option<Price>,
    pub style: AmountStyle,
}

/// A balance assertion on a posting.
#[derive(Clone, Debug)]
pub struct BalanceAssertion {
    pub amount: PrintAmount,
    pub inclusive: bool,
    pub total: bool,
    pub position: SourcePosition,
}

/// A posting; `original` is the posting an automated one was made from.
#[derive(Debug)]
pub struct PrintPosting {
    pub account: String,
    pub amounts: Vec<PrintAmount>,
    pub status: String,
    pub comment: String,
    /// Name and value, in order; a name may repeat.
    pub tags: Vec<(String, String)>,
    pub posting_type: String,
    pub date: Option<String>,
    pub date2: Option<String>,
    pub balance_assertion: Option<BalanceAssertion>,
    pub original: Option<Box<PrintPosting>>,
    pub transaction_index: String,
}

/// A transaction.
#[derive(Debug)]
pub struct PrintTransaction {
    pub index: u32,
    pub date: String,
    pub date2: Option<String>,
    pub status: String,
    pub code: String,
    pub description: String,
    pub comment: String,
    pub tags: Vec<(String, String)>,
    pub postings: Vec<PrintPosting>,
    pub preceding_comment: String,
    pub source_positions: Vec<SourcePosition>,
}

/// The print report: the transactions in journal order.
pub type PrintReport = Vec<PrintTransaction>;

pub struct PositionView {
    pub line: u32,
    pub column: u32,
    pub file: Seq<char>,
}

pub struct StyleView {
    pub commodity_side: Seq<char>,
    pub commodity_spaced: bool,
    pub decimal_mark: Option<Seq<char>>,
    pub digit_groups: Option<Seq<char>>,
    pub precision: u16,
    pub rounding: Seq<char>,
}

pub struct PrintAmountView {
    pub commodity: Seq<char>,
    pub quantity: Quantity,
    pub price: Option<PriceView>,
    pub style: StyleView,
}

pub struct AssertionView {
    pub amount: PrintAmountView,
    pub inclusive: bool,
    pub total: bool,
    pub position: PositionView,
}

pub struct PostingView {
    pub account: Seq<char>,
    pub amounts: Seq<PrintAmountView>,
    pub status: Seq<char>,
    pub comment: Seq<char>,
    pub tags: Seq<(Seq<char>, Seq<char>)>,
    pub posting_type: Seq<char>,
    pub date: Option<Seq<char>>,
    pub date2: Option<Seq<char>>,
    pub balance_assertion: Option<AssertionView>,
    pub original: Option<Box<PostingView>>,
    pub transaction_index: Seq<char>,
}

pub struct TransactionView {
    pub index: u32,
    pub date: Seq<char>,
    pub date2: Option<Seq<char>>,
    pub status: Seq<char>,
    pub code: Seq<char>,
    pub description: Seq<char>,
    pub comment: Seq<char>,
    pub tags: Seq<(Seq<char>, Seq<char>)>,
    pub postings: Seq<PostingView>,
    pub preceding_comment: Seq<char>,
    pub source_positions: Seq<PositionView>,
}

pub open spec fn opt_string_view(s: Option<String>) -> Option<Seq<char>> {
    match s {
        Some(s) => Some(s@),
        None => None,
    }
}

impl View for SourcePosition {
    type V = PositionView;

    open spec fn view(&self) -> PositionView {
        PositionView { line: self.line, column: self.column, file: self.file@ }
    }
}

impl View for AmountStyle {
    type V = StyleView;

    open spec fn view(&self) -> StyleView {
        StyleView {
            commodity_side: self.commodity_side@,
            commodity_spaced: self.commodity_spaced,
            decimal_mark: opt_string_view(self.decimal_mark),
            digit_groups: opt_string_view(self.digit_groups),
            precision: self.precision,
            rounding: self.rounding@,
        }
    }
}

impl View for PrintAmount {
    type V = PrintAmountView;

    open spec fn view(&self) -> PrintAmountView {
        PrintAmountView {
            commodity: self.commodity@,
            quantity: self.quantity,
            price: match self.price {
                Some(p) => Some(p@),
                None => None,
            },
            style: self.style@,
        }
    }
}

impl View for BalanceAssertion {
    type V = AssertionView;

    open spec fn view(&self) -> AssertionView {
        AssertionView {
            amount: self.amount@,
            inclusive: self.inclusive,
            total: self.total,
            position: self.position@,
        }
    }
}

pub open spec fn print_amounts_view(s: Seq<PrintAmount>) -> Seq<PrintAmountView> {
    s.map_values(|a: PrintAmount| a@)
}

pub open spec fn tags_view(s: Seq<(String, String)>) -> Seq<(Seq<char>, Seq<char>)> {
    s.map_values(|t: (String, String)| (t.0@, t.1@))
}

pub open spec fn positions_view(s: Seq<SourcePosition>) -> Seq<PositionView> {
    s.map_values(|p: SourcePosition| p@)
}

/// The view of a posting, and of the posting it was made from.
pub open spec fn posting_view(p: PrintPosting) -> PostingView
    decreases p,
{
    PostingView {
        account: p.account@,
        amounts: print_amounts_view(p.amounts@),
        status: p.status@,
        comment: p.comment@,
        tags: tags_view(p.tags@),
        posting_type: p.posting_type@,
        date: opt_string_view(p.date),
        date2: opt_string_view(p.date2),
        balance_assertion: match p.balance_assertion {
            Some(a) => Some(a@),
            None => None,
        },
        original: match p.original {
            Some(o) => Some(Box::new(posting_view(*o))),
            None => None,
        },
        transaction_index: p.transaction_index@,
    }
}

pub open spec fn postings_view(s: Seq<PrintPosting>) -> Seq<PostingView> {
    s.map_values(|p: PrintPosting| posting_view(p))
}

impl View for PrintTransaction {
    type V = TransactionView;

    open spec fn view(&self) -> TransactionView {
        TransactionView {
            index: self.index,
            date: self.date@,
            date2: opt_string_view(self.date2),
            status: self.status@,
            code: self.code@,
            description: self.description@,
            comment: self.comment@,
            tags: tags_view(self.tags@),
            postings: postings_view(self.postings@),
            preceding_comment: self.preceding_comment@,
            source_positions: positions_view(self.source_positions@),
        }
    }
}

pub open spec fn transactions_view(s: Seq<PrintTransaction>) -> Seq<TransactionView> {
    s.map_values(|t: PrintTransaction| t@)
}

/// The unsigned integer under `key` when it fits 32 bits, else `default`.
pub open spec fn u32_or(v: JsonValue, key: Seq<char>, default: u32) -> u32 {
    match opt_u64(v, key) {
        Some(n) => if n <= u32::MAX {
            n as u32
        } else {
            default
        },
        None => default,
    }
}

/// The unsigned integer under `key` when it fits 16 bits, else `default`.
pub open spec fn u16_or(v: JsonValue, key: Seq<char>, default: u16) -> u16 {
    match opt_u64(v, key) {
        Some(n) => if n <= u16::MAX {
            n as u16
        } else {
            default
        },
        None => default,
    }
}

/// A source position object; nothing for any other value.
pub open spec fn position_of(v: JsonValue) -> Option<PositionView> {
    if v is Object {
        Some(
            PositionView {
                line: u32_or(v, "sourceLine"@, 0),
                column: u32_or(v, "sourceColumn"@, 0),
                file: text_or(v, "sourceName"@, ""@),
            },
        )
    } else {
        None
    }
}

/// The style hledger uses when none is given.
pub open spec fn default_style() -> StyleView {
    StyleView {
        commodity_side: "L"@,
        commodity_spaced: false,
        decimal_mark: Some("."@),
        digit_groups: None,
        precision: 2,
        rounding: "NoRounding"@,
    }
}

/// An amount style object; any other value is a schema error.
pub open spec fn style_of(v: JsonValue) -> Option<StyleView> {
    if v is Object {
        Some(
            StyleView {
                commodity_side: text_or(v, "ascommodityside"@, "L"@),
                commodity_spaced: bool_or(v, "ascommodityspaced"@, false),
                decimal_mark: opt_text(v, "asdecimalmark"@),
                digit_groups: opt_text(v, "asdigitgroups"@),
                precision: u16_or(v, "asprecision"@, 2),
                rounding: text_or(v, "asrounding"@, "NoRounding"@),
            },
        )
    } else {
        None
    }
}

/// An amount object with its style; it must be an object.
pub open spec fn print_amount_of(v: JsonValue) -> Option<PrintAmountView> {
    if !(v is Object) {
        None
    } else {
        let style = match v.field("astyle"@) {
            Some(s) => style_of(s),
            None => Some(default_style()),
        };
        match (amount_of(v), style) {
            (Some(a), Some(style)) => Some(
                PrintAmountView { commodity: a.commodity, quantity: a.quantity, price: a.price, style },
            ),
            _ => None,
        }
    }
}

pub open spec fn print_amount_item(v: JsonValue) -> Option<Option<PrintAmountView>> {
    if v is Object {
        match print_amount_of(v) {
            Some(a) => Some(Some(a)),
            None => None,
        }
    } else {
        Some(None)
    }
}

pub open spec fn print_amount_items() -> spec_fn(JsonValue) -> Option<Option<PrintAmountView>> {
    |x: JsonValue| print_amount_item(x)
}

/// The amounts of a list: objects are amounts, other items are skipped.
pub open spec fn print_amounts_of(v: JsonValue) -> Option<Seq<PrintAmountView>> {
    match v.array_view() {
        Some(items) => parse_each(items, print_amount_items()),
        None => Some(Seq::empty()),
    }
}

pub open spec fn origin_position() -> PositionView {
    PositionView { line: 0, column: 0, file: ""@ }
}

/// A balance assertion: null, or an object without `baamount`, is none.
pub open spec fn assertion_of(v: JsonValue) -> Option<Option<AssertionView>> {
    if v is Null {
        Some(None)
    } else if !(v is Object) {
        None
    } else {
        match v.field("baamount"@) {
            None => Some(None),
            Some(a) => match print_amount_of(a) {
                None => None,
                Some(amount) => Some(
                    Some(
                        AssertionView {
                            amount,
                            inclusive: bool_or(v, "bainclusive"@, false),
                            total: bool_or(v, "batotal"@, false),
                            position: match v.field("baposition"@) {
                                Some(p) => match position_of(p) {
                                    Some(p) => p,
                                    None => origin_position(),
                                },
                                None => origin_position(),
                            },
                        },
                    ),
                ),
            },
        }
    }
}

/// A tag: a pair of texts; anything else is skipped.
pub open spec fn tag_item(v: JsonValue) -> Option<Option<(Seq<char>, Seq<char>)>> {
    match v.array_view() {
        Some(pair) => if pair.len() == 2 {
            Some(Some((text_or_empty(pair[0]), text_or_empty(pair[1]))))
        } else {
            Some(None)
        },
        None => Some(None),
    }
}

pub open spec fn tag_items() -> spec_fn(JsonValue) -> Option<Option<(Seq<char>, Seq<char>)>> {
    |x: JsonValue| tag_item(x)
}

/// The tags under `key`, in order.
pub open spec fn tags_of(v: JsonValue, key: Seq<char>) -> Option<Seq<(Seq<char>, Seq<char>)>> {
    match v.field(key) {
        Some(t) => match t.array_view() {
            Some(items) => parse_each(items, tag_items()),
            None => Some(Seq::empty()),
        },
        None => Some(Seq::empty()),
    }
}

/// A posting object; its `paccount` is required. `poriginal`, when there and
/// not null, is read the same way.
pub open spec fn posting_of(v: JsonValue) -> Option<PostingView>
    decreases v,
    via posting_of_decreases
{
    if !(v is Object) || v.field("paccount"@) is None {
        None
    } else {
        let amounts = match v.field("pamount"@) {
            Some(a) => print_amounts_of(a),
            None => Some(Seq::empty()),
        };
        let assertion = match v.field("pbalanceassertion"@) {
            Some(b) => assertion_of(b),
            None => Some(None),
        };
        let original = match v.field("poriginal"@) {
            Some(o) => if o is Null {
                Some(None)
            } else {
                match posting_of(o) {
                    Some(p) => Some(Some(Box::new(p))),
                    None => None,
                }
            },
            None => Some(None),
        };
        match (amounts, assertion, original, tags_of(v, "ptags"@)) {
            (Some(amounts), Some(balance_assertion), Some(original), Some(tags)) => Some(
                PostingView {
                    account: text_or(v, "paccount"@, ""@),
                    amounts,
                    status: text_or(v, "pstatus"@, "Unmarked"@),
                    comment: text_or(v, "pcomment"@, ""@),
                    tags,
                    posting_type: text_or(v, "ptype"@, "RegularPosting"@),
                    date: opt_text(v, "pdate"@),
                    date2: opt_text(v, "pdate2"@),
                    balance_assertion,
                    original,
                    transaction_index: text_or(v, "ptransaction_"@, ""@),
                },
            ),
            _ => None,
        }
    }
}

#[via_fn]
proof fn posting_of_decreases(v: JsonValue) {
    lemma_field_smaller(v, "poriginal"@);
}

pub open spec fn posting_item(v: JsonValue) -> Option<Option<PostingView>> {
    match posting_of(v) {
        Some(p) => Some(Some(p)),
        None => None,
    }
}

pub open spec fn posting_items() -> spec_fn(JsonValue) -> Option<Option<PostingView>> {
    |x: JsonValue| posting_item(x)
}

pub open spec fn postings_of(v: JsonValue) -> Option<Seq<PostingView>> {
    match v.field("tpostings"@) {
        Some(p) => match p.array_view() {
            Some(items) => parse_each(items, posting_items()),
            None => Some(Seq::empty()),
        },
        None => Some(Seq::empty()),
    }
}

pub open spec fn position_item(v: JsonValue) -> Option<Option<PositionView>> {
    Some(position_of(v))
}

pub open spec fn position_items() -> spec_fn(JsonValue) -> Option<Option<PositionView>> {
    |x: JsonValue| position_item(x)
}

/// The source positions of a transaction; items that are not objects are skipped.
pub open spec fn positions_of(v: JsonValue) -> Option<Seq<PositionView>> {
    match v.field("tsourcepos"@) {
        Some(p) => match p.array_view() {
            Some(items) => parse_each(items, position_items()),
            None => Some(Seq::empty()),
        },
        None => Some(Seq::empty()),
    }
}

/// A transaction object; its `tdate` is required.
pub open spec fn transaction_of(v: JsonValue) -> Option<TransactionView> {
    if !(v is Object) || v.field("tdate"@) is None {
        None
    } else {
        match (tags_of(v, "ttags"@), postings_of(v), positions_of(v)) {
            (Some(tags), Some(postings), Some(source_positions)) => Some(
                TransactionView {
                    index: u32_or(v, "tindex"@, 0),
                    date: text_or(v, "tdate"@, ""@),
                    date2: opt_text(v, "tdate2"@),
                    status: text_or(v, "tstatus"@, "Unmarked"@),
                    code: text_or(v, "tcode"@, ""@),
                    description: text_or(v, "tdescription"@, ""@),
                    comment: text_or(v, "tcomment"@, ""@),
                    tags,
                    postings,
                    preceding_comment: text_or(v, "tprecedingcomment"@, ""@),
                    source_positions,
                },
            ),
            _ => None,
        }
    }
}

pub open spec fn transaction_item(v: JsonValue) -> Option<Option<TransactionView>> {
    match transaction_of(v) {
        Some(t) => Some(Some(t)),
        None => None,
    }
}

pub open spec fn transaction_items() -> spec_fn(JsonValue) -> Option<Option<TransactionView>> {
    |x: JsonValue| transaction_item(x)
}

/// A print document: an array of transaction objects.
pub open spec fn print_of(v: JsonValue) -> Option<Seq<TransactionView>> {
    match v.array_view() {
        Some(items) => parse_each(items, transaction_items()),
        None => None,
    }
}

fn fitting_u32(n: Option<u64>, default: u32) -> (r: u32)
    ensures
        r == (match n {
            Some(n) => if n <= u32::MAX {
                n as u32
            } else {
                default
            },
            None => default,
        }),
{
    match n {
        Some(n) => if n <= u32::MAX as u64 {
            n as u32
        } else {
            default
        },
        None => default,
    }
}

/// Reads a source position; nothing when the value is no object.
pub fn parse_source_position(value: &JsonValue) -> (r: Option<SourcePosition>)
    ensures
        r is Some == position_of(*value) is Some,
        r matches Some(p) ==> position_of(*value) == Some(p@),
{
    if !value.is_object() {
        return None;
    }
    let line = fitting_u32(value.opt_u64("sourceLine"), 0);
    let column = fitting_u32(value.opt_u64("sourceColumn"), 0);
    let file = value.text_or("sourceName", "");
    Some(SourcePosition { line, column, file })
}

/// The style used when an amount gives none.
pub fn default_amount_style() -> (r: AmountStyle)
    ensures
        r@ == default_style(),
{
    AmountStyle {
        commodity_side: "L".to_string(),
        commodity_spaced: false,
        decimal_mark: Some(".".to_string()),
        digit_groups: None,
        precision: 2,
        rounding: "NoRounding".to_string(),
    }
}

/// Reads an amount style object.
pub fn parse_amount_style(value: &JsonValue) -> (r: Result<AmountStyle, HLedgerError>)
    ensures
        r is Ok == style_of(*value) is Some,
        r matches Ok(s) ==> style_of(*value) == Some(s@),
        r matches Err(e) ==> e is ParseError,
{
    if !value.is_object() {
        return Err(parse_error("Amount style should be an object"));
    }
    let precision: u16 = match value.opt_u64("asprecision") {
        Some(n) => if n <= u16::MAX as u64 {
            n as u16
        } else {
            2
        },
        None => 2,
    };
    Ok(
        AmountStyle {
            commodity_side: value.text_or("ascommodityside", "L"),
            commodity_spaced: value.bool_or("ascommodityspaced", false),
            decimal_mark: value.opt_text("asdecimalmark"),
            digit_groups: value.opt_text("asdigitgroups"),
            precision,
            rounding: value.text_or("asrounding", "NoRounding"),
        },
    )
}

/// Reads one amount object with its style.
pub fn parse_single_print_amount(value: &JsonValue) -> (r: Result<PrintAmount, HLedgerError>)
    ensures
        r is Ok == print_amount_of(*value) is Some,
        r matches Ok(a) ==> print_amount_of(*value) == Some(a@),
        r matches Err(e) ==> e is ParseError,
{
    if !value.is_object() {
        return Err(parse_error("Amount should be an object"));
    }
    let a = parse_amount(value)?;
    let style = match value.get("astyle") {
        Some(s) => parse_amount_style(s)?,
        None => default_amount_style(),
    };
    Ok(PrintAmount { commodity: a.commodity, quantity: a.quantity, price: a.price, style })
}

/// Reads a list of amounts with styles; items that are not objects are skipped.
pub fn parse_print_amounts(value: &JsonValue) -> (r: Result<Vec<PrintAmount>, HLedgerError>)
    ensures
        r is Ok == print_amounts_of(*value) is Some,
        r matches Ok(a) ==> print_amounts_of(*value) == Some(print_amounts_view(a@)),
        r matches Err(e) ==> e is ParseError,
{
    let mut out: Vec<PrintAmount> = Vec::new();
    if let Some(items) = value.as_array() {
        let ghost f = print_amount_items();
        proof {
            lemma_parse_each_start(items@, f);
        }
        let mut i: usize = 0;
        while i < items.len()
            invariant
                i <= items.len(),
                f == print_amount_items(),
                value.array_view() == Some(items@),
                glue(print_amounts_view(out@), parse_each(items@.skip(i as int), f)) == parse_each(items@, f),
                parse_each(items@.skip(items.len() as int), f) == Some(Seq::<PrintAmountView>::empty()),
            decreases items.len() - i,
        {
            proof {
                lemma_parse_each_step(items@, f, i as int, print_amounts_view(out@));
            }
            if items[i].is_object() {
                let a = parse_single_print_amount(&items[i])?;
                let ghost old_out = out@;
                out.push(a);
                assert(print_amounts_view(out@) =~= print_amounts_view(old_out).push(a@));
            }
            i = i + 1;
        }
        assert(print_amounts_view(out@) + Seq::<PrintAmountView>::empty() =~= print_amounts_view(out@));
    }
    Ok(out)
}

fn origin() -> (r: SourcePosition)
    ensures
        r@ == origin_position(),
{
    SourcePosition { line: 0, column: 0, file: "".to_string() }
}

/// Reads a balance assertion; null, or one without an amount, is none.
pub fn parse_balance_assertion(value: &JsonValue) -> (r: Result<Option<BalanceAssertion>, HLedgerError>)
    ensures
        r is Ok == assertion_of(*value) is Some,
        r matches Ok(a) ==> assertion_of(*value) == Some(
            match a {
                Some(a) => Some(a@),
                None => None,
            },
        ),
        r matches Err(e) ==> e is ParseError,
{
    if value.is_null() {
        return Ok(None);
    }
    if !value.is_object() {
        return Err(parse_error("Balance assertion should be an object"));
    }
    let amount = match value.get("baamount") {
        Some(a) => parse_single_print_amount(a)?,
        None => return Ok(None),
    };
    let position = match value.get("baposition") {
        Some(p) => match parse_source_position(p) {
            Some(p) => p,
            None => origin(),
        },
        None => origin(),
    };
    Ok(
        Some(
            BalanceAssertion {
                amount,
                inclusive: value.bool_or("bainclusive", false),
                total: value.bool_or("batotal", false),
                position,
            },
        ),
    )
}

/// Reads the tags under `key`: pairs of texts, in order; other items are skipped.
pub fn parse_tags(value: &JsonValue, key: &str) -> (r: Vec<(String, String)>)
    ensures
        tags_of(*value, key@) == Some(tags_view(r@)),
{
    let mut out: Vec<(String, String)> = Vec::new();
    if let Some(list) = value.get(key) {
        if let Some(items) = list.as_array() {
            let ghost f = tag_items();
            proof {
                lemma_parse_each_start(items@, f);
            }
            let mut i: usize = 0;
            while i < items.len()
                invariant
                    i <= items.len(),
                    f == tag_items(),
                    value.field(key@) == Some(*list),
                    list.array_view() == Some(items@),
                    glue(tags_view(out@), parse_each(items@.skip(i as int), f)) == parse_each(items@, f),
                    parse_each(items@.skip(items.len() as int), f) == Some(Seq::<(Seq<char>, Seq<char>)>::empty()),
                decreases items.len() - i,
            {
                proof {
                    lemma_parse_each_step(items@, f, i as int, tags_view(out@));
                }
                if let Some(pair) = items[i].as_array() {
                    if pair.len() == 2 {
                        let name = match pair[0].as_str() {
                            Some(s) => s.clone(),
                            None => "".to_string(),
                        };
                        let val = match pair[1].as_str() {
                            Some(s) => s.clone(),
                            None => "".to_string(),
                        };
                        let ghost old_out = out@;
                        let t = (name, val);
                        out.push(t);
                        assert(tags_view(out@) =~= tags_view(old_out).push((t.0@, t.1@)));
                    }
                }
                i = i + 1;
            }
            assert(tags_view(out@) + Seq::<(Seq<char>, Seq<char>)>::empty() =~= tags_view(out@));
        }
    }
    out
}

/// Reads a posting object, and the posting it was made from, if any: its
/// `paccount` is required; every other field has a default.
pub fn parse_posting(value: &JsonValue) -> (r: Result<PrintPosting, HLedgerError>)
    ensures
        r is Ok == posting_of(*value) is Some,
        r matches Ok(p) ==> posting_of(*value) == Some(posting_view(p)),
        r matches Err(e) ==> e is ParseError,
    decreases value,
{
    if !value.is_object() {
        return Err(parse_error("Posting should be an object"));
    }
    if value.get("paccount").is_none() {
        return Err(parse_error("Missing paccount in posting"));
    }
    let amounts = match value.get("pamount") {
        Some(a) => parse_print_amounts(a)?,
        None => {
            let none: Vec<PrintAmount> = Vec::new();
            assert(print_amounts_view(none@) =~= Seq::<PrintAmountView>::empty());
            none
        },
    };
    let balance_assertion = match value.get("pbalanceassertion") {
        Some(b) => parse_balance_assertion(b)?,
        None => None,
    };
    let original = match value.get("poriginal") {
        Some(o) => if o.is_null() {
            None
        } else {
            proof {
                lemma_field_smaller(*value, "poriginal"@);
            }
            let inner = parse_posting(o)?;
            assert(posting_of(*o) == Some(posting_view(inner)));
            Some(Box::new(inner))
        },
        None => None,
    };
    let tags = parse_tags(value, "ptags");
    let p = PrintPosting {
        account: value.text_or("paccount", ""),
        amounts,
        status: value.text_or("pstatus", "Unmarked"),
        comment: value.text_or("pcomment", ""),
        tags,
        posting_type: value.text_or("ptype", "RegularPosting"),
        date: value.opt_text("pdate"),
        date2: value.opt_text("pdate2"),
        balance_assertion,
        original,
        transaction_index: value.text_or("ptransaction_", ""),
    };
    Ok(p)
}

fn parse_postings(value: &JsonValue) -> (r: Result<Vec<PrintPosting>, HLedgerError>)
    ensures
        r is Ok == postings_of(*value) is Some,
        r matches Ok(p) ==> postings_of(*value) == Some(postings_view(p@)),
        r matches Err(e) ==> e is ParseError,
{
    let mut out: Vec<PrintPosting> = Vec::new();
    if let Some(list) = value.get("tpostings") {
        if let Some(items) = list.as_array() {
            let ghost f = posting_items();
            proof {
                lemma_parse_each_start(items@, f);
            }
            let mut i: usize = 0;
            while i < items.len()
                invariant
                    i <= items.len(),
                    f == posting_items(),
                    value.field("tpostings"@) == Some(*list),
                    list.array_view() == Some(items@),
                    glue(postings_view(out@), parse_each(items@.skip(i as int), f)) == parse_each(items@, f),
                    parse_each(items@.skip(items.len() as int), f) == Some(Seq::<PostingView>::empty()),
                decreases items.len() - i,
            {
                proof {
                    lemma_parse_each_step(items@, f, i as int, postings_view(out@));
                }
                let p = parse_posting(&items[i])?;
                let ghost old_out = out@;
                out.push(p);
                assert(postings_view(out@) =~= postings_view(old_out).push(posting_view(p)));
                i = i + 1;
            }
            assert(postings_view(out@) + Seq::<PostingView>::empty() =~= postings_view(out@));
        }
    }
    Ok(out)
}

fn parse_positions(value: &JsonValue) -> (r: Vec<SourcePosition>)
    ensures
        positions_of(*value) == Some(positions_view(r@)),
{
    let mut out: Vec<SourcePosition> = Vec::new();
    if let Some(list) = value.get("tsourcepos") {
        if let Some(items) = list.as_array() {
            let ghost f = position_items();
            proof {
                lemma_parse_each_start(items@, f);
            }
            let mut i: usize = 0;
            while i < items.len()
                invariant
                    i <= items.len(),
                    f == position_items(),
                    value.field("tsourcepos"@) == Some(*list),
                    list.array_view() == Some(items@),
                    glue(positions_view(out@), parse_each(items@.skip(i as int), f)) == parse_each(items@, f),
                    parse_each(items@.skip(items.len() as int), f) == Some(Seq::<PositionView>::empty()),
                decreases items.len() - i,
            {
                proof {
                    lemma_parse_each_step(items@, f, i as int, positions_view(out@));
                }
                if let Some(p) = parse_source_position(&items[i]) {
                    let ghost old_out = out@;
                    out.push(p);
                    assert(positions_view(out@) =~= positions_view(old_out).push(p@));
                }
                i = i + 1;
            }
            assert(positions_view(out@) + Seq::<PositionView>::empty() =~= positions_view(out@));
        }
    }
    out
}

/// Reads a transaction object: its `tdate` is required; every other field
/// has a default, as has a `tdate` that is no string.
pub fn parse_transaction(value: &JsonValue) -> (r: Result<PrintTransaction, HLedgerError>)
    ensures
        r is Ok == transaction_of(*value) is Some,
        r matches Ok(t) ==> transaction_of(*value) == Some(t@),
        r matches Err(e) ==> e is ParseError,
{
    if !value.is_object() {
        return Err(parse_error("Transaction should be an object"));
    }
    if value.get("tdate").is_none() {
        return Err(parse_error("Missing tdate in transaction"));
    }
    let tags = parse_tags(value, "ttags");
    let postings = parse_postings(value)?;
    let source_positions = parse_positions(value);
    Ok(
        PrintTransaction {
            index: fitting_u32(value.opt_u64("tindex"), 0),
            date: value.text_or("tdate", ""),
            date2: value.opt_text("tdate2"),
            status: value.text_or("tstatus", "Unmarked"),
            code: value.text_or("tcode", ""),
            description: value.text_or("tdescription", ""),
            comment: value.text_or("tcomment", ""),
            tags,
            postings,
            preceding_comment: value.text_or("tprecedingcomment", ""),
            source_positions,
        },
    )
}

/// Reads a print document, which must be an array of transactions.
pub fn parse_print_output(value: &JsonValue) -> (r: Result<PrintReport, HLedgerError>)
    ensures
        r is Ok == print_of(*value) is Some,
        r matches Ok(t) ==> print_of(*value) == Some(transactions_view(t@)),
        r matches Err(e) ==> e is ParseError,
{
    let items = match value.as_array() {
        Some(items) => items,
        None => return Err(parse_error("Expected array for print output")),
    };
    let mut out: Vec<PrintTransaction> = Vec::new();
    let ghost f = transaction_items();
    proof {
        lemma_parse_each_start(items@, f);
    }
    let mut i: usize = 0;
    while i < items.len()
        invariant
            i <= items.len(),
            f == transaction_items(),
            value.array_view() == Some(items@),
            glue(transactions_view(out@), parse_each(items@.skip(i as int), f)) == parse_each(items@, f),
            parse_each(items@.skip(items.len() as int), f) == Some(Seq::<TransactionView>::empty()),
        decreases items.len() - i,
    {
        proof {
            lemma_parse_each_step(items@, f, i as int, transactions_view(out@));
        }
        let t = parse_transaction(&items[i])?;
        let ghost old_out = out@;
        out.push(t);
        assert(transactions_view(out@) =~= transactions_view(old_out).push(t@));
        i = i + 1;
    }
    assert(transactions_view(out@) + Seq::<TransactionView>::empty() =~= transactions_view(out@));
    Ok(out)
}

/// Reads the print report from hledger's output.
pub fn parse_print(text: &str) -> (r: Result<PrintReport, HLedgerError>)
    ensures
        json_document(text@) is None ==> r matches Err(HLedgerError::Json(_)),
        json_document(text@) matches Some(v) ==> {
            &&& r is Ok == print_of(v) is Some
            &&& r matches Ok(t) ==> print_of(v) == Some(transactions_view(t@))
            &&& r matches Err(e) ==> e is ParseError
        },
{
    match parse_json(text) {
        Ok(v) => parse_print_output(&v),
        Err(e) => Err(HLedgerError::Json(e)),
    }
}

/// The query patterns of a print invocation come last, in their order, after
/// flags that do not depend on them.
pub proof fn lemma_print_queries_last(journal: Option<Seq<char>>, o: PrintOptions, other: PrintOptions)
    requires
        other == (PrintOptions { queries: other.queries, ..o }),
    ensures
        print_argv(journal, o) == print_flags(journal, o) + texts(o.queries@),
        print_flags(journal, o) == print_flags(journal, other),
        print_argv(journal, o).subrange(
            print_flags(journal, o).len() as int,
            print_argv(journal, o).len() as int,
        ) == texts(o.queries@),
{
    let f = print_flags(journal, o);
    assert((f + texts(o.queries@)).subrange(f.len() as int, (f.len() + o.queries@.len()) as int) =~= texts(o.queries@));
}

/// A transaction without `tdate`, or a posting without `paccount`, is a
/// schema error: those keys are required.
pub proof fn lemma_required_keys(t: JsonValue, p: JsonValue)
    ensures
        t.field("tdate"@) is None ==> transaction_of(t) is None,
        p.field("paccount"@) is None ==> posting_of(p) is None,
{
}

} // verus!
