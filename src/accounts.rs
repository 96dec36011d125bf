//! The accounts command: its options, its command line, and its plain-text output.

use crate::args::{
    flag_if, head, number_if, opt_text_view, pair_if, push_all, push_flag, push_number, push_pair, push_text,
    start_args, string_of, texts,
};
use vstd::prelude::*;

verus! {

/// Options of the accounts command.
#[derive(Clone, Debug)]
pub struct AccountsOptions {
    pub used: bool,
    pub declared: bool,
    pub unused: bool,
    pub undeclared: bool,
    pub types: bool,
    pub positions: bool,
    pub directives: bool,
    pub find: bool,
    pub drop: Option<u32>,
    pub depth: Option<u32>,
    pub begin: Option<String>,
    pub end: Option<String>,
    pub period: Option<String>,
    pub unmarked: bool,
    pub pending: bool,
    pub cleared: bool,
    pub real: bool,
    pub empty: bool,
    pub queries: Vec<String>,
}

impl AccountsOptions {
    /// No flags, no filters, no patterns.
    pub fn new() -> (r: Self)
        ensures
            r == (Self { used: false, declared: false, unused: false, undeclared: false, types: false, positions: false, directives: false, find: false, drop: None, depth: None, begin: None, end: None, period: None, unmarked: false, pending: false, cleared: false, real: false, empty: false, queries: r.queries }),
            r.queries@.len() == 0,
    {
        AccountsOptions {
            used: false,
            declared: false,
            unused: false,
            undeclared: false,
            types: false,
            positions: false,
            directives: false,
            find: false,
            drop: None,
            depth: None,
            begin: None,
            end: None,
            period: None,
            unmarked: false,
            pending: false,
            cleared: false,
            real: false,
            empty: false,
            queries: Vec::new(),
        }
    }

    /// Only accounts used by transactions.
    pub fn used(self) -> (r: Self)
        ensures
            r == (Self { used: true, ..self }),
    {
        let mut o = self;
        o.used = true;
        o
    }

    /// Only accounts declared by an account directive.
    pub fn declared(self) -> (r: Self)
        ensures
            r == (Self { declared: true, ..self }),
    {
        let mut o = self;
        o.declared = true;
        o
    }

    /// Only accounts declared but not used.
    pub fn unused(self) -> (r: Self)
        ensures
            r == (Self { unused: true, ..self }),
    {
        let mut o = self;
        o.unused = true;
        o
    }

    /// Only accounts used but not declared.
    pub fn undeclared(self) -> (r: Self)
        ensures
            r == (Self { undeclared: true, ..self }),
    {
        let mut o = self;
        o.undeclared = true;
        o
    }

    /// Also show account types when known.
    pub fn types(self) -> (r: Self)
        ensures
            r == (Self { types: true, ..self }),
    {
        let mut o = self;
        o.types = true;
        o
    }

    /// Also show where accounts were declared.
    pub fn positions(self) -> (r: Self)
        ensures
            r == (Self { positions: true, ..self }),
    {
        let mut o = self;
        o.positions = true;
        o
    }

    /// Show as account directives.
    pub fn directives(self) -> (r: Self)
        ensures
            r == (Self { directives: true, ..self }),
    {
        let mut o = self;
        o.directives = true;
        o
    }

    /// Only the first account the pattern matches.
    pub fn find(self) -> (r: Self)
        ensures
            r == (Self { find: true, ..self }),
    {
        let mut o = self;
        o.find = true;
        o
    }

    /// Omit this many leading account name parts.
    pub fn drop(self, n: u32) -> (r: Self)
        ensures
            r == (Self { drop: Some(n), ..self }),
    {
        let mut o = self;
        o.drop = Some(n);
        o
    }

    /// Show accounts down to this depth.
    pub fn depth(self, n: u32) -> (r: Self)
        ensures
            r == (Self { depth: Some(n), ..self }),
    {
        let mut o = self;
        o.depth = Some(n);
        o
    }

    /// Include transactions on or after this date.
    pub fn begin(self, date: &str) -> (r: Self)
        ensures
            r.begin matches Some(s) && s@ == date@,
            r == (Self { begin: r.begin, ..self }),
    {
        let mut o = self;
        o.begin = Some(date.to_string());
        o
    }

    /// Include transactions before this date.
    pub fn end(self, date: &str) -> (r: Self)
        ensures
            r.end matches Some(s) && s@ == date@,
            r == (Self { end: r.end, ..self }),
    {
        let mut o = self;
        o.end = Some(date.to_string());
        o
    }

    /// Include transactions in this period.
    pub fn period(self, period: &str) -> (r: Self)
        ensures
            r.period matches Some(s) && s@ == period@,
            r == (Self { period: r.period, ..self }),
    {
        let mut o = self;
        o.period = Some(period.to_string());
        o
    }

    /// Include only unmarked postings.
    pub fn unmarked(self) -> (r: Self)
        ensures
            r == (Self { unmarked: true, ..self }),
    {
        let mut o = self;
        o.unmarked = true;
        o
    }

    /// Include only pending postings.
    pub fn pending(self) -> (r: Self)
        ensures
            r == (Self { pending: true, ..self }),
    {
        let mut o = self;
        o.pending = true;
        o
    }

    /// Include only cleared postings.
    pub fn cleared(self) -> (r: Self)
        ensures
            r == (Self { cleared: true, ..self }),
    {
        let mut o = self;
        o.cleared = true;
        o
    }

    /// Include only non-virtual postings.
    pub fn real_only(self) -> (r: Self)
        ensures
            r == (Self { real: true, ..self }),
    {
        let mut o = self;
        o.real = true;
        o
    }

    /// Show zero items too.
    pub fn empty(self) -> (r: Self)
        ensures
            r == (Self { empty: true, ..self }),
    {
        let mut o = self;
        o.empty = true;
        o
    }

    /// Add a query pattern after the others.
    pub fn query(self, pattern: &str) -> (r: Self)
        ensures
            texts(r.queries@) == texts(self.queries@).push(pattern@),
            r == (Self { queries: r.queries, ..self }),
    {
        let mut o = self;
        o.queries.push(pattern.to_string());
        assert(texts(o.queries@) =~= texts(self.queries@).push(pattern@));
        o
    }

    /// Replace the query patterns.
    pub fn queries(self, queries: Vec<String>) -> (r: Self)
        ensures
            r == (Self { queries: queries, ..self }),
    {
        let mut o = self;
        o.queries = queries;
        o
    }
}

impl Default for AccountsOptions {
    fn default() -> (r: Self)
        ensures
            r == (Self { used: false, declared: false, unused: false, undeclared: false, types: false, positions: false, directives: false, find: false, drop: None, depth: None, begin: None, end: None, period: None, unmarked: false, pending: false, cleared: false, real: false, empty: false, queries: r.queries }),
            r.queries@.len() == 0,
    {
        Self::new()
    }
}

/// Which accounts and what to show of them, then `--flat`, after `prev`.
#[verifier::opaque]
pub open spec fn accounts_selection(prev: Seq<Seq<char>>, o: AccountsOptions) -> Seq<Seq<char>> {
    prev + flag_if(o.used, "--used"@) + flag_if(o.declared, "--declared"@)
        + flag_if(o.unused, "--unused"@) + flag_if(o.undeclared, "--undeclared"@)
        + flag_if(o.types, "--types"@) + flag_if(o.positions, "--positions"@)
        + flag_if(o.directives, "--directives"@) + flag_if(o.find, "--find"@) + seq!["--flat"@]
}

/// Name, date and status filters, after `prev`.
#[verifier::opaque]
pub open spec fn accounts_filters(prev: Seq<Seq<char>>, o: AccountsOptions) -> Seq<Seq<char>> {
    prev + number_if(o.drop, "--drop="@) + number_if(o.depth, "--depth="@)
        + pair_if(o.begin, "--begin"@) + pair_if(o.end, "--end"@) + pair_if(o.period, "--period"@)
        + flag_if(o.unmarked, "--unmarked"@) + flag_if(o.pending, "--pending"@)
        + flag_if(o.cleared, "--cleared"@) + flag_if(o.real, "--real"@)
        + flag_if(o.empty, "--empty"@)
}

/// The flags of an accounts invocation, before the query patterns; the list
/// is always flat.
pub open spec fn accounts_flags(journal: Option<Seq<char>>, o: AccountsOptions) -> Seq<Seq<char>> {
    accounts_filters(accounts_selection(head(journal, "accounts"@), o), o)
}

/// The whole argument list: the flags, then the query patterns in their order.
pub open spec fn accounts_argv(journal: Option<Seq<char>>, o: AccountsOptions) -> Seq<Seq<char>> {
    accounts_flags(journal, o) + texts(o.queries@)
}

fn push_accounts_selection(a: &mut Vec<String>, o: &AccountsOptions)
    ensures
        texts(final(a)@) == accounts_selection(texts(old(a)@), *o),
{
    reveal(accounts_selection);
    push_flag(a, o.used, "--used");
    push_flag(a, o.declared, "--declared");
    push_flag(a, o.unused, "--unused");
    push_flag(a, o.undeclared, "--undeclared");
    push_flag(a, o.types, "--types");
    push_flag(a, o.positions, "--positions");
    push_flag(a, o.directives, "--directives");
    push_flag(a, o.find, "--find");
    let ghost before = texts(a@);
    push_text(a, "--flat");
    assert(before.push("--flat"@) =~= before + seq!["--flat"@]);
}

fn push_accounts_filters(a: &mut Vec<String>, o: &AccountsOptions)
    ensures
        texts(final(a)@) == accounts_filters(texts(old(a)@), *o),
{
    reveal(accounts_filters);
    push_number(a, o.drop, "--drop=");
    push_number(a, o.depth, "--depth=");
    push_pair(a, &o.begin, "--begin");
    push_pair(a, &o.end, "--end");
    push_pair(a, &o.period, "--period");
    push_flag(a, o.unmarked, "--unmarked");
    push_flag(a, o.pending, "--pending");
    push_flag(a, o.cleared, "--cleared");
    push_flag(a, o.real, "--real");
    push_flag(a, o.empty, "--empty");
}

/// The arguments that ask hledger for the account names.
pub fn accounts_args(journal: Option<&str>, o: &AccountsOptions) -> (r: Vec<String>)
    ensures
        texts(r@) == accounts_argv(opt_text_view(journal), *o),
{
    let mut a = start_args(journal, "accounts");
    push_accounts_selection(&mut a, o);
    push_accounts_filters(&mut a, o);
    push_all(&mut a, &o.queries);
    a
}

/// Unicode white space, as `char::is_whitespace` has it.
pub open spec fn is_space(c: char) -> bool {
    ||| c == '\t' || c == '\n' || c == '\u{0B}' || c == '\u{0C}' || c == '\r' || c == ' '
    ||| c == '\u{85}' || c == '\u{A0}' || c == '\u{1680}'
    ||| ('\u{2000}' <= c && c <= '\u{200A}')
    ||| c == '\u{2028}' || c == '\u{2029}' || c == '\u{202F}' || c == '\u{205F}' || c == '\u{3000}'
}

/// Without its leading white space.
pub open spec fn trim_start(c: Seq<char>) -> Seq<char>
    decreases c.len(),
{
    if c.len() > 0 && is_space(c[0]) {
        trim_start(c.drop_first())
    } else {
        c
    }
}

/// Without its trailing white space.
pub open spec fn trim_end(c: Seq<char>) -> Seq<char>
    decreases c.len(),
{
    if c.len() > 0 && is_space(c.last()) {
        trim_end(c.drop_last())
    } else {
        c
    }
}

pub open spec fn trimmed(c: Seq<char>) -> Seq<char> {
    trim_end(trim_start(c))
}

/// `names` with the line `line` added when it is not blank once trimmed.
pub open spec fn add_line(names: Seq<Seq<char>>, line: Seq<char>) -> Seq<Seq<char>> {
    if trimmed(line).len() > 0 {
        names.push(trimmed(line))
    } else {
        names
    }
}

/// Reading `text` line by line: the names of the complete lines so far, and
/// the line not yet ended.
pub open spec fn scan_lines(text: Seq<char>) -> (Seq<Seq<char>>, Seq<char>)
    decreases text.len(),
{
    if text.len() == 0 {
        (Seq::empty(), Seq::empty())
    } else {
        let (names, line) = scan_lines(text.drop_last());
        if text.last() == '\n' {
            (add_line(names, line), Seq::empty())
        } else {
            (names, line.push(text.last()))
        }
    }
}

/// The account names in the accounts command's output: its lines, trimmed,
/// without the blank ones, in order.
pub open spec fn account_names(text: Seq<char>) -> Seq<Seq<char>> {
    add_line(scan_lines(text).0, scan_lines(text).1)
}

/// Whether a character is white space.
fn char_is_space(c: char) -> (r: bool)
    ensures
        r == is_space(c),
{
    c == '\t' || c == '\n' || c == '\u{0B}' || c == '\u{0C}' || c == '\r' || c == ' ' || c == '\u{85}'
        || c == '\u{A0}' || c == '\u{1680}' || ('\u{2000}' <= c && c <= '\u{200A}') || c == '\u{2028}'
        || c == '\u{2029}' || c == '\u{202F}' || c == '\u{205F}' || c == '\u{3000}'
}

/// Relies on str::chars: the characters of the text, in order.
#[verifier::external_body]
fn chars_of(s: &str) -> (r: Vec<char>)
    ensures
        r@ == s@,
{
    s.chars().collect()
}

proof fn lemma_trim_start_skip(c: Seq<char>, i: int)
    requires
        0 <= i < c.len(),
        is_space(c[i]),
    ensures
        trim_start(c.skip(i)) == trim_start(c.skip(i + 1)),
{
    assert(c.skip(i).drop_first() =~= c.skip(i + 1));
}

proof fn lemma_trim_end_take(c: Seq<char>, j: int)
    requires
        0 < j <= c.len(),
        is_space(c[j - 1]),
    ensures
        trim_end(c.take(j)) == trim_end(c.take(j - 1)),
{
    assert(c.take(j).drop_last() =~= c.take(j - 1));
}

/// The line without leading and trailing white space.
fn trim_line(line: &Vec<char>) -> (r: Vec<char>)
    ensures
        r@ == trimmed(line@),
{
    let mut start: usize = 0;
    assert(line@.skip(0) =~= line@);
    while start < line.len() && char_is_space(line[start])
        invariant
            start <= line.len(),
            trim_start(line@) == trim_start(line@.skip(start as int)),
        decreases line.len() - start,
    {
        proof {
            lemma_trim_start_skip(line@, start as int);
        }
        start = start + 1;
    }
    let ghost rest = line@.skip(start as int);
    assert(trim_start(line@) == rest);
    let mut end: usize = line.len();
    assert(rest.take(rest.len() as int) =~= rest);
    while end > start && char_is_space(line[end - 1])
        invariant
            start <= end <= line.len(),
            rest == line@.skip(start as int),
            trim_end(rest) == trim_end(rest.take(end - start)),
        decreases end - start,
    {
        proof {
            lemma_trim_end_take(rest, end - start);
        }
        end = end - 1;
    }
    assert(trim_end(rest) == rest.take(end - start));
    let mut out: Vec<char> = Vec::new();
    let mut k: usize = start;
    while k < end
        invariant
            start <= k <= end <= line.len(),
            out@ == line@.subrange(start as int, k as int),
        decreases end - k,
    {
        out.push(line[k]);
        assert(out@ =~= line@.subrange(start as int, k + 1));
        k = k + 1;
    }
    assert(out@ =~= rest.take(end - start));
    out
}

fn add_name(names: &mut Vec<String>, line: &Vec<char>)
    ensures
        texts(final(names)@) == add_line(texts(old(names)@), line@),
{
    let t = trim_line(line);
    if t.len() > 0 {
        let ghost before = names@;
        names.push(string_of(&t));
        assert(texts(names@) =~= texts(before).push(t@));
    }
}

/// The account names in the accounts command's output: each line trimmed,
/// blank lines left out.
pub fn parse_accounts_output(stdout: &str) -> (r: Vec<String>)
    ensures
        texts(r@) == account_names(stdout@),
{
    let chars = chars_of(stdout);
    let mut names: Vec<String> = Vec::new();
    let mut line: Vec<char> = Vec::new();
    let mut i: usize = 0;
    assert(chars@.take(0) =~= Seq::<char>::empty());
    assert(texts(names@) =~= Seq::<Seq<char>>::empty());
    while i < chars.len()
        invariant
            i <= chars.len(),
            chars@ == stdout@,
            scan_lines(chars@.take(i as int)) == (texts(names@), line@),
        decreases chars.len() - i,
    {
        let c = chars[i];
        assert(chars@.take(i + 1).drop_last() =~= chars@.take(i as int));
        if c == '\n' {
            add_name(&mut names, &line);
            line = Vec::new();
            assert(line@ =~= Seq::<char>::empty());
        } else {
            line.push(c);
        }
        i = i + 1;
    }
    assert(chars@.take(chars.len() as int) =~= chars@);
    add_name(&mut names, &line);
    names
}

/// The query patterns of an accounts invocation come last, in their order,
/// after flags that do not depend on them.
pub proof fn lemma_accounts_queries_last(journal: Option<Seq<char>>, o: AccountsOptions, other: AccountsOptions)
    requires
        other == (AccountsOptions { queries: other.queries, ..o }),
    ensures
        accounts_argv(journal, o) == accounts_flags(journal, o) + texts(o.queries@),
        accounts_flags(journal, o) == accounts_flags(journal, other),
        accounts_argv(journal, o).subrange(
            accounts_flags(journal, o).len() as int,
            accounts_argv(journal, o).len() as int,
        ) == texts(o.queries@),
{
    let f = accounts_flags(journal, o);
    assert((f + texts(o.queries@)).subrange(f.len() as int, (f.len() + o.queries@.len()) as int) =~= texts(o.queries@));
    let start = head(journal, "accounts"@);
    assert(accounts_selection(start, o) == accounts_selection(start, other)) by {
        reveal(accounts_selection);
    }
    let m = accounts_selection(start, o);
    assert(accounts_filters(m, o) == accounts_filters(m, other)) by {
        reveal(accounts_filters);
    }
}

} // verus!
