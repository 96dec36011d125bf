//! Building the argument list of an hledger invocation.

use vstd::prelude::*;
use vstd::string::StringExecFns;

verus! {

/// The texts of a list of strings.
pub open spec fn texts(v: Seq<String>) -> Seq<Seq<char>> {
    v.map_values(|s: String| s@)
}

/// The decimal digits of a natural number, most significant first.
pub open spec fn digits(n: nat) -> Seq<char>
    decreases n,
{
    if n < 10 {
        seq![digit_char(n)]
    } else {
        digits(n / 10) + seq![digit_char(n % 10)]
    }
}

pub open spec fn digit_char(d: nat) -> char {
    if d == 0 {
        '0'
    } else if d == 1 {
        '1'
    } else if d == 2 {
        '2'
    } else if d == 3 {
        '3'
    } else if d == 4 {
        '4'
    } else if d == 5 {
        '5'
    } else if d == 6 {
        '6'
    } else if d == 7 {
        '7'
    } else if d == 8 {
        '8'
    } else {
        '9'
    }
}

/// `[flag]` when `on`, else nothing.
pub open spec fn flag_if(on: bool, flag: Seq<char>) -> Seq<Seq<char>> {
    if on {
        seq![flag]
    } else {
        seq![]
    }
}

/// `[flag, value]` when there is a value.
pub open spec fn pair_if(value: Option<String>, flag: Seq<char>) -> Seq<Seq<char>> {
    match value {
        Some(v) => seq![flag, v@],
        None => seq![],
    }
}

/// `[prefix + value]` when there is a value.
pub open spec fn joined_if(value: Option<String>, prefix: Seq<char>) -> Seq<Seq<char>> {
    match value {
        Some(v) => seq![prefix + v@],
        None => seq![],
    }
}

/// `[prefix + digits]` when there is a number.
pub open spec fn number_if(value: Option<u32>, prefix: Seq<char>) -> Seq<Seq<char>> {
    match value {
        Some(n) => seq![prefix + digits(n as nat)],
        None => seq![],
    }
}

/// What comes before the flags: the journal, when given, then the command.
pub open spec fn head(journal: Option<Seq<char>>, command: Seq<char>) -> Seq<Seq<char>> {
    match journal {
        Some(j) => seq!["-f"@, j, command],
        None => seq![command],
    }
}

pub open spec fn opt_text_view(s: Option<&str>) -> Option<Seq<char>> {
    match s {
        Some(s) => Some(s@),
        None => None,
    }
}

/// `[flag]` when there is one.
pub open spec fn one_flag(flag: Option<Seq<char>>) -> Seq<Seq<char>> {
    match flag {
        Some(f) => seq![f],
        None => seq![],
    }
}

/// The period flag when several are set and the last one given on the
/// command line wins: the longest period.
pub open spec fn period_last_wins(d: bool, w: bool, m: bool, q: bool, y: bool) -> Option<Seq<char>> {
    if y {
        Some("--yearly"@)
    } else if q {
        Some("--quarterly"@)
    } else if m {
        Some("--monthly"@)
    } else if w {
        Some("--weekly"@)
    } else if d {
        Some("--daily"@)
    } else {
        None
    }
}

pub fn period_flag_last_wins(d: bool, w: bool, m: bool, q: bool, y: bool) -> (r: Option<&'static str>)
    ensures
        opt_text_view(r) == period_last_wins(d, w, m, q, y),
{
    if y {
        Some("--yearly")
    } else if q {
        Some("--quarterly")
    } else if m {
        Some("--monthly")
    } else if w {
        Some("--weekly")
    } else if d {
        Some("--daily")
    } else {
        None
    }
}

pub fn push_one(args: &mut Vec<String>, flag: Option<&str>)
    ensures
        texts(final(args)@) == texts(old(args)@) + one_flag(opt_text_view(flag)),
{
    let ghost before = texts(args@);
    if let Some(f) = flag {
        push_text(args, f);
    }
    assert(texts(args@) =~= before + one_flag(opt_text_view(flag)));
}

/// Relies on collecting characters into a String: the text of those characters.
#[verifier::external_body]
pub(crate) fn string_of(chars: &Vec<char>) -> (r: String)
    ensures
        r@ == chars@,
{
    chars.iter().collect()
}

fn digit_of(d: u32) -> (r: char)
    requires
        d < 10,
    ensures
        r == digit_char(d as nat),
{
    if d == 0 {
        '0'
    } else if d == 1 {
        '1'
    } else if d == 2 {
        '2'
    } else if d == 3 {
        '3'
    } else if d == 4 {
        '4'
    } else if d == 5 {
        '5'
    } else if d == 6 {
        '6'
    } else if d == 7 {
        '7'
    } else if d == 8 {
        '8'
    } else {
        '9'
    }
}

fn push_digits(out: &mut Vec<char>, n: u32)
    ensures
        final(out)@ == old(out)@ + digits(n as nat),
    decreases n,
{
    if n < 10 {
        let ghost before = out@;
        out.push(digit_of(n));
        assert(out@ =~= before + digits(n as nat));
    } else {
        push_digits(out, n / 10);
        let ghost mid = out@;
        out.push(digit_of(n % 10));
        assert(digits(n as nat) == digits((n / 10) as nat) + seq![digit_char((n % 10) as nat)]);
        assert(out@ =~= old(out)@ + digits(n as nat));
    }
}

/// The decimal digits of `n`.
fn u32_text(n: u32) -> (r: String)
    ensures
        r@ == digits(n as nat),
{
    let mut chars: Vec<char> = Vec::new();
    push_digits(&mut chars, n);
    assert(chars@ =~= digits(n as nat));
    string_of(&chars)
}

pub fn push_text(args: &mut Vec<String>, text: &str)
    ensures
        texts(final(args)@) == texts(old(args)@).push(text@),
{
    let ghost before = args@;
    args.push(text.to_string());
    assert(texts(args@) =~= texts(before).push(text@));
}

pub fn push_flag(args: &mut Vec<String>, on: bool, flag: &str)
    ensures
        texts(final(args)@) == texts(old(args)@) + flag_if(on, flag@),
{
    let ghost before = texts(args@);
    if on {
        push_text(args, flag);
    }
    assert(texts(args@) =~= before + flag_if(on, flag@));
}

pub fn push_pair(args: &mut Vec<String>, value: &Option<String>, flag: &str)
    ensures
        texts(final(args)@) == texts(old(args)@) + pair_if(*value, flag@),
{
    let ghost before = texts(args@);
    if let Some(v) = value {
        push_text(args, flag);
        push_text(args, v.as_str());
    }
    assert(texts(args@) =~= before + pair_if(*value, flag@));
}

pub fn push_joined(args: &mut Vec<String>, value: &Option<String>, prefix: &str)
    ensures
        texts(final(args)@) == texts(old(args)@) + joined_if(*value, prefix@),
{
    let ghost before = texts(args@);
    if let Some(v) = value {
        let text = prefix.to_string().concat(v.as_str());
        push_text(args, text.as_str());
    }
    assert(texts(args@) =~= before + joined_if(*value, prefix@));
}

pub fn push_number(args: &mut Vec<String>, value: Option<u32>, prefix: &str)
    ensures
        texts(final(args)@) == texts(old(args)@) + number_if(value, prefix@),
{
    let ghost before = texts(args@);
    if let Some(n) = value {
        let text = prefix.to_string().concat(u32_text(n).as_str());
        push_text(args, text.as_str());
    }
    assert(texts(args@) =~= before + number_if(value, prefix@));
}

pub fn push_all(args: &mut Vec<String>, items: &Vec<String>)
    ensures
        texts(final(args)@) == texts(old(args)@) + texts(items@),
{
    let ghost before = texts(args@);
    let mut i: usize = 0;
    while i < items.len()
        invariant
            i <= items.len(),
            texts(args@) == before + texts(items@.take(i as int)),
        decreases items.len() - i,
    {
        push_text(args, items[i].as_str());
        assert(texts(items@.take(i + 1)) =~= texts(items@.take(i as int)).push(items@[i as int]@));
        i = i + 1;
    }
    assert(items@.take(items.len() as int) =~= items@);
}

/// Starts an argument list: `-f <journal>` when a journal is given, then the command.
pub fn start_args(journal: Option<&str>, command: &str) -> (r: Vec<String>)
    ensures
        texts(r@) == head(opt_text_view(journal), command@),
{
    let mut args: Vec<String> = Vec::new();
    assert(texts(args@) =~= seq![]);
    if let Some(j) = journal {
        push_text(&mut args, "-f");
        push_text(&mut args, j);
    }
    push_text(&mut args, command);
    proof {
        assert(texts(args@) =~= head(opt_text_view(journal), command@));
    }
    args
}

} // verus!
