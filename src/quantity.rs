//! Exact decimal quantities, and the three JSON encodings hledger writes them in.

use crate::error::{parse_error, HLedgerError};
use crate::args::digits;
use crate::json::JsonValue;
use rust_decimal::Decimal;
use vstd::prelude::*;

verus! {

/// The largest scale a quantity may have: digits after the point.
pub const MAX_SCALE: u32 = 28;

/// The largest magnitude of a mantissa: 96 bits.
pub const MAX_MANTISSA: i128 = 79228162514264337593543950335;

/// The number `mantissa × 10^-scale`, kept with the scale it was written with
/// (2000 at scale 2 is `20.00`, not `20`). Two quantities are `==` when they
/// are the same number, whatever their scales.
#[derive(Clone, Copy, Debug)]
pub struct Quantity {
    pub mantissa: i128,
    pub scale: u32,
}

impl Quantity {
    /// Within what a 96-bit decimal can hold.
    pub open spec fn wf(self) -> bool {
        &&& self.scale <= MAX_SCALE
        &&& -MAX_MANTISSA <= self.mantissa <= MAX_MANTISSA
    }

    /// `num × 10^-scale`.
    pub fn new(num: i64, scale: u32) -> (r: Quantity)
        requires
            scale <= MAX_SCALE,
        ensures
            r.mantissa == num,
            r.scale == scale,
            r.wf(),
    {
        Quantity { mantissa: num as i128, scale }
    }

    pub fn zero() -> (r: Quantity)
        ensures
            r.mantissa == 0,
            r.scale == 0,
    {
        Quantity { mantissa: 0, scale: 0 }
    }

    /// The decimal text, with as many digits after the point as the scale.
    pub fn to_string(&self) -> (r: String)
        requires
            self.wf(),
        ensures
            r@ == decimal_rendering(self.mantissa, self.scale),
    {
        render_decimal(self.mantissa, self.scale)
    }
}

/// `10^n`.
pub open spec fn pow10(n: nat) -> int
    decreases n,
{
    if n == 0 {
        1
    } else {
        10 * pow10((n - 1) as nat)
    }
}

/// Whether two quantities are the same number.
pub open spec fn same_value(a: Quantity, b: Quantity) -> bool {
    a.mantissa * pow10(b.scale as nat) == b.mantissa * pow10(a.scale as nat)
}

/// Without trailing zeros after the point.
pub open spec fn normalized(q: Quantity) -> bool {
    q.scale == 0 || q.mantissa % 10 != 0
}

proof fn lemma_pow10_positive(n: nat)
    ensures
        pow10(n) > 0,
    decreases n,
{
    if n > 0 {
        lemma_pow10_positive((n - 1) as nat);
    }
}

proof fn lemma_pow10_add(a: nat, b: nat)
    ensures
        pow10(a + b) == pow10(a) * pow10(b),
    decreases b,
{
    if b > 0 {
        lemma_pow10_add(a, (b - 1) as nat);
        assert(pow10(a + b) == 10 * pow10((a + b - 1) as nat));
        assert(pow10(a) * pow10(b) == pow10(a) * (10 * pow10((b - 1) as nat)));
        assert(pow10(a) * (10 * pow10((b - 1) as nat)) == 10 * (pow10(a) * pow10((b - 1) as nat))) by (nonlinear_arith);
    }
}

/// Two normalized quantities that are the same number are the same quantity.
proof fn lemma_normalized_unique(x: Quantity, y: Quantity)
    requires
        normalized(x),
        normalized(y),
        same_value(x, y),
    ensures
        x.mantissa == y.mantissa && x.scale == y.scale,
{
    if x.scale <= y.scale {
        lemma_normalized_unique_ordered(x, y);
    } else {
        lemma_normalized_unique_ordered(y, x);
    }
}

proof fn lemma_normalized_unique_ordered(x: Quantity, y: Quantity)
    requires
        normalized(x),
        normalized(y),
        same_value(x, y) || same_value(y, x),
        x.scale <= y.scale,
    ensures
        x.mantissa == y.mantissa && x.scale == y.scale,
{
    let k = (y.scale - x.scale) as nat;
    let px = pow10(x.scale as nat);
    let pk = pow10(k);
    lemma_pow10_add(x.scale as nat, k);
    lemma_pow10_positive(x.scale as nat);
    assert(x.scale as nat + k == y.scale as nat);
    let xm = x.mantissa as int;
    let ym = y.mantissa as int;
    assert(xm * (px * pk) == ym * px);
    assert((xm * pk) * px == ym * px) by (nonlinear_arith)
        requires
            xm * (px * pk) == ym * px,
    ;
    assert(xm * pk == ym) by (nonlinear_arith)
        requires
            (xm * pk) * px == ym * px,
            px > 0,
    ;
    if k > 0 {
        let r = pow10((k - 1) as nat);
        assert(pk == 10 * r);
        assert(ym == (xm * r) * 10) by (nonlinear_arith)
            requires
                xm * pk == ym,
                pk == 10 * r,
        ;
        vstd::arithmetic::div_mod::lemma_mod_multiples_basic(xm * r, 10);
        assert(false);
    }
}

/// Same-number is kept when each side is replaced by a quantity of the same value.
proof fn lemma_same_value_transfer(a: Quantity, b: Quantity, x: Quantity, y: Quantity)
    requires
        same_value(a, x),
        same_value(b, y),
    ensures
        same_value(a, b) == same_value(x, y),
{
    let (am, bm, xm, ym) = (a.mantissa as int, b.mantissa as int, x.mantissa as int, y.mantissa as int);
    let (pa, pb, px, py) = (pow10(a.scale as nat), pow10(b.scale as nat), pow10(x.scale as nat), pow10(y.scale as nat));
    lemma_pow10_positive(a.scale as nat);
    lemma_pow10_positive(b.scale as nat);
    lemma_pow10_positive(x.scale as nat);
    lemma_pow10_positive(y.scale as nat);
    assert(am * px == xm * pa);
    assert(bm * py == ym * pb);
    if am * pb == bm * pa {
        assert(xm * py == ym * px) by (nonlinear_arith)
            requires
                am * px == xm * pa,
                bm * py == ym * pb,
                am * pb == bm * pa,
                pa > 0,
                pb > 0,
        {
            assert((am * pb) * (px * py) == (bm * pa) * (px * py));
            assert((am * px) * (pb * py) == (bm * py) * (pa * px));
            assert((xm * pa) * (pb * py) == (ym * pb) * (pa * px));
            assert((xm * py) * (pa * pb) == (ym * px) * (pa * pb));
        }
    }
    if xm * py == ym * px {
        assert(am * pb == bm * pa) by (nonlinear_arith)
            requires
                am * px == xm * pa,
                bm * py == ym * pb,
                xm * py == ym * px,
                px > 0,
                py > 0,
        {
            assert((xm * py) * (pa * pb) == (ym * px) * (pa * pb));
            assert((xm * pa) * (pb * py) == (ym * pb) * (pa * px));
            assert((am * px) * (pb * py) == (bm * py) * (pa * px));
            assert((am * pb) * (px * py) == (bm * pa) * (px * py));
        }
    }
}

/// The same number without trailing zeros after the point.
fn normalize(q: Quantity) -> (r: Quantity)
    ensures
        normalized(r),
        same_value(q, r),
{
    let mut m = q.mantissa;
    let mut s = q.scale;
    while s > 0 && m % 10 == 0
        invariant
            same_value(q, Quantity { mantissa: m, scale: s }),
        decreases s,
    {
        let ghost (om, os) = (m as int, s as nat);
        let ghost p = pow10((s - 1) as nat);
        let ghost qm = q.mantissa as int;
        let ghost pq = pow10(q.scale as nat);
        assert(pow10(os) == 10 * p);
        assert(om == (om / 10) * 10);
        assert(qm * p == (om / 10) * pq) by (nonlinear_arith)
            requires
                qm * pow10(os) == om * pq,
                pow10(os) == 10 * p,
                om == (om / 10) * 10,
        ;
        m = m / 10;
        s = s - 1;
    }
    Quantity { mantissa: m, scale: s }
}

impl PartialEq for Quantity {
    fn eq(&self, other: &Quantity) -> (r: bool) {
        let a = normalize(*self);
        let b = normalize(*other);
        proof {
            lemma_same_value_transfer(*self, *other, a, b);
            if same_value(a, b) {
                lemma_normalized_unique(a, b);
            }
        }
        a.mantissa == b.mantissa && a.scale == b.scale
    }
}

impl vstd::std_specs::cmp::PartialEqSpecImpl for Quantity {
    open spec fn obeys_eq_spec() -> bool {
        true
    }

    open spec fn eq_spec(&self, other: &Quantity) -> bool {
        same_value(*self, *other)
    }
}

/// The (mantissa, scale) that rust_decimal reads from a decimal text, if it reads one.
pub uninterp spec fn decimal_text_value(text: Seq<char>) -> Option<(i128, u32)>;

/// The (mantissa, scale) that rust_decimal keeps of the binary float whose
/// shortest decimal text is `text`, if it can hold it.
pub uninterp spec fn float_text_value(text: Seq<char>) -> Option<(i128, u32)>;

/// The digits of a magnitude, none for zero.
pub open spec fn magnitude_digits(a: nat) -> Seq<char> {
    if a == 0 {
        Seq::empty()
    } else {
        digits(a)
    }
}

/// The digits of `|mantissa|`, with zeros in front up to `scale` digits.
pub open spec fn padded_digits(mantissa: i128, scale: u32) -> Seq<char> {
    let a: nat = if mantissa < 0 {
        (-mantissa) as nat
    } else {
        mantissa as nat
    };
    let d = magnitude_digits(a);
    if d.len() < scale {
        Seq::new((scale - d.len()) as nat, |i: int| '0') + d
    } else {
        d
    }
}

/// The text of `mantissa × 10^-scale`: a `-` for a negative mantissa, the
/// integer digits (`0` when there are none), and, when the scale is not 0, a
/// point followed by exactly `scale` digits.
pub open spec fn decimal_rendering(mantissa: i128, scale: u32) -> Seq<char> {
    let p = padded_digits(mantissa, scale);
    let whole = p.subrange(0, p.len() - scale);
    let body = if scale == 0 {
        if p.len() == 0 {
            "0"@
        } else {
            p
        }
    } else {
        (if whole.len() == 0 {
            "0"@
        } else {
            whole
        }) + "."@ + p.subrange(p.len() - scale, p.len() as int)
    };
    if mantissa < 0 {
        "-"@ + body
    } else {
        body
    }
}

/// Relies on rust_decimal's `FromStr for Decimal`: a function of the text, whose
/// result has a scale of at most 28 and a 96-bit mantissa.
#[verifier::external_body]
fn parse_decimal_text(text: &str) -> (r: Option<Quantity>)
    ensures
        r is Some == decimal_text_value(text@) is Some,
        r matches Some(q) ==> decimal_text_value(text@) == Some((q.mantissa, q.scale)) && q.wf(),
{
    text.parse::<Decimal>().ok().map(|d| Quantity { mantissa: d.mantissa(), scale: d.scale() })
}

/// Relies on rust_decimal's Decimal::from_f64_retain, which keeps every digit
/// of the float; the float is read back from the shortest text serde_json
/// wrote for it, which gives the same float.
#[verifier::external_body]
fn retained_float_decimal(text: &str) -> (r: Option<Quantity>)
    ensures
        r is Some == float_text_value(text@) is Some,
        r matches Some(q) ==> float_text_value(text@) == Some((q.mantissa, q.scale)) && q.wf(),
{
    text.parse().ok().and_then(Decimal::from_f64_retain).map(
        |d| Quantity { mantissa: d.mantissa(), scale: d.scale() },
    )
}

/// Relies on rust_decimal's Decimal::from_i128_with_scale, which keeps the
/// mantissa and scale as given when they are in range, and on its Display:
/// the sign, then the digits of the magnitude, zero-padded to the scale, with
/// a point before the last `scale` of them and a `0` before a bare point.
#[verifier::external_body]
fn render_decimal(mantissa: i128, scale: u32) -> (r: String)
    requires
        scale <= MAX_SCALE,
        -MAX_MANTISSA <= mantissa <= MAX_MANTISSA,
    ensures
        r@ == decimal_rendering(mantissa, scale),
{
    Decimal::from_i128_with_scale(mantissa, scale).to_string()
}

/// The integer stored under `key` of an object, read as signed.
pub open spec fn field_i64(v: JsonValue, key: Seq<char>) -> Option<i64> {
    match v.field(key) {
        Some(x) => x.i64_view(),
        None => None,
    }
}

/// The integer stored under `key` of an object, read as unsigned.
pub open spec fn field_u64(v: JsonValue, key: Seq<char>) -> Option<u64> {
    match v.field(key) {
        Some(x) => x.u64_view(),
        None => None,
    }
}

pub open spec fn quantity_of_parts(parts: Option<(i128, u32)>) -> Option<Quantity> {
    match parts {
        Some((m, s)) => Some(Quantity { mantissa: m, scale: s }),
        None => None,
    }
}

/// The quantity a JSON value encodes, or nothing when it encodes none:
/// an object with an integer `decimalMantissa` and a `decimalPlaces` (0 when
/// absent) of at most 28, exactly; a number, through its float; a string, as
/// decimal text.
pub open spec fn quantity_of(v: JsonValue) -> Option<Quantity> {
    match v {
        JsonValue::Object(_) => match field_i64(v, "decimalMantissa"@) {
            Some(m) => {
                let places: u64 = match field_u64(v, "decimalPlaces"@) {
                    Some(p) => p,
                    None => 0,
                };
                if places <= MAX_SCALE {
                    Some(Quantity { mantissa: m as i128, scale: places as u32 })
                } else {
                    None
                }
            },
            None => None,
        },
        JsonValue::Number(n) => quantity_of_parts(float_text_value(n.text@)),
        JsonValue::Str(s) => quantity_of_parts(decimal_text_value(s@)),
        _ => None,
    }
}

/// Reads a quantity in any of its three encodings; a value in none of them is
/// a schema error.
pub fn parse_decimal_from_json(value: &JsonValue) -> (r: Result<Quantity, HLedgerError>)
    ensures
        r is Ok == quantity_of(*value) is Some,
        r matches Ok(q) ==> quantity_of(*value) == Some(q) && q.wf(),
        r matches Err(e) ==> e is ParseError,
{
    match value {
        JsonValue::Object(_) => {
            let mantissa = match value.get("decimalMantissa") {
                Some(m) => m.as_i64(),
                None => None,
            };
            if let Some(mantissa) = mantissa {
                let places: u64 = match value.get("decimalPlaces") {
                    Some(p) => match p.as_u64() {
                        Some(p) => p,
                        None => 0,
                    },
                    None => 0,
                };
                if places <= MAX_SCALE as u64 {
                    Ok(Quantity::new(mantissa, places as u32))
                } else {
                    Err(parse_error("Decimal places exceed 28"))
                }
            } else {
                Err(parse_error("Unknown decimal format"))
            }
        },
        JsonValue::Number(n) => match retained_float_decimal(n.text.as_str()) {
            Some(q) => Ok(q),
            None => Err(parse_error("Invalid decimal number")),
        },
        JsonValue::Str(s) => match parse_decimal_text(s.as_str()) {
            Some(q) => Ok(q),
            None => Err(parse_error("Invalid decimal string")),
        },
        _ => Err(parse_error("Unknown decimal format")),
    }
}

/// The three encodings agree: an object with mantissa `m` and `p` places
/// decodes to exactly `m × 10^-p`; a number whose float rust_decimal keeps as
/// that number, and a string rust_decimal reads as that number, at whatever
/// scale, decode to quantities `==` to it.
pub proof fn lemma_encodings_agree(object: JsonValue, number: JsonValue, string: JsonValue, m: i64, p: u32)
    requires
        object is Object,
        field_i64(object, "decimalMantissa"@) == Some(m),
        field_u64(object, "decimalPlaces"@) == Some(p as u64),
        p <= MAX_SCALE,
        number matches JsonValue::Number(n) && float_text_value(n.text@) matches Some((nm, ns)) && same_value(
            Quantity { mantissa: nm, scale: ns },
            Quantity { mantissa: m as i128, scale: p },
        ),
        string matches JsonValue::Str(t) && decimal_text_value(t@) matches Some((sm, ss)) && same_value(
            Quantity { mantissa: sm, scale: ss },
            Quantity { mantissa: m as i128, scale: p },
        ),
    ensures
        quantity_of(object) == Some(Quantity { mantissa: m as i128, scale: p }),
        quantity_of(number) matches Some(q) && same_value(q, Quantity { mantissa: m as i128, scale: p }),
        quantity_of(string) matches Some(q) && same_value(q, Quantity { mantissa: m as i128, scale: p }),
{
}

} // verus!
