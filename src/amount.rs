//! Commodity amounts, with the conversion price some of them carry.

use crate::error::HLedgerError;
use crate::json::{glue, lemma_parse_each_start, lemma_parse_each_step, parse_each, text_or, JsonValue};
use crate::quantity::{parse_decimal_from_json, quantity_of, Quantity};
use vstd::prelude::*;

verus! {

/// A unit conversion rate attached to an amount.
#[derive(Clone, Debug)]
pub struct Price {
    pub commodity: String,
    pub quantity: Quantity,
}

/// A quantity of one commodity, perhaps with the price it was converted at.
#[derive(Clone, Debug)]
pub struct Amount {
    pub commodity: String,
    pub quantity: Quantity,
    pub price: Option<Price>,
}

pub struct PriceView {
    pub commodity: Seq<char>,
    pub quantity: Quantity,
}

pub struct AmountView {
    pub commodity: Seq<char>,
    pub quantity: Quantity,
    pub price: Option<PriceView>,
}

impl View for Price {
    type V = PriceView;

    open spec fn view(&self) -> PriceView {
        PriceView { commodity: self.commodity@, quantity: self.quantity }
    }
}

impl View for Amount {
    type V = AmountView;

    open spec fn view(&self) -> AmountView {
        AmountView {
            commodity: self.commodity@,
            quantity: self.quantity,
            price: match self.price {
                Some(p) => Some(p@),
                None => None,
            },
        }
    }
}

pub open spec fn amounts_view(s: Seq<Amount>) -> Seq<AmountView> {
    s.map_values(|a: Amount| a@)
}

/// The commodity (empty when absent) and quantity (zero when absent) of an
/// amount object; nothing when the quantity is there but encodes none.
pub open spec fn commodity_quantity(v: JsonValue) -> Option<PriceView> {
    let commodity = text_or(v, "acommodity"@, ""@);
    match v.field("aquantity"@) {
        Some(q) => match quantity_of(q) {
            Some(q) => Some(PriceView { commodity, quantity: q }),
            None => None,
        },
        None => Some(PriceView { commodity, quantity: Quantity { mantissa: 0, scale: 0 } }),
    }
}

/// The price of an amount: the object under `contents` of a tagged price,
/// else the object under a legacy `priceAmount`, else none. The outer
/// `None` is a quantity that encodes nothing.
pub open spec fn price_of(v: JsonValue) -> Option<Option<PriceView>> {
    match v.field("contents"@) {
        Some(c) if c is Object => match commodity_quantity(c) {
            Some(p) => Some(Some(p)),
            None => None,
        },
        _ => match v.field("priceAmount"@) {
            Some(c) if c is Object => match commodity_quantity(c) {
                Some(p) => Some(Some(p)),
                None => None,
            },
            _ => Some(None),
        },
    }
}

/// The amount an amount object describes.
pub open spec fn amount_of(v: JsonValue) -> Option<AmountView> {
    match commodity_quantity(v) {
        Some(cq) => {
            let price = match v.field("aprice"@) {
                Some(p) => price_of(p),
                None => Some(None),
            };
            match price {
                Some(price) => Some(
                    AmountView { commodity: cq.commodity, quantity: cq.quantity, price },
                ),
                None => None,
            }
        },
        None => None,
    }
}

/// An item of an amount list: objects are amounts, anything else is skipped.
pub open spec fn amount_item(v: JsonValue) -> Option<Option<AmountView>> {
    if v is Object {
        match amount_of(v) {
            Some(a) => Some(Some(a)),
            None => None,
        }
    } else {
        Some(None)
    }
}

pub open spec fn amount_items() -> spec_fn(JsonValue) -> Option<Option<AmountView>> {
    |x: JsonValue| amount_item(x)
}

/// The amounts of a JSON array of amount objects; a value that is no array
/// holds none.
pub open spec fn amounts_of(v: JsonValue) -> Option<Seq<AmountView>> {
    match v.array_view() {
        Some(items) => parse_each(items, amount_items()),
        None => Some(Seq::empty()),
    }
}

fn parse_commodity_quantity(v: &JsonValue) -> (r: Result<Price, HLedgerError>)
    ensures
        r is Ok == commodity_quantity(*v) is Some,
        r matches Ok(p) ==> commodity_quantity(*v) == Some(p@) && p.quantity.wf(),
        r matches Err(e) ==> e is ParseError,
{
    let commodity = v.text_or("acommodity", "");
    let quantity = match v.get("aquantity") {
        Some(q) => parse_decimal_from_json(q)?,
        None => Quantity::zero(),
    };
    Ok(Price { commodity, quantity })
}

/// Reads the price of an amount, trying the tagged form, then the legacy one;
/// any other shape is no price.
pub fn parse_price(value: &JsonValue) -> (r: Result<Option<Price>, HLedgerError>)
    ensures
        r is Ok == price_of(*value) is Some,
        r matches Ok(p) ==> price_of(*value) == Some(
            match p {
                Some(p) => Some(p@),
                None => None,
            },
        ),
        r matches Err(e) ==> e is ParseError,
{
    if let Some(c) = value.get("contents") {
        if c.is_object() {
            return Ok(Some(parse_commodity_quantity(c)?));
        }
    }
    if let Some(c) = value.get("priceAmount") {
        if c.is_object() {
            return Ok(Some(parse_commodity_quantity(c)?));
        }
    }
    Ok(None)
}

/// Reads one amount object.
pub fn parse_amount(value: &JsonValue) -> (r: Result<Amount, HLedgerError>)
    ensures
        r is Ok == amount_of(*value) is Some,
        r matches Ok(a) ==> amount_of(*value) == Some(a@),
        r matches Err(e) ==> e is ParseError,
{
    let cq = parse_commodity_quantity(value)?;
    let price = match value.get("aprice") {
        Some(p) => parse_price(p)?,
        None => None,
    };
    Ok(Amount { commodity: cq.commodity, quantity: cq.quantity, price })
}

/// Reads a list of amounts; items that are not objects are skipped, and a
/// value that is no array is an empty list.
pub fn parse_amounts(value: &JsonValue) -> (r: Result<Vec<Amount>, HLedgerError>)
    ensures
        r is Ok == amounts_of(*value) is Some,
        r matches Ok(a) ==> amounts_of(*value) == Some(amounts_view(a@)),
        r matches Err(e) ==> e is ParseError,
{
    let mut out: Vec<Amount> = Vec::new();
    if let Some(items) = value.as_array() {
        let ghost f = amount_items();
        proof {
            lemma_parse_each_start(items@, f);
        }
        let mut i: usize = 0;
        while i < items.len()
            invariant
                i <= items.len(),
                f == amount_items(),
                value.array_view() == Some(items@),
                glue(amounts_view(out@), parse_each(items@.skip(i as int), f)) == parse_each(items@, f),
                parse_each(items@.skip(items.len() as int), f) == Some(Seq::<AmountView>::empty()),
            decreases items.len() - i,
        {
            let item = &items[i];
            proof {
                lemma_parse_each_step(items@, f, i as int, amounts_view(out@));
            }
            if item.is_object() {
                let a = parse_amount(item)?;
                let ghost old_out = out@;
                out.push(a);
                assert(amounts_view(out@) =~= amounts_view(old_out).push(a@));
            }
            i = i + 1;
        }
        assert(amounts_view(out@) + Seq::<AmountView>::empty() =~= amounts_view(out@));
    }
    Ok(out)
}

} // verus!
