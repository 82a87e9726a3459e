//! Batches of trade ticks submitted for storage: which batches and which
//! ticks are accepted, and the messages for those that are not.
use vstd::prelude::*;
use crate::error::RouteError;
use crate::text::{decimal, decimal_seq, str_eq, to_lower, unicode_lower};

verus! {

/// The largest batch accepted.
pub const MAX_TICK_BATCH: usize = 1000;

/// A batch is accepted when it holds between 1 and 1000 ticks.
pub fn check_tick_batch(len: usize) -> (r: Result<(), RouteError>)
    ensures
        r is Ok <==> 0 < len <= MAX_TICK_BATCH,
        len == 0 ==> (r matches Err(RouteError::Validation(m)) && m@ == "ticks must not be empty"@),
        len > MAX_TICK_BATCH ==> (r matches Err(RouteError::Validation(m)) && m@
            == "batch size must not exceed 1000"@),
{
    if len == 0 {
        Err(RouteError::Validation(String::from_str("ticks must not be empty")))
    } else if len > MAX_TICK_BATCH {
        Err(RouteError::Validation(String::from_str("batch size must not exceed 1000")))
    } else {
        Ok(())
    }
}

/// An order-book snapshot is accepted when it has at least one bid and one ask.
pub fn check_orderbook_levels(bids: usize, asks: usize) -> (r: Result<(), RouteError>)
    ensures
        r is Ok <==> bids > 0 && asks > 0,
        r is Err ==> (r matches Err(RouteError::Validation(m)) && m@ == "bids and asks must not be empty"@),
{
    if bids == 0 || asks == 0 {
        Err(RouteError::Validation(String::from_str("bids and asks must not be empty")))
    } else {
        Ok(())
    }
}

/// The exchange an order-book snapshot is stored under: the one given, else `okx`.
pub fn orderbook_exchange(exchange: Option<&str>) -> (r: &str)
    ensures
        r@ == match exchange {
            Some(e) => e@,
            None => "okx"@,
        },
{
    match exchange {
        Some(e) => e,
        None => "okx",
    }
}

/// The message for tick `idx` of a batch: `tick[idx]: ` and the reason.
pub open spec fn tick_message(idx: usize, reason: Seq<char>) -> Seq<char> {
    "tick["@ + decimal_seq(idx as nat) + "]: "@ + reason
}

/// The message for tick `idx` of a batch.
pub fn tick_error(idx: usize, reason: &str) -> (m: String)
    ensures
        m@ == tick_message(idx, reason@),
{
    let mut m = String::from_str("tick[");
    let n = decimal(idx);
    m.append(n.as_str());
    m.append("]: ");
    m.append(reason);
    m
}

/// The stored side of tick `idx`: its side in lower case when the tick's price
/// and size are positive and the side is `buy` or `sell`; otherwise the
/// message that refuses the tick.
pub fn tick_side(idx: usize, price_and_size_positive: bool, side: &str) -> (r: Result<String, String>)
    ensures
        !price_and_size_positive ==> (r matches Err(m) && m@ == tick_message(
            idx,
            "price and size must be positive"@,
        )),
        price_and_size_positive ==> ({
            let lower = unicode_lower(side@);
            if lower == "buy"@ || lower == "sell"@ {
                r matches Ok(s) && s@ == lower
            } else {
                r matches Err(m) && m@ == tick_message(idx, "side must be 'buy' or 'sell'"@)
            }
        }),
{
    if !price_and_size_positive {
        return Err(tick_error(idx, "price and size must be positive"));
    }
    let lower = to_lower(side);
    if !str_eq(lower.as_str(), "buy") && !str_eq(lower.as_str(), "sell") {
        return Err(tick_error(idx, "side must be 'buy' or 'sell'"));
    }
    Ok(lower)
}

} // verus!
