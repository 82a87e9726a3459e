//! Orders sent to the exchange: how the app's wording maps onto OKX's, and
//! which stop-loss / take-profit order a request places.
use vstd::prelude::*;
use crate::error::RouteError;
use crate::text::{from_chars, slice_chars, str_eq, to_chars, to_lower, unicode_lower};

verus! {

/// The exchange side that opens a position: `long` buys, `short` sells, any
/// other word is passed on unchanged.
pub open spec fn spec_okx_side(side: Seq<char>) -> Seq<char> {
    if side == "long"@ {
        "buy"@
    } else if side == "short"@ {
        "sell"@
    } else {
        side
    }
}

/// The exchange side for an order that opens `side`.
pub fn okx_side(side: &str) -> (r: &str)
    ensures
        r@ == spec_okx_side(side@),
{
    proof {
        reveal_strlit("buy");
        reveal_strlit("sell");
    }
    if str_eq(side, "long") {
        "buy"
    } else if str_eq(side, "short") {
        "sell"
    } else {
        side
    }
}

/// An order the exchange answered with a non-zero code was refused; its
/// message is passed on.
pub fn check_order_code(s_code: &str, s_msg: &str) -> (r: Result<(), RouteError>)
    ensures
        r is Ok <==> (s_code@.len() == 0 || s_code@ == "0"@),
        r matches Err(e) ==> (e matches RouteError::ExternalApi { service, message }
            && service@ == "OKX"@ && message@ == s_msg@),
{
    if !s_code.is_empty() && !str_eq(s_code, "0") {
        Err(RouteError::ExternalApi { service: String::from_str("OKX"), message: String::from_str(s_msg) })
    } else {
        Ok(())
    }
}

/// The error for an order reference without a `:`.
pub open spec fn bad_order_ref_message() -> Seq<char> {
    "订单 ID 格式错误，应为 inst_id:ord_id"@
}

/// Splits an order reference `inst_id:ord_id` at its first `:`; the order
/// identifier keeps any later `:`.
pub fn split_order_ref(order_ref: &str) -> (r: Result<(String, String), RouteError>)
    ensures
        match r {
            Ok((inst, ord)) => exists|i: int|
                0 <= i < order_ref@.len() && order_ref@[i] == ':' && (forall|j: int|
                    0 <= j < i ==> order_ref@[j] != ':') && inst@ == order_ref@.take(i) && ord@
                    == order_ref@.skip(i + 1),
            Err(e) => (forall|i: int| 0 <= i < order_ref@.len() ==> order_ref@[i] != ':') && (e matches RouteError::Validation(
                m,
            ) && m@ == bad_order_ref_message()),
        },
{
    let v = to_chars(order_ref);
    let mut i: usize = 0;
    while i < v.len()
        invariant
            v@ == order_ref@,
            i <= v.len(),
            forall|j: int| 0 <= j < i ==> v@[j] != ':',
        decreases v.len() - i,
    {
        if v[i] == ':' {
            let inst = from_chars(&slice_chars(&v, 0, i));
            let ord = from_chars(&slice_chars(&v, i + 1, v.len()));
            assert(v@.subrange(0, i as int) =~= order_ref@.take(i as int));
            assert(v@.subrange(i + 1, v@.len() as int) =~= order_ref@.skip(i + 1));
            return Ok((inst, ord));
        }
        i = i + 1;
    }
    Err(RouteError::Validation(String::from_str("订单 ID 格式错误，应为 inst_id:ord_id")))
}

/// A stop-loss / take-profit order to place on an open position.
#[derive(Debug)]
pub struct AlgoPlan {
    /// The side that closes the position.
    pub close_side: &'static str,
    /// `oco` when both levels are set, `conditional` for one.
    pub ord_type: &'static str,
    pub with_stop_loss: bool,
    pub with_take_profit: bool,
}

/// The side that closes a position: a long is closed by selling, a short by
/// buying, anything else by selling.
pub open spec fn spec_close_side(side: Seq<char>) -> Seq<char> {
    if side == "short"@ {
        "buy"@
    } else {
        "sell"@
    }
}

/// The order that protects a position on `side` with the given levels: both
/// levels make one-cancels-the-other, one level a conditional order, none an
/// error.
pub fn plan_sl_tp(side: &str, has_stop_loss: bool, has_take_profit: bool) -> (r: Result<
    AlgoPlan,
    RouteError,
>)
    ensures
        match r {
            Ok(p) => {
                &&& (has_stop_loss || has_take_profit)
                &&& p.close_side@ == spec_close_side(side@)
                &&& p.ord_type@ == if has_stop_loss && has_take_profit {
                    "oco"@
                } else {
                    "conditional"@
                }
                &&& p.with_stop_loss == has_stop_loss
                &&& p.with_take_profit == has_take_profit
            },
            Err(e) => !has_stop_loss && !has_take_profit && (e matches RouteError::Validation(m)
                && m@ == "止损价和止盈价至少填写一个"@),
        },
{
    if !has_stop_loss && !has_take_profit {
        return Err(RouteError::Validation(String::from_str("止损价和止盈价至少填写一个")));
    }
    proof {
        reveal_strlit("long");
        reveal_strlit("short");
        assert("long"@.len() != "short"@.len());
    }
    let close_side = if str_eq(side, "long") {
        "sell"
    } else if str_eq(side, "short") {
        "buy"
    } else {
        "sell"
    };
    let ord_type = if has_stop_loss && has_take_profit {
        "oco"
    } else {
        "conditional"
    };
    Ok(AlgoPlan { close_side, ord_type, with_stop_loss: has_stop_loss, with_take_profit: has_take_profit })
}

/// The position side to send: none for a missing or empty one.
pub fn pos_side_param(pos_side: Option<&str>) -> (r: Option<&str>)
    ensures
        match pos_side {
            Some(s) => if s@.len() > 0 {
                r == Some(s)
            } else {
                r is None
            },
            None => r is None,
        },
{
    match pos_side {
        Some(s) => if s.is_empty() {
            None
        } else {
            Some(s)
        },
        None => None,
    }
}

/// The sides of a simulated order.
#[derive(PartialEq, Eq, Structural, Clone, Copy, Debug)]
pub enum OrderSide {
    Buy,
    Sell,
}

/// The side of a simulated order for an already lower-cased word: `long` and
/// `buy` buy, `short` and `sell` sell, anything else is refused.
pub fn paper_side_from_lower(lower: &str) -> (r: Result<OrderSide, RouteError>)
    ensures
        (lower@ == "long"@ || lower@ == "buy"@) ==> r == Ok::<OrderSide, RouteError>(OrderSide::Buy),
        (lower@ == "short"@ || lower@ == "sell"@) ==> r == Ok::<OrderSide, RouteError>(OrderSide::Sell),
        !(lower@ == "long"@ || lower@ == "buy"@ || lower@ == "short"@ || lower@ == "sell"@) ==> (r matches Err(
            RouteError::Validation(m),
        ) && m@ == "Invalid side: "@ + lower@),
{
    proof {
        reveal_strlit("long");
        reveal_strlit("buy");
        reveal_strlit("short");
        reveal_strlit("sell");
        assert("long"@.len() != "short"@.len());
        assert("buy"@.len() != "short"@.len());
        assert("long"@[0] != "sell"@[0]);
        assert("buy"@.len() != "sell"@.len());
    }
    if str_eq(lower, "long") || str_eq(lower, "buy") {
        Ok(OrderSide::Buy)
    } else if str_eq(lower, "short") || str_eq(lower, "sell") {
        Ok(OrderSide::Sell)
    } else {
        let mut m = String::from_str("Invalid side: ");
        m.append(lower);
        Err(RouteError::Validation(m))
    }
}

/// The side of a simulated order, read in lower case.
pub fn paper_order_side(side: &str) -> (r: Result<OrderSide, RouteError>)
    ensures
        ({
            let lower = unicode_lower(side@);
            &&& (lower == "long"@ || lower == "buy"@) ==> r == Ok::<OrderSide, RouteError>(OrderSide::Buy)
            &&& (lower == "short"@ || lower == "sell"@) ==> r == Ok::<OrderSide, RouteError>(
                OrderSide::Sell,
            )
            &&& !(lower == "long"@ || lower == "buy"@ || lower == "short"@ || lower == "sell"@) ==> (r matches Err(
                RouteError::Validation(m),
            ) && m@ == "Invalid side: "@ + lower)
        }),
{
    let lower = to_lower(side);
    paper_side_from_lower(lower.as_str())
}

} // verus!

verus! {

/// For a long or a short position, the order that opens it and the order
/// that closes it go opposite ways, each a buy or a sell; and opening a long
/// and opening a short are opposite orders.
pub proof fn opening_and_closing_sides_are_opposite(side: Seq<char>)
    requires
        side == "long"@ || side == "short"@,
    ensures
        spec_okx_side(side) == "buy"@ || spec_okx_side(side) == "sell"@,
        spec_close_side(side) == "buy"@ || spec_close_side(side) == "sell"@,
        spec_okx_side(side) != spec_close_side(side),
        spec_okx_side("long"@) != spec_okx_side("short"@),
{
    reveal_strlit("long");
    reveal_strlit("short");
    reveal_strlit("buy");
    reveal_strlit("sell");
    assert("long"@ != "short"@) by {
        assert("long"@[0] != "short"@[0]);
    }
    assert("buy"@ != "sell"@) by {
        assert("buy"@.len() != "sell"@.len());
    }
}

} // verus!
