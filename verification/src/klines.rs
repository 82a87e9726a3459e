//! Candle listings: the window a listing query selects and the page it is.
use vstd::prelude::*;

verus! {

/// A candle listing across symbols.
#[derive(Debug)]
pub struct KlineQuery {
    pub symbol: Option<String>,
    pub interval: Option<String>,
    pub limit: Option<i64>,
    pub offset: Option<i64>,
}

/// A candle listing for one symbol.
#[derive(Debug)]
pub struct KlineSymbolQuery {
    pub interval: Option<String>,
    pub limit: Option<i64>,
    pub offset: Option<i64>,
}

/// The rows a listing selects.
#[derive(Debug)]
pub struct KlineWindow {
    pub symbol: String,
    pub interval: String,
    pub limit: i64,
    pub offset: i64,
}

/// At most 2000 rows, 100 by default.
pub open spec fn spec_kline_limit(limit: Option<i64>) -> i64 {
    match limit {
        Some(l) => if l < 2000 {
            l
        } else {
            2000
        },
        None => 100,
    }
}

fn kline_limit(limit: Option<i64>) -> (r: i64)
    ensures
        r == spec_kline_limit(limit),
{
    match limit {
        Some(l) => if l < 2000 {
            l
        } else {
            2000
        },
        None => 100,
    }
}

fn string_or(v: Option<String>, default: &str) -> (r: String)
    ensures
        r@ == match v {
            Some(s) => s@,
            None => default@,
        },
{
    match v {
        Some(s) => s,
        None => String::from_str(default),
    }
}

/// The window a listing selects: the perpetual BTC swap, hourly candles, from
/// the first row, unless the query says otherwise.
pub fn kline_window(q: KlineQuery) -> (w: KlineWindow)
    ensures
        w.symbol@ == match q.symbol {
            Some(s) => s@,
            None => "BTC-USDT-SWAP"@,
        },
        w.interval@ == match q.interval {
            Some(s) => s@,
            None => "1H"@,
        },
        w.limit == spec_kline_limit(q.limit),
        w.offset == match q.offset {
            Some(o) => o,
            None => 0,
        },
{
    KlineWindow {
        symbol: string_or(q.symbol, "BTC-USDT-SWAP"),
        interval: string_or(q.interval, "1H"),
        limit: kline_limit(q.limit),
        offset: match q.offset {
            Some(o) => o,
            None => 0,
        },
    }
}

/// The window a one-symbol listing selects: hourly candles, from the first row,
/// unless the query says otherwise.
pub fn kline_symbol_window(symbol: String, q: KlineSymbolQuery) -> (w: KlineWindow)
    ensures
        w.symbol@ == symbol@,
        w.interval@ == match q.interval {
            Some(s) => s@,
            None => "1H"@,
        },
        w.limit == spec_kline_limit(q.limit),
        w.offset == match q.offset {
            Some(o) => o,
            None => 0,
        },
{
    KlineWindow {
        symbol,
        interval: string_or(q.interval, "1H"),
        limit: kline_limit(q.limit),
        offset: match q.offset {
            Some(o) => o,
            None => 0,
        },
    }
}

/// `a / b` rounded toward zero, as integer division does.
pub open spec fn trunc_div(a: int, b: int) -> int {
    if a >= 0 {
        a / b
    } else {
        -((-a) / b)
    }
}

/// The page a window starts on: the offset in whole pages (of at least one
/// row), cut to 32 bits, plus one.
pub open spec fn spec_page(offset: i64, limit: i64) -> int {
    (trunc_div(offset as int, if limit < 1 { 1 } else { limit as int }) as i32) + 1
}

/// The page a window starts on.
pub fn kline_page(offset: i64, limit: i64) -> (p: i32)
    requires
        (trunc_div(offset as int, if limit < 1 { 1 } else { limit as int }) as i32) < i32::MAX,
    ensures
        p == spec_page(offset, limit),
{
    let per_page: i64 = if limit < 1 { 1 } else { limit };
    let q: i64 = offset / per_page;
    assert(q == trunc_div(offset as int, per_page as int));
    (#[verifier::truncate] (q as i32)) + 1
}

} // verus!
