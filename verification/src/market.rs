//! Small readings of exchange data: the base currency of an instrument and
//! the seconds of an OKX millisecond timestamp.
use vstd::prelude::*;
use crate::replies::{parse_i64_text, std_parse_i64};
use crate::text::{from_chars, slice_chars, to_chars};
use crate::klines::trunc_div;

verus! {

/// The base currency of an instrument: its text up to the first `-` (all of
/// it when there is none), e.g. `DOGE` for `DOGE-USDT-SWAP`.
pub open spec fn spec_base_currency(symbol: Seq<char>) -> Seq<char> {
    if exists|i: int| 0 <= i < symbol.len() && symbol[i] == '-' {
        symbol.take(choose|i: int| 0 <= i < symbol.len() && symbol[i] == '-' && forall|j: int| 0 <= j < i ==> symbol[j] != '-')
    } else {
        symbol
    }
}

/// The base currency of an instrument.
pub fn base_currency(symbol: &str) -> (r: String)
    ensures
        r@ == spec_base_currency(symbol@),
{
    let v = to_chars(symbol);
    let mut i: usize = 0;
    while i < v.len()
        invariant
            v@ == symbol@,
            i <= v.len(),
            forall|j: int| 0 <= j < i ==> v@[j] != '-',
        decreases v.len() - i,
    {
        if v[i] == '-' {
            proof {
                let w = choose|k: int| 0 <= k < symbol@.len() && symbol@[k] == '-' && forall|j: int| 0 <= j < k ==> symbol@[j] != '-';
                assert(0 <= i < symbol@.len() && symbol@[i as int] == '-' && forall|j: int| 0 <= j < i ==> symbol@[j] != '-');
                if w < i {
                    assert(symbol@[w] == '-');
                } else if w > i {
                    assert(symbol@[i as int] != '-');
                }
                assert(w == i);
            }
            let head = slice_chars(&v, 0, i);
            assert(head@ =~= symbol@.take(i as int));
            return from_chars(&head);
        }
        i = i + 1;
    }
    assert(v@.subrange(0, v@.len() as int) =~= v@);
    from_chars(&slice_chars(&v, 0, v.len()))
}

/// The seconds of an OKX timestamp in milliseconds (rounded toward zero);
/// 0 when it is missing or not an integer.
pub open spec fn spec_okx_seconds(ts: Option<Seq<char>>) -> i64 {
    let ms: i64 = match ts {
        Some(t) => match std_parse_i64(t) {
            Some(x) => x,
            None => 0,
        },
        None => 0,
    };
    trunc_div(ms as int, 1000) as i64
}

/// The seconds of an OKX timestamp in milliseconds.
pub fn okx_seconds(ts: Option<&str>) -> (s: i64)
    ensures
        s == spec_okx_seconds(
            match ts {
                Some(t) => Some(t@),
                None => None,
            },
        ),
{
    let ms: i64 = match ts {
        Some(t) => match parse_i64_text(t) {
            Some(x) => x,
            None => 0,
        },
        None => 0,
    };
    ms / 1000
}

} // verus!
