//! Reading the JSON replies of the language model: the fields each kind of
//! analyst reports, with the defaults used when a field is missing.
use vstd::prelude::*;
use crate::json::{is_str, lookup, member, parse_json, parsed_json, str_of, JsonValue};
use crate::text::{
    from_chars, to_chars, trim_chars, trim_end_matches_chars, trim_end_matches_seq,
    trim_seq, trim_start_matches_chars, trim_start_matches_seq,
};

verus! {

/// A reply with its code fence taken off: trimmed, without leading ```` ```json ````
/// and ```` ``` ```` fences and trailing ```` ``` ```` fences, trimmed again.
pub open spec fn spec_clean_reply(response: Seq<char>) -> Seq<char> {
    trim_seq(
        trim_end_matches_seq(
            trim_start_matches_seq(trim_start_matches_seq(trim_seq(response), "```json"@), "```"@),
            "```"@,
        ),
    )
}

/// The JSON text inside a model reply, with its code fence taken off.
pub fn clean_reply(response: &str) -> (r: String)
    ensures
        r@ == spec_clean_reply(response@),
{
    let v = to_chars(response);
    let t = trim_chars(&v);
    let a = trim_start_matches_chars(&t, "```json");
    let b = trim_start_matches_chars(&a, "```");
    let c = trim_end_matches_chars(&b, "```");
    let d = trim_chars(&c);
    from_chars(&d)
}

/// Where a reported confidence comes from; the number itself is read from the
/// text of the JSON literal by the caller.
#[derive(Debug)]
pub enum Confidence {
    /// The reply gave this number (the text of its JSON literal).
    Reported(String),
    /// The reply was JSON without a numeric confidence: 0.5.
    Missing,
    /// The reply was not JSON, or the call failed: 0.3.
    Low,
    /// Decided by majority when the model was unavailable: 0.4.
    Majority,
}

/// The confidence a parsed reply carries in `key`.
pub open spec fn spec_confidence(json: JsonValue, key: Seq<char>) -> Confidence {
    match member(json, key) {
        Some(JsonValue::Number(n)) => Confidence::Reported(n),
        _ => Confidence::Missing,
    }
}

/// The member `key` as a string, or `default`.
pub open spec fn str_or(json: JsonValue, key: Seq<char>, default: Seq<char>) -> Seq<char> {
    match str_of(member(json, key)) {
        Some(s) => s,
        None => default,
    }
}

/// The strings among `items`, in order (other values are skipped).
pub open spec fn strings_in(items: Seq<JsonValue>) -> Seq<Seq<char>>
    decreases items.len(),
{
    if items.len() == 0 {
        Seq::empty()
    } else {
        let rest = strings_in(items.drop_last());
        match items.last() {
            JsonValue::Str(s) => rest.push(s@),
            _ => rest,
        }
    }
}

/// The strings of the array in member `key`; none when it is not an array.
pub open spec fn string_list(json: JsonValue, key: Seq<char>) -> Seq<Seq<char>> {
    match member(json, key) {
        Some(JsonValue::Array(items)) => strings_in(items@),
        _ => Seq::empty(),
    }
}

/// The member `key` of `json` as an owned string, or `default`.
pub fn get_str_or(json: &JsonValue, key: &str, default: &str) -> (r: String)
    ensures
        r@ == str_or(*json, key@, default@),
{
    match json.get(key) {
        Some(v) => match v.as_str() {
            Some(s) => String::from_str(s),
            None => String::from_str(default),
        },
        None => String::from_str(default),
    }
}

/// The confidence reported in member `key` of `json`.
pub fn get_confidence(json: &JsonValue, key: &str) -> (r: Confidence)
    ensures
        r == spec_confidence(*json, key@),
{
    match json.get(key) {
        Some(JsonValue::Number(n)) => Confidence::Reported(n.clone()),
        _ => Confidence::Missing,
    }
}

/// The strings of the array in member `key` of `json`.
pub fn get_string_list(json: &JsonValue, key: &str) -> (r: Vec<String>)
    ensures
        r.deep_view() == string_list(*json, key@),
{
    let mut out: Vec<String> = Vec::new();
    match json.get(key) {
        Some(JsonValue::Array(items)) => {
            let mut i: usize = 0;
            assert(out.deep_view() =~= strings_in(items@.take(0)));
            while i < items.len()
                invariant
                    i <= items.len(),
                    out.deep_view() == strings_in(items@.take(i as int)),
                decreases items.len() - i,
            {
                assert(items@.take(i + 1).drop_last() =~= items@.take(i as int));
                match &items[i] {
                    JsonValue::Str(s) => {
                        let ghost before = out.deep_view();
                        out.push(s.clone());
                        assert(out.deep_view() =~= before.push(s@));
                    },
                    _ => {},
                }
                i = i + 1;
            }
            assert(items@.take(i as int) =~= items@);
            out
        },
        _ => {
            assert(out.deep_view() =~= Seq::<Seq<char>>::empty());
            out
        },
    }
}

} // verus!

verus! {

/// Every character of `s` is an ASCII digit, and there is at least one.
pub open spec fn all_digits(s: Seq<char>) -> bool {
    s.len() > 0 && forall|i: int| 0 <= i < s.len() ==> '0' <= #[trigger] s[i] <= '9'
}

/// The value of a string of decimal digits.
pub open spec fn digits_value(s: Seq<char>) -> int
    decreases s.len(),
{
    if s.len() == 0 {
        0
    } else {
        digits_value(s.drop_last()) * 10 + (s.last() as int - '0' as int)
    }
}

/// The integer that a JSON number literal writes, when it is written as an
/// integer (an optional `-` and digits).
pub open spec fn integer_literal(s: Seq<char>) -> Option<int> {
    if all_digits(s) {
        Some(digits_value(s))
    } else if s.len() > 1 && s[0] == '-' && all_digits(s.drop_first()) {
        Some(-digits_value(s.drop_first()))
    } else {
        None
    }
}

/// What `serde_json::Value::as_i64` gives for a number with this literal: its
/// value when it is an integer that fits in an `i64`.
pub open spec fn literal_as_i64(s: Seq<char>) -> Option<i64> {
    match integer_literal(s) {
        Some(v) => if i64::MIN <= v <= i64::MAX {
            Some(v as i64)
        } else {
            None
        },
        None => None,
    }
}

proof fn lemma_digits_value_nonneg(s: Seq<char>)
    requires
        forall|i: int| 0 <= i < s.len() ==> '0' <= #[trigger] s[i] <= '9',
    ensures
        digits_value(s) >= 0,
    decreases s.len(),
{
    if s.len() > 0 {
        lemma_digits_value_nonneg(s.drop_last());
    }
}

/// A longer string of digits is worth at least as much as its prefix.
proof fn lemma_digits_value_prefix(s: Seq<char>, k: int)
    requires
        0 <= k <= s.len(),
        forall|i: int| 0 <= i < s.len() ==> '0' <= #[trigger] s[i] <= '9',
    ensures
        digits_value(s.take(k)) <= digits_value(s),
    decreases s.len() - k,
{
    if k < s.len() {
        lemma_digits_value_prefix(s, k + 1);
        assert(s.take(k + 1).drop_last() =~= s.take(k));
        lemma_digits_value_nonneg(s.take(k));
    }
    else {
        assert(s.take(k) =~= s);
    }
}

/// The value of the digits `s[start..]`, when each is a digit and the value is
/// at most `2^63`.
fn digits_up_to_2_63(v: &Vec<char>, start: usize) -> (r: Option<i128>)
    requires
        start <= v.len(),
    ensures
        match r {
            Some(x) => all_digits(v@.subrange(start as int, v.len() as int)) && x == digits_value(
                v@.subrange(start as int, v.len() as int),
            ) && 0 <= x <= 0x8000_0000_0000_0000,
            None => !all_digits(v@.subrange(start as int, v.len() as int)) || digits_value(
                v@.subrange(start as int, v.len() as int),
            ) > 0x8000_0000_0000_0000,
        },
{
    if start >= v.len() {
        return None;
    }
    let ghost s = v@.subrange(start as int, v.len() as int);
    let mut acc: i128 = 0;
    let mut i: usize = start;
    while i < v.len()
        invariant
            start <= i <= v.len(),
            s == v@.subrange(start as int, v.len() as int),
            forall|k: int| start <= k < i ==> '0' <= #[trigger] v@[k] <= '9',
            acc == digits_value(v@.subrange(start as int, i as int)),
            0 <= acc <= 0x8000_0000_0000_0000,
        decreases v.len() - i,
    {
        let c = v[i];
        assert(v@.subrange(start as int, i + 1).drop_last() =~= v@.subrange(start as int, i as int));
        if c < '0' || c > '9' {
            assert(s[i - start] == c);
            return None;
        }
        let d: i128 = (c as u32 - '0' as u32) as i128;
        let next = acc * 10 + d;
        if next > 0x8000_0000_0000_0000 {
            proof {
                assert(s.take(i + 1 - start) =~= v@.subrange(start as int, i + 1));
                if all_digits(s) {
                    lemma_digits_value_prefix(s, i + 1 - start);
                }
            }
            return None;
        }
        acc = next;
        i = i + 1;
    }
    Some(acc)
}

} // verus!

verus! {

/// The integer a JSON number literal holds, as `serde_json::Value::as_i64`
/// reads it: `None` for a fraction, an exponent or a value outside `i64`.
pub fn literal_to_i64(text: &str) -> (r: Option<i64>)
    ensures
        r == literal_as_i64(text@),
{
    let v = to_chars(text);
    assert(v@.subrange(0, v@.len() as int) =~= v@);
    if v.len() > 0 && v[0] == '-' {
        assert(v@.subrange(1, v@.len() as int) =~= v@.drop_first());
        assert(!all_digits(v@));
        match digits_up_to_2_63(&v, 1) {
            Some(x) => {
                let n: i128 = -x;
                Some(n as i64)
            },
            None => None,
        }
    } else {
        match digits_up_to_2_63(&v, 0) {
            Some(x) => {
                if x <= 0x7fff_ffff_ffff_ffff {
                    Some(x as i64)
                } else {
                    None
                }
            },
            None => {
                proof {
                    if v@.len() > 1 && v@[0] == '-' {
                    }
                }
                None
            },
        }
    }
}

} // verus!

verus! {

/// The fields an analyst's reply gives: read from the JSON when it parsed,
/// else a neutral opinion whose analysis is the raw reply.
pub open spec fn agent_fields(
    sentiment: Seq<char>,
    confidence: Confidence,
    analysis: Seq<char>,
    key_factors: Seq<Seq<char>>,
    response: Seq<char>,
    json: Option<JsonValue>,
) -> bool {
    match json {
        Some(v) => {
            &&& sentiment == str_or(v, "sentiment"@, "neutral"@)
            &&& confidence == spec_confidence(v, "confidence"@)
            &&& analysis == str_or(v, "analysis"@, "分析结果解析失败"@)
            &&& key_factors == string_list(v, "key_factors"@)
        },
        None => {
            &&& sentiment == "neutral"@
            &&& confidence == Confidence::Low
            &&& analysis == response
            &&& key_factors == Seq::<Seq<char>>::empty()
        },
    }
}

/// The fields a department summary gives: read from the JSON when it parsed,
/// else a neutral summary with empty texts.
pub open spec fn dept_fields(
    consensus: Seq<char>,
    bull_summary: Seq<char>,
    bear_summary: Seq<char>,
    json: Option<JsonValue>,
) -> bool {
    match json {
        Some(v) => {
            &&& consensus == str_or(v, "consensus"@, "neutral"@)
            &&& bull_summary == str_or(v, "bull_summary"@, ""@)
            &&& bear_summary == str_or(v, "bear_summary"@, ""@)
        },
        None => {
            &&& consensus == "neutral"@
            &&& bull_summary == Seq::<char>::empty()
            &&& bear_summary == Seq::<char>::empty()
        },
    }
}

/// What an analyst's reply says.
#[derive(Debug)]
pub struct AgentParsed {
    pub sentiment: String,
    pub confidence: Confidence,
    pub analysis: String,
    pub key_factors: Vec<String>,
}

/// Reads an analyst's reply from `json`, the reply's cleaned text parsed as
/// JSON (`None` when it is not JSON; then the raw reply is kept as the analysis).
pub fn agent_reply_from_json(response: &str, json: &Option<JsonValue>) -> (r: AgentParsed)
    ensures
        agent_fields(
            r.sentiment@,
            r.confidence,
            r.analysis@,
            r.key_factors.deep_view(),
            response@,
            *json,
        ),
{
    match json {
        Some(v) => AgentParsed {
            sentiment: get_str_or(v, "sentiment", "neutral"),
            confidence: get_confidence(v, "confidence"),
            analysis: get_str_or(v, "analysis", "分析结果解析失败"),
            key_factors: get_string_list(v, "key_factors"),
        },
        None => {
            let key_factors: Vec<String> = Vec::new();
            assert(key_factors.deep_view() =~= Seq::<Seq<char>>::empty());
            AgentParsed {
                sentiment: String::from_str("neutral"),
                confidence: Confidence::Low,
                analysis: String::from_str(response),
                key_factors,
            }
        },
    }
}

/// What a department's summary reply says.
#[derive(Debug)]
pub struct DeptReportParsed {
    pub consensus: String,
    pub bull_summary: String,
    pub bear_summary: String,
}

/// Reads a department summary reply from its parsed JSON (`json` as for
/// `agent_reply_from_json`).
pub fn dept_report_from_json(json: &Option<JsonValue>) -> (r: DeptReportParsed)
    ensures
        dept_fields(r.consensus@, r.bull_summary@, r.bear_summary@, *json),
{
    match json {
        Some(v) => DeptReportParsed {
            consensus: get_str_or(v, "consensus", "neutral"),
            bull_summary: get_str_or(v, "bull_summary", ""),
            bear_summary: get_str_or(v, "bear_summary", ""),
        },
        None => DeptReportParsed {
            consensus: String::from_str("neutral"),
            bull_summary: String::new(),
            bear_summary: String::new(),
        },
    }
}

/// What the fund manager's reply decides. Prices stay the text of their JSON
/// literals; `None` stands for the default that the current price gives.
#[derive(Debug)]
pub struct FundManagerParsed {
    pub action: String,
    pub confidence: Confidence,
    /// The reported entry range; by default 1% around the current price.
    pub entry_range: Option<JsonValue>,
    /// The reported stop loss; by default 3% below the current price.
    pub stop_loss: Option<String>,
    /// The reported take-profit levels; by default 3% and 5% above the price.
    pub take_profit: Option<Vec<String>>,
    pub leverage: i32,
    pub reasoning: String,
}

/// The number literal in member `key`, when it is a number.
pub open spec fn number_text(json: JsonValue, key: Seq<char>) -> Option<Seq<char>> {
    match member(json, key) {
        Some(JsonValue::Number(n)) => Some(n@),
        _ => None,
    }
}

/// The number literals of `items`, in order (other values are skipped).
pub open spec fn numbers_in(items: Seq<JsonValue>) -> Seq<Seq<char>>
    decreases items.len(),
{
    if items.len() == 0 {
        Seq::empty()
    } else {
        let rest = numbers_in(items.drop_last());
        match items.last() {
            JsonValue::Number(n) => rest.push(n@),
            _ => rest,
        }
    }
}

/// The leverage a reply asks for: its integer `leverage` cut to 32 bits as
/// `as i32` does, 2 when it has none.
pub open spec fn spec_leverage(json: JsonValue) -> i32 {
    int_member_or_two(json, "leverage"@)
}

/// The integer member `key` cut to 32 bits as `as i32` does, 2 when there is
/// none.
pub open spec fn int_member_or_two(json: JsonValue, key: Seq<char>) -> i32 {
    match number_text(json, key) {
        Some(t) => match literal_as_i64(t) {
            Some(x) => x as i32,
            None => 2,
        },
        None => 2,
    }
}

fn get_number_list(items: &Vec<JsonValue>) -> (r: Vec<String>)
    ensures
        r.deep_view() == numbers_in(items@),
{
    let mut out: Vec<String> = Vec::new();
    let mut i: usize = 0;
    assert(out.deep_view() =~= numbers_in(items@.take(0)));
    while i < items.len()
        invariant
            i <= items.len(),
            out.deep_view() == numbers_in(items@.take(i as int)),
        decreases items.len() - i,
    {
        assert(items@.take(i + 1).drop_last() =~= items@.take(i as int));
        match &items[i] {
            JsonValue::Number(n) => {
                let ghost before = out.deep_view();
                out.push(n.clone());
                assert(out.deep_view() =~= before.push(n@));
            },
            _ => {},
        }
        i = i + 1;
    }
    assert(items@.take(i as int) =~= items@);
    out
}

/// The decision a fund manager's reply gives: read from the JSON when it
/// parsed, else `hold` with the raw reply as reasoning and default levels.
pub open spec fn fund_fields(r: FundManagerParsed, response: Seq<char>, json: Option<JsonValue>) -> bool {
        match json {
            Some(v) => {
                &&& r.action@ == str_or(v, "action"@, "hold"@)
                &&& r.confidence == spec_confidence(v, "confidence"@)
                &&& r.entry_range == member(v, "entry_range"@)
                &&& (match r.stop_loss {
                    Some(s) => number_text(v, "stop_loss"@) == Some(s@),
                    None => number_text(v, "stop_loss"@) is None,
                })
                &&& (match r.take_profit {
                    Some(tp) => member(v, "take_profit"@) matches Some(JsonValue::Array(items))
                        && tp.deep_view() == numbers_in(items@),
                    None => !(member(v, "take_profit"@) matches Some(JsonValue::Array(_))),
                })
                &&& r.leverage == spec_leverage(v)
                &&& r.reasoning@ == str_or(v, "reasoning"@, ""@)
            },
            None => {
                &&& r.action@ == "hold"@
                &&& r.confidence == Confidence::Low
                &&& r.entry_range is None
                &&& r.stop_loss is None
                &&& r.take_profit is None
                &&& r.leverage == 2
                &&& r.reasoning@ == response
            },
        }
}

fn get_int_or_two(json: &JsonValue, key: &str) -> (r: i32)
    ensures
        r == int_member_or_two(*json, key@),
{
    match json.get(key) {
        Some(JsonValue::Number(n)) => match literal_to_i64(n.as_str()) {
            Some(x) => x as i32,
            None => 2,
        },
        _ => 2,
    }
}

/// Reads the fund manager's reply from its parsed JSON (`json` as for
/// `agent_reply_from_json`).
pub fn fund_reply_from_json(response: &str, json: Option<JsonValue>) -> (r: FundManagerParsed)
    ensures
        fund_fields(r, response@, json),
{
    match json {
        Some(v) => {
            let action = get_str_or(&v, "action", "hold");
            let confidence = get_confidence(&v, "confidence");
            let stop_loss = match v.get("stop_loss") {
                Some(JsonValue::Number(n)) => Some(n.clone()),
                _ => None,
            };
            let take_profit = match v.get("take_profit") {
                Some(JsonValue::Array(items)) => Some(get_number_list(items)),
                _ => None,
            };
            let leverage = get_int_or_two(&v, "leverage");
            let reasoning = get_str_or(&v, "reasoning", "");
            let entry_range = match v {
                JsonValue::Object(mut entries) => crate::json::take_member(&mut entries, "entry_range"),
                _ => None,
            };
            FundManagerParsed {
                action,
                confidence,
                entry_range,
                stop_loss,
                take_profit,
                leverage,
                reasoning,
            }
        },
        None => FundManagerParsed {
            action: String::from_str("hold"),
            confidence: Confidence::Low,
            entry_range: None,
            stop_loss: None,
            take_profit: None,
            leverage: 2,
            reasoning: String::from_str(response),
        },
    }
}

} // verus!

verus! {

/// What `str::parse::<i64>` gives: an optional `+` or `-` sign followed by at
/// least one decimal digit and nothing else, when the value fits in an `i64`.
pub open spec fn std_parse_i64(s: Seq<char>) -> Option<i64> {
    let v: Option<int> = if all_digits(s) {
        Some(digits_value(s))
    } else if s.len() > 1 && s[0] == '+' && all_digits(s.drop_first()) {
        Some(digits_value(s.drop_first()))
    } else if s.len() > 1 && s[0] == '-' && all_digits(s.drop_first()) {
        Some(-digits_value(s.drop_first()))
    } else {
        None
    };
    match v {
        Some(x) => if i64::MIN <= x <= i64::MAX {
            Some(x as i64)
        } else {
            None
        },
        None => None,
    }
}

/// Reads a decimal integer the way `str::parse::<i64>` does.
pub fn parse_i64_text(text: &str) -> (r: Option<i64>)
    ensures
        r == std_parse_i64(text@),
{
    let v = to_chars(text);
    assert(v@.subrange(0, v@.len() as int) =~= v@);
    if v.len() > 0 && (v[0] == '-' || v[0] == '+') {
        assert(v@.subrange(1, v@.len() as int) =~= v@.drop_first());
        assert(!all_digits(v@));
        match digits_up_to_2_63(&v, 1) {
            Some(x) => {
                if v[0] == '-' {
                    let n: i128 = -x;
                    Some(n as i64)
                } else if x <= 0x7fff_ffff_ffff_ffff {
                    Some(x as i64)
                } else {
                    None
                }
            },
            None => None,
        }
    } else {
        match digits_up_to_2_63(&v, 0) {
            Some(x) => {
                if x <= 0x7fff_ffff_ffff_ffff {
                    Some(x as i64)
                } else {
                    None
                }
            },
            None => None,
        }
    }
}

} // verus!

verus! {

/// What a comprehensive analysis reply says. Prices stay the text of their
/// JSON literals; `None` stands for the default that the current price gives.
#[derive(Debug)]
pub struct ComprehensiveParsed {
    pub direction: String,
    pub confidence: Confidence,
    pub risk_level: String,
    pub entry_range: Option<JsonValue>,
    pub stop_loss: Option<String>,
    pub take_profit: Option<Vec<String>>,
    pub leverage_suggestion: i32,
    pub analysis: String,
    pub key_factors: Vec<String>,
}

/// The fields a comprehensive analysis reply gives: read from the JSON when it
/// parsed, else a neutral, medium-risk reading (confidence 0.5) whose analysis
/// is the raw reply and whose levels are the defaults.
pub open spec fn comprehensive_fields(r: ComprehensiveParsed, response: Seq<char>, json: Option<JsonValue>) -> bool {
    match json {
        Some(v) => {
            &&& r.direction@ == str_or(v, "direction"@, "neutral"@)
            &&& r.confidence == spec_confidence(v, "confidence"@)
            &&& r.risk_level@ == str_or(v, "risk_level"@, "medium"@)
            &&& r.entry_range == member(v, "entry_range"@)
            &&& (match r.stop_loss {
                Some(s) => number_text(v, "stop_loss"@) == Some(s@),
                None => number_text(v, "stop_loss"@) is None,
            })
            &&& (match r.take_profit {
                Some(tp) => member(v, "take_profit"@) matches Some(JsonValue::Array(items))
                    && tp.deep_view() == numbers_in(items@),
                None => !(member(v, "take_profit"@) matches Some(JsonValue::Array(_))),
            })
            &&& r.leverage_suggestion == int_member_or_two(v, "leverage_suggestion"@)
            &&& r.analysis@ == str_or(v, "analysis"@, ""@)
            &&& r.key_factors.deep_view() == string_list(v, "key_factors"@)
        },
        None => {
            &&& r.direction@ == "neutral"@
            &&& r.confidence == Confidence::Missing
            &&& r.risk_level@ == "medium"@
            &&& r.entry_range is None
            &&& r.stop_loss is None
            &&& r.take_profit is None
            &&& r.leverage_suggestion == 2
            &&& r.analysis@ == response
            &&& r.key_factors.deep_view() == Seq::<Seq<char>>::empty()
        },
    }
}

/// Reads a comprehensive analysis reply from its parsed JSON (`json` as for
/// `agent_reply_from_json`).
pub fn comprehensive_from_json(response: &str, json: Option<JsonValue>) -> (r: ComprehensiveParsed)
    ensures
        comprehensive_fields(r, response@, json),
{
    match json {
        Some(v) => {
            let direction = get_str_or(&v, "direction", "neutral");
            let confidence = get_confidence(&v, "confidence");
            let risk_level = get_str_or(&v, "risk_level", "medium");
            let stop_loss = match v.get("stop_loss") {
                Some(JsonValue::Number(n)) => Some(n.clone()),
                _ => None,
            };
            let take_profit = match v.get("take_profit") {
                Some(JsonValue::Array(items)) => Some(get_number_list(items)),
                _ => None,
            };
            let leverage_suggestion = get_int_or_two(&v, "leverage_suggestion");
            let analysis = get_str_or(&v, "analysis", "");
            let key_factors = get_string_list(&v, "key_factors");
            let entry_range = match v {
                JsonValue::Object(mut entries) => crate::json::take_member(&mut entries, "entry_range"),
                _ => None,
            };
            ComprehensiveParsed {
                direction,
                confidence,
                risk_level,
                entry_range,
                stop_loss,
                take_profit,
                leverage_suggestion,
                analysis,
                key_factors,
            }
        },
        None => {
            let key_factors: Vec<String> = Vec::new();
            assert(key_factors.deep_view() =~= Seq::<Seq<char>>::empty());
            ComprehensiveParsed {
                direction: String::from_str("neutral"),
                confidence: Confidence::Missing,
                risk_level: String::from_str("medium"),
                entry_range: None,
                stop_loss: None,
                take_profit: None,
                leverage_suggestion: 2,
                analysis: String::from_str(response),
                key_factors,
            }
        },
    }
}

} // verus!

verus! {

/// The JSON inside a model reply: its cleaned text as `serde_json` reads it,
/// `None` when that is not JSON.
pub open spec fn reply_json(response: Seq<char>) -> Option<JsonValue> {
    parsed_json(spec_clean_reply(response))
}

/// The JSON inside a model reply, with its code fence taken off, or `None`
/// when it is not JSON.
pub fn parse_reply(response: &str) -> (r: Option<JsonValue>)
    ensures
        r == reply_json(response@),
{
    let cleaned = clean_reply(response);
    parse_json(cleaned.as_str())
}

/// Reads an analyst's reply: the fields of its JSON, or, when the reply is
/// not JSON, a neutral opinion whose analysis is the raw reply.
pub fn parse_agent_json_response(response: &str) -> (r: AgentParsed)
    ensures
        agent_fields(
            r.sentiment@,
            r.confidence,
            r.analysis@,
            r.key_factors.deep_view(),
            response@,
            reply_json(response@),
        ),
{
    let json = parse_reply(response);
    agent_reply_from_json(response, &json)
}

/// Reads a department summary reply: the fields of its JSON, or a neutral
/// summary with empty texts when the reply is not JSON.
pub fn parse_dept_report_response(response: &str) -> (r: DeptReportParsed)
    ensures
        dept_fields(r.consensus@, r.bull_summary@, r.bear_summary@, reply_json(response@)),
{
    let json = parse_reply(response);
    dept_report_from_json(&json)
}

/// Reads the fund manager's reply: the fields of its JSON, or a hold whose
/// reasoning is the raw reply when it is not JSON.
pub fn parse_fund_manager_response(response: &str) -> (r: FundManagerParsed)
    ensures
        fund_fields(r, response@, reply_json(response@)),
{
    let json = parse_reply(response);
    fund_reply_from_json(response, json)
}

/// Reads a comprehensive analysis reply: the fields of its JSON, or the
/// defaults with the raw reply as analysis when it is not JSON.
pub fn parse_llm_comprehensive_response(response: &str) -> (r: ComprehensiveParsed)
    ensures
        comprehensive_fields(r, response@, reply_json(response@)),
{
    let json = parse_reply(response);
    comprehensive_from_json(response, json)
}

} // verus!

verus! {

proof fn lemma_strings_in_concat(a: Seq<JsonValue>, b: Seq<JsonValue>)
    ensures
        strings_in(a + b) == strings_in(a) + strings_in(b),
    decreases b.len(),
{
    if b.len() == 0 {
        assert(a + b =~= a);
        assert(strings_in(a) + strings_in(b) =~= strings_in(a));
    } else {
        lemma_strings_in_concat(a, b.drop_last());
        assert((a + b).drop_last() =~= a + b.drop_last());
        assert((a + b).last() == b.last());
        match b.last() {
            JsonValue::Str(s) => {
                assert(strings_in(a) + strings_in(b) =~= (strings_in(a) + strings_in(b.drop_last())).push(
                    s@,
                ));
            },
            _ => {},
        }
    }
}

/// The strings read from an array are read item by item: those of two runs
/// of items put together are those of the first run followed by those of the
/// second; a single string item gives its text, any other single item
/// nothing.
pub proof fn strings_are_read_item_by_item(a: Seq<JsonValue>, b: Seq<JsonValue>, x: JsonValue)
    ensures
        strings_in(a + b) == strings_in(a) + strings_in(b),
        strings_in(seq![x]) == match x {
            JsonValue::Str(s) => seq![s@],
            _ => Seq::<Seq<char>>::empty(),
        },
{
    lemma_strings_in_concat(a, b);
    let one = seq![x];
    assert(one.drop_last() =~= Seq::<JsonValue>::empty());
    assert(one.last() == x);
    assert(strings_in(one.drop_last()) =~= Seq::<Seq<char>>::empty());
    match x {
        JsonValue::Str(s) => {
            assert(strings_in(one) == Seq::<Seq<char>>::empty().push(s@));
            assert(Seq::<Seq<char>>::empty().push(s@) =~= seq![s@]);
        },
        _ => {},
    }
}

/// When every item is a string, every one is read, in order: the `k`-th text
/// read is the `k`-th item's.
pub proof fn all_string_items_are_read(items: Seq<JsonValue>)
    requires
        forall|i: int| 0 <= i < items.len() ==> (#[trigger] items[i]) is Str,
    ensures
        strings_in(items).len() == items.len(),
        forall|k: int| 0 <= k < items.len() ==> (#[trigger] strings_in(items)[k]) == items[k]->Str_0@,
    decreases items.len(),
{
    if items.len() > 0 {
        let init = items.drop_last();
        assert forall|i: int| 0 <= i < init.len() implies (#[trigger] init[i]) is Str by {
            assert(init[i] == items[i]);
        }
        all_string_items_are_read(init);
        assert(items.last() == items[items.len() - 1]);
    }
}

} // verus!
