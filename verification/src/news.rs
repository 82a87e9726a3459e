//! News aggregation: symbol normalisation, symbol detection and the keyword
//! sentiment score of a headline.
use vstd::prelude::*;
use crate::text::{
    contains_char, contains_str, from_chars, replace_char, replace_char_seq, seq_contains,
    take_chars, to_chars, to_lower, to_upper, trim_seq, trim_str, unicode_lower, unicode_upper,
    ascii_upper_char, ascii_upper_seq, is_ascii_seq, is_white_space, lemma_trim_fixed,
    lemma_trim_piece,
};

verus! {

/// The first `max_chars` characters of `value`.
pub fn truncate(value: &str, max_chars: usize) -> (r: String)
    ensures
        r@ == value@.take(if max_chars < value@.len() { max_chars as int } else { value@.len() as int }),
{
    take_chars(value, max_chars)
}

/// The trading pair named by an already upper-cased symbol: `/` and `_` become
/// `-`, and a bare coin is quoted in USDT.
pub open spec fn symbol_from_upper(upper: Seq<char>) -> Seq<char> {
    let dashed = replace_char_seq(replace_char_seq(upper, '/', '-'), '_', '-');
    if dashed.contains('-') {
        dashed
    } else {
        dashed + "-USDT"@
    }
}

/// The pair that a user's spelling of a symbol stands for.
pub open spec fn spec_normalize_symbol(symbol: Seq<char>) -> Seq<char> {
    symbol_from_upper(unicode_upper(trim_seq(symbol)))
}

/// The trading pair for an upper-cased symbol.
pub fn normalize_upper_symbol(upper: &str) -> (r: String)
    ensures
        r@ == symbol_from_upper(upper@),
{
    let v = to_chars(upper);
    let slashed = replace_char(&v, '/', '-');
    let dashed = replace_char(&slashed, '_', '-');
    let mut s = from_chars(&dashed);
    if !contains_char(&dashed, '-') {
        s.append("-USDT");
    }
    s
}

/// The trading pair that `symbol` names: trimmed, upper-cased, with `/` and `_`
/// turned into `-`, and `-USDT` added to a bare coin.
pub fn normalize_symbol(symbol: &str) -> (r: String)
    ensures
        r@ == spec_normalize_symbol(symbol@),
{
    let trimmed = trim_str(symbol);
    let upper = to_upper(trimmed.as_str());
    normalize_upper_symbol(upper.as_str())
}

/// One of the three keywords occurs in the text.
pub open spec fn mentions_any(
    lower: Seq<char>,
    k1: Seq<char>,
    k2: Seq<char>,
    k3: Seq<char>,
) -> bool {
    seq_contains(lower, k1) || seq_contains(lower, k2) || seq_contains(lower, k3)
}

/// `symbol` alone when `found`, nothing otherwise.
pub open spec fn pick(found: bool, symbol: Seq<char>) -> Seq<Seq<char>> {
    if found {
        seq![symbol]
    } else {
        Seq::empty()
    }
}

/// The pairs that a lower-cased text mentions, in the fixed order BTC, ETH,
/// SOL, XRP, DOGE.
pub open spec fn symbols_in_lower(lower: Seq<char>) -> Seq<Seq<char>> {
    pick(mentions_any(lower, "bitcoin"@, " btc"@, "$btc"@), "BTC-USDT"@) + pick(
        mentions_any(lower, "ethereum"@, " ether"@, " eth"@),
        "ETH-USDT"@,
    ) + pick(mentions_any(lower, "solana"@, " sol"@, "$sol"@), "SOL-USDT"@) + pick(
        mentions_any(lower, "ripple"@, " xrp"@, "$xrp"@),
        "XRP-USDT"@,
    ) + pick(mentions_any(lower, "dogecoin"@, " doge"@, "$doge"@), "DOGE-USDT"@)
}

fn mentions_three(lower: &Vec<char>, k1: &str, k2: &str, k3: &str) -> (r: bool)
    ensures
        r == mentions_any(lower@, k1@, k2@, k3@),
{
    contains_str(lower, k1) || contains_str(lower, k2) || contains_str(lower, k3)
}

fn push_if(out: &mut Vec<String>, found: bool, symbol: &str)
    ensures
        final(out).deep_view() == old(out).deep_view() + pick(found, symbol@),
{
    if found {
        let s = String::from_str(symbol);
        out.push(s);
        assert(final(out).deep_view() =~= old(out).deep_view() + pick(found, symbol@));
    } else {
        assert(old(out).deep_view() + pick(found, symbol@) =~= old(out).deep_view());
    }
}

/// The pairs that an already lower-cased text mentions.
pub fn detect_symbols_in_lower(lower: &str) -> (r: Vec<String>)
    ensures
        r.deep_view() == symbols_in_lower(lower@),
{
    let l = to_chars(lower);
    let mut out: Vec<String> = Vec::new();
    assert(out.deep_view() =~= Seq::<Seq<char>>::empty());
    let b = mentions_three(&l, "bitcoin", " btc", "$btc");
    push_if(&mut out, b, "BTC-USDT");
    let b = mentions_three(&l, "ethereum", " ether", " eth");
    push_if(&mut out, b, "ETH-USDT");
    let b = mentions_three(&l, "solana", " sol", "$sol");
    push_if(&mut out, b, "SOL-USDT");
    let b = mentions_three(&l, "ripple", " xrp", "$xrp");
    push_if(&mut out, b, "XRP-USDT");
    let b = mentions_three(&l, "dogecoin", " doge", "$doge");
    push_if(&mut out, b, "DOGE-USDT");
    assert(out.deep_view() =~= symbols_in_lower(lower@));
    out
}

/// The pairs that `text` mentions, looked up in its lower-cased form.
pub fn detect_symbols(text: &str) -> (r: Vec<String>)
    ensures
        r.deep_view() == symbols_in_lower(unicode_lower(text@)),
{
    let lower = to_lower(text);
    detect_symbols_in_lower(lower.as_str())
}

} // verus!

verus! {

/// 1 when `word` occurs in the text, else 0.
pub open spec fn hit(lower: Seq<char>, word: Seq<char>) -> int {
    if seq_contains(lower, word) {
        1
    } else {
        0
    }
}

/// How many of the bullish keywords a lower-cased text holds.
pub open spec fn positive_hits(lower: Seq<char>) -> int {
    hit(lower, "surge"@) + hit(lower, "rally"@) + hit(lower, "gain"@) + hit(lower, "bull"@) + hit(
        lower,
        "record high"@,
    ) + hit(lower, "approval"@) + hit(lower, "adoption"@) + hit(lower, "breakout"@)
}

/// How many of the bearish keywords a lower-cased text holds.
pub open spec fn negative_hits(lower: Seq<char>) -> int {
    hit(lower, "crash"@) + hit(lower, "drop"@) + hit(lower, "loss"@) + hit(lower, "bear"@) + hit(
        lower,
        "hack"@,
    ) + hit(lower, "lawsuit"@) + hit(lower, "ban"@) + hit(lower, "liquidation"@) + hit(
        lower,
        "fraud"@,
    )
}

/// `x` held within `[lo, hi]`.
pub open spec fn clamp_int(x: int, lo: int, hi: int) -> int {
    if x < lo {
        lo
    } else if x > hi {
        hi
    } else {
        x
    }
}

/// The keyword score of a lower-cased text: bullish minus bearish keywords,
/// held within `[-4, 4]`.
pub open spec fn spec_sentiment_score(lower: Seq<char>) -> int {
    clamp_int(positive_hits(lower) - negative_hits(lower), -4, 4)
}

fn count_hit(lower: &Vec<char>, word: &str, n: &mut i32)
    requires
        0 <= *old(n) < 100,
    ensures
        *final(n) == *old(n) + hit(lower@, word@),
{
    if contains_str(lower, word) {
        *n = *n + 1;
    }
}

/// The keyword score of an already lower-cased text.
pub fn sentiment_score_in_lower(lower: &str) -> (score: i32)
    ensures
        score == spec_sentiment_score(lower@),
        -4 <= score <= 4,
{
    let l = to_chars(lower);
    let mut pos: i32 = 0;
    count_hit(&l, "surge", &mut pos);
    count_hit(&l, "rally", &mut pos);
    count_hit(&l, "gain", &mut pos);
    count_hit(&l, "bull", &mut pos);
    count_hit(&l, "record high", &mut pos);
    count_hit(&l, "approval", &mut pos);
    count_hit(&l, "adoption", &mut pos);
    count_hit(&l, "breakout", &mut pos);
    let mut neg: i32 = 0;
    count_hit(&l, "crash", &mut neg);
    count_hit(&l, "drop", &mut neg);
    count_hit(&l, "loss", &mut neg);
    count_hit(&l, "bear", &mut neg);
    count_hit(&l, "hack", &mut neg);
    count_hit(&l, "lawsuit", &mut neg);
    count_hit(&l, "ban", &mut neg);
    count_hit(&l, "liquidation", &mut neg);
    count_hit(&l, "fraud", &mut neg);
    let raw = pos - neg;
    if raw < -4 {
        -4
    } else if raw > 4 {
        4
    } else {
        raw
    }
}

/// The keyword score of `text`, read in lower case; the sentiment of the text
/// is `0.5 + score / 10`, so it stays within `[0.1, 0.9]`.
pub fn sentiment_score(text: &str) -> (score: i32)
    ensures
        score == spec_sentiment_score(unicode_lower(text@)),
        -4 <= score <= 4,
{
    let lower = to_lower(text);
    sentiment_score_in_lower(lower.as_str())
}

/// The sentiment of `text` in tenths: `5 + score`, between 1 and 9.
pub fn sentiment_tenths(text: &str) -> (tenths: u32)
    ensures
        tenths == 5 + spec_sentiment_score(unicode_lower(text@)),
        1 <= tenths <= 9,
{
    let score = sentiment_score(text);
    (5 + score) as u32
}

/// How a refresh of the news feeds ended.
#[derive(PartialEq, Eq, Structural, Clone, Copy, Debug)]
pub enum RefreshStatus {
    /// Every source answered.
    Success,
    /// Some sources answered, some failed.
    PartialSuccess,
    /// No source answered: the refresh is an error.
    AllFailed,
}

/// The outcome of a refresh in which `successful` of `total` sources answered.
pub fn refresh_status(successful: usize, total: usize) -> (s: RefreshStatus)
    requires
        successful <= total,
    ensures
        successful == 0 ==> s == RefreshStatus::AllFailed,
        0 < successful && successful == total ==> s == RefreshStatus::Success,
        0 < successful && successful < total ==> s == RefreshStatus::PartialSuccess,
{
    if successful == 0 {
        RefreshStatus::AllFailed
    } else if successful == total {
        RefreshStatus::Success
    } else {
        RefreshStatus::PartialSuccess
    }
}

impl RefreshStatus {
    /// The status word reported to the client.
    pub fn as_str(&self) -> (s: &'static str)
        ensures
            *self == RefreshStatus::Success ==> s@ == "success"@,
            *self == RefreshStatus::PartialSuccess ==> s@ == "partial_success"@,
            *self == RefreshStatus::AllFailed ==> s@ == "failed"@,
    {
        match self {
            RefreshStatus::Success => "success",
            RefreshStatus::PartialSuccess => "partial_success",
            RefreshStatus::AllFailed => "failed",
        }
    }
}

/// Fetched items that were not inserted, counted as duplicates (never below 0).
pub fn duplicate_count(fetched: usize, inserted: usize) -> (d: usize)
    ensures
        d == if fetched >= inserted { fetched - inserted } else { 0 },
{
    fetched.saturating_sub(inserted)
}

/// The page, page size and row offset of a news listing: page 1 by default and
/// never below 1, 20 rows by default, held within `[1, 100]`.
pub fn news_page_window(page: Option<u32>, page_size: Option<u32>) -> (r: (u32, u32, u32))
    requires
        ({
            let p = match page { Some(p) => if p < 1 { 1 } else { p as int }, None => 1 };
            let s = match page_size { Some(s) => clamp_int(s as int, 1, 100), None => 20 };
            (p - 1) * s <= u32::MAX
        }),
    ensures
        r.0 == match page { Some(p) => if p < 1 { 1 } else { p as int }, None => 1 },
        r.1 == match page_size { Some(s) => clamp_int(s as int, 1, 100), None => 20 },
        r.2 == (r.0 - 1) * r.1,
{
    let p = match page {
        Some(p) => if p < 1 { 1 } else { p },
        None => 1,
    };
    let s = match page_size {
        Some(s) => if s < 1 { 1 } else if s > 100 { 100 } else { s },
        None => 20,
    };
    (p, s, (p - 1) * s)
}

} // verus!

verus! {

proof fn lemma_replace_absent(s: Seq<char>, from: char, to: char)
    requires
        !s.contains(from),
    ensures
        replace_char_seq(s, from, to) == s,
{
    assert(replace_char_seq(s, from, to) =~= s);
}

/// A pair is its own normalisation: applying the pair rule to an already
/// normalised (upper-case) pair leaves it unchanged.
pub proof fn normalized_pair_is_stable(upper: Seq<char>)
    ensures
        symbol_from_upper(symbol_from_upper(upper)) == symbol_from_upper(upper),
        symbol_from_upper(upper).contains('-'),
        !symbol_from_upper(upper).contains('/'),
        !symbol_from_upper(upper).contains('_'),
{
    reveal_strlit("-USDT");
    let once = replace_char_seq(upper, '/', '-');
    let dashed = replace_char_seq(once, '_', '-');
    assert(!once.contains('/'));
    assert(!dashed.contains('/'));
    assert(!dashed.contains('_'));
    let r = symbol_from_upper(upper);
    if dashed.contains('-') {
        assert(r == dashed);
    } else {
        let suffix = "-USDT"@;
        assert(suffix =~= seq!['-', 'U', 'S', 'D', 'T']);
        assert(r == dashed + suffix);
        assert(r[dashed.len() as int] == '-');
        assert(r.contains('-'));
        assert(!r.contains('/')) by {
            assert forall|i: int| 0 <= i < r.len() implies r[i] != '/' by {
                if i < dashed.len() {
                    assert(r[i] == dashed[i]);
                } else {
                    assert(r[i] == suffix[i - dashed.len()]);
                }
            }
        }
        assert(!r.contains('_')) by {
            assert forall|i: int| 0 <= i < r.len() implies r[i] != '_' by {
                if i < dashed.len() {
                    assert(r[i] == dashed[i]);
                } else {
                    assert(r[i] == suffix[i - dashed.len()]);
                }
            }
        }
    }
    lemma_replace_absent(r, '/', '-');
    lemma_replace_absent(r, '_', '-');
}

/// A normalised symbol is a pair, and it normalises to itself: for a symbol
/// written in ASCII, normalising twice gives what normalising once gives
/// (upper-casing ASCII text only raises its letters `a` to `z`).
pub proof fn normalized_symbol_is_stable(symbol: Seq<char>)
    requires
        is_ascii_seq(symbol),
    ensures
        spec_normalize_symbol(symbol).contains('-'),
        !spec_normalize_symbol(symbol).contains('/'),
        !spec_normalize_symbol(symbol).contains('_'),
        spec_normalize_symbol(spec_normalize_symbol(symbol)) == spec_normalize_symbol(symbol),
{
    reveal_strlit("-USDT");
    let t = trim_seq(symbol);
    lemma_trim_piece(symbol);
    let (a, b) = choose|a: int, b: int|
        0 <= a <= b <= symbol.len() && #[trigger] symbol.subrange(a, b) == trim_seq(symbol);
    assert(is_ascii_seq(t)) by {
        assert forall|i: int| 0 <= i < t.len() implies (#[trigger] t[i]) as u32 <= 0x7f by {
            assert(t[i] == symbol[a + i]);
        }
    }
    let up = unicode_upper(t);
    assert(up == ascii_upper_seq(t));
    let once = replace_char_seq(up, '/', '-');
    let dashed = replace_char_seq(once, '_', '-');
    let r = symbol_from_upper(up);
    normalized_pair_is_stable(up);
    assert(dashed.len() == t.len());
    assert forall|i: int| 0 <= i < dashed.len() implies {
        &&& (#[trigger] dashed[i]) as u32 <= 0x7f
        &&& !(0x61 <= dashed[i] as u32 <= 0x7a)
        &&& (!is_white_space(t[i]) ==> !is_white_space(dashed[i]))
    } by {
        assert(t[i] as u32 <= 0x7f);
        assert(up[i] == ascii_upper_char(t[i]));
        assert(once[i] == if up[i] == '/' { '-' } else { up[i] });
    }
    let suffix = "-USDT"@;
    assert(suffix =~= seq!['-', 'U', 'S', 'D', 'T']);
    if dashed.contains('-') {
        assert(r == dashed);
    } else {
        assert(r == dashed + suffix);
    }
    assert forall|i: int| 0 <= i < r.len() implies (#[trigger] r[i]) as u32 <= 0x7f && !(0x61
        <= r[i] as u32 <= 0x7a) by {
        if i < dashed.len() {
            assert(r[i] == dashed[i]);
        } else {
            assert(r[i] == suffix[i - dashed.len()]);
        }
    }
    assert(r.len() > 0);
    assert(!is_white_space(r[0]) && !is_white_space(r.last())) by {
        if r == dashed {
            assert(t.len() > 0);
            assert(!is_white_space(t[0]));
            assert(!is_white_space(t.last()));
            assert(t.last() == t[t.len() - 1]);
        } else {
            assert(r.last() == 'T');
            if dashed.len() > 0 {
                assert(t.len() > 0);
                assert(!is_white_space(t[0]));
                assert(r[0] == dashed[0]);
            } else {
                assert(r[0] == '-');
            }
        }
    }
    lemma_trim_fixed(r);
    assert(is_ascii_seq(r));
    assert(unicode_upper(r) == ascii_upper_seq(r));
    assert(ascii_upper_seq(r) =~= r);
}

} // verus!

verus! {

/// The keywords that count for a headline.
pub open spec fn bullish_words() -> Seq<Seq<char>> {
    seq!["surge"@, "rally"@, "gain"@, "bull"@, "record high"@, "approval"@, "adoption"@, "breakout"@]
}

/// The keywords that count against a headline.
pub open spec fn bearish_words() -> Seq<Seq<char>> {
    seq![
        "crash"@,
        "drop"@,
        "loss"@,
        "bear"@,
        "hack"@,
        "lawsuit"@,
        "ban"@,
        "liquidation"@,
        "fraud"@,
    ]
}

/// How many of `words` occur in `lower`.
pub open spec fn words_present(lower: Seq<char>, words: Seq<Seq<char>>) -> int
    decreases words.len(),
{
    if words.len() == 0 {
        0
    } else {
        words_present(lower, words.drop_last()) + if seq_contains(lower, words.last()) {
            1int
        } else {
            0int
        }
    }
}

proof fn lemma_words_present_push(lower: Seq<char>, words: Seq<Seq<char>>, w: Seq<char>)
    ensures
        words_present(lower, words.push(w)) == words_present(lower, words) + if seq_contains(
            lower,
            w,
        ) {
            1int
        } else {
            0int
        },
{
    assert(words.push(w).drop_last() =~= words);
}

/// The sentiment score counts keywords: each bullish keyword that occurs in
/// the lower-cased text adds one, each bearish keyword that occurs takes one
/// away, and the total is held within `[-4, 4]`.
pub proof fn sentiment_counts_keywords(lower: Seq<char>)
    ensures
        spec_sentiment_score(lower) == ({
            let d = words_present(lower, bullish_words()) - words_present(lower, bearish_words());
            if d < -4 {
                -4
            } else if d > 4 {
                4
            } else {
                d
            }
        }),
{
    let p0 = Seq::<Seq<char>>::empty();
    assert(words_present(lower, p0) == 0);
    let p1 = p0.push("surge"@);
    lemma_words_present_push(lower, p0, "surge"@);
    let p2 = p1.push("rally"@);
    lemma_words_present_push(lower, p1, "rally"@);
    let p3 = p2.push("gain"@);
    lemma_words_present_push(lower, p2, "gain"@);
    let p4 = p3.push("bull"@);
    lemma_words_present_push(lower, p3, "bull"@);
    let p5 = p4.push("record high"@);
    lemma_words_present_push(lower, p4, "record high"@);
    let p6 = p5.push("approval"@);
    lemma_words_present_push(lower, p5, "approval"@);
    let p7 = p6.push("adoption"@);
    lemma_words_present_push(lower, p6, "adoption"@);
    let p8 = p7.push("breakout"@);
    lemma_words_present_push(lower, p7, "breakout"@);
    assert(bullish_words() =~= p8);
    let q0 = Seq::<Seq<char>>::empty();
    assert(words_present(lower, q0) == 0);
    let q1 = q0.push("crash"@);
    lemma_words_present_push(lower, q0, "crash"@);
    let q2 = q1.push("drop"@);
    lemma_words_present_push(lower, q1, "drop"@);
    let q3 = q2.push("loss"@);
    lemma_words_present_push(lower, q2, "loss"@);
    let q4 = q3.push("bear"@);
    lemma_words_present_push(lower, q3, "bear"@);
    let q5 = q4.push("hack"@);
    lemma_words_present_push(lower, q4, "hack"@);
    let q6 = q5.push("lawsuit"@);
    lemma_words_present_push(lower, q5, "lawsuit"@);
    let q7 = q6.push("ban"@);
    lemma_words_present_push(lower, q6, "ban"@);
    let q8 = q7.push("liquidation"@);
    lemma_words_present_push(lower, q7, "liquidation"@);
    let q9 = q8.push("fraud"@);
    lemma_words_present_push(lower, q8, "fraud"@);
    assert(bearish_words() =~= q9);
}

/// A text with one bearish keyword and no bullish one scores -1; with one
/// bullish keyword and no bearish one, 1; with none, 0.
pub proof fn single_keywords_score_one(lower: Seq<char>)
    ensures
        words_present(lower, bullish_words()) == 0 && words_present(lower, bearish_words()) == 1
            ==> spec_sentiment_score(lower) == -1,
        words_present(lower, bullish_words()) == 1 && words_present(lower, bearish_words()) == 0
            ==> spec_sentiment_score(lower) == 1,
        words_present(lower, bullish_words()) == 0 && words_present(lower, bearish_words()) == 0
            ==> spec_sentiment_score(lower) == 0,
{
    sentiment_counts_keywords(lower);
}

} // verus!
