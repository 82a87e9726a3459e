//! Character-level text helpers that the route logic is built from.
use vstd::prelude::*;

verus! {

/// `String::push` appends one character at the end (std documents exactly that).
pub assume_specification[ String::push ](s: &mut String, ch: char)
    ensures
        final(s)@ == old(s)@.push(ch),
;

/// The characters of `s`, in order.
pub fn to_chars(s: &str) -> (v: Vec<char>)
    ensures
        v@ == s@,
{
    let mut v: Vec<char> = Vec::new();
    for c in iter: s.chars()
        invariant
            v@ == iter.seq().take(iter.index() as int),
            iter.seq() == s@,
    {
        v.push(c);
    }
    v
}

/// The string made of the characters of `v`, in order.
pub fn from_chars(v: &Vec<char>) -> (s: String)
    ensures
        s@ == v@,
{
    let mut s = String::new();
    let mut i: usize = 0;
    while i < v.len()
        invariant
            i <= v.len(),
            s@ == v@.take(i as int),
        decreases v.len() - i,
    {
        s.push(v[i]);
        i = i + 1;
        assert(s@ =~= v@.take(i as int));
    }
    assert(v@.take(i as int) =~= v@);
    s
}

} // verus!

verus! {

/// `needle` occurs in `hay` starting at position `i`.
pub open spec fn occurs_at(hay: Seq<char>, needle: Seq<char>, i: int) -> bool {
    0 <= i && i + needle.len() <= hay.len() && hay.subrange(i, i + needle.len()) == needle
}

/// `needle` occurs somewhere in `hay` (the empty needle occurs everywhere).
pub open spec fn seq_contains(hay: Seq<char>, needle: Seq<char>) -> bool {
    exists|i: int| occurs_at(hay, needle, i)
}

/// `hay` begins with `prefix`.
pub open spec fn seq_starts_with(hay: Seq<char>, prefix: Seq<char>) -> bool {
    prefix.len() <= hay.len() && hay.subrange(0, prefix.len() as int) == prefix
}

/// `hay` ends with `suffix`.
pub open spec fn seq_ends_with(hay: Seq<char>, suffix: Seq<char>) -> bool {
    suffix.len() <= hay.len() && hay.subrange(hay.len() - suffix.len(), hay.len() as int)
        == suffix
}

/// Whether `needle` occurs in `hay` at position `i`.
pub fn matches_at(hay: &Vec<char>, needle: &Vec<char>, i: usize) -> (r: bool)
    requires
        i + needle.len() <= hay.len(),
    ensures
        r == occurs_at(hay@, needle@, i as int),
{
    let mut j: usize = 0;
    while j < needle.len()
        invariant
            i + needle.len() <= hay.len(),
            j <= needle.len(),
            forall|t: int| 0 <= t < j ==> hay@[i + t] == needle@[t],
        decreases needle.len() - j,
    {
        if hay[i + j] != needle[j] {
            assert(hay@.subrange(i as int, i + needle.len())[j as int] != needle@[j as int]);
            return false;
        }
        j = j + 1;
    }
    assert(hay@.subrange(i as int, i + needle.len()) =~= needle@);
    true
}

/// Whether `needle` occurs anywhere in `hay`.
pub fn contains_chars(hay: &Vec<char>, needle: &Vec<char>) -> (r: bool)
    ensures
        r == seq_contains(hay@, needle@),
{
    if needle.len() > hay.len() {
        return false;
    }
    if needle.len() == 0 {
        assert(hay@.subrange(0, 0) =~= needle@);
        assert(occurs_at(hay@, needle@, 0));
        return true;
    }
    let last = hay.len() - needle.len();
    let mut i: usize = 0;
    while i <= last
        invariant
            last == hay.len() - needle.len(),
            0 < needle.len() <= hay.len(),
            i <= last + 1,
            forall|k: int| 0 <= k < i ==> !occurs_at(hay@, needle@, k),
        decreases last + 1 - i,
    {
        if matches_at(hay, needle, i) {
            return true;
        }
        i = i + 1;
    }
    false
}

/// Whether `needle` occurs anywhere in `hay`.
pub fn contains_str(hay: &Vec<char>, needle: &str) -> (r: bool)
    ensures
        r == seq_contains(hay@, needle@),
{
    let n = to_chars(needle);
    contains_chars(hay, &n)
}

/// Whether `hay` begins with `prefix`.
pub fn starts_with_chars(hay: &Vec<char>, prefix: &Vec<char>) -> (r: bool)
    ensures
        r == seq_starts_with(hay@, prefix@),
{
    if prefix.len() > hay.len() {
        false
    } else {
        matches_at(hay, prefix, 0)
    }
}

/// Whether `hay` ends with `suffix`.
pub fn ends_with_chars(hay: &Vec<char>, suffix: &Vec<char>) -> (r: bool)
    ensures
        r == seq_ends_with(hay@, suffix@),
{
    if suffix.len() > hay.len() {
        false
    } else {
        matches_at(hay, suffix, hay.len() - suffix.len())
    }
}

/// The characters of `v` from `start` up to, not including, `end`.
pub fn slice_chars(v: &Vec<char>, start: usize, end: usize) -> (r: Vec<char>)
    requires
        start <= end <= v.len(),
    ensures
        r@ == v@.subrange(start as int, end as int),
{
    let mut r: Vec<char> = Vec::new();
    let mut i: usize = start;
    while i < end
        invariant
            start <= i <= end <= v.len(),
            r@ == v@.subrange(start as int, i as int),
        decreases end - i,
    {
        r.push(v[i]);
        i = i + 1;
        assert(r@ =~= v@.subrange(start as int, i as int));
    }
    r
}

/// Whether two strings hold the same characters.
pub fn str_eq(a: &str, b: &str) -> (r: bool)
    ensures
        r == (a@ == b@),
{
    let x = a.to_owned();
    let y = b.to_owned();
    x == y
}

} // verus!

verus! {

/// Whether `c` has the Unicode `White_Space` property (PropList.txt), which is
/// what `char::is_whitespace` answers: U+0009 to U+000D, U+0020, U+0085, U+00A0,
/// U+1680, U+2000 to U+200A, U+2028, U+2029, U+202F, U+205F and U+3000.
pub open spec fn is_white_space(c: char) -> bool {
    let u = c as u32;
    (0x09 <= u <= 0x0d) || u == 0x20 || u == 0x85 || u == 0xa0 || u == 0x1680 || (0x2000 <= u
        <= 0x200a) || u == 0x2028 || u == 0x2029 || u == 0x202f || u == 0x205f || u == 0x3000
}

/// What `str::to_uppercase` gives for a text that holds a character outside
/// ASCII (Unicode's full case mapping, which can change a text's length).
pub uninterp spec fn upper_text(s: Seq<char>) -> Seq<char>;

/// What `str::to_lowercase` gives for a text that holds a character outside
/// ASCII (Unicode's full case mapping, with its rule for a final sigma).
pub uninterp spec fn lower_text(s: Seq<char>) -> Seq<char>;

/// `s` in upper case, as `str::to_uppercase` maps it: an ASCII text has its
/// letters `a` to `z` raised and keeps every other character.
pub open spec fn unicode_upper(s: Seq<char>) -> Seq<char> {
    if is_ascii_seq(s) {
        ascii_upper_seq(s)
    } else {
        upper_text(s)
    }
}

/// `s` in lower case, as `str::to_lowercase` maps it: an ASCII text has its
/// letters `A` to `Z` lowered and keeps every other character.
pub open spec fn unicode_lower(s: Seq<char>) -> Seq<char> {
    if is_ascii_seq(s) {
        ascii_lower_seq(s)
    } else {
        lower_text(s)
    }
}

/// Whether `c` is white space in Unicode's sense, as `char::is_whitespace`.
pub(crate) fn char_is_whitespace(c: char) -> (r: bool)
    ensures
        r == is_white_space(c),
{
    let u = c as u32;
    (0x09 <= u && u <= 0x0d) || u == 0x20 || u == 0x85 || u == 0xa0 || u == 0x1680 || (0x2000 <= u
        && u <= 0x200a) || u == 0x2028 || u == 0x2029 || u == 0x202f || u == 0x205f || u == 0x3000
}

/// Calls `str::to_uppercase`. std documents that on ASCII characters it agrees
/// with `to_ascii_uppercase` (letters `a` to `z` raised, all else kept); the
/// full Unicode mapping of other text is left to the name `upper_text`.
#[verifier::external_body]
pub(crate) fn to_upper(s: &str) -> (r: String)
    ensures
        r@ == (if is_ascii_seq(s@) {
            ascii_upper_seq(s@)
        } else {
            upper_text(s@)
        }),
{
    s.to_uppercase()
}

/// Calls `str::to_lowercase`. std documents that on ASCII characters it agrees
/// with `to_ascii_lowercase` (letters `A` to `Z` lowered, all else kept); the
/// full Unicode mapping of other text is left to the name `lower_text`.
#[verifier::external_body]
pub(crate) fn to_lower(s: &str) -> (r: String)
    ensures
        r@ == (if is_ascii_seq(s@) {
            ascii_lower_seq(s@)
        } else {
            lower_text(s@)
        }),
{
    s.to_lowercase()
}

/// `s` without its leading white space.
pub open spec fn trim_start_seq(s: Seq<char>) -> Seq<char>
    decreases s.len(),
{
    if s.len() > 0 && is_white_space(s[0]) {
        trim_start_seq(s.drop_first())
    } else {
        s
    }
}

/// `s` without its trailing white space.
pub open spec fn trim_end_seq(s: Seq<char>) -> Seq<char>
    decreases s.len(),
{
    if s.len() > 0 && is_white_space(s.last()) {
        trim_end_seq(s.drop_last())
    } else {
        s
    }
}

/// `s` without leading and trailing white space, as `str::trim` gives it.
pub open spec fn trim_seq(s: Seq<char>) -> Seq<char> {
    trim_end_seq(trim_start_seq(s))
}

/// `s` with every leading copy of the non-empty `pat` removed, as
/// `str::trim_start_matches` does with a string pattern.
pub open spec fn trim_start_matches_seq(s: Seq<char>, pat: Seq<char>) -> Seq<char>
    decreases s.len(),
{
    if pat.len() > 0 && seq_starts_with(s, pat) {
        trim_start_matches_seq(s.subrange(pat.len() as int, s.len() as int), pat)
    } else {
        s
    }
}

/// `s` with every trailing copy of the non-empty `pat` removed, as
/// `str::trim_end_matches` does with a string pattern.
pub open spec fn trim_end_matches_seq(s: Seq<char>, pat: Seq<char>) -> Seq<char>
    decreases s.len(),
{
    if pat.len() > 0 && seq_ends_with(s, pat) {
        trim_end_matches_seq(s.subrange(0, s.len() - pat.len()), pat)
    } else {
        s
    }
}

/// `s` with every `from` replaced by `to`.
pub open spec fn replace_char_seq(s: Seq<char>, from: char, to: char) -> Seq<char> {
    s.map_values(|c: char| if c == from { to } else { c })
}

/// The characters of `v` without leading and trailing white space.
pub fn trim_chars(v: &Vec<char>) -> (r: Vec<char>)
    ensures
        r@ == trim_seq(v@),
{
    let len = v.len();
    let mut i: usize = 0;
    let mut scanning = true;
    assert(v@.subrange(0, len as int) =~= v@);
    while scanning && i < len
        invariant
            len == v.len(),
            i <= len,
            trim_start_seq(v@) == trim_start_seq(v@.subrange(i as int, len as int)),
            !scanning ==> i < len && !is_white_space(v@[i as int]),
        decreases (if scanning { len - i + 1 } else { 0 }),
    {
        if char_is_whitespace(v[i]) {
            assert(v@.subrange(i as int, len as int).drop_first() =~= v@.subrange(
                i + 1,
                len as int,
            ));
            i = i + 1;
        } else {
            scanning = false;
        }
    }
    assert(trim_start_seq(v@) == v@.subrange(i as int, len as int));
    let mut j: usize = len;
    scanning = true;
    while scanning && j > i
        invariant
            len == v.len(),
            i <= j <= len,
            trim_end_seq(v@.subrange(i as int, len as int)) == trim_end_seq(
                v@.subrange(i as int, j as int),
            ),
            !scanning ==> i < j && !is_white_space(v@[j - 1]),
        decreases (if scanning { j + 1 } else { 0 }),
    {
        if char_is_whitespace(v[j - 1]) {
            assert(v@.subrange(i as int, j as int).drop_last() =~= v@.subrange(
                i as int,
                j - 1,
            ));
            j = j - 1;
        } else {
            scanning = false;
        }
    }
    slice_chars(v, i, j)
}

/// `s` without leading and trailing white space.
pub fn trim_str(s: &str) -> (r: String)
    ensures
        r@ == trim_seq(s@),
{
    let v = to_chars(s);
    let t = trim_chars(&v);
    from_chars(&t)
}

/// `v` with every leading copy of the non-empty `pat` removed.
pub fn trim_start_matches_chars(v: &Vec<char>, pat: &str) -> (r: Vec<char>)
    ensures
        r@ == trim_start_matches_seq(v@, pat@),
{
    let p = to_chars(pat);
    if p.len() == 0 {
        return slice_chars(v, 0, v.len());
    }
    let len = v.len();
    let mut i: usize = 0;
    assert(v@.subrange(0, len as int) =~= v@);
    while p.len() <= len - i && matches_at(v, &p, i)
        invariant
            len == v.len(),
            p@ == pat@,
            p.len() > 0,
            i <= len,
            trim_start_matches_seq(v@, pat@) == trim_start_matches_seq(
                v@.subrange(i as int, len as int),
                pat@,
            ),
        decreases len - i,
    {
        let ghost rest = v@.subrange(i as int, len as int);
        assert(rest.subrange(0, p.len() as int) =~= v@.subrange(i as int, i + p.len()));
        assert(rest.subrange(p.len() as int, rest.len() as int) =~= v@.subrange(
            i + p.len(),
            len as int,
        ));
        i = i + p.len();
    }
    proof {
        let rest = v@.subrange(i as int, len as int);
        if seq_starts_with(rest, pat@) {
            assert(rest.subrange(0, p.len() as int) =~= v@.subrange(i as int, i + p.len()));
        }
    }
    slice_chars(v, i, len)
}

/// `v` with every trailing copy of the non-empty `pat` removed.
pub fn trim_end_matches_chars(v: &Vec<char>, pat: &str) -> (r: Vec<char>)
    ensures
        r@ == trim_end_matches_seq(v@, pat@),
{
    let p = to_chars(pat);
    if p.len() == 0 {
        return slice_chars(v, 0, v.len());
    }
    let mut j: usize = v.len();
    assert(v@.subrange(0, j as int) =~= v@);
    while p.len() <= j && matches_at(v, &p, j - p.len())
        invariant
            j <= v.len(),
            p@ == pat@,
            p.len() > 0,
            trim_end_matches_seq(v@, pat@) == trim_end_matches_seq(
                v@.subrange(0, j as int),
                pat@,
            ),
        decreases j,
    {
        let ghost rest = v@.subrange(0, j as int);
        assert(rest.subrange(rest.len() - p.len(), rest.len() as int) =~= v@.subrange(
            j - p.len(),
            j as int,
        ));
        assert(rest.subrange(0, rest.len() - p.len()) =~= v@.subrange(0, j - p.len()));
        j = j - p.len();
    }
    proof {
        let rest = v@.subrange(0, j as int);
        if seq_ends_with(rest, pat@) {
            assert(rest.subrange(rest.len() - p.len(), rest.len() as int) =~= v@.subrange(
                j - p.len(),
                j as int,
            ));
        }
    }
    slice_chars(v, 0, j)
}

/// `v` with every `from` replaced by `to`.
pub fn replace_char(v: &Vec<char>, from: char, to: char) -> (r: Vec<char>)
    ensures
        r@ == replace_char_seq(v@, from, to),
{
    let mut r: Vec<char> = Vec::new();
    let mut i: usize = 0;
    while i < v.len()
        invariant
            i <= v.len(),
            r@ == replace_char_seq(v@.take(i as int), from, to),
        decreases v.len() - i,
    {
        let c = v[i];
        if c == from {
            r.push(to);
        } else {
            r.push(c);
        }
        assert(v@.take(i + 1) =~= v@.take(i as int).push(c));
        assert(r@ =~= replace_char_seq(v@.take(i + 1), from, to));
        i = i + 1;
    }
    assert(v@.take(i as int) =~= v@);
    r
}

} // verus!

verus! {

/// Whether `c` is one of the characters of `v`.
pub fn contains_char(v: &Vec<char>, c: char) -> (r: bool)
    ensures
        r == v@.contains(c),
{
    let mut i: usize = 0;
    while i < v.len()
        invariant
            i <= v.len(),
            forall|k: int| 0 <= k < i ==> v@[k] != c,
        decreases v.len() - i,
    {
        if v[i] == c {
            return true;
        }
        i = i + 1;
    }
    false
}

/// The first `max_chars` characters of `value` (all of them when it is shorter).
pub fn take_chars(value: &str, max_chars: usize) -> (r: String)
    ensures
        r@ == value@.take(if max_chars < value@.len() { max_chars as int } else { value@.len() as int }),
{
    let v = to_chars(value);
    let end = if max_chars < v.len() { max_chars } else { v.len() };
    let t = slice_chars(&v, 0, end);
    from_chars(&t)
}

} // verus!

verus! {

/// `s` with every occurrence of the non-empty `from`, found left to right
/// without overlap, replaced by `to`, as `str::replace` does.
pub open spec fn replace_all_seq(s: Seq<char>, from: Seq<char>, to: Seq<char>) -> Seq<char>
    decreases s.len(),
{
    if from.len() == 0 || s.len() == 0 {
        s
    } else if seq_starts_with(s, from) {
        to + replace_all_seq(s.subrange(from.len() as int, s.len() as int), from, to)
    } else {
        seq![s[0]] + replace_all_seq(s.drop_first(), from, to)
    }
}

/// `s` with every occurrence of the non-empty `from` replaced by `to`.
pub fn replace_all(s: &str, from: &str, to: &str) -> (r: String)
    requires
        from@.len() > 0,
    ensures
        r@ == replace_all_seq(s@, from@, to@),
{
    let v = to_chars(s);
    let f = to_chars(from);
    let t = to_chars(to);
    let mut out: Vec<char> = Vec::new();
    let mut i: usize = 0;
    let len = v.len();
    assert(v@.subrange(0, len as int) =~= v@);
    assert(out@ + replace_all_seq(v@.subrange(0, len as int), f@, t@) =~= replace_all_seq(v@, f@, t@));
    while i < len
        invariant
            len == v.len(),
            i <= len,
            f@ == from@,
            t@ == to@,
            f@.len() > 0,
            v@ == s@,
            out@ + replace_all_seq(v@.subrange(i as int, len as int), f@, t@) == replace_all_seq(
                s@,
                from@,
                to@,
            ),
        decreases len - i,
    {
        let ghost rest = v@.subrange(i as int, len as int);
        if f.len() <= len - i && matches_at(&v, &f, i) {
            assert(rest.subrange(0, f@.len() as int) =~= v@.subrange(i as int, i + f@.len()));
            assert(rest.subrange(f@.len() as int, rest.len() as int) =~= v@.subrange(
                i + f@.len(),
                len as int,
            ));
            let mut k: usize = 0;
            let ghost before = out@;
            while k < t.len()
                invariant
                    k <= t.len(),
                    out@ == before + t@.take(k as int),
                decreases t.len() - k,
            {
                out.push(t[k]);
                assert(out@ =~= before + t@.take(k + 1));
                k = k + 1;
            }
            assert(t@.take(k as int) =~= t@);
            assert(out@ + replace_all_seq(v@.subrange(i + f@.len(), len as int), f@, t@) =~= before
                + replace_all_seq(rest, f@, t@));
            i = i + f.len();
        } else {
            proof {
                if seq_starts_with(rest, f@) {
                    assert(rest.subrange(0, f@.len() as int) =~= v@.subrange(i as int, i + f@.len()));
                }
            }
            assert(rest.drop_first() =~= v@.subrange(i + 1, len as int));
            let ghost before = out@;
            out.push(v[i]);
            assert(out@ + replace_all_seq(v@.subrange(i + 1, len as int), f@, t@) =~= before
                + replace_all_seq(rest, f@, t@));
            i = i + 1;
        }
    }
    assert(v@.subrange(i as int, len as int) =~= Seq::<char>::empty());
    assert(out@ + Seq::<char>::empty() =~= out@);
    from_chars(&out)
}

} // verus!

verus! {

/// The decimal digit for `d` (below 10).
pub open spec fn digit_char(d: nat) -> char {
    if d == 0 {
        '0'
    } else if d == 1 {
        '1'
    } else if d == 2 {
        '2'
    } else if d == 3 {
        '3'
    } else if d == 4 {
        '4'
    } else if d == 5 {
        '5'
    } else if d == 6 {
        '6'
    } else if d == 7 {
        '7'
    } else if d == 8 {
        '8'
    } else {
        '9'
    }
}

fn digit(d: usize) -> (c: char)
    requires
        d < 10,
    ensures
        c == digit_char(d as nat),
{
    if d == 0 {
        '0'
    } else if d == 1 {
        '1'
    } else if d == 2 {
        '2'
    } else if d == 3 {
        '3'
    } else if d == 4 {
        '4'
    } else if d == 5 {
        '5'
    } else if d == 6 {
        '6'
    } else if d == 7 {
        '7'
    } else if d == 8 {
        '8'
    } else {
        '9'
    }
}

/// `n` written in decimal, without leading zeros.
pub open spec fn decimal_seq(n: nat) -> Seq<char>
    decreases n,
{
    if n < 10 {
        seq![digit_char(n)]
    } else {
        decimal_seq(n / 10) + seq![digit_char(n % 10)]
    }
}

/// `n` written in decimal.
pub fn decimal(n: usize) -> (r: String)
    ensures
        r@ == decimal_seq(n as nat),
    decreases n,
{
    let c = digit(n % 10);
    let mut r = if n < 10 {
        String::new()
    } else {
        decimal(n / 10)
    };
    r.push(c);
    assert(n < 10 ==> n % 10 == n);
    r
}

} // verus!

verus! {

/// Every character of `s` is ASCII.
pub open spec fn is_ascii_seq(s: Seq<char>) -> bool {
    forall|i: int| 0 <= i < s.len() ==> (#[trigger] s[i]) as u32 <= 0x7f
}

/// `c` with an ASCII lower-case letter turned upper-case, as `char::to_ascii_uppercase`.
pub open spec fn ascii_upper_char(c: char) -> char {
    let u = c as u32;
    if 0x61 <= u <= 0x7a {
        ((u - 32) as u32) as char
    } else {
        c
    }
}

/// `c` with an ASCII upper-case letter turned lower-case, as `char::to_ascii_lowercase`.
pub open spec fn ascii_lower_char(c: char) -> char {
    let u = c as u32;
    if 0x41 <= u <= 0x5a {
        ((u + 32) as u32) as char
    } else {
        c
    }
}

/// `s` with its ASCII letters upper-cased.
pub open spec fn ascii_upper_seq(s: Seq<char>) -> Seq<char> {
    s.map_values(|c: char| ascii_upper_char(c))
}

/// `s` with its ASCII letters lower-cased.
pub open spec fn ascii_lower_seq(s: Seq<char>) -> Seq<char> {
    s.map_values(|c: char| ascii_lower_char(c))
}

/// Trimming the start leaves a suffix of `s` that is empty or begins with a
/// character other than white space.
pub proof fn lemma_trim_start_suffix(s: Seq<char>)
    ensures
        trim_start_seq(s).len() <= s.len(),
        trim_start_seq(s) == s.subrange(s.len() - trim_start_seq(s).len(), s.len() as int),
        trim_start_seq(s).len() > 0 ==> !is_white_space(trim_start_seq(s)[0]),
    decreases s.len(),
{
    if s.len() > 0 && is_white_space(s[0]) {
        lemma_trim_start_suffix(s.drop_first());
        let t = trim_start_seq(s.drop_first());
        assert(s.drop_first().subrange(s.drop_first().len() - t.len(), s.drop_first().len() as int)
            =~= s.subrange(s.len() - t.len(), s.len() as int));
    } else {
        assert(s.subrange(0, s.len() as int) =~= s);
    }
}

/// Trimming the end leaves a prefix of `s` that is empty or ends with a
/// character other than white space.
pub proof fn lemma_trim_end_prefix(s: Seq<char>)
    ensures
        trim_end_seq(s).len() <= s.len(),
        trim_end_seq(s) == s.subrange(0, trim_end_seq(s).len() as int),
        trim_end_seq(s).len() > 0 ==> !is_white_space(trim_end_seq(s).last()),
    decreases s.len(),
{
    if s.len() > 0 && is_white_space(s.last()) {
        lemma_trim_end_prefix(s.drop_last());
        let t = trim_end_seq(s.drop_last());
        assert(s.drop_last().subrange(0, t.len() as int) =~= s.subrange(0, t.len() as int));
    } else {
        assert(s.subrange(0, s.len() as int) =~= s);
    }
}

/// The trimmed text is a piece of `s`, and when it is not empty it neither
/// begins nor ends with white space.
pub proof fn lemma_trim_piece(s: Seq<char>)
    ensures
        exists|a: int, b: int| 0 <= a <= b <= s.len() && #[trigger] s.subrange(a, b) == trim_seq(s),
        trim_seq(s).len() > 0 ==> !is_white_space(trim_seq(s)[0]) && !is_white_space(
            trim_seq(s).last(),
        ),
{
    lemma_trim_start_suffix(s);
    let x = trim_start_seq(s);
    lemma_trim_end_prefix(x);
    let t = trim_end_seq(x);
    let a = s.len() - x.len();
    assert(s.subrange(a, a + t.len()) =~= t);
    if t.len() > 0 {
        assert(t[0] == x[0]);
    }
}

/// Text that is empty, or that neither begins nor ends with white space, is
/// its own trim.
pub proof fn lemma_trim_fixed(s: Seq<char>)
    requires
        s.len() == 0 || (!is_white_space(s[0]) && !is_white_space(s.last())),
    ensures
        trim_seq(s) == s,
{
}

} // verus!
