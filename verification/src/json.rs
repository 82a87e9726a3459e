//! A JSON document as the route logic reads and builds it. Numbers are kept
//! in their textual form, so the logic never computes with them.
use vstd::prelude::*;
use crate::text::{str_eq, to_chars};

verus! {

/// A JSON value. An object keeps its members in order; its keys are looked up
/// from the front, so the first member with a key is the one that counts.
#[derive(Debug)]
pub enum JsonValue {
    Null,
    Bool(bool),
    /// A number, as the text of its JSON literal.
    Number(String),
    Str(String),
    Array(Vec<JsonValue>),
    Object(Vec<(String, JsonValue)>),
}

/// The value of the first member of `entries` whose key is `key`.
pub open spec fn lookup(entries: Seq<(String, JsonValue)>, key: Seq<char>) -> Option<JsonValue>
    decreases entries.len(),
{
    if entries.len() == 0 {
        None
    } else if entries[0].0@ == key {
        Some(entries[0].1)
    } else {
        lookup(entries.drop_first(), key)
    }
}

/// The keys of `entries`, in order.
pub open spec fn keys_of(entries: Seq<(String, JsonValue)>) -> Seq<Seq<char>> {
    entries.map_values(|e: (String, JsonValue)| e.0@)
}

/// The member `key` of `v` when `v` is an object that has it.
pub open spec fn member(v: JsonValue, key: Seq<char>) -> Option<JsonValue> {
    match v {
        JsonValue::Object(entries) => lookup(entries@, key),
        _ => None,
    }
}

/// `v` is present and is the string `s`.
pub open spec fn is_str(v: Option<JsonValue>, s: Seq<char>) -> bool {
    match v {
        Some(JsonValue::Str(t)) => t@ == s,
        _ => false,
    }
}

/// The text of `v` when it is present and a string.
pub open spec fn str_of(v: Option<JsonValue>) -> Option<Seq<char>> {
    match v {
        Some(JsonValue::Str(t)) => Some(t@),
        _ => None,
    }
}

/// The members of `v` when it is present and an object.
pub open spec fn entries_of(v: Option<JsonValue>) -> Option<Seq<(String, JsonValue)>> {
    match v {
        Some(JsonValue::Object(e)) => Some(e@),
        _ => None,
    }
}

proof fn lemma_lookup_from(entries: Seq<(String, JsonValue)>, i: int, key: Seq<char>)
    requires
        0 <= i < entries.len(),
        entries[i].0@ != key,
    ensures
        lookup(entries.subrange(i, entries.len() as int), key) == lookup(
            entries.subrange(i + 1, entries.len() as int),
            key,
        ),
{
    assert(entries.subrange(i, entries.len() as int).drop_first() =~= entries.subrange(
        i + 1,
        entries.len() as int,
    ));
}

/// `lookup` after replacing the value of member `i`, whose key is the first
/// occurrence of its key.
proof fn lemma_lookup_update(
    entries: Seq<(String, JsonValue)>,
    i: int,
    value: JsonValue,
    key: Seq<char>,
)
    requires
        0 <= i < entries.len(),
        forall|k: int| 0 <= k < i ==> entries[k].0@ != entries[i].0@,
    ensures
        lookup(entries.update(i, (entries[i].0, value)), key) == if key == entries[i].0@ {
            Some(value)
        } else {
            lookup(entries, key)
        },
    decreases entries.len(),
{
    if i == 0 {
        assert(entries.update(i, (entries[i].0, value)).drop_first() =~= entries.drop_first());
    } else {
        let rest = entries.drop_first();
        assert(entries.update(i, (entries[i].0, value)).drop_first() =~= rest.update(
            i - 1,
            (rest[i - 1].0, value),
        ));
        lemma_lookup_update(rest, i - 1, value, key);
    }
}

/// `lookup` after appending a member whose key was absent.
proof fn lemma_lookup_push(entries: Seq<(String, JsonValue)>, entry: (String, JsonValue), key: Seq<char>)
    requires
        lookup(entries, entry.0@) is None,
    ensures
        lookup(entries.push(entry), key) == if key == entry.0@ {
            Some(entry.1)
        } else {
            lookup(entries, key)
        },
    decreases entries.len(),
{
    if entries.len() == 0 {
        assert(entries.push(entry).drop_first() =~= entries);
    } else {
        assert(entries.push(entry).drop_first() =~= entries.drop_first().push(entry));
        lemma_lookup_push(entries.drop_first(), entry, key);
    }
}

/// The position of the first member whose key is `key`, if any.
pub fn find_key(entries: &Vec<(String, JsonValue)>, key: &str) -> (r: Option<usize>)
    ensures
        match r {
            Some(i) => {
                &&& i < entries.len()
                &&& entries@[i as int].0@ == key@
                &&& forall|k: int| 0 <= k < i ==> entries@[k].0@ != key@
                &&& lookup(entries@, key@) == Some(entries@[i as int].1)
            },
            None => lookup(entries@, key@) is None,
        },
{
    let mut i: usize = 0;
    assert(entries@.subrange(0, entries@.len() as int) =~= entries@);
    while i < entries.len()
        invariant
            i <= entries.len(),
            forall|k: int| 0 <= k < i ==> entries@[k].0@ != key@,
            lookup(entries@, key@) == lookup(entries@.subrange(i as int, entries@.len() as int), key@),
        decreases entries.len() - i,
    {
        if str_eq(entries[i].0.as_str(), key) {
            return Some(i);
        }
        proof {
            lemma_lookup_from(entries@, i as int, key@);
        }
        i = i + 1;
    }
    None
}

/// Sets member `key` of an object to `value`: in place when the key is there,
/// appended at the end otherwise.
pub fn set_member(entries: &mut Vec<(String, JsonValue)>, key: &str, value: JsonValue)
    ensures
        forall|k: Seq<char>| #[trigger]
            lookup(final(entries)@, k) == if k == key@ {
                Some(value)
            } else {
                lookup(old(entries)@, k)
            },
{
    match find_key(entries, key) {
        Some(i) => {
            let ghost before = entries@;
            let name = entries[i].0.clone();
            entries.set(i, (name, value));
            proof {
                assert(entries@ =~= before.update(i as int, (before[i as int].0, value)));
                assert forall|k: Seq<char>| #[trigger]
                    lookup(entries@, k) == if k == key@ {
                        Some(value)
                    } else {
                        lookup(before, k)
                    } by {
                    lemma_lookup_update(before, i as int, value, k);
                }
            }
        },
        None => {
            let ghost before = entries@;
            let name = String::from_str(key);
            entries.push((name, value));
            proof {
                assert forall|k: Seq<char>| #[trigger]
                    lookup(entries@, k) == if k == key@ {
                        Some(value)
                    } else {
                        lookup(before, k)
                    } by {
                    lemma_lookup_push(before, (name, value), k);
                }
            }
        },
    }
}

impl JsonValue {
    /// The member `key` of an object; `None` for a missing key or a value that
    /// is not an object.
    pub fn get(&self, key: &str) -> (r: Option<&JsonValue>)
        ensures
            match r {
                Some(v) => member(*self, key@) == Some(*v),
                None => member(*self, key@) is None,
            },
    {
        match self {
            JsonValue::Object(entries) => match find_key(entries, key) {
                Some(i) => Some(&entries[i].1),
                None => None,
            },
            _ => None,
        }
    }

    /// The text of a string value.
    pub fn as_str(&self) -> (r: Option<&str>)
        ensures
            match r {
                Some(s) => *self matches JsonValue::Str(t) && t@ == s@,
                None => !(*self is Str),
            },
    {
        match self {
            JsonValue::Str(s) => Some(s.as_str()),
            _ => None,
        }
    }

    /// The value of a boolean.
    pub fn as_bool(&self) -> (r: Option<bool>)
        ensures
            r == match *self {
                JsonValue::Bool(b) => Some(b),
                _ => None,
            },
    {
        match self {
            JsonValue::Bool(b) => Some(*b),
            _ => None,
        }
    }

    /// Whether the value is `null`.
    pub fn is_null(&self) -> (r: bool)
        ensures
            r == (*self is Null),
    {
        match self {
            JsonValue::Null => true,
            _ => false,
        }
    }
}

} // verus!

verus! {

/// `c` is a CJK unified ideograph (U+4E00 to U+9FFF).
pub open spec fn is_cjk(c: char) -> bool {
    '\u{4e00}' <= c <= '\u{9fff}'
}

/// Some character of `s` is a CJK ideograph.
pub open spec fn any_cjk(s: Seq<char>) -> bool {
    exists|i: int| 0 <= i < s.len() && is_cjk(#[trigger] s[i])
}

/// The JSON text of `v` holds a CJK ideograph: some string, key or number of
/// `v` does (JSON writes CJK characters as they are).
pub open spec fn json_has_cjk(v: JsonValue) -> bool
    decreases v,
{
    match v {
        JsonValue::Null => false,
        JsonValue::Bool(_) => false,
        JsonValue::Number(n) => any_cjk(n@),
        JsonValue::Str(s) => any_cjk(s@),
        JsonValue::Array(items) => items_have_cjk(items@),
        JsonValue::Object(entries) => members_have_cjk(entries@),
    }
}

/// Some value of `s` holds a CJK ideograph.
pub open spec fn items_have_cjk(s: Seq<JsonValue>) -> bool
    decreases s,
{
    if s.len() == 0 {
        false
    } else {
        json_has_cjk(s[0]) || items_have_cjk(s.subrange(1, s.len() as int))
    }
}

/// Some key or value of `s` holds a CJK ideograph.
pub open spec fn members_have_cjk(s: Seq<(String, JsonValue)>) -> bool
    decreases s,
{
    if s.len() == 0 {
        false
    } else {
        any_cjk(s[0].0@) || json_has_cjk(s[0].1) || members_have_cjk(s.subrange(1, s.len() as int))
    }
}

} // verus!

verus! {

/// Whether some character of `s` is a CJK ideograph.
pub fn str_has_cjk(s: &str) -> (r: bool)
    ensures
        r == any_cjk(s@),
{
    let v = to_chars(s);
    let mut i: usize = 0;
    while i < v.len()
        invariant
            v@ == s@,
            i <= v.len(),
            forall|k: int| 0 <= k < i ==> !is_cjk(v@[k]),
        decreases v.len() - i,
    {
        if '\u{4e00}' <= v[i] && v[i] <= '\u{9fff}' {
            assert(is_cjk(s@[i as int]));
            return true;
        }
        i = i + 1;
    }
    false
}

/// Whether the JSON text of `v` holds a CJK ideograph.
pub fn json_has_cjk_chars(v: &JsonValue) -> (r: bool)
    ensures
        r == json_has_cjk(*v),
    decreases v,
{
    match v {
        JsonValue::Null => false,
        JsonValue::Bool(_) => false,
        JsonValue::Number(n) => str_has_cjk(n.as_str()),
        JsonValue::Str(s) => str_has_cjk(s.as_str()),
        JsonValue::Array(items) => {
            let mut i: usize = 0;
            let len = items.len();
            assert(items@.subrange(0, len as int) =~= items@);
            assert(decreases_to!(v => items));
            while i < len
                invariant
                    *v == JsonValue::Array(*items),
                    decreases_to!(v => items),
                    len == items.len(),
                    i <= len,
                    items_have_cjk(items@) == items_have_cjk(items@.subrange(i as int, len as int)),
                decreases len - i,
            {
                proof {
                    assert(decreases_to!(items => items@[i as int]));
                }
                let ghost rest = items@.subrange(i as int, len as int);
                assert(rest[0] == items@[i as int]);
                assert(rest.subrange(1, rest.len() as int) =~= items@.subrange(i + 1, len as int));
                if json_has_cjk_chars(&items[i]) {
                    return true;
                }
                i = i + 1;
            }
            false
        },
        JsonValue::Object(entries) => {
            let mut i: usize = 0;
            let len = entries.len();
            assert(entries@.subrange(0, len as int) =~= entries@);
            assert(decreases_to!(v => entries));
            while i < len
                invariant
                    *v == JsonValue::Object(*entries),
                    decreases_to!(v => entries),
                    len == entries.len(),
                    i <= len,
                    members_have_cjk(entries@) == members_have_cjk(
                        entries@.subrange(i as int, len as int),
                    ),
                decreases len - i,
            {
                proof {
                    assert(decreases_to!(entries => entries@[i as int]));
                    assert(decreases_to!(entries@[i as int] => entries@[i as int].1));
                }
                let ghost rest = entries@.subrange(i as int, len as int);
                assert(rest[0] == entries@[i as int]);
                assert(rest.subrange(1, rest.len() as int) =~= entries@.subrange(
                    i + 1,
                    len as int,
                ));
                if str_has_cjk(entries[i].0.as_str()) {
                    return true;
                }
                if json_has_cjk_chars(&entries[i].1) {
                    return true;
                }
                i = i + 1;
            }
            false
        },
    }
}

} // verus!

verus! {

proof fn lemma_lookup_remove(entries: Seq<(String, JsonValue)>, i: int, key: Seq<char>)
    requires
        0 <= i < entries.len(),
        forall|k: int| 0 <= k < i ==> entries[k].0@ != entries[i].0@,
        key != entries[i].0@,
    ensures
        lookup(entries.remove(i), key) == lookup(entries, key),
    decreases entries.len(),
{
    if i == 0 {
        assert(entries.remove(0) =~= entries.drop_first());
    } else {
        let rest = entries.drop_first();
        assert(entries.remove(i).drop_first() =~= rest.remove(i - 1));
        assert(entries.remove(i)[0] == entries[0]);
        lemma_lookup_remove(rest, i - 1, key);
    }
}

/// Takes member `key` out of an object: the value it had, if any, and the
/// object without it, every other key looked up as before.
pub fn take_member(entries: &mut Vec<(String, JsonValue)>, key: &str) -> (r: Option<JsonValue>)
    ensures
        r == lookup(old(entries)@, key@),
        forall|k: Seq<char>| k != key@ ==> #[trigger] lookup(final(entries)@, k) == lookup(old(entries)@, k),
{
    match find_key(entries, key) {
        Some(i) => {
            let ghost before = entries@;
            let (_, value) = entries.remove(i);
            proof {
                assert forall|k: Seq<char>| k != key@ implies #[trigger] lookup(entries@, k) == lookup(
                    before,
                    k,
                ) by {
                    lemma_lookup_remove(before, i as int, k);
                }
            }
            Some(value)
        },
        None => None,
    }
}

/// The keys of an object, in order.
pub fn keys_vec(entries: &Vec<(String, JsonValue)>) -> (r: Vec<String>)
    ensures
        r.deep_view() == keys_of(entries@),
{
    let mut r: Vec<String> = Vec::new();
    let mut i: usize = 0;
    while i < entries.len()
        invariant
            i <= entries.len(),
            r.deep_view() == keys_of(entries@.take(i as int)),
        decreases entries.len() - i,
    {
        let ghost before = r.deep_view();
        let k = entries[i].0.clone();
        r.push(k);
        assert(entries@.take(i + 1) =~= entries@.take(i as int).push(entries@[i as int]));
        assert(r.deep_view() =~= before.push(entries@[i as int].0@));
        assert(keys_of(entries@.take(i + 1)) =~= keys_of(entries@.take(i as int)).push(
            entries@[i as int].0@,
        ));
        i = i + 1;
    }
    assert(entries@.take(i as int) =~= entries@);
    r
}

/// `values` are strings whose texts are `texts`, in order.
pub open spec fn strs_are(values: Seq<JsonValue>, texts: Seq<Seq<char>>) -> bool {
    &&& values.len() == texts.len()
    &&& forall|i: int| 0 <= i < values.len() ==> is_str(Some(#[trigger] values[i]), texts[i])
}

/// A JSON array of the given strings.
pub fn string_array(texts: Vec<String>) -> (r: JsonValue)
    ensures
        r matches JsonValue::Array(items) && strs_are(items@, texts.deep_view()),
{
    let mut items: Vec<JsonValue> = Vec::new();
    let mut i: usize = 0;
    while i < texts.len()
        invariant
            i <= texts.len(),
            strs_are(items@, texts.deep_view().take(i as int)),
        decreases texts.len() - i,
    {
        let s = texts[i].clone();
        items.push(JsonValue::Str(s));
        assert(strs_are(items@, texts.deep_view().take(i + 1)));
        i = i + 1;
    }
    assert(texts.deep_view().take(i as int) =~= texts.deep_view());
    JsonValue::Array(items)
}

} // verus!

verus! {

/// The JSON document type of `serde_json`, carried opaquely.
#[verifier::external_type_specification]
#[verifier::external_body]
pub struct ExValue(serde_json::Value);

/// The document that `serde_json::from_str::<serde_json::Value>` reads from
/// `text`, in the library's form, or `None` when `text` is not JSON.
pub uninterp spec fn parsed_json(text: Seq<char>) -> Option<JsonValue>;

/// Turns a `serde_json::Value` into the library's form, variant by variant:
/// a number keeps the text that serde_json prints for it, an object its
/// members in serde_json's order.
#[verifier::external_body]
fn json_from_value(v: serde_json::Value) -> JsonValue {
    match v {
        serde_json::Value::Null => JsonValue::Null,
        serde_json::Value::Bool(b) => JsonValue::Bool(b),
        serde_json::Value::Number(n) => JsonValue::Number(n.to_string()),
        serde_json::Value::String(s) => JsonValue::Str(s),
        serde_json::Value::Array(a) => JsonValue::Array(a.into_iter().map(json_from_value).collect()),
        serde_json::Value::Object(m) => JsonValue::Object(m.into_iter().map(|(k, x)| (k, json_from_value(x))).collect()),
    }
}

/// Calls `serde_json::from_str::<serde_json::Value>` on `text` and hands out
/// the document in the library's form; which texts parse, and to what, is
/// left to the name `parsed_json`.
#[verifier::external_body]
pub(crate) fn parse_json(text: &str) -> (r: Option<JsonValue>)
    ensures
        r == parsed_json(text@),
{
    match serde_json::from_str::<serde_json::Value>(text) {
        Ok(v) => Some(json_from_value(v)),
        Err(_) => None,
    }
}

} // verus!

verus! {

/// A JSON string holds CJK text exactly when one of its characters is a CJK
/// unified ideograph, U+4E00 to U+9FFF.
pub proof fn string_cjk_is_its_characters(s: String)
    ensures
        json_has_cjk(JsonValue::Str(s)) <==> exists|i: int|
            0 <= i < s@.len() && '\u{4e00}' <= #[trigger] s@[i] <= '\u{9fff}',
{
}

proof fn lemma_item_cjk(items: Seq<JsonValue>, k: int)
    requires
        0 <= k < items.len(),
        json_has_cjk(items[k]),
    ensures
        items_have_cjk(items),
    decreases k,
{
    if k > 0 {
        lemma_item_cjk(items.subrange(1, items.len() as int), k - 1);
    }
}

proof fn lemma_member_cjk(entries: Seq<(String, JsonValue)>, k: int)
    requires
        0 <= k < entries.len(),
        json_has_cjk(entries[k].1) || any_cjk(entries[k].0@),
    ensures
        members_have_cjk(entries),
    decreases k,
{
    if k > 0 {
        lemma_member_cjk(entries.subrange(1, entries.len() as int), k - 1);
    }
}

/// CJK text in an item makes the array hold CJK text.
pub proof fn cjk_item_reaches_array(items: Vec<JsonValue>)
    ensures
        forall|k: int| 0 <= k < items@.len() && json_has_cjk(#[trigger] items@[k]) ==> json_has_cjk(
            JsonValue::Array(items),
        ),
{
    assert forall|k: int| 0 <= k < items@.len() && json_has_cjk(#[trigger] items@[k]) implies json_has_cjk(
        JsonValue::Array(items),
    ) by {
        lemma_item_cjk(items@, k);
    }
}

/// CJK text in a key or a value makes the object hold CJK text.
pub proof fn cjk_member_reaches_object(entries: Vec<(String, JsonValue)>)
    ensures
        forall|k: int|
            0 <= k < entries@.len() && (json_has_cjk((#[trigger] entries@[k]).1) || any_cjk(
                entries@[k].0@,
            )) ==> json_has_cjk(JsonValue::Object(entries)),
{
    assert forall|k: int|
        0 <= k < entries@.len() && (json_has_cjk((#[trigger] entries@[k]).1) || any_cjk(
            entries@[k].0@,
        )) implies json_has_cjk(JsonValue::Object(entries)) by {
        lemma_member_cjk(entries@, k);
    }
}

} // verus!
