//! API keys stored for exchanges and model providers: masking, validation and
//! the metadata kept beside each key.
use vstd::prelude::*;
use crate::error::RouteError;
use crate::json::{is_str, lookup, member, set_member, str_of, JsonValue};
use crate::text::{str_eq, to_chars, from_chars, slice_chars};

verus! {

/// How many bytes `c` takes in UTF-8.
pub open spec fn utf8_width(c: char) -> nat {
    if (c as u32) < 0x80 {
        1
    } else if (c as u32) < 0x800 {
        2
    } else if (c as u32) < 0x10000 {
        3
    } else {
        4
    }
}

/// How many bytes `s` takes in UTF-8.
pub open spec fn utf8_len(s: Seq<char>) -> nat
    decreases s.len(),
{
    if s.len() == 0 {
        0
    } else {
        utf8_len(s.drop_last()) + utf8_width(s.last())
    }
}

/// The first `k` characters of `s` take exactly four bytes.
pub open spec fn four_byte_prefix(s: Seq<char>, k: int) -> bool {
    0 <= k <= s.len() && utf8_len(s.take(k)) == 4
}

/// The value can be masked: it takes at most four bytes, or its fourth byte
/// ends a character (slicing there does not split one).
pub open spec fn maskable(s: Seq<char>) -> bool {
    utf8_len(s) <= 4 || exists|k: int| four_byte_prefix(s, k)
}

/// The masked form of a secret: its first four bytes and `****` when it is
/// longer than four bytes, `****` alone otherwise.
pub open spec fn spec_mask(s: Seq<char>) -> Seq<char> {
    if utf8_len(s) > 4 {
        s.take(choose|k: int| four_byte_prefix(s, k)) + "****"@
    } else {
        "****"@
    }
}

fn char_width(c: char) -> (w: usize)
    ensures
        w == utf8_width(c),
        1 <= w <= 4,
{
    let x = c as u32;
    if x < 0x80 {
        1
    } else if x < 0x800 {
        2
    } else if x < 0x10000 {
        3
    } else {
        4
    }
}

proof fn lemma_utf8_len_take_step(s: Seq<char>, k: int)
    requires
        0 <= k < s.len(),
    ensures
        utf8_len(s.take(k + 1)) == utf8_len(s.take(k)) + utf8_width(s[k]),
{
    assert(s.take(k + 1).drop_last() =~= s.take(k));
}

proof fn lemma_utf8_len_take_mono(s: Seq<char>, j: int, k: int)
    requires
        0 <= j <= k <= s.len(),
    ensures
        utf8_len(s.take(j)) + (k - j) <= utf8_len(s.take(k)),
    decreases k - j,
{
    if j < k {
        lemma_utf8_len_take_mono(s, j, k - 1);
        lemma_utf8_len_take_step(s, k - 1);
    }
}

/// How many characters of `v` make up its first four bytes, when they do, and
/// whether the whole value takes more than four bytes.
fn four_byte_split(v: &Vec<char>) -> (r: (bool, Option<usize>))
    ensures
        r.0 == (utf8_len(v@) > 4),
        match r.1 {
            Some(k) => four_byte_prefix(v@, k as int),
            None => forall|k: int| !four_byte_prefix(v@, k),
        },
{
    let mut i: usize = 0;
    let mut total: usize = 0;
    let mut found: Option<usize> = None;
    assert(v@.take(0) =~= Seq::<char>::empty());
    while i < v.len() && total <= 4
        invariant
            i <= v.len(),
            total == utf8_len(v@.take(i as int)),
            total <= 8,
            match found {
                Some(k) => four_byte_prefix(v@, k as int),
                None => forall|k: int| 0 <= k <= i ==> !four_byte_prefix(v@, k),
            },
            found is Some ==> total >= 4,
        decreases v.len() - i,
    {
        proof {
            lemma_utf8_len_take_step(v@, i as int);
        }
        total = total + char_width(v[i]);
        i = i + 1;
        if total == 4 {
            found = Some(i);
        }
    }
    proof {
        if i == v.len() {
            assert(v@.take(i as int) =~= v@);
        } else {
            lemma_utf8_len_take_mono(v@, i as int, v@.len() as int);
            assert(v@.take(v@.len() as int) =~= v@);
        }
        if found is None {
            assert forall|k: int| !four_byte_prefix(v@, k) by {
                if i < k <= v@.len() {
                    lemma_utf8_len_take_mono(v@, i as int, k);
                }
            }
        }
    }
    (total > 4, found)
}

/// Whether `value` can be masked (see `maskable`).
pub fn can_mask(value: &str) -> (r: bool)
    ensures
        r == maskable(value@),
{
    let v = to_chars(value);
    let (long, prefix) = four_byte_split(&v);
    !long || prefix.is_some()
}

/// The masked form of an exchange API key: its first four bytes and `****`.
pub fn mask_secret(value: &str) -> (r: String)
    requires
        maskable(value@),
    ensures
        r@ == spec_mask(value@),
{
    let v = to_chars(value);
    let (long, prefix) = four_byte_split(&v);
    if long {
        match prefix {
            Some(k) => {
                let head = slice_chars(&v, 0, k);
                let mut s = from_chars(&head);
                s.append("****");
                proof {
                    let c = choose|j: int| four_byte_prefix(value@, j);
                    lemma_four_byte_prefix_unique(value@, c, k as int);
                    assert(head@ =~= value@.take(k as int));
                }
                s
            },
            None => String::from_str("****"),
        }
    } else {
        String::from_str("****")
    }
}

/// The masked form of a model provider's API key, as for exchange keys.
pub fn mask_api_key(value: &str) -> (r: String)
    requires
        maskable(value@),
    ensures
        r@ == spec_mask(value@),
{
    mask_secret(value)
}

proof fn lemma_four_byte_prefix_unique(s: Seq<char>, j: int, k: int)
    requires
        four_byte_prefix(s, j),
        four_byte_prefix(s, k),
    ensures
        j == k,
{
    if j < k {
        lemma_utf8_len_take_mono(s, j + 1, k);
        lemma_utf8_len_take_step(s, j);
    } else if k < j {
        lemma_utf8_len_take_mono(s, k + 1, j);
        lemma_utf8_len_take_step(s, k);
    }
}

} // verus!

verus! {

/// A stored key is tested only when it is enabled.
pub fn check_key_active(is_active: bool) -> (r: Result<(), RouteError>)
    ensures
        r is Ok <==> is_active,
        !is_active ==> (r matches Err(RouteError::Validation(m)) && m@
            == "API key is disabled, please enable it first"@),
{
    if is_active {
        Ok(())
    } else {
        Err(RouteError::Validation(String::from_str("API key is disabled, please enable it first")))
    }
}

/// The two kinds of stored key, each tested its own way.
#[derive(PartialEq, Eq, Structural, Clone, Copy, Debug)]
pub enum KeyKind {
    Exchange,
    AiProvider,
}

/// The kind of key a stored `key_type` names; any other type is refused as
/// `Unknown key_type: ` and the type.
pub fn key_test_kind(key_type: &str) -> (r: Result<KeyKind, RouteError>)
    ensures
        key_type@ == "exchange"@ ==> r == Ok::<KeyKind, RouteError>(KeyKind::Exchange),
        key_type@ == "ai_provider"@ ==> r == Ok::<KeyKind, RouteError>(KeyKind::AiProvider),
        key_type@ != "exchange"@ && key_type@ != "ai_provider"@ ==> (r matches Err(
            RouteError::Validation(m),
        ) && m@ == "Unknown key_type: "@ + key_type@),
{
    proof {
        reveal_strlit("exchange");
        reveal_strlit("ai_provider");
        assert("exchange"@.len() != "ai_provider"@.len());
    }
    if str_eq(key_type, "exchange") {
        Ok(KeyKind::Exchange)
    } else if str_eq(key_type, "ai_provider") {
        Ok(KeyKind::AiProvider)
    } else {
        let mut m = String::from_str("Unknown key_type: ");
        m.append(key_type);
        Err(RouteError::Validation(m))
    }
}

/// The kinds of key the store accepts.
pub open spec fn valid_key_type(key_type: Seq<char>) -> bool {
    key_type == "exchange"@ || key_type == "ai_provider"@
}

/// Accepts `exchange` and `ai_provider` keys; any other kind is a validation error.
pub fn validate_key_type(key_type: &str) -> (r: Result<(), RouteError>)
    ensures
        r is Ok <==> valid_key_type(key_type@),
        r matches Err(RouteError::Validation(m)) ==> m@
            == "key_type must be 'exchange' or 'ai_provider'"@,
        r is Err ==> r matches Err(RouteError::Validation(_)),
{
    if str_eq(key_type, "exchange") || str_eq(key_type, "ai_provider") {
        Ok(())
    } else {
        Err(RouteError::Validation(String::from_str("key_type must be 'exchange' or 'ai_provider'")))
    }
}

/// The metadata stored with a new key: an exchange key records whether it is
/// a demo account (no by default); a provider key records the provider,
/// base URL and model (OpenAI's by default); any other kind records nothing.
pub open spec fn metadata_as_built(
    key_type: Seq<char>,
    is_demo: Option<bool>,
    provider: Option<Seq<char>>,
    base_url: Option<Seq<char>>,
    model: Option<Seq<char>>,
    m: JsonValue,
) -> bool {
    match m {
        JsonValue::Object(entries) => if key_type == "exchange"@ {
            &&& entries@.len() == 1
            &&& lookup(entries@, "is_demo"@) == Some(
                JsonValue::Bool(
                    match is_demo {
                        Some(b) => b,
                        None => false,
                    },
                ),
            )
        } else if key_type == "ai_provider"@ {
            &&& entries@.len() == 3
            &&& is_str(
                lookup(entries@, "provider"@),
                match provider {
                    Some(p) => p,
                    None => "openai"@,
                },
            )
            &&& is_str(
                lookup(entries@, "base_url"@),
                match base_url {
                    Some(u) => u,
                    None => "https://api.openai.com/v1"@,
                },
            )
            &&& is_str(
                lookup(entries@, "model"@),
                match model {
                    Some(x) => x,
                    None => "gpt-4o-mini"@,
                },
            )
        } else {
            entries@.len() == 0
        },
        _ => false,
    }
}

fn str_or_default(v: Option<String>, default: &str) -> (r: String)
    ensures
        r@ == match v {
            Some(s) => s@,
            None => default@,
        },
{
    match v {
        Some(s) => s,
        None => String::from_str(default),
    }
}

/// The metadata stored with a new key of kind `key_type`.
pub fn build_metadata(
    key_type: &str,
    is_demo: Option<bool>,
    provider: Option<String>,
    base_url: Option<String>,
    model: Option<String>,
) -> (m: JsonValue)
    ensures
        metadata_as_built(
            key_type@,
            is_demo,
            match provider {
                Some(p) => Some(p@),
                None => None,
            },
            match base_url {
                Some(u) => Some(u@),
                None => None,
            },
            match model {
                Some(x) => Some(x@),
                None => None,
            },
            m,
        ),
{
    let mut entries: Vec<(String, JsonValue)> = Vec::new();
    proof {
        reveal_strlit("provider");
        reveal_strlit("base_url");
        reveal_strlit("model");
        assert("provider"@.len() == 8);
        assert("base_url"@.len() == 8);
        assert("model"@.len() == 5);
        assert("provider"@[0] != "base_url"@[0]);
        reveal_strlit("exchange");
        reveal_strlit("ai_provider");
        assert("exchange"@.len() != "ai_provider"@.len());
    }
    if str_eq(key_type, "exchange") {
        let demo = match is_demo {
            Some(b) => b,
            None => false,
        };
        entries.push((String::from_str("is_demo"), JsonValue::Bool(demo)));
        assert(entries@.drop_first() =~= Seq::<(String, JsonValue)>::empty());
    } else if str_eq(key_type, "ai_provider") {
        entries.push((String::from_str("provider"), JsonValue::Str(str_or_default(provider, "openai"))));
        entries.push(
            (
                String::from_str("base_url"),
                JsonValue::Str(str_or_default(base_url, "https://api.openai.com/v1")),
            ),
        );
        entries.push((String::from_str("model"), JsonValue::Str(str_or_default(model, "gpt-4o-mini"))));
        assert(entries@.drop_first().drop_first().drop_first() =~= Seq::<(String, JsonValue)>::empty());
        assert(entries@.drop_first().drop_first() =~= seq![entries@[2]]);
        assert(entries@.drop_first() =~= seq![entries@[1], entries@[2]]);
        proof {
            reveal_with_fuel(lookup, 4);
        }
    }
    JsonValue::Object(entries)
}

} // verus!

verus! {

/// The value a key listing shows for a metadata field that holds a boolean.
pub open spec fn bool_field(metadata: JsonValue, key: Seq<char>) -> Option<JsonValue> {
    match member(metadata, key) {
        Some(JsonValue::Bool(b)) => Some(JsonValue::Bool(b)),
        _ => None,
    }
}

/// Adds to a key's response what its metadata tells: an exchange key's demo
/// flag, a provider key's provider, base URL and model, each only when the
/// metadata holds it with the right type. Other members stay as they were.
pub fn decorate_key_response(response: &mut Vec<(String, JsonValue)>, key_type: &str, metadata: &JsonValue)
    ensures
        forall|k: Seq<char>|
            k != "is_demo"@ && k != "provider"@ && k != "base_url"@ && k != "model"@ ==> #[trigger] lookup(
                final(response)@,
                k,
            ) == lookup(old(response)@, k),
        lookup(final(response)@, "is_demo"@) == if key_type@ == "exchange"@ && bool_field(
            *metadata,
            "is_demo"@,
        ) is Some {
            bool_field(*metadata, "is_demo"@)
        } else {
            lookup(old(response)@, "is_demo"@)
        },
        forall|k: Seq<char>|
            (k == "provider"@ || k == "base_url"@ || k == "model"@) ==> if key_type@
                == "ai_provider"@ && str_of(member(*metadata, k)) is Some {
                is_str(#[trigger] lookup(final(response)@, k), str_of(member(*metadata, k))->0)
            } else {
                lookup(final(response)@, k) == lookup(old(response)@, k)
            },
{
    proof {
        reveal_strlit("exchange");
        reveal_strlit("ai_provider");
        reveal_strlit("is_demo");
        reveal_strlit("provider");
        reveal_strlit("base_url");
        reveal_strlit("model");
        assert("exchange"@.len() != "ai_provider"@.len());
        assert("provider"@[0] != "base_url"@[0]);
        assert("is_demo"@.len() == 7);
        assert("provider"@.len() == 8);
        assert("base_url"@.len() == 8);
        assert("model"@.len() == 5);
    }
    if str_eq(key_type, "exchange") {
        match metadata.get("is_demo") {
            Some(JsonValue::Bool(b)) => set_member(response, "is_demo", JsonValue::Bool(*b)),
            _ => {},
        }
    } else if str_eq(key_type, "ai_provider") {
        let ghost r0 = response@;
        match metadata.get("provider") {
            Some(JsonValue::Str(s)) => set_member(response, "provider", JsonValue::Str(s.clone())),
            _ => {},
        }
        let ghost r1 = response@;
        match metadata.get("base_url") {
            Some(JsonValue::Str(s)) => set_member(response, "base_url", JsonValue::Str(s.clone())),
            _ => {},
        }
        let ghost r2 = response@;
        match metadata.get("model") {
            Some(JsonValue::Str(s)) => set_member(response, "model", JsonValue::Str(s.clone())),
            _ => {},
        }
        proof {
            assert(lookup(response@, "provider"@) == lookup(r1, "provider"@));
            assert(lookup(r2, "provider"@) == lookup(r1, "provider"@));
            assert(lookup(response@, "base_url"@) == lookup(r2, "base_url"@));
            assert(lookup(r1, "model"@) == lookup(r0, "model"@));
            assert(lookup(r2, "model"@) == lookup(r1, "model"@));
        }
    }
}

/// Applies a key update's metadata fields: an exchange key takes a new demo
/// flag, a provider key a new provider, base URL or model, each only when
/// given. Other members stay as they were.
pub fn update_key_metadata(
    metadata: &mut Vec<(String, JsonValue)>,
    key_type: &str,
    is_demo: Option<bool>,
    provider: Option<String>,
    base_url: Option<String>,
    model: Option<String>,
)
    ensures
        forall|k: Seq<char>|
            k != "is_demo"@ && k != "provider"@ && k != "base_url"@ && k != "model"@ ==> #[trigger] lookup(
                final(metadata)@,
                k,
            ) == lookup(old(metadata)@, k),
        lookup(final(metadata)@, "is_demo"@) == if key_type@ == "exchange"@ && is_demo is Some {
            Some(JsonValue::Bool(is_demo->0))
        } else {
            lookup(old(metadata)@, "is_demo"@)
        },
        key_type@ == "ai_provider"@ && provider is Some ==> is_str(
            lookup(final(metadata)@, "provider"@),
            provider->0@,
        ),
        !(key_type@ == "ai_provider"@ && provider is Some) ==> lookup(final(metadata)@, "provider"@)
            == lookup(old(metadata)@, "provider"@),
        key_type@ == "ai_provider"@ && base_url is Some ==> is_str(
            lookup(final(metadata)@, "base_url"@),
            base_url->0@,
        ),
        !(key_type@ == "ai_provider"@ && base_url is Some) ==> lookup(final(metadata)@, "base_url"@)
            == lookup(old(metadata)@, "base_url"@),
        key_type@ == "ai_provider"@ && model is Some ==> is_str(
            lookup(final(metadata)@, "model"@),
            model->0@,
        ),
        !(key_type@ == "ai_provider"@ && model is Some) ==> lookup(final(metadata)@, "model"@)
            == lookup(old(metadata)@, "model"@),
{
    proof {
        reveal_strlit("exchange");
        reveal_strlit("ai_provider");
        reveal_strlit("is_demo");
        reveal_strlit("provider");
        reveal_strlit("base_url");
        reveal_strlit("model");
        assert("exchange"@.len() != "ai_provider"@.len());
        assert("provider"@[0] != "base_url"@[0]);
        assert("is_demo"@.len() == 7);
        assert("provider"@.len() == 8);
        assert("base_url"@.len() == 8);
        assert("model"@.len() == 5);
    }
    if str_eq(key_type, "exchange") {
        match is_demo {
            Some(b) => set_member(metadata, "is_demo", JsonValue::Bool(b)),
            None => {},
        }
    } else if str_eq(key_type, "ai_provider") {
        let ghost m0 = metadata@;
        match provider {
            Some(p) => set_member(metadata, "provider", JsonValue::Str(p)),
            None => {},
        }
        let ghost m1 = metadata@;
        match base_url {
            Some(u) => set_member(metadata, "base_url", JsonValue::Str(u)),
            None => {},
        }
        let ghost m2 = metadata@;
        match model {
            Some(x) => set_member(metadata, "model", JsonValue::Str(x)),
            None => {},
        }
        proof {
            assert(lookup(metadata@, "provider"@) == lookup(m2, "provider"@));
            assert(lookup(m2, "provider"@) == lookup(m1, "provider"@));
            assert(lookup(metadata@, "base_url"@) == lookup(m2, "base_url"@));
            assert(lookup(m1, "model"@) == lookup(m0, "model"@));
            assert(lookup(m2, "model"@) == lookup(m1, "model"@));
        }
    }
}

} // verus!
