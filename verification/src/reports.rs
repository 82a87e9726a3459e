//! Report localisation: which translation of a stored report a reader gets.
use vstd::prelude::*;
use crate::json::{
    entries_of, is_str, json_has_cjk, json_has_cjk_chars, keys_of, keys_vec, lookup, member,
    set_member, str_has_cjk, str_of, string_array, strs_are, take_member, any_cjk, find_key,
    JsonValue, cjk_member_reaches_object, string_cjk_is_its_characters,
};
use crate::text::{replace_char, replace_char_seq, seq_contains, seq_starts_with, to_chars,
    ascii_lower_char, ascii_lower_seq, is_ascii_seq, occurs_at,
    from_chars, to_lower, unicode_lower, contains_str, starts_with_chars, str_eq};

verus! {

/// The report locale for a locale tag that is already lower-cased, with `-`
/// as separator: traditional Chinese for `zh-tw`, `zh-hk` or any `hant`
/// script, simplified Chinese for any other `zh`, English otherwise.
pub open spec fn locale_from_lower(value: Seq<char>) -> Seq<char> {
    if value == "zh-tw"@ || value == "zh-hk"@ || seq_contains(value, "hant"@) {
        "zh-TW"@
    } else if seq_starts_with(value, "zh"@) {
        "zh-CN"@
    } else {
        "en-US"@
    }
}

/// The report locale that a requested locale tag selects; no tag means
/// `en-US`.
pub open spec fn spec_normalize_report_locale(locale: Option<Seq<char>>) -> Seq<char> {
    let tag = match locale {
        Some(l) => l,
        None => "en-US"@,
    };
    locale_from_lower(unicode_lower(replace_char_seq(tag, '_', '-')))
}

/// The report locale for an already lower-cased tag.
pub fn report_locale_from_lower(value: &str) -> (r: &'static str)
    ensures
        r@ == locale_from_lower(value@),
{
    let v = to_chars(value);
    let zh = to_chars("zh");
    proof {
        reveal_strlit("zh-TW");
        reveal_strlit("zh-CN");
        reveal_strlit("en-US");
    }
    if str_eq(value, "zh-tw") || str_eq(value, "zh-hk") || contains_str(&v, "hant") {
        "zh-TW"
    } else if starts_with_chars(&v, &zh) {
        "zh-CN"
    } else {
        "en-US"
    }
}

/// The report locale that `locale` selects (`en-US` when there is none).
pub fn normalize_report_locale(locale: Option<&str>) -> (r: &'static str)
    ensures
        r@ == spec_normalize_report_locale(
            match locale {
                Some(l) => Some(l@),
                None => None,
            },
        ),
{
    let tag = match locale {
        Some(l) => l,
        None => "en-US",
    };
    let v = to_chars(tag);
    let dashed = from_chars(&replace_char(&v, '_', '-'));
    let lower = to_lower(dashed.as_str());
    report_locale_from_lower(lower.as_str())
}

/// The text of the report's title, or nothing when it has no string title.
pub open spec fn title_text(report: JsonValue) -> Seq<char> {
    match str_of(member(report, "title"@)) {
        Some(t) => t,
        None => Seq::empty(),
    }
}

/// A report stored before translations existed is Chinese when its title or
/// the JSON text of its content holds a CJK ideograph, English otherwise.
pub open spec fn legacy_locale(report: JsonValue) -> Seq<char> {
    let content_zh = match member(report, "content"@) {
        Some(c) => json_has_cjk(c),
        None => false,
    };
    if any_cjk(title_text(report)) || content_zh {
        "zh-CN"@
    } else {
        "en-US"@
    }
}

/// The locale of a report stored without a locale, read from its text.
pub fn infer_legacy_report_locale(report: &JsonValue) -> (r: &'static str)
    ensures
        r@ == legacy_locale(*report),
{
    proof {
        reveal_strlit("zh-CN");
        reveal_strlit("en-US");
    }
    let title_zh = match report.get("title") {
        Some(t) => match t.as_str() {
            Some(s) => str_has_cjk(s),
            None => false,
        },
        None => false,
    };
    let content_zh = match report.get("content") {
        Some(c) => json_has_cjk_chars(c),
        None => false,
    };
    proof {
        if !(str_of(member(*report, "title"@)) is Some) {
            assert(title_text(*report) =~= Seq::<char>::empty());
        }
    }
    if title_zh || content_zh {
        "zh-CN"
    } else {
        "en-US"
    }
}

/// The translations stored in the report's content, when it has an object of them.
pub open spec fn translations_of(report: JsonValue) -> Option<Seq<(String, JsonValue)>> {
    match member(report, "content"@) {
        Some(c) => entries_of(member(c, "translations"@)),
        None => None,
    }
}

/// The translation in the requested locale, when the report has one.
pub open spec fn translation_for(report: JsonValue, requested: Seq<char>) -> Option<JsonValue> {
    match translations_of(report) {
        Some(t) => lookup(t, requested),
        None => None,
    }
}

/// The locale the report's own body is written in: the content's `locale`
/// when it is a string, else the locale read from the text.
pub open spec fn source_locale(report: JsonValue) -> Seq<char> {
    match member(report, "content"@) {
        Some(c) => match str_of(member(c, "locale"@)) {
            Some(l) => l,
            None => legacy_locale(report),
        },
        None => legacy_locale(report),
    }
}

/// The reader gets a body in the requested locale: a translation for it exists,
/// or the report is written in it.
pub open spec fn language_match(report: JsonValue, requested: Seq<char>) -> bool {
    translation_for(report, requested) is Some || source_locale(report) == requested
}

/// The locale of the body the reader gets.
pub open spec fn response_locale(report: JsonValue, requested: Seq<char>) -> Seq<char> {
    if translation_for(report, requested) is Some {
        requested
    } else {
        source_locale(report)
    }
}

/// The locales a report can be read in: those of its translations, or the one
/// its body is written in.
pub open spec fn available_locales(report: JsonValue) -> Seq<Seq<char>> {
    match translations_of(report) {
        Some(t) => keys_of(t),
        None => seq![legacy_locale(report)],
    }
}

/// The body the reader gets: the translation's content (`null` when it has
/// none), the report's own content when it is in the requested language, and
/// `null` otherwise.
pub open spec fn localized_content(report: JsonValue, requested: Seq<char>) -> Option<JsonValue> {
    match translation_for(report, requested) {
        Some(t) => Some(
            match member(t, "content"@) {
                Some(c) => c,
                None => JsonValue::Null,
            },
        ),
        None => if language_match(report, requested) {
            member(report, "content"@)
        } else {
            Some(JsonValue::Null)
        },
    }
}

/// The title the reader gets: the translation's, when it has a string title.
pub open spec fn localized_title_text(report: JsonValue, requested: Seq<char>) -> Option<Seq<char>> {
    match translation_for(report, requested) {
        Some(t) => str_of(member(t, "title"@)),
        None => None,
    }
}

/// What `localize_report` gives for `report` read in `requested`: a report that
/// is not an object comes back as it was; an object gets its title and body
/// from the translation when there is one, loses a body in another language,
/// and is told the locale it is in, the locale asked for, whether the two
/// match and which locales exist. Every other member stays as it was.
pub open spec fn localized_as_specified(report: JsonValue, requested: Seq<char>, r: JsonValue) -> bool {
    match report {
        JsonValue::Object(before) => match r {
            JsonValue::Object(after) => {
                &&& (match localized_title_text(report, requested) {
                    Some(t) => is_str(lookup(after@, "title"@), t),
                    None => lookup(after@, "title"@) == lookup(before@, "title"@),
                })
                &&& lookup(after@, "content"@) == localized_content(report, requested)
                &&& is_str(lookup(after@, "locale"@), response_locale(report, requested))
                &&& is_str(lookup(after@, "requested_locale"@), requested)
                &&& lookup(after@, "language_match"@) == Some(
                    JsonValue::Bool(language_match(report, requested)),
                )
                &&& (match lookup(after@, "available_locales"@) {
                    Some(JsonValue::Array(items)) => strs_are(items@, available_locales(report)),
                    _ => false,
                })
                &&& forall|k: Seq<char>|
                    k != "title"@ && k != "content"@ && k != "locale"@ && k != "requested_locale"@
                        && k != "language_match"@ && k != "available_locales"@ ==> #[trigger] lookup(
                        after@,
                        k,
                    ) == lookup(before@, k)
            },
            _ => false,
        },
        _ => r == report,
    }
}

} // verus!

verus! {

/// The members that localisation sets have pairwise different names.
proof fn lemma_member_names_distinct()
    ensures
        "title"@ != "content"@,
        "title"@ != "locale"@,
        "title"@ != "requested_locale"@,
        "title"@ != "language_match"@,
        "title"@ != "available_locales"@,
        "content"@ != "locale"@,
        "content"@ != "requested_locale"@,
        "content"@ != "language_match"@,
        "content"@ != "available_locales"@,
        "locale"@ != "requested_locale"@,
        "locale"@ != "language_match"@,
        "locale"@ != "available_locales"@,
        "requested_locale"@ != "language_match"@,
        "requested_locale"@ != "available_locales"@,
        "language_match"@ != "available_locales"@,
{
    reveal_strlit("title");
    reveal_strlit("content");
    reveal_strlit("locale");
    reveal_strlit("requested_locale");
    reveal_strlit("language_match");
    reveal_strlit("available_locales");
    assert("title"@.len() == 5);
    assert("content"@.len() == 7);
    assert("locale"@.len() == 6);
    assert("requested_locale"@.len() == 16);
    assert("language_match"@.len() == 14);
    assert("available_locales"@.len() == 17);
}

/// The string value of member `key`, when it is a string.
fn string_member(entries: &Vec<(String, JsonValue)>, key: &str) -> (r: Option<String>)
    ensures
        match r {
            Some(s) => str_of(lookup(entries@, key@)) == Some(s@),
            None => str_of(lookup(entries@, key@)) is None,
        },
{
    match find_key(entries, key) {
        Some(i) => match &entries[i].1 {
            JsonValue::Str(s) => Some(s.clone()),
            _ => None,
        },
        None => None,
    }
}

/// Selects exactly the requested translation of a report. When the report has
/// no translation in `requested_locale` and is not written in it, its body is
/// replaced by `null`: a body in another language is never handed out, since
/// that would give a report in mixed languages.
pub fn localize_report(report: JsonValue, requested_locale: &str) -> (r: JsonValue)
    ensures
        localized_as_specified(report, requested_locale@, r),
        report is Object ==> member(r, "content"@) == Some(JsonValue::Null) || language_match(
            report,
            requested_locale@,
        ),
        report is Object ==> (is_str(member(r, "locale"@), requested_locale@) <==> language_match(
            report,
            requested_locale@,
        )),
{
    let legacy = infer_legacy_report_locale(&report);
    let available: Vec<String>;
    let has_translation: bool;
    let source: String;
    match report.get("content") {
        Some(content) => {
            match content.get("translations") {
                Some(JsonValue::Object(t)) => {
                    available = keys_vec(t);
                    has_translation = find_key(t, requested_locale).is_some();
                },
                _ => {
                    available = vec![String::from_str(legacy)];
                    has_translation = false;
                    assert(available.deep_view() =~= seq![legacy@]);
                },
            }
            source = match content.get("locale") {
                Some(l) => match l.as_str() {
                    Some(s) => String::from_str(s),
                    None => String::from_str(legacy),
                },
                None => String::from_str(legacy),
            };
        },
        None => {
            available = vec![String::from_str(legacy)];
            has_translation = false;
            source = String::from_str(legacy);
            assert(available.deep_view() =~= seq![legacy@]);
        },
    }
    assert(available.deep_view() == available_locales(report));
    assert(has_translation == translation_for(report, requested_locale@) is Some);
    assert(source@ == source_locale(report));
    let matched = has_translation || str_eq(source.as_str(), requested_locale);
    let response = if has_translation {
        String::from_str(requested_locale)
    } else {
        source
    };
    match report {
        JsonValue::Object(mut entries) => {
            let ghost before = entries@;
            if has_translation {
                let content = take_member(&mut entries, "content");
                let translation = match content {
                    Some(JsonValue::Object(mut ce)) => match take_member(&mut ce, "translations") {
                        Some(JsonValue::Object(mut te)) => take_member(&mut te, requested_locale),
                        _ => None,
                    },
                    _ => None,
                };
                assert(translation == translation_for(report, requested_locale@));
                let title: Option<String>;
                let body: JsonValue;
                match translation {
                    Some(JsonValue::Object(mut tr)) => {
                        title = string_member(&tr, "title");
                        body = match take_member(&mut tr, "content") {
                            Some(b) => b,
                            None => JsonValue::Null,
                        };
                    },
                    _ => {
                        title = None;
                        body = JsonValue::Null;
                    },
                }
                assert(match title {
                    Some(t) => localized_title_text(report, requested_locale@) == Some(t@),
                    None => localized_title_text(report, requested_locale@) is None,
                });
                let ghost mid = entries@;
                proof {
                    lemma_member_names_distinct();
                }
                match title {
                    Some(t) => set_member(&mut entries, "title", JsonValue::Str(t)),
                    None => {},
                }
                set_member(&mut entries, "content", body);
                proof {
                    match localized_title_text(report, requested_locale@) {
                        Some(t) => assert(is_str(lookup(entries@, "title"@), t)),
                        None => assert(lookup(entries@, "title"@) == lookup(before, "title"@)),
                    }
                }
            } else if !matched {
                set_member(&mut entries, "content", JsonValue::Null);
            }
            set_member(&mut entries, "locale", JsonValue::Str(response));
            set_member(
                &mut entries,
                "requested_locale",
                JsonValue::Str(String::from_str(requested_locale)),
            );
            set_member(&mut entries, "language_match", JsonValue::Bool(matched));
            set_member(&mut entries, "available_locales", string_array(available));
            proof {
                lemma_member_names_distinct();
            }
            JsonValue::Object(entries)
        },
        other => other,
    }
}

} // verus!

verus! {

proof fn lemma_lowered_tag(tag: Seq<char>, lower: Seq<char>)
    requires
        tag.len() == 5,
        lower.len() == 5,
        is_ascii_seq(tag),
        forall|i: int| 0 <= i < 5 ==> tag[i] != '_',
        forall|i: int| 0 <= i < 5 ==> ascii_lower_char(#[trigger] tag[i]) == lower[i],
    ensures
        unicode_lower(replace_char_seq(tag, '_', '-')) == lower,
{
    assert(replace_char_seq(tag, '_', '-') =~= tag);
    assert(unicode_lower(tag) == ascii_lower_seq(tag));
    assert(ascii_lower_seq(tag) =~= lower);
}

proof fn lemma_no_hant(v: Seq<char>)
    requires
        v.len() == 5,
        v[0] != 'h',
        v[1] != 'h' || v[2] != 'a',
    ensures
        !seq_contains(v, "hant"@),
{
    reveal_strlit("hant");
    assert forall|i: int| !occurs_at(v, "hant"@, i) by {
        if occurs_at(v, "hant"@, i) {
            assert(v.subrange(i, i + 4)[0] == 'h');
            assert(v.subrange(i, i + 4)[1] == 'a');
        }
    }
}

/// A selected report locale is one of `zh-TW`, `zh-CN` and `en-US`, and it
/// selects itself again: normalising a normalised locale changes nothing
/// (lower-casing ASCII text only lowers its letters `A` to `Z`).
pub proof fn normalized_locale_is_stable(locale: Option<Seq<char>>)
    ensures
        spec_normalize_report_locale(locale) == "zh-TW"@ || spec_normalize_report_locale(locale)
            == "zh-CN"@ || spec_normalize_report_locale(locale) == "en-US"@,
        spec_normalize_report_locale(Some(spec_normalize_report_locale(locale)))
            == spec_normalize_report_locale(locale),
{
    reveal_strlit("zh-TW");
    reveal_strlit("zh-CN");
    reveal_strlit("en-US");
    reveal_strlit("zh-tw");
    reveal_strlit("zh-hk");
    reveal_strlit("zh");
    let r = spec_normalize_report_locale(locale);
    let zt = seq!['z', 'h', '-', 't', 'w'];
    let zc = seq!['z', 'h', '-', 'c', 'n'];
    let eu = seq!['e', 'n', '-', 'u', 's'];
    if r == "zh-TW"@ {
        lemma_lowered_tag(r, zt);
        assert(zt =~= "zh-tw"@);
    } else if r == "zh-CN"@ {
        lemma_lowered_tag(r, zc);
        assert(zc != "zh-tw"@);
        assert(zc != "zh-hk"@);
        lemma_no_hant(zc);
        assert(zc.subrange(0, 2) =~= "zh"@);
    } else {
        lemma_lowered_tag(r, eu);
        assert(eu != "zh-tw"@);
        assert(eu != "zh-hk"@);
        lemma_no_hant(eu);
        assert(eu[0] != "zh"@[0]);
    }
}

} // verus!

verus! {

/// A report stored without a locale whose content holds a string with a CJK
/// ideograph (U+4E00 to U+9FFF) — the content itself, or the value of one of
/// its members — is read as Chinese, whatever its title says.
pub proof fn chinese_content_makes_a_chinese_report(
    report: JsonValue,
    content: JsonValue,
    s: String,
    i: int,
)
    requires
        member(report, "content"@) == Some(content),
        0 <= i < s@.len(),
        '\u{4e00}' <= s@[i] <= '\u{9fff}',
        content == JsonValue::Str(s) || (content matches JsonValue::Object(entries) && exists|k: int|
            0 <= k < entries@.len() && (#[trigger] entries@[k]).1 == JsonValue::Str(s)),
    ensures
        legacy_locale(report) == "zh-CN"@,
{
    string_cjk_is_its_characters(s);
    assert(json_has_cjk(JsonValue::Str(s)));
    if let JsonValue::Object(entries) = content {
        cjk_member_reaches_object(entries);
        let k = choose|k: int| 0 <= k < entries@.len() && (#[trigger] entries@[k]).1 == JsonValue::Str(s);
        assert(json_has_cjk(entries@[k].1));
    }
}

/// A report read as Chinese, with no translation for the requested locale
/// and no locale of its own, does not match any other requested locale: its
/// body is withheld (see `localize_report`).
pub proof fn chinese_report_does_not_match_other_locales(report: JsonValue, requested: Seq<char>)
    requires
        legacy_locale(report) == "zh-CN"@,
        translation_for(report, requested) is None,
        member(report, "content"@) matches Some(c) ==> str_of(member(c, "locale"@)) is None,
        requested != "zh-CN"@,
    ensures
        !language_match(report, requested),
        response_locale(report, requested) == "zh-CN"@,
{
}

} // verus!
