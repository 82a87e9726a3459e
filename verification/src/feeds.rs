//! Reading a news feed: its entries, as far as the news logic reads them,
//! become the news items that a refresh stores.
use vstd::prelude::*;
use crate::news::{detect_symbols, sentiment_tenths, spec_sentiment_score, symbols_in_lower, truncate};
use crate::text::{trim_seq, trim_str, unicode_lower};
use crate::error::RouteError;
use crate::timestamps::{utc_now, UtcInstant};

verus! {

/// What the news logic reads of one entry of a parsed feed: its title, the
/// addresses of its links in order, its summary, the body of its content and
/// its two dates.
pub struct FeedEntry {
    pub title: Option<String>,
    pub links: Vec<String>,
    pub summary: Option<String>,
    pub body: Option<String>,
    pub published: Option<UtcInstant>,
    pub updated: Option<UtcInstant>,
}

/// A feed entry as plain values.
pub struct FeedEntryView {
    pub title: Option<Seq<char>>,
    pub links: Seq<Seq<char>>,
    pub summary: Option<Seq<char>>,
    pub body: Option<Seq<char>>,
    pub published: Option<UtcInstant>,
    pub updated: Option<UtcInstant>,
}

/// The characters of an optional text.
pub open spec fn opt_text(o: Option<String>) -> Option<Seq<char>> {
    match o {
        Some(s) => Some(s@),
        None => None,
    }
}

impl View for FeedEntry {
    type V = FeedEntryView;

    open spec fn view(&self) -> FeedEntryView {
        FeedEntryView {
            title: opt_text(self.title),
            links: self.links.deep_view(),
            summary: opt_text(self.summary),
            body: opt_text(self.body),
            published: self.published,
            updated: self.updated,
        }
    }
}

/// The entries of a feed as plain values.
pub open spec fn entries_view(entries: Seq<FeedEntry>) -> Seq<FeedEntryView> {
    entries.map_values(|e: FeedEntry| e@)
}

/// What `feed_rs::parser::parse` reads from `bytes`: the entries of the feed
/// in the order of the document, or the text of its error.
pub uninterp spec fn parsed_feed(bytes: Seq<u8>) -> Result<Seq<FeedEntryView>, Seq<char>>;

/// Calls `feed_rs::parser::parse` on the bytes of a feed and hands out, for
/// each entry, its title text, the `href` of each of its links in order, its summary text,
/// its content body and its published and updated dates; on failure, the
/// error's text. What the parser reads from which bytes is left to the name.
#[verifier::external_body]
fn parse_feed(bytes: &[u8]) -> (r: Result<Vec<FeedEntry>, String>)
    ensures
        match r {
            Ok(v) => parsed_feed(bytes@) == Ok::<Seq<FeedEntryView>, Seq<char>>(entries_view(v@)),
            Err(e) => parsed_feed(bytes@) == Err::<Seq<FeedEntryView>, Seq<char>>(e@),
        },
{
    match feed_rs::parser::parse(bytes) {
        Ok(feed) => Ok(feed.entries.into_iter().map(|e| FeedEntry {
            title: e.title.map(|t| t.content),
            links: e.links.into_iter().map(|l| l.href).collect(),
            summary: e.summary.map(|t| t.content),
            body: e.content.and_then(|c| c.body),
            published: e.published.map(|d| UtcInstant { seconds: d.timestamp(), nanos: d.timestamp_subsec_nanos() }),
            updated: e.updated.map(|d| UtcInstant { seconds: d.timestamp(), nanos: d.timestamp_subsec_nanos() }),
        }).collect()),
        Err(error) => Err(error.to_string()),
    }
}

/// A stored news item; its sentiment is kept in tenths.
pub struct NewsItem {
    pub title: String,
    pub content: Option<String>,
    pub source: String,
    pub url: String,
    pub published_at: UtcInstant,
    pub sentiment_tenths: u32,
    pub related_symbols: Vec<String>,
}

/// A news item as plain values.
pub struct NewsItemView {
    pub title: Seq<char>,
    pub content: Option<Seq<char>>,
    pub source: Seq<char>,
    pub url: Seq<char>,
    pub published_at: UtcInstant,
    pub sentiment_tenths: int,
    pub related_symbols: Seq<Seq<char>>,
}

impl View for NewsItem {
    type V = NewsItemView;

    open spec fn view(&self) -> NewsItemView {
        NewsItemView {
            title: self.title@,
            content: opt_text(self.content),
            source: self.source@,
            url: self.url@,
            published_at: self.published_at,
            sentiment_tenths: self.sentiment_tenths as int,
            related_symbols: self.related_symbols.deep_view(),
        }
    }
}

/// News items as plain values.
pub open spec fn items_view(items: Seq<NewsItem>) -> Seq<NewsItemView> {
    items.map_values(|i: NewsItem| i@)
}

/// The first `n` characters of `s` (all of them when it is shorter).
pub open spec fn first_chars(s: Seq<char>, n: int) -> Seq<char> {
    if n < s.len() {
        s.take(n)
    } else {
        s
    }
}

/// The stored content of an entry: its summary, else its content body, each
/// cut to 20000 characters.
pub open spec fn entry_content(e: FeedEntryView) -> Option<Seq<char>> {
    match e.summary {
        Some(s) => Some(first_chars(s, 20000)),
        None => match e.body {
            Some(b) => Some(first_chars(b, 20000)),
            None => None,
        },
    }
}

/// The text that sentiment and symbols are read from: the trimmed title, a
/// space, and the content (or nothing).
pub open spec fn searchable_text(title: Seq<char>, content: Option<Seq<char>>) -> Seq<char> {
    title + " "@ + match content {
        Some(c) => c,
        None => Seq::empty(),
    }
}

/// The news item that an entry of the feed `source` gives: none when it has
/// no title or no link, or when either is blank once trimmed. Its date is the
/// published date, else the updated date, else `now`.
pub open spec fn entry_item(source: Seq<char>, e: FeedEntryView, now: UtcInstant) -> Option<
    NewsItemView,
> {
    match e.title {
        Some(t) if e.links.len() > 0 => {
            let title = trim_seq(t);
            let url = trim_seq(e.links[0]);
            if title.len() == 0 || url.len() == 0 {
                None
            } else {
                let content = entry_content(e);
                let lower = unicode_lower(searchable_text(title, content));
                Some(
                    NewsItemView {
                        title: first_chars(title, 500),
                        content,
                        source,
                        url,
                        published_at: match e.published {
                            Some(p) => p,
                            None => match e.updated {
                                Some(u) => u,
                                None => now,
                            },
                        },
                        sentiment_tenths: 5 + spec_sentiment_score(lower),
                        related_symbols: symbols_in_lower(lower),
                    },
                )
            }
        },
        _ => None,
    }
}

/// The items that the entries give, in order, skipping those that give none.
pub open spec fn items_of(source: Seq<char>, entries: Seq<FeedEntryView>, now: UtcInstant) -> Seq<
    NewsItemView,
>
    decreases entries.len(),
{
    if entries.len() == 0 {
        Seq::empty()
    } else {
        let rest = items_of(source, entries.drop_last(), now);
        match entry_item(source, entries.last(), now) {
            Some(item) => rest.push(item),
            None => rest,
        }
    }
}

/// The entries of a feed that a refresh reads: the first 50.
pub open spec fn read_entries(entries: Seq<FeedEntryView>) -> Seq<FeedEntryView> {
    if entries.len() < 50 {
        entries
    } else {
        entries.take(50)
    }
}

/// An optional item as plain values.
pub open spec fn opt_item(o: Option<NewsItem>) -> Option<NewsItemView> {
    match o {
        Some(i) => Some(i@),
        None => None,
    }
}

/// The news item that one entry of the feed `source` gives.
pub fn news_item_from_entry(source: &str, e: &FeedEntry, now: UtcInstant) -> (r: Option<NewsItem>)
    ensures
        opt_item(r) == entry_item(source@, e@, now),
{
    let t = match &e.title {
        Some(t) => t,
        None => return None,
    };
    if e.links.len() == 0 {
        return None;
    }
    let l = &e.links[0];
    let title = trim_str(t.as_str());
    let url = trim_str(l.as_str());
    if title.as_str().is_empty() || url.as_str().is_empty() {
        return None;
    }
    let content: Option<String> = match &e.summary {
        Some(s) => Some(truncate(s.as_str(), 20000)),
        None => match &e.body {
            Some(b) => Some(truncate(b.as_str(), 20000)),
            None => None,
        },
    };
    let mut searchable = title.as_str().to_owned();
    searchable.append(" ");
    match &content {
        Some(c) => searchable.append(c.as_str()),
        None => {},
    }
    proof {
        reveal_strlit(" ");
        assert(searchable@ =~= searchable_text(title@, opt_text(content)));
    }
    let tenths = sentiment_tenths(searchable.as_str());
    let symbols = detect_symbols(searchable.as_str());
    let published_at = match e.published {
        Some(p) => p,
        None => match e.updated {
            Some(u) => u,
            None => now,
        },
    };
    let short_title = truncate(title.as_str(), 500);
    proof {
        assert(short_title@ =~= first_chars(title@, 500));
        let ev = e@;
        if ev.summary is Some {
            let s = ev.summary->0;
            assert(s.take(if 20000 < s.len() { 20000 } else { s.len() as int }) =~= first_chars(s, 20000));
        } else if ev.body is Some {
            let b = ev.body->0;
            assert(b.take(if 20000 < b.len() { 20000 } else { b.len() as int }) =~= first_chars(b, 20000));
        }
    }
    let item = NewsItem {
        title: short_title,
        content,
        source: source.to_owned(),
        url,
        published_at,
        sentiment_tenths: tenths,
        related_symbols: symbols,
    };
    Some(item)
}

/// The news items that the first 50 entries of the feed `source` give, in
/// order; entries without a usable title or link are skipped, and an entry
/// without dates is dated `now`.
pub fn news_items_from_entries(source: &str, entries: &Vec<FeedEntry>, now: UtcInstant) -> (r: Vec<
    NewsItem,
>)
    ensures
        items_view(r@) == items_of(source@, read_entries(entries_view(entries@)), now),
{
    let n: usize = if entries.len() < 50 {
        entries.len()
    } else {
        50
    };
    let ghost all = entries_view(entries@);
    let mut out: Vec<NewsItem> = Vec::new();
    let mut i: usize = 0;
    while i < n
        invariant
            n <= entries.len(),
            n == if entries.len() < 50 { entries.len() as int } else { 50 },
            i <= n,
            all == entries_view(entries@),
            items_view(out@) == items_of(source@, all.take(i as int), now),
        decreases n - i,
    {
        let item = news_item_from_entry(source, &entries[i], now);
        proof {
            assert(all.take(i as int + 1).drop_last() =~= all.take(i as int));
            assert(all.take(i as int + 1).last() == entries[i as int]@);
        }
        let ghost before = out@;
        match item {
            Some(it) => {
                out.push(it);
                assert(items_view(out@) =~= items_view(before).push(it@));
            },
            None => {},
        }
        i = i + 1;
    }
    proof {
        assert(all.take(n as int) =~= read_entries(all));
    }
    out
}

/// What one feed source gave in a refresh: how many items it fetched, its
/// error if it failed, and the items.
pub struct SourceReport {
    pub source: String,
    pub fetched: usize,
    pub error: Option<String>,
    pub items: Vec<NewsItem>,
}

/// The report of a source that failed with `error`: nothing fetched.
pub fn source_error(source: &str, error: String) -> (r: SourceReport)
    ensures
        r.source@ == source@,
        r.fetched == 0,
        opt_text(r.error) == Some(error@),
        r.items@.len() == 0,
{
    SourceReport { source: source.to_owned(), fetched: 0, error: Some(error), items: Vec::new() }
}

/// The report of the source `source` once its feed was parsed into `parsed`:
/// a parse error is reported as `feed parse failed: ` and the error's text;
/// otherwise the items of its first 50 entries, and their count.
pub fn report_from_parse(source: &str, parsed: Result<Vec<FeedEntry>, String>, now: UtcInstant) -> (r:
    SourceReport)
    ensures
        r.source@ == source@,
        match parsed {
            Ok(v) => {
                &&& r.error is None
                &&& items_view(r.items@) == items_of(source@, read_entries(entries_view(v@)), now)
                &&& r.fetched == r.items@.len()
            },
            Err(e) => {
                &&& opt_text(r.error) == Some("feed parse failed: "@ + e@)
                &&& r.fetched == 0
                &&& r.items@.len() == 0
            },
        },
{
    match parsed {
        Ok(entries) => {
            let items = news_items_from_entries(source, &entries, now);
            SourceReport { source: source.to_owned(), fetched: items.len(), error: None, items }
        },
        Err(e) => {
            let mut message = String::from_str("feed parse failed: ");
            message.append(e.as_str());
            source_error(source, message)
        },
    }
}

/// The report of the source `source` whose feed document is `bytes`: the
/// document is parsed, and an entry without dates is dated at the moment of
/// the call (at the epoch when the clock reads before 1970).
pub fn feed_report(source: &str, bytes: &[u8]) -> (r: SourceReport)
    ensures
        r.source@ == source@,
        match parsed_feed(bytes@) {
            Ok(entries) => {
                &&& r.error is None
                &&& r.fetched == r.items@.len()
                &&& exists|now: UtcInstant|
                    items_view(r.items@) == #[trigger] items_of(source@, read_entries(entries), now)
            },
            Err(e) => {
                &&& opt_text(r.error) == Some("feed parse failed: "@ + e)
                &&& r.fetched == 0
                &&& r.items@.len() == 0
            },
        },
{
    let parsed = parse_feed(bytes);
    let now = match utc_now() {
        Some(t) => t,
        None => UtcInstant { seconds: 0, nanos: 0 },
    };
    let r = report_from_parse(source, parsed, now);
    proof {
        if parsed_feed(bytes@) is Ok {
            let entries = parsed_feed(bytes@)->Ok_0;
            assert(items_view(r.items@) == items_of(source@, read_entries(entries), now));
        }
    }
    r
}

/// The `source: error` parts of the failed reports, in order.
pub open spec fn failure_parts(reports: Seq<SourceReport>) -> Seq<Seq<char>>
    decreases reports.len(),
{
    if reports.len() == 0 {
        Seq::empty()
    } else {
        let rest = failure_parts(reports.drop_last());
        let last = reports.last();
        match last.error {
            Some(e) => rest.push(last.source@ + ": "@ + e@),
            None => rest,
        }
    }
}

/// The parts joined with `sep` between each two.
pub open spec fn join_parts(parts: Seq<Seq<char>>, sep: Seq<char>) -> Seq<char>
    decreases parts.len(),
{
    if parts.len() == 0 {
        Seq::empty()
    } else if parts.len() == 1 {
        parts[0]
    } else {
        join_parts(parts.drop_last(), sep) + sep + parts.last()
    }
}

/// The error of a refresh in which no source answered: `All news sources
/// failed: ` and the `source: error` of each failed source, joined by `; `.
pub fn all_failed_message(reports: &Vec<SourceReport>) -> (m: String)
    ensures
        m@ == "All news sources failed: "@ + join_parts(failure_parts(reports@), "; "@),
{
    let mut details = String::new();
    let mut any = false;
    let mut i: usize = 0;
    while i < reports.len()
        invariant
            i <= reports.len(),
            any == (failure_parts(reports@.take(i as int)).len() > 0),
            details@ == join_parts(failure_parts(reports@.take(i as int)), "; "@),
        decreases reports.len() - i,
    {
        let ghost parts = failure_parts(reports@.take(i as int));
        proof {
            assert(reports@.take(i as int + 1).drop_last() =~= reports@.take(i as int));
            assert(reports@.take(i as int + 1).last() == reports@[i as int]);
        }
        let r = &reports[i];
        match &r.error {
            Some(e) => {
                let ghost before = details@;
                if any {
                    details.append("; ");
                }
                details.append(r.source.as_str());
                details.append(": ");
                details.append(e.as_str());
                proof {
                    let part = r.source@ + ": "@ + e@;
                    let next = parts.push(part);
                    assert(next.drop_last() =~= parts);
                    if parts.len() == 0 {
                        assert(details@ =~= part);
                    } else {
                        assert(details@ =~= before + "; "@ + part);
                    }
                }
                any = true;
            },
            None => {},
        }
        i = i + 1;
    }
    proof {
        assert(reports@.take(reports@.len() as int) =~= reports@);
    }
    let mut m = String::from_str("All news sources failed: ");
    m.append(details.as_str());
    m
}

/// The error of a refresh in which no source answered: the news feeds, as an
/// outside service, with the message of `all_failed_message`.
pub fn all_failed_error(reports: &Vec<SourceReport>) -> (e: RouteError)
    ensures
        e matches RouteError::ExternalApi { service, message } && service@ == "news feeds"@
            && message@ == "All news sources failed: "@ + join_parts(failure_parts(reports@), "; "@),
{
    RouteError::ExternalApi {
        service: String::from_str("news feeds"),
        message: all_failed_message(reports),
    }
}

/// How many sources answered (reported no error).
pub open spec fn answered_count(reports: Seq<SourceReport>) -> nat
    decreases reports.len(),
{
    if reports.len() == 0 {
        0
    } else {
        answered_count(reports.drop_last()) + if reports.last().error is None {
            1nat
        } else {
            0nat
        }
    }
}

/// The number of sources that answered.
pub fn successful_sources(reports: &Vec<SourceReport>) -> (n: usize)
    ensures
        n == answered_count(reports@),
        n <= reports@.len(),
{
    let mut n: usize = 0;
    let mut i: usize = 0;
    while i < reports.len()
        invariant
            i <= reports.len(),
            n == answered_count(reports@.take(i as int)),
            n <= i,
        decreases reports.len() - i,
    {
        proof {
            assert(reports@.take(i as int + 1).drop_last() =~= reports@.take(i as int));
        }
        if reports[i].error.is_none() {
            n = n + 1;
        }
        i = i + 1;
    }
    proof {
        assert(reports@.take(reports@.len() as int) =~= reports@);
    }
    n
}

/// The items that all sources fetched together.
pub open spec fn fetched_sum(reports: Seq<SourceReport>) -> nat
    decreases reports.len(),
{
    if reports.len() == 0 {
        0
    } else {
        fetched_sum(reports.drop_last()) + reports.last().fetched as nat
    }
}

proof fn lemma_fetched_sum_prefix(reports: Seq<SourceReport>, i: int)
    requires
        0 <= i <= reports.len(),
    ensures
        fetched_sum(reports.take(i)) <= fetched_sum(reports),
    decreases reports.len() - i,
{
    if i < reports.len() {
        lemma_fetched_sum_prefix(reports, i + 1);
        assert(reports.take(i + 1).drop_last() =~= reports.take(i));
    } else {
        assert(reports.take(i) =~= reports);
    }
}

/// The number of items fetched over all sources.
pub fn total_fetched(reports: &Vec<SourceReport>) -> (n: usize)
    requires
        fetched_sum(reports@) <= usize::MAX,
    ensures
        n == fetched_sum(reports@),
{
    let mut n: usize = 0;
    let mut i: usize = 0;
    while i < reports.len()
        invariant
            i <= reports.len(),
            n == fetched_sum(reports@.take(i as int)),
            fetched_sum(reports@) <= usize::MAX,
        decreases reports.len() - i,
    {
        proof {
            assert(reports@.take(i as int + 1).drop_last() =~= reports@.take(i as int));
            lemma_fetched_sum_prefix(reports@, i as int + 1);
        }
        n = n + reports[i].fetched;
        i = i + 1;
    }
    proof {
        assert(reports@.take(reports@.len() as int) =~= reports@);
    }
    n
}

/// An item fit to store: a non-empty address, a title of 1 to 500
/// characters, content of at most 20000 characters, and a sentiment between
/// 1 and 9 tenths.
pub open spec fn storable(item: NewsItemView) -> bool {
    &&& item.url.len() > 0
    &&& 0 < item.title.len() <= 500
    &&& match item.content {
        Some(c) => c.len() <= 20000,
        None => true,
    }
    &&& 1 <= item.sentiment_tenths <= 9
}

proof fn lemma_items_of(source: Seq<char>, entries: Seq<FeedEntryView>, now: UtcInstant)
    ensures
        items_of(source, entries, now).len() <= entries.len(),
        forall|k: int|
            0 <= k < items_of(source, entries, now).len() ==> #[trigger] storable(
                items_of(source, entries, now)[k],
            ),
    decreases entries.len(),
{
    if entries.len() > 0 {
        lemma_items_of(source, entries.drop_last(), now);
        let e = entries.last();
        if let Some(item) = entry_item(source, e, now) {
            assert(storable(item));
        }
    }
}

/// A refresh reads at most 50 items from one feed, and every item it reads
/// is fit to store: it has an address, a title of at most 500 characters,
/// content of at most 20000 characters and a sentiment of 1 to 9 tenths.
pub proof fn feed_items_are_bounded(source: Seq<char>, entries: Seq<FeedEntryView>, now: UtcInstant)
    ensures
        items_of(source, read_entries(entries), now).len() <= 50,
        forall|k: int|
            0 <= k < items_of(source, read_entries(entries), now).len() ==> #[trigger] storable(
                items_of(source, read_entries(entries), now)[k],
            ),
{
    lemma_items_of(source, read_entries(entries), now);
}

} // verus!
