use money_routes::feeds::{
    all_failed_error, all_failed_message, feed_report, news_item_from_entry, news_items_from_entries, report_from_parse,
    source_error, successful_sources, total_fetched, FeedEntry,
};
use money_routes::error::RouteError;
use money_routes::timestamps::{hour_of_day, instant_from_clock, utc_now, UtcInstant};

fn at(seconds: i64) -> UtcInstant {
    UtcInstant { seconds, nanos: 0 }
}

fn entry(title: Option<&str>, link: Option<&str>) -> FeedEntry {
    FeedEntry {
        title: title.map(|t| t.to_string()),
        links: link.map(|l| vec![l.to_string()]).unwrap_or_default(),
        summary: None,
        body: None,
        published: None,
        updated: None,
    }
}

#[test]
fn entry_becomes_item_with_trimmed_fields() {
    let mut e = entry(Some("  Bitcoin rally continues  "), Some(" https://x.test/a "));
    e.summary = Some("ETF approval lifts $sol".to_string());
    e.body = Some("ignored body".to_string());
    e.updated = Some(at(100));
    let item = news_item_from_entry("CoinDesk", &e, at(999)).expect("item");
    assert_eq!(item.title, "Bitcoin rally continues");
    assert_eq!(item.url, "https://x.test/a");
    assert_eq!(item.source, "CoinDesk");
    assert_eq!(item.content.as_deref(), Some("ETF approval lifts $sol"));
    assert_eq!(item.published_at, at(100));
    // "rally" and "approval": score 2, so 0.7.
    assert_eq!(item.sentiment_tenths, 7);
    assert_eq!(item.related_symbols, vec!["BTC-USDT", "SOL-USDT"]);
}

#[test]
fn entry_dates_and_content_fall_back() {
    let mut e = entry(Some("Quiet day"), Some("https://x.test/b"));
    e.body = Some("body text".to_string());
    let item = news_item_from_entry("S", &e, at(42)).expect("item");
    assert_eq!(item.content.as_deref(), Some("body text"));
    assert_eq!(item.published_at, at(42));
    e.published = Some(at(7));
    e.updated = Some(at(8));
    let item = news_item_from_entry("S", &e, at(42)).expect("item");
    assert_eq!(item.published_at, at(7));
    let bare = entry(Some("Quiet day"), Some("https://x.test/b"));
    let item = news_item_from_entry("S", &bare, at(42)).expect("item");
    assert_eq!(item.content, None);
    assert_eq!(item.sentiment_tenths, 5);
}

#[test]
fn entries_without_title_or_link_are_skipped() {
    assert!(news_item_from_entry("S", &entry(None, Some("https://x")), at(0)).is_none());
    assert!(news_item_from_entry("S", &entry(Some("t"), None), at(0)).is_none());
    assert!(news_item_from_entry("S", &entry(Some("   "), Some("https://x")), at(0)).is_none());
    assert!(news_item_from_entry("S", &entry(Some("t"), Some("  ")), at(0)).is_none());
    let mut two = entry(Some("t"), Some("https://first"));
    two.links.push("https://second".to_string());
    assert_eq!(news_item_from_entry("S", &two, at(0)).unwrap().url, "https://first");
}

#[test]
fn long_title_and_content_are_cut() {
    let mut e = entry(Some(&"a".repeat(600)), Some("https://x"));
    e.summary = Some("b".repeat(25_000));
    let item = news_item_from_entry("S", &e, at(0)).expect("item");
    assert_eq!(item.title.chars().count(), 500);
    assert_eq!(item.content.unwrap().chars().count(), 20_000);
}

#[test]
fn only_the_first_fifty_entries_are_read() {
    let mut entries = Vec::new();
    for i in 0..60 {
        entries.push(entry(Some(&format!("t{i}")), Some(&format!("https://x/{i}"))));
    }
    entries[1] = entry(None, Some("https://skip"));
    let items = news_items_from_entries("S", &entries, at(0));
    assert_eq!(items.len(), 49);
    assert_eq!(items[0].title, "t0");
    assert_eq!(items[1].title, "t2");
    assert_eq!(items[48].title, "t49");
}

#[test]
fn parse_errors_and_failures_are_reported() {
    let r = report_from_parse("S", Err("boom".to_string()), at(0));
    assert_eq!(r.error.as_deref(), Some("feed parse failed: boom"));
    assert_eq!(r.fetched, 0);
    let ok = report_from_parse("T", Ok(vec![entry(Some("x"), Some("https://y"))]), at(0));
    assert_eq!(ok.error, None);
    assert_eq!(ok.fetched, 1);
    let failed = source_error("U", "request failed: timeout".to_string());
    let reports = vec![r, ok, failed];
    assert_eq!(successful_sources(&reports), 1);
    assert_eq!(total_fetched(&reports), 1);
    assert_eq!(
        all_failed_message(&reports),
        "All news sources failed: S: feed parse failed: boom; U: request failed: timeout"
    );
    assert_eq!(all_failed_message(&Vec::new()), "All news sources failed: ");
}

#[test]
fn rss_document_is_read_through_the_parser() {
    let rss = r#"<?xml version="1.0"?>
<rss version="2.0"><channel><title>c</title>
<item><title>Ethereum surge</title><link>https://news.test/1</link>
<description>crash fears fade</description>
<pubDate>Tue, 10 Jun 2025 04:00:00 GMT</pubDate></item>
<item><title>No link here</title></item>
</channel></rss>"#;
    let r = feed_report("Feed", rss.as_bytes());
    assert_eq!(r.error, None);
    assert_eq!(r.fetched, 1);
    let item = &r.items[0];
    assert_eq!(item.title, "Ethereum surge");
    assert_eq!(item.url, "https://news.test/1");
    assert_eq!(item.content.as_deref(), Some("crash fears fade"));
    assert_eq!(item.published_at, at(1_749_528_000));
    assert_eq!(item.sentiment_tenths, 5);
    assert_eq!(item.related_symbols, vec!["ETH-USDT"]);
    let bad = feed_report("Feed", b"not a feed");
    assert!(bad.error.unwrap().starts_with("feed parse failed: "));
    assert_eq!(bad.fetched, 0);
}

#[test]
fn hour_of_day_in_utc() {
    assert_eq!(hour_of_day(at(0)), 0);
    assert_eq!(hour_of_day(at(13 * 3600 + 59)), 13);
    assert_eq!(hour_of_day(at(-1)), 23);
    assert_eq!(hour_of_day(at(86_400 * 3 + 5 * 3600)), 5);
}

#[test]
fn failed_refresh_is_an_outside_error() {
    let reports = vec![source_error("S", "request failed: 500".to_string())];
    assert!(matches!(all_failed_error(&reports),
        RouteError::ExternalApi { service, message }
            if service == "news feeds" && message == "All news sources failed: S: request failed: 500"));
}

#[test]
fn clock_readings_become_instants() {
    assert_eq!(instant_from_clock(Some((5, 7))), Some(UtcInstant { seconds: 5, nanos: 7 }));
    assert_eq!(instant_from_clock(Some((u64::MAX, 0))), None);
    assert_eq!(instant_from_clock(None), None);
    let now = utc_now().expect("clock after 1970");
    assert!(now.seconds > 1_600_000_000);
}
