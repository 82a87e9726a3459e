use money_routes::news::{
    detect_symbols, duplicate_count, news_page_window, normalize_symbol, normalize_upper_symbol,
    refresh_status, sentiment_score, sentiment_tenths, truncate, RefreshStatus,
};

#[test]
fn normalizes_and_detects_symbols() {
    assert_eq!(normalize_symbol("btc/usdt"), "BTC-USDT");
    assert_eq!(normalize_symbol("eth"), "ETH-USDT");
    assert_eq!(
        detect_symbols("Bitcoin and Solana rally"),
        vec!["BTC-USDT", "SOL-USDT"]
    );
}

#[test]
fn sentiment_stays_bounded() {
    let high = sentiment_tenths("surge rally gain bull approval adoption breakout") as f64 / 10.0;
    let low = sentiment_tenths("crash hack fraud ban") as f64 / 10.0;
    assert!(high <= 1.0);
    assert!(low >= 0.0);
}

#[test]
fn sentiment_score_counts_keywords_and_clamps() {
    assert_eq!(sentiment_score("surge rally gain bull approval adoption breakout"), 4);
    assert_eq!(sentiment_score("crash hack fraud ban"), -4);
    assert_eq!(sentiment_score("A record high after ETF approval"), 2);
    assert_eq!(sentiment_score("Markets are quiet"), 0);
    assert_eq!(sentiment_score("Rally fades into a drop"), 0);
    assert_eq!(sentiment_tenths("Exchange hack"), 4);
}

#[test]
fn normalizes_spellings_of_pairs() {
    assert_eq!(normalize_symbol("  sol_usdt "), "SOL-USDT");
    assert_eq!(normalize_symbol("BTC-USDT-SWAP"), "BTC-USDT-SWAP");
    assert_eq!(normalize_upper_symbol("DOGE"), "DOGE-USDT");
    assert_eq!(normalize_upper_symbol("XRP/USD"), "XRP-USD");
}

#[test]
fn detects_symbols_by_keyword_and_in_fixed_order() {
    assert_eq!(detect_symbols("$DOGE and ripple gain"), vec!["XRP-USDT", "DOGE-USDT"]);
    assert_eq!(detect_symbols("Ethereum upgrade"), vec!["ETH-USDT"]);
    assert!(detect_symbols("nothing here").is_empty());
    assert_eq!(detect_symbols("btc at the start is not a word match"), Vec::<String>::new());
}

#[test]
fn truncates_by_characters() {
    assert_eq!(truncate("比特币上涨", 2), "比特");
    assert_eq!(truncate("abc", 10), "abc");
    assert_eq!(truncate("abc", 0), "");
}

#[test]
fn refresh_status_by_answering_sources() {
    assert_eq!(refresh_status(3, 3), RefreshStatus::Success);
    assert_eq!(refresh_status(1, 3), RefreshStatus::PartialSuccess);
    assert_eq!(refresh_status(0, 3), RefreshStatus::AllFailed);
    assert_eq!(RefreshStatus::PartialSuccess.as_str(), "partial_success");
    assert_eq!(duplicate_count(10, 4), 6);
    assert_eq!(duplicate_count(2, 5), 0);
}

#[test]
fn news_pages_are_clamped() {
    assert_eq!(news_page_window(None, None), (1, 20, 0));
    assert_eq!(news_page_window(Some(0), Some(500)), (1, 100, 0));
    assert_eq!(news_page_window(Some(3), Some(0)), (3, 1, 2));
    assert_eq!(news_page_window(Some(2), Some(25)), (2, 25, 25));
}
