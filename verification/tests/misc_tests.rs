use money_routes::dashboard::{greeting_for_hour, profit_trend_interval, quality_buckets, current_greeting};
use money_routes::error::RouteError;
use money_routes::json::JsonValue;
use money_routes::klines::{kline_page, kline_symbol_window, kline_window, KlineQuery, KlineSymbolQuery};
use money_routes::levels::{
    get_level_name, get_mode_name, mode_for_level, parse_agent_department, parse_agent_sentiment,
    AgentDepartment, AgentSentiment,
};
use money_routes::notifications::notification_settings_from;
use money_routes::orders::{
    check_order_code, okx_side, paper_order_side, plan_sl_tp, pos_side_param, split_order_ref, OrderSide,
};
use money_routes::replies::{literal_to_i64, parse_i64_text};
use money_routes::requests::{
    calibration_kind, default_freq, default_limit, default_save, reflection_to_run, AgentResponse,
    CalibrationKind, EvolutionResponse, MemoryResponse, ReflectionRun, TriggerReflectionRequest,
};
use money_routes::settings::{
    answered_proxy_result, client_proxy_url, failed_proxy_result, invalid_proxy_result,
    proxy_config_from_rows, proxy_update_rows, setting_value, should_use_proxy, UpdateProxyConfig,
};
use money_routes::simulation::{
    config_update_sql,
    close_reason, consecutive_losses, sim_step, trade_leverage, CloseReason, SimAction, SimEvent, SimState,
};
use money_routes::strategies::{strategy_status_from_text, transition, StrategyCommand, StrategyStatus};
use money_routes::text::{decimal, replace_all};
use money_routes::ticks::{check_orderbook_levels, check_tick_batch, orderbook_exchange, tick_error, tick_side};
use money_routes::timestamps::{backfill_bounds, backfill_status, parse_iso_dt, parse_to_timestamp, pick_timestamp, UtcInstant};

fn row(k: &str, v: &str) -> (String, String) {
    (k.to_string(), v.to_string())
}

#[test]
fn proxy_settings_read_back_what_an_update_wrote() {
    let mut rows = vec![row("proxy_url", "socks5://old:1080"), row("other", "x")];
    let cfg = proxy_config_from_rows(&rows);
    assert!(!cfg.enabled);
    assert_eq!(cfg.url, "socks5://old:1080");
    assert_eq!(cfg.proxy_type, "socks5");
    assert_eq!(cfg.test_url, "https://www.okx.com");
    let update = UpdateProxyConfig {
        enabled: Some(true),
        url: None,
        proxy_type: Some("http".to_string()),
        test_url: None,
    };
    rows.extend(proxy_update_rows(&update));
    let cfg = proxy_config_from_rows(&rows);
    assert!(cfg.enabled);
    assert_eq!(cfg.url, "socks5://old:1080");
    assert_eq!(cfg.proxy_type, "http");
    assert!(should_use_proxy(&cfg));
    let off = proxy_config_from_rows(&vec![row("proxy_enabled", "yes"), row("proxy_url", "")]);
    assert!(!off.enabled);
    assert!(!should_use_proxy(&off));
}

#[test]
fn proxy_results_and_urls() {
    let r = invalid_proxy_result("bad url");
    assert!(!r.success);
    assert_eq!(r.message, "代理配置无效: bad url");
    assert_eq!(r.latency_ms, None);
    let r = answered_proxy_result(true, "200 OK", 12);
    assert_eq!(r.message, "连接成功 (HTTP 200 OK)");
    assert_eq!(r.latency_ms, Some(12));
    let r = failed_proxy_result("refused", 3);
    assert_eq!(r.message, "连接失败: refused");
    assert_eq!(client_proxy_url("socks5h://127.0.0.1:7890"), "socks5://127.0.0.1:7890");
    assert_eq!(client_proxy_url("https://proxy:8080"), "http://proxy:8080");
    assert_eq!(replace_all("aaaa", "aa", "b"), "bb");
    let body = JsonValue::Object(vec![("value".to_string(), JsonValue::Str("v".to_string()))]);
    assert_eq!(setting_value(&body).unwrap(), "v");
    assert!(matches!(setting_value(&JsonValue::Null), Err(RouteError::Validation(_))));
}

#[test]
fn strategy_life_cycle() {
    assert_eq!(strategy_status_from_text("paused"), StrategyStatus::Paused);
    assert_eq!(strategy_status_from_text("done"), StrategyStatus::Other);
    assert_eq!(transition(Some(StrategyStatus::Created), StrategyCommand::Execute).unwrap(), StrategyStatus::Active);
    let paused = transition(Some(StrategyStatus::Active), StrategyCommand::Pause).unwrap();
    assert_eq!(transition(Some(paused), StrategyCommand::Resume).unwrap(), StrategyStatus::Active);
    match transition(Some(StrategyStatus::Cancelled), StrategyCommand::Resume) {
        Err(RouteError::NotFound(m)) => assert_eq!(m, "Strategy not found or not paused"),
        other => panic!("unexpected {:?}", other),
    }
    match transition(None, StrategyCommand::Cancel) {
        Err(RouteError::NotFound(m)) => assert_eq!(m, "Strategy not found or cannot be cancelled"),
        other => panic!("unexpected {:?}", other),
    }
}

#[test]
fn simulation_loop_steps() {
    let (s, a) = sim_step(SimState::Idle, SimEvent::Tick);
    assert_eq!((s, a), (SimState::AwaitStatus, SimAction::ReadStatus));
    let (s, a) = sim_step(s, SimEvent::Status(Some("running".to_string())));
    assert_eq!(a, SimAction::LoadConfig);
    let (s, a) = sim_step(s, SimEvent::Config(Some(20)));
    assert_eq!(a, SimAction::CloseDueTrades);
    let (s, a) = sim_step(s, SimEvent::Closed(false));
    assert_eq!(a, SimAction::CountTrades);
    let (s, a) = sim_step(s, SimEvent::Counts { today: 3, open: 1 });
    assert_eq!(s, SimState::Idle);
    assert_eq!(a, SimAction::Cycle { open_trade: false, update_stats: true, sleep_secs: 300 });
    let (_, a) = sim_step(SimState::AwaitCounts { max_daily: 20, after_close: true }, SimEvent::Counts { today: 3, open: 1 });
    assert_eq!(a, SimAction::Cycle { open_trade: true, update_stats: false, sleep_secs: 60 });
    let (s, a) = sim_step(SimState::AwaitStatus, SimEvent::Status(Some("stopped".to_string())));
    assert_eq!((s, a), (SimState::Stopped, SimAction::Stop));
    let (_, a) = sim_step(SimState::AwaitClosed { max_daily: 1 }, SimEvent::Closed(true));
    assert_eq!(a, SimAction::LoadConfig);
    assert_eq!(close_reason(None, 241), Some(CloseReason::Timeout));
    assert_eq!(close_reason(None, 240), None);
    assert_eq!(close_reason(Some(CloseReason::StopLoss), 500), Some(CloseReason::StopLoss));
    assert_eq!(CloseReason::TakeProfit.as_str(), "take_profit");
    assert_eq!(trade_leverage(5, 3), 3);
    assert_eq!(trade_leverage(0, 3), 1);
    assert_eq!(consecutive_losses(&vec![true, true, false, true]), 2);
    assert_eq!(consecutive_losses(&vec![]), 0);
}

#[test]
fn levels_and_names() {
    assert_eq!(parse_agent_department("News"), AgentDepartment::News);
    assert_eq!(parse_agent_department("news"), AgentDepartment::Technical);
    assert_eq!(parse_agent_sentiment("Cautious"), Some(AgentSentiment::Cautious));
    assert_eq!(parse_agent_sentiment("Up"), None);
    assert_eq!(get_level_name(1), "初级交易员");
    assert_eq!(get_level_name(7), "基金经理");
    assert_eq!(get_mode_name("demo"), "Demo盘");
    assert_eq!(get_mode_name("autonomous"), "autonomous");
    assert_eq!(mode_for_level(2), "autonomous");
    assert_eq!(mode_for_level(-1), "live");
}

#[test]
fn orders_and_sides() {
    assert_eq!(okx_side("long"), "buy");
    assert_eq!(okx_side("sell"), "sell");
    assert!(check_order_code("", "").is_ok());
    assert!(check_order_code("0", "").is_ok());
    match check_order_code("51008", "Insufficient balance") {
        Err(RouteError::ExternalApi { service, message }) => {
            assert_eq!(service, "OKX");
            assert_eq!(message, "Insufficient balance");
        }
        other => panic!("unexpected {:?}", other),
    }
    let (inst, ord) = split_order_ref("BTC-USDT-SWAP:123:4").unwrap();
    assert_eq!(inst, "BTC-USDT-SWAP");
    assert_eq!(ord, "123:4");
    assert!(matches!(split_order_ref("12345"), Err(RouteError::Validation(_))));
    let plan = plan_sl_tp("short", true, true).unwrap();
    assert_eq!(plan.close_side, "buy");
    assert_eq!(plan.ord_type, "oco");
    let plan = plan_sl_tp("long", false, true).unwrap();
    assert_eq!((plan.close_side, plan.ord_type), ("sell", "conditional"));
    assert!(plan_sl_tp("long", false, false).is_err());
    assert_eq!(pos_side_param(Some("")), None);
    assert_eq!(pos_side_param(Some("long")), Some("long"));
    assert_eq!(paper_order_side("LONG").unwrap(), OrderSide::Buy);
    assert_eq!(paper_order_side("sell").unwrap(), OrderSide::Sell);
    match paper_order_side("Hold") {
        Err(RouteError::Validation(m)) => assert_eq!(m, "Invalid side: hold"),
        other => panic!("unexpected {:?}", other),
    }
}

#[test]
fn request_defaults_and_shapes() {
    assert_eq!(default_freq(), "1h");
    assert_eq!(default_limit(), 50);
    assert!(default_save());
    let ok: AgentResponse<i32> = AgentResponse::ok(3);
    assert!(ok.success && ok.data == Some(3) && ok.error.is_none());
    let err: EvolutionResponse<i32> = EvolutionResponse::err("bad".to_string());
    assert!(!err.success && err.data.is_none());
    let mem: MemoryResponse<&str> = MemoryResponse::ok("m");
    assert_eq!(mem.data, Some("m"));
    let req = TriggerReflectionRequest { reflection_type: "triggered".to_string(), trigger: None };
    assert!(matches!(reflection_to_run(&req), Ok(ReflectionRun::Triggered(ref t)) if t == "manual"));
    let req = TriggerReflectionRequest { reflection_type: "hourly".to_string(), trigger: None };
    assert_eq!(
        reflection_to_run(&req).unwrap_err(),
        "Invalid reflection type. Use: daily_morning, weekly_review, monthly_architecture, triggered"
    );
    assert_eq!(calibration_kind("isotonic").unwrap(), CalibrationKind::Isotonic);
    assert_eq!(calibration_kind("beta").unwrap_err(), "不支持的校准模型类型: beta，可选: platt, isotonic, linear");
}

#[test]
fn kline_windows_and_pages() {
    let w = kline_window(KlineQuery { symbol: None, interval: None, limit: Some(5000), offset: None });
    assert_eq!((w.symbol.as_str(), w.interval.as_str(), w.limit, w.offset), ("BTC-USDT-SWAP", "1H", 2000, 0));
    let w = kline_symbol_window("ETH-USDT".to_string(), KlineSymbolQuery { interval: Some("4H".to_string()), limit: None, offset: Some(7) });
    assert_eq!((w.interval.as_str(), w.limit, w.offset), ("4H", 100, 7));
    assert_eq!(kline_page(250, 100), 3);
    assert_eq!(kline_page(5, 0), 6);
    assert_eq!(kline_page(-150, 100), 0);
}

#[test]
fn timestamps_of_backfills() {
    let t = parse_to_timestamp("2024-01-02T03:04:05Z").unwrap();
    assert_eq!(t, UtcInstant { seconds: 1704164645, nanos: 0 });
    let t = parse_to_timestamp("1704164645999").unwrap();
    assert_eq!(t, UtcInstant { seconds: 1704164645, nanos: 0 });
    let t = parse_to_timestamp("2024-01-02").unwrap();
    assert_eq!(t, UtcInstant { seconds: 1704153600, nanos: 0 });
    assert_eq!(parse_to_timestamp("yesterday").unwrap_err(), "Cannot parse timestamp: yesterday");
    let t = parse_to_timestamp("2024-01-02T03:04:05.5+01:00").unwrap();
    assert_eq!(t, UtcInstant { seconds: 1704161045, nanos: 500_000_000 });
    assert!(parse_iso_dt("2024-01-02T03:04:05Z").is_ok());
    assert!(matches!(parse_iso_dt("soon"), Err(RouteError::Validation(m)) if m == "invalid datetime: soon"));
    let a = UtcInstant { seconds: 1, nanos: 0 };
    assert_eq!(pick_timestamp("x", None, Some(a), None).unwrap(), a);
    assert_eq!(backfill_status(0), "completed");
    assert_eq!(backfill_status(2), "partial");
}

#[test]
fn integer_texts() {
    assert_eq!(parse_i64_text("+42"), Some(42));
    assert_eq!(parse_i64_text("-9223372036854775808"), Some(i64::MIN));
    assert_eq!(parse_i64_text("9223372036854775808"), None);
    assert_eq!(parse_i64_text("4 2"), None);
    assert_eq!(parse_i64_text(""), None);
    assert_eq!(literal_to_i64("+42"), None);
    assert_eq!(literal_to_i64("-3"), Some(-3));
    assert_eq!(literal_to_i64("3.0"), None);
    assert_eq!(decimal(0), "0");
    assert_eq!(decimal(1030), "1030");
}

#[test]
fn dashboard_choices() {
    assert_eq!(greeting_for_hour(5), "早上好");
    assert_eq!(greeting_for_hour(13), "中午好");
    assert_eq!(greeting_for_hour(18), "下午好");
    assert_eq!(greeting_for_hour(4), "晚上好");
    let g = current_greeting();
    assert!(["早上好", "中午好", "下午好", "晚上好"].contains(&g));
    assert_eq!(profit_trend_interval(Some("week")), "7 days");
    assert_eq!(profit_trend_interval(Some("year")), "1 day");
    assert_eq!(profit_trend_interval(None), "1 day");
    let grades = vec![Some("A".to_string()), Some("B".to_string()), Some("C".to_string()), Some("D".to_string()), None, Some("D".to_string())];
    assert_eq!(quality_buckets(&grades), (2, 1, 2));
}

#[test]
fn notification_preferences_default_on() {
    let n = notification_settings_from(&JsonValue::Null);
    assert!(n.email_enabled && !n.sms_enabled && !n.wechat_enabled && n.stop_loss_enabled);
    assert!(n.phone.is_none());
    let v = JsonValue::Object(vec![
        ("sms_enabled".to_string(), JsonValue::Bool(true)),
        ("email_enabled".to_string(), JsonValue::Str("no".to_string())),
        ("phone".to_string(), JsonValue::Str("123".to_string())),
    ]);
    let n = notification_settings_from(&v);
    assert!(n.sms_enabled && n.email_enabled);
    assert_eq!(n.phone.as_deref(), Some("123"));
}

#[test]
fn trade_tick_batches() {
    assert!(check_tick_batch(1).is_ok());
    assert!(matches!(check_tick_batch(0), Err(RouteError::Validation(m)) if m == "ticks must not be empty"));
    assert!(matches!(check_tick_batch(1001), Err(RouteError::Validation(m)) if m == "batch size must not exceed 1000"));
    assert_eq!(tick_side(0, true, "BUY").unwrap(), "buy");
    assert_eq!(tick_side(7, true, "hold").unwrap_err(), "tick[7]: side must be 'buy' or 'sell'");
    assert_eq!(tick_side(12, false, "buy").unwrap_err(), "tick[12]: price and size must be positive");
    assert_eq!(tick_error(3, "db down"), "tick[3]: db down");
}

#[test]
fn simulation_config_update_statements() {
    assert_eq!(config_update_sql(false, false), None);
    assert_eq!(
        config_update_sql(true, true),
        Some("UPDATE ai_simulation_configs SET symbol = $2, allowed_symbols = ARRAY[$3]::VARCHAR[], analysis_interval = $4, updated_at = NOW() WHERE id = $1")
    );
    assert_eq!(
        config_update_sql(false, true),
        Some("UPDATE ai_simulation_configs SET analysis_interval = $2, updated_at = NOW() WHERE id = $1")
    );
    assert_eq!(
        config_update_sql(true, false),
        Some("UPDATE ai_simulation_configs SET symbol = $2, allowed_symbols = ARRAY[$3]::VARCHAR[], updated_at = NOW() WHERE id = $1")
    );
}

#[test]
fn backfill_bounds_name_the_bad_bound() {
    let (a, b) = backfill_bounds("2024-01-02", "2024-01-03").unwrap();
    assert_eq!(a, UtcInstant { seconds: 1704153600, nanos: 0 });
    assert_eq!(b, UtcInstant { seconds: 1704240000, nanos: 0 });
    assert!(matches!(backfill_bounds("x", "2024-01-03"),
        Err(RouteError::Validation(m)) if m == "Invalid from: Cannot parse timestamp: x"));
    assert!(matches!(backfill_bounds("2024-01-02", "y"),
        Err(RouteError::Validation(m)) if m == "Invalid to: Cannot parse timestamp: y"));
}

#[test]
fn orderbook_snapshots_need_both_sides() {
    assert!(check_orderbook_levels(1, 1).is_ok());
    assert!(matches!(check_orderbook_levels(0, 3),
        Err(RouteError::Validation(m)) if m == "bids and asks must not be empty"));
    assert!(check_orderbook_levels(2, 0).is_err());
    assert_eq!(orderbook_exchange(None), "okx");
    assert_eq!(orderbook_exchange(Some("binance")), "binance");
}

#[test]
fn trimming_knows_unicode_white_space() {
    assert_eq!(money_routes::text::trim_str("\u{3000}\u{a0} BTC\t\n"), "BTC");
    assert_eq!(money_routes::text::trim_str("\u{200b}x"), "\u{200b}x");
    assert_eq!(money_routes::news::normalize_symbol("\u{2003}btc_usdt "), "BTC-USDT");
}
