//! A user's notification preferences, read from the stored settings object.
use vstd::prelude::*;
use crate::json::{member, str_of, JsonValue};

verus! {

/// Which notifications a user gets, and where.
#[derive(Debug)]
pub struct NotificationSettings {
    pub email_enabled: bool,
    pub sms_enabled: bool,
    pub wechat_enabled: bool,
    pub stop_loss_enabled: bool,
    pub take_profit_enabled: bool,
    pub circuit_breaker_enabled: bool,
    pub liquidation_risk_enabled: bool,
    pub consecutive_loss_enabled: bool,
    pub market_volatility_enabled: bool,
    pub phone: Option<String>,
}

/// The flag `key` of the settings when it is a boolean, else `default`.
pub open spec fn flag_or(settings: JsonValue, key: Seq<char>, default: bool) -> bool {
    match member(settings, key) {
        Some(JsonValue::Bool(b)) => b,
        _ => default,
    }
}

fn get_flag(settings: &JsonValue, key: &str, default: bool) -> (b: bool)
    ensures
        b == flag_or(*settings, key@, default),
{
    match settings.get(key) {
        Some(JsonValue::Bool(b)) => *b,
        _ => default,
    }
}

/// The preferences a settings object gives: email and every alert on, SMS
/// and WeChat off, unless the object says otherwise; the phone when it holds
/// one as a string.
pub fn notification_settings_from(settings: &JsonValue) -> (n: NotificationSettings)
    ensures
        n.email_enabled == flag_or(*settings, "email_enabled"@, true),
        n.sms_enabled == flag_or(*settings, "sms_enabled"@, false),
        n.wechat_enabled == flag_or(*settings, "wechat_enabled"@, false),
        n.stop_loss_enabled == flag_or(*settings, "stop_loss_enabled"@, true),
        n.take_profit_enabled == flag_or(*settings, "take_profit_enabled"@, true),
        n.circuit_breaker_enabled == flag_or(*settings, "circuit_breaker_enabled"@, true),
        n.liquidation_risk_enabled == flag_or(*settings, "liquidation_risk_enabled"@, true),
        n.consecutive_loss_enabled == flag_or(*settings, "consecutive_loss_enabled"@, true),
        n.market_volatility_enabled == flag_or(*settings, "market_volatility_enabled"@, true),
        match n.phone {
            Some(p) => str_of(member(*settings, "phone"@)) == Some(p@),
            None => str_of(member(*settings, "phone"@)) is None,
        },
{
    let phone = match settings.get("phone") {
        Some(v) => match v.as_str() {
            Some(s) => Some(String::from_str(s)),
            None => None,
        },
        None => None,
    };
    NotificationSettings {
        email_enabled: get_flag(settings, "email_enabled", true),
        sms_enabled: get_flag(settings, "sms_enabled", false),
        wechat_enabled: get_flag(settings, "wechat_enabled", false),
        stop_loss_enabled: get_flag(settings, "stop_loss_enabled", true),
        take_profit_enabled: get_flag(settings, "take_profit_enabled", true),
        circuit_breaker_enabled: get_flag(settings, "circuit_breaker_enabled", true),
        liquidation_risk_enabled: get_flag(settings, "liquidation_risk_enabled", true),
        consecutive_loss_enabled: get_flag(settings, "consecutive_loss_enabled", true),
        market_volatility_enabled: get_flag(settings, "market_volatility_enabled", true),
        phone,
    }
}

} // verus!
