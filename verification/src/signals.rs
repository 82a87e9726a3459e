//! Trade recommendations: the market regime a request names and the risk
//! note it adds.
use vstd::prelude::*;
use crate::text::str_eq;

verus! {

/// The market regimes a recommendation can be made in.
#[derive(PartialEq, Eq, Structural, Clone, Copy, Debug)]
pub enum MarketRegime {
    TrendingBull,
    TrendingBear,
    Ranging,
    HighVolatility,
    Crisis,
}

/// The regime a request names; `None` for an unknown name.
pub open spec fn spec_market_regime(s: Seq<char>) -> Option<MarketRegime> {
    if s == "trending_bull"@ {
        Some(MarketRegime::TrendingBull)
    } else if s == "trending_bear"@ {
        Some(MarketRegime::TrendingBear)
    } else if s == "ranging"@ {
        Some(MarketRegime::Ranging)
    } else if s == "high_volatility"@ {
        Some(MarketRegime::HighVolatility)
    } else if s == "crisis"@ {
        Some(MarketRegime::Crisis)
    } else {
        None
    }
}

/// The regime a request names.
pub fn parse_market_regime(s: &str) -> (r: Option<MarketRegime>)
    ensures
        r == spec_market_regime(s@),
{
    if str_eq(s, "trending_bull") {
        Some(MarketRegime::TrendingBull)
    } else if str_eq(s, "trending_bear") {
        Some(MarketRegime::TrendingBear)
    } else if str_eq(s, "ranging") {
        Some(MarketRegime::Ranging)
    } else if str_eq(s, "high_volatility") {
        Some(MarketRegime::HighVolatility)
    } else if str_eq(s, "crisis") {
        Some(MarketRegime::Crisis)
    } else {
        None
    }
}

/// The risk a request's regime adds: a volatile or crisis market is not one
/// for large positions.
pub fn regime_risk_note(regime: &str) -> (r: Option<String>)
    ensures
        (regime@ == "high_volatility"@ || regime@ == "crisis"@) ==> (r matches Some(m) && m@
            == "市场状态为 "@ + regime@ + "，不适合大仓位"@),
        !(regime@ == "high_volatility"@ || regime@ == "crisis"@) ==> r is None,
{
    if str_eq(regime, "high_volatility") || str_eq(regime, "crisis") {
        let mut m = String::from_str("市场状态为 ");
        m.append(regime);
        m.append("，不适合大仓位");
        Some(m)
    } else {
        None
    }
}

} // verus!
