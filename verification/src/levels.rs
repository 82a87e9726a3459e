//! Trader levels of the agent simulation and the trading modes they unlock.
use vstd::prelude::*;
use crate::text::str_eq;

verus! {

/// The mode that a simulation at `level` trades in.
pub open spec fn spec_mode_for_level(level: int) -> Seq<char> {
    if level == 0 {
        "paper"@
    } else if level == 1 {
        "demo"@
    } else if level == 2 {
        "autonomous"@
    } else {
        "live"@
    }
}

/// Level 0 trades on paper, level 1 on the exchange's demo account, level 2
/// autonomously, every other level live.
pub fn mode_for_level(level: i32) -> (mode: String)
    ensures
        mode@ == spec_mode_for_level(level as int),
{
    if level == 0 {
        String::from_str("paper")
    } else if level == 1 {
        String::from_str("demo")
    } else if level == 2 {
        String::from_str("autonomous")
    } else {
        String::from_str("live")
    }
}

} // verus!

verus! {

/// The departments an analyst record can belong to.
#[derive(PartialEq, Eq, Structural, Clone, Copy, Debug)]
pub enum AgentDepartment {
    Technical,
    Capital,
    News,
    FundManager,
}

/// The stances an analyst record can take.
#[derive(PartialEq, Eq, Structural, Clone, Copy, Debug)]
pub enum AgentSentiment {
    Bullish,
    Bearish,
    Neutral,
    Cautious,
}

/// The department a stored name means; an unknown name means technical.
pub open spec fn spec_agent_department(s: Seq<char>) -> AgentDepartment {
    if s == "Technical"@ {
        AgentDepartment::Technical
    } else if s == "Capital"@ {
        AgentDepartment::Capital
    } else if s == "News"@ {
        AgentDepartment::News
    } else if s == "FundManager"@ {
        AgentDepartment::FundManager
    } else {
        AgentDepartment::Technical
    }
}

/// The department a stored name means (technical when unknown).
pub fn parse_agent_department(s: &str) -> (d: AgentDepartment)
    ensures
        d == spec_agent_department(s@),
{
    if str_eq(s, "Technical") {
        AgentDepartment::Technical
    } else if str_eq(s, "Capital") {
        AgentDepartment::Capital
    } else if str_eq(s, "News") {
        AgentDepartment::News
    } else if str_eq(s, "FundManager") {
        AgentDepartment::FundManager
    } else {
        AgentDepartment::Technical
    }
}

/// The stance a stored name means, if it names one.
pub open spec fn spec_agent_sentiment(s: Seq<char>) -> Option<AgentSentiment> {
    if s == "Bullish"@ {
        Some(AgentSentiment::Bullish)
    } else if s == "Bearish"@ {
        Some(AgentSentiment::Bearish)
    } else if s == "Neutral"@ {
        Some(AgentSentiment::Neutral)
    } else if s == "Cautious"@ {
        Some(AgentSentiment::Cautious)
    } else {
        None
    }
}

/// The stance a stored name means; `None` for an unknown name.
pub fn parse_agent_sentiment(s: &str) -> (r: Option<AgentSentiment>)
    ensures
        r == spec_agent_sentiment(s@),
{
    if str_eq(s, "Bullish") {
        Some(AgentSentiment::Bullish)
    } else if str_eq(s, "Bearish") {
        Some(AgentSentiment::Bearish)
    } else if str_eq(s, "Neutral") {
        Some(AgentSentiment::Neutral)
    } else if str_eq(s, "Cautious") {
        Some(AgentSentiment::Cautious)
    } else {
        None
    }
}

/// The title of a trader at `level`: intern, junior, senior, then fund manager
/// for level 3 and for any other level.
pub open spec fn spec_level_name(level: int) -> Seq<char> {
    if level == 0 {
        "实习交易员"@
    } else if level == 1 {
        "初级交易员"@
    } else if level == 2 {
        "资深交易员"@
    } else {
        "基金经理"@
    }
}

/// The title of a trader at `level`.
pub fn get_level_name(level: i32) -> (name: String)
    ensures
        name@ == spec_level_name(level as int),
{
    if level == 0 {
        String::from_str("实习交易员")
    } else if level == 1 {
        String::from_str("初级交易员")
    } else if level == 2 {
        String::from_str("资深交易员")
    } else {
        String::from_str("基金经理")
    }
}

/// The display name of a trading mode; an unknown mode is shown as it is.
pub open spec fn spec_mode_name(mode: Seq<char>) -> Seq<char> {
    if mode == "paper"@ {
        "模拟盘"@
    } else if mode == "demo"@ {
        "Demo盘"@
    } else if mode == "live"@ {
        "实盘"@
    } else {
        mode
    }
}

/// The display name of a trading mode.
pub fn get_mode_name(mode: &str) -> (name: String)
    ensures
        name@ == spec_mode_name(mode@),
{
    if str_eq(mode, "paper") {
        String::from_str("模拟盘")
    } else if str_eq(mode, "demo") {
        String::from_str("Demo盘")
    } else if str_eq(mode, "live") {
        String::from_str("实盘")
    } else {
        String::from_str(mode)
    }
}

} // verus!

verus! {

/// The names a level card shows.
#[derive(Debug)]
pub struct LevelLabels {
    pub current_level_name: String,
    pub current_mode: String,
    pub next_level_name: Option<String>,
    pub next_mode: Option<String>,
}

/// The names for a trader at `level` trading in `mode`, and for the next
/// level when there is one: its title and the display name of the mode it
/// unlocks.
pub fn level_labels(level: i32, mode: &str, next_level: Option<i32>) -> (l: LevelLabels)
    ensures
        l.current_level_name@ == spec_level_name(level as int),
        l.current_mode@ == spec_mode_name(mode@),
        match next_level {
            Some(n) => (l.next_level_name matches Some(x) && x@ == spec_level_name(n as int)) && (l.next_mode matches Some(
                x,
            ) && x@ == spec_mode_name(spec_mode_for_level(n as int))),
            None => l.next_level_name is None && l.next_mode is None,
        },
{
    let (next_level_name, next_mode) = match next_level {
        Some(n) => {
            let m = mode_for_level(n);
            (Some(get_level_name(n)), Some(get_mode_name(m.as_str())))
        },
        None => (None, None),
    };
    LevelLabels {
        current_level_name: get_level_name(level),
        current_mode: get_mode_name(mode),
        next_level_name,
        next_mode,
    }
}

} // verus!
