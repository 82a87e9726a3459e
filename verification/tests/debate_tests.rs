use money_routes::debate::{
    agent_department, agent_id, agent_name, agent_personality, agent_role, opponent, Debate, DebateAction, DebateStyle, Department, LlmReply,
    OpinionSource, Stage,
};
use money_routes::replies::{clean_reply, Confidence};

fn answer(text: &str) -> LlmReply {
    LlmReply::Answered { raw: text.to_string() }
}

fn sentiment(word: &str) -> LlmReply {
    answer(&format!(
        "```json\n{{\"sentiment\": \"{word}\", \"confidence\": 0.8, \"analysis\": \"a\", \"key_factors\": [\"f\", null]}}\n```"
    ))
}

fn failed() -> LlmReply {
    LlmReply::Failed("timeout".to_string())
}

#[test]
fn blocking_debate_stops_when_first_analyst_fails() {
    let mut d = Debate::new(DebateStyle::Blocking);
    assert_eq!(d.next_action(), DebateAction::AskAgent(0));
    d.apply(failed());
    assert_eq!(d.stage, Stage::Failed);
    assert_eq!(d.next_action(), DebateAction::Aborted);
    assert_eq!(d.error.as_deref(), Some("timeout"));
}

#[test]
fn streaming_debate_falls_back_to_majorities() {
    let mut d = Debate::new(DebateStyle::Streaming);
    d.apply(sentiment("bullish"));
    d.apply(sentiment("bullish"));
    d.apply(sentiment("bearish"));
    d.apply(failed());
    d.apply(sentiment("bearish"));
    d.apply(sentiment("bearish"));
    assert_eq!(d.opinions.len(), 6);
    assert_eq!(d.opinions[3].source, OpinionSource::LlmError);
    assert_eq!(d.opinions[3].sentiment, "neutral");
    assert_eq!(d.opinions[3].analysis, "LLM调用失败: timeout");
    assert!(matches!(d.opinions[0].confidence, Confidence::Reported(ref n) if n == "0.8"));
    assert_eq!(d.opinions[0].key_factors, vec!["f".to_string()]);
    assert_eq!(d.next_action(), DebateAction::AskDepartment(Department::Technical));
    d.apply(failed());
    d.apply(failed());
    d.apply(failed());
    assert_eq!(d.reports[0].consensus, "bullish");
    assert_eq!(d.reports[1].consensus, "bearish");
    assert_eq!(d.reports[2].consensus, "bearish");
    assert_eq!(d.reports[0].bull_summary, "LLM不可用，基于分析师多数意见汇总");
    assert_eq!(d.next_action(), DebateAction::AskFundManager);
    d.apply(failed());
    assert_eq!(d.stage, Stage::Done);
    let decision = d.decision.as_ref().unwrap();
    assert_eq!(decision.action, "short");
    assert!(matches!(decision.confidence, Confidence::Majority));
    assert_eq!(decision.leverage, 2);
    assert_eq!(decision.reasoning, "LLM不可用，基于部门多数意见决策");
    assert_eq!(d.next_action(), DebateAction::Finished);
}

#[test]
fn simulation_debate_runs_a_rebuttal_round() {
    let mut d = Debate::new(DebateStyle::Simulation);
    for _ in 0..6 {
        d.apply(sentiment("bullish"));
    }
    assert_eq!(d.stage, Stage::Rebuttals);
    assert_eq!(d.next_action(), DebateAction::AskRebuttal { agent: 0, opponent: 1 });
    d.apply(sentiment("bearish"));
    assert_eq!(d.next_action(), DebateAction::AskRebuttal { agent: 1, opponent: 0 });
    d.apply(failed());
    for _ in 2..6 {
        d.apply(sentiment("bullish"));
    }
    assert_eq!(d.stage, Stage::Reports);
    let first = &d.opinions[0];
    assert_eq!(first.source, OpinionSource::Rebuttal);
    assert_eq!(first.sentiment, "bearish");
    let rev = first.revision.as_ref().unwrap();
    assert_eq!(rev.original_sentiment, "bullish");
    assert!(rev.sentiment_changed);
    let second = &d.opinions[1];
    assert_eq!(second.source, OpinionSource::RebuttalFallback);
    assert_eq!(second.sentiment, "bullish");
    assert!(!second.revision.as_ref().unwrap().sentiment_changed);
    d.apply(failed());
    assert_eq!(d.reports[0].consensus, "neutral");
    assert_eq!(d.reports[0].bull_summary, "基于多数意见");
}

#[test]
fn fund_manager_reply_is_read_with_defaults() {
    let mut d = Debate::new(DebateStyle::Streaming);
    for _ in 0..6 {
        d.apply(sentiment("neutral"));
    }
    for _ in 0..3 {
        d.apply(answer(r#"{"consensus": "bullish"}"#));
    }
    assert_eq!(d.reports[2].bull_summary, "");
    d.apply(answer(r#"{"action": "long", "leverage": 5, "stop_loss": 95.5, "take_profit": [110, "x"]}"#));
    let decision = d.decision.as_ref().unwrap();
    assert_eq!(decision.action, "long");
    assert_eq!(decision.leverage, 5);
    assert_eq!(decision.stop_loss.as_deref(), Some("95.5"));
    assert_eq!(decision.take_profit.as_ref().unwrap(), &vec!["110".to_string()]);
    assert!(matches!(decision.confidence, Confidence::Missing));
    assert!(decision.entry_range.is_none());
}

#[test]
fn unparsable_replies_keep_the_raw_text() {
    let mut d = Debate::new(DebateStyle::Streaming);
    d.apply(LlmReply::Answered { raw: "I think up".to_string() });
    assert_eq!(d.opinions[0].sentiment, "neutral");
    assert_eq!(d.opinions[0].analysis, "I think up");
    assert!(matches!(d.opinions[0].confidence, Confidence::Low));
}

#[test]
fn roster_pairs_analysts_by_department() {
    assert_eq!(agent_id(0), "tech_bull");
    assert_eq!(agent_id(5), "news_bear");
    assert_eq!(agent_department(3), Department::Capital);
    assert_eq!(opponent(4), 5);
    assert_eq!(opponent(5), 4);
    assert_eq!(Department::News.key(), "news");
    assert_eq!(Department::Technical.label(), "技术分析部");
}

#[test]
fn strips_code_fences_from_replies() {
    assert_eq!(clean_reply("  ```json\n{\"a\":1}\n```  "), "{\"a\":1}");
    assert_eq!(clean_reply("```{}```"), "{}");
    assert_eq!(clean_reply("plain"), "plain");
}

#[test]
fn analyst_roster_names_and_roles() {
    assert_eq!(agent_name(0), "技术分析师A");
    assert_eq!(agent_name(3), "资金分析师B");
    assert_eq!(agent_role(1), "技术分析师");
    assert_eq!(agent_role(2), "资金分析师");
    assert_eq!(agent_role(5), "新闻分析师");
    assert!(agent_personality(5).starts_with("擅长识别监管风险"));
}

#[test]
fn streaming_debate_asks_in_order() {
    let mut d = Debate::new(DebateStyle::Streaming);
    let mut actions = Vec::new();
    loop {
        let a = d.next_action();
        actions.push(a);
        if a == DebateAction::Finished || a == DebateAction::Aborted {
            break;
        }
        d.apply(sentiment("bullish"));
    }
    let expected = vec![
        DebateAction::AskAgent(0),
        DebateAction::AskAgent(1),
        DebateAction::AskAgent(2),
        DebateAction::AskAgent(3),
        DebateAction::AskAgent(4),
        DebateAction::AskAgent(5),
        DebateAction::AskDepartment(Department::Technical),
        DebateAction::AskDepartment(Department::Capital),
        DebateAction::AskDepartment(Department::News),
        DebateAction::AskFundManager,
        DebateAction::Finished,
    ];
    assert_eq!(actions, expected);
}

#[test]
fn departments_are_asked_about_their_own_analysts() {
    let mut d = Debate::new(DebateStyle::Streaming);
    for _ in 0..6 {
        d.apply(sentiment("bullish"));
    }
    assert_eq!(d.department_members(Department::Technical), vec![0, 1]);
    assert_eq!(d.department_members(Department::Capital), vec![2, 3]);
    assert_eq!(d.department_members(Department::News), vec![4, 5]);
}
