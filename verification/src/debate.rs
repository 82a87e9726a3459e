//! The analyst debate: six analysts in three departments give opinions,
//! (in the simulation) each answers the other analyst of its department,
//! every department sums up, and the fund manager decides. This module holds
//! the debate's decisions; the caller asks the language model what the next
//! action names and hands the reply back.
use vstd::prelude::*;
use crate::json::JsonValue;
use crate::replies::{
    agent_fields, dept_fields, fund_fields, parse_agent_json_response,
    parse_dept_report_response, parse_fund_manager_response, reply_json, Confidence,
    FundManagerParsed,
};
use crate::text::str_eq;

verus! {

/// The analysts' departments.
#[derive(PartialEq, Eq, Structural, Clone, Copy, Debug)]
pub enum Department {
    Technical,
    Capital,
    News,
}

/// How many analysts take part.
pub const AGENT_COUNT: usize = 6;

/// How many departments report.
pub const DEPARTMENT_COUNT: usize = 3;

/// The department of analyst `i`: two analysts each, in the order technical,
/// capital, news.
pub open spec fn spec_agent_department(i: int) -> Department {
    if i < 2 {
        Department::Technical
    } else if i < 4 {
        Department::Capital
    } else {
        Department::News
    }
}

/// The department that reports `k`-th.
pub open spec fn spec_department_at(k: int) -> Department {
    if k == 0 {
        Department::Technical
    } else if k == 1 {
        Department::Capital
    } else {
        Department::News
    }
}

/// The department of analyst `i`.
pub fn agent_department(i: usize) -> (d: Department)
    requires
        i < AGENT_COUNT,
    ensures
        d == spec_agent_department(i as int),
{
    if i < 2 {
        Department::Technical
    } else if i < 4 {
        Department::Capital
    } else {
        Department::News
    }
}

/// The department that reports `k`-th.
pub fn department_at(k: usize) -> (d: Department)
    requires
        k < DEPARTMENT_COUNT,
    ensures
        d == spec_department_at(k as int),
{
    if k == 0 {
        Department::Technical
    } else if k == 1 {
        Department::Capital
    } else {
        Department::News
    }
}

/// The identifier of analyst `i`.
pub open spec fn spec_agent_id(i: int) -> Seq<char> {
    if i == 0 {
        "tech_bull"@
    } else if i == 1 {
        "tech_bear"@
    } else if i == 2 {
        "capital_bull"@
    } else if i == 3 {
        "capital_bear"@
    } else if i == 4 {
        "news_bull"@
    } else {
        "news_bear"@
    }
}

/// The name of analyst `i`.
pub open spec fn spec_agent_name(i: int) -> Seq<char> {
    if i == 0 {
        "技术分析师A"@
    } else if i == 1 {
        "技术分析师B"@
    } else if i == 2 {
        "资金分析师A"@
    } else if i == 3 {
        "资金分析师B"@
    } else if i == 4 {
        "新闻分析师A"@
    } else {
        "新闻分析师B"@
    }
}

/// The role of analyst `i`.
pub open spec fn spec_agent_role(i: int) -> Seq<char> {
    if i < 2 {
        "技术分析师"@
    } else if i < 4 {
        "资金分析师"@
    } else {
        "新闻分析师"@
    }
}

/// The description of what it looks for of analyst `i`.
pub open spec fn spec_agent_personality(i: int) -> Seq<char> {
    if i == 0 {
        "擅长识别趋势突破、支撑阻力位、均线系统和量价关系，客观判断技术面方向"@
    } else if i == 1 {
        "擅长识别超买超卖、背离信号、形态破位和波动率异常，客观判断技术面风险"@
    } else if i == 2 {
        "擅长分析资金流入流出、持仓变化、订单簿深度和买盘力量，客观评估资金面"@
    } else if i == 3 {
        "擅长分析资金费率极端值、多空比拥挤度、杠杆率和清算风险，客观评估资金面风险"@
    } else if i == 4 {
        "擅长识别利好催化剂、行业合作和市场情绪回暖信号，客观评估消息面"@
    } else {
        "擅长识别监管风险、安全事件和系统性风险信号，客观评估消息面风险"@
    }
}

/// The identifier of analyst `i`.
pub fn agent_id(i: usize) -> (id: &'static str)
    requires
        i < AGENT_COUNT,
    ensures
        id@ == spec_agent_id(i as int),
{
    if i == 0 {
        "tech_bull"
    } else if i == 1 {
        "tech_bear"
    } else if i == 2 {
        "capital_bull"
    } else if i == 3 {
        "capital_bear"
    } else if i == 4 {
        "news_bull"
    } else {
        "news_bear"
    }
}

/// The name of analyst `i`.
pub fn agent_name(i: usize) -> (name: &'static str)
    requires
        i < AGENT_COUNT,
    ensures
        name@ == spec_agent_name(i as int),
{
    if i == 0 {
        "技术分析师A"
    } else if i == 1 {
        "技术分析师B"
    } else if i == 2 {
        "资金分析师A"
    } else if i == 3 {
        "资金分析师B"
    } else if i == 4 {
        "新闻分析师A"
    } else {
        "新闻分析师B"
    }
}

/// The role of analyst `i`.
pub fn agent_role(i: usize) -> (role: &'static str)
    requires
        i < AGENT_COUNT,
    ensures
        role@ == spec_agent_role(i as int),
{
    if i < 2 {
        "技术分析师"
    } else if i < 4 {
        "资金分析师"
    } else {
        "新闻分析师"
    }
}

/// What analyst `i` looks for.
pub fn agent_personality(i: usize) -> (p: &'static str)
    requires
        i < AGENT_COUNT,
    ensures
        p@ == spec_agent_personality(i as int),
{
    if i == 0 {
        "擅长识别趋势突破、支撑阻力位、均线系统和量价关系，客观判断技术面方向"
    } else if i == 1 {
        "擅长识别超买超卖、背离信号、形态破位和波动率异常，客观判断技术面风险"
    } else if i == 2 {
        "擅长分析资金流入流出、持仓变化、订单簿深度和买盘力量，客观评估资金面"
    } else if i == 3 {
        "擅长分析资金费率极端值、多空比拥挤度、杠杆率和清算风险，客观评估资金面风险"
    } else if i == 4 {
        "擅长识别利好催化剂、行业合作和市场情绪回暖信号，客观评估消息面"
    } else {
        "擅长识别监管风险、安全事件和系统性风险信号，客观评估消息面风险"
    }
}

impl Department {
    /// The department's key in stored reports.
    pub fn key(&self) -> (k: &'static str)
        ensures
            *self == Department::Technical ==> k@ == "technical"@,
            *self == Department::Capital ==> k@ == "capital"@,
            *self == Department::News ==> k@ == "news"@,
    {
        match self {
            Department::Technical => "technical",
            Department::Capital => "capital",
            Department::News => "news",
        }
    }

    /// The department's name as shown to the model.
    pub fn label(&self) -> (l: &'static str)
        ensures
            *self == Department::Technical ==> l@ == "技术分析部"@,
            *self == Department::Capital ==> l@ == "资金分析部"@,
            *self == Department::News ==> l@ == "新闻分析部"@,
    {
        match self {
            Department::Technical => "技术分析部",
            Department::Capital => "资金分析部",
            Department::News => "新闻分析部",
        }
    }
}

} // verus!

verus! {

/// Which of the three debate flows runs.
#[derive(PartialEq, Eq, Structural, Clone, Copy, Debug)]
pub enum DebateStyle {
    /// Answers in one response; the first analyst's failure ends the debate.
    Blocking,
    /// Streams each step; failures fall back to defaults.
    Streaming,
    /// Run by the trading simulation, with a round of rebuttals.
    Simulation,
}

/// Where an opinion comes from.
#[derive(PartialEq, Eq, Structural, Clone, Copy, Debug)]
pub enum OpinionSource {
    /// The model's answer.
    Llm,
    /// The model call failed; a neutral default.
    LlmError,
    /// The model's answer after seeing the opponent's case.
    Rebuttal,
    /// The rebuttal call failed; the first opinion is kept.
    RebuttalFallback,
}

/// How a rebuttal changed an opinion.
#[derive(Debug)]
pub struct Revision {
    pub original_sentiment: String,
    pub sentiment_changed: bool,
}

/// One analyst's opinion.
#[derive(Debug)]
pub struct AgentOpinion {
    /// The analyst's position in the roster.
    pub agent: usize,
    pub sentiment: String,
    pub confidence: Confidence,
    pub analysis: String,
    pub key_factors: Vec<String>,
    pub source: OpinionSource,
    pub revision: Option<Revision>,
}

/// One department's summary.
#[derive(Debug)]
pub struct DeptReport {
    pub department: Department,
    pub consensus: String,
    pub bull_summary: String,
    pub bear_summary: String,
}

/// The answer of one model call.
#[derive(Debug)]
pub enum LlmReply {
    /// The call failed with this message.
    Failed(String),
    /// The model answered `raw`; the JSON inside it is read by the debate.
    Answered { raw: String },
}

/// The step a debate is at.
#[derive(PartialEq, Eq, Structural, Clone, Copy, Debug)]
pub enum Stage {
    Agents,
    Rebuttals,
    Reports,
    Decision,
    Done,
    Failed,
}

/// What the caller does next.
#[derive(PartialEq, Eq, Structural, Clone, Copy, Debug)]
pub enum DebateAction {
    /// Ask analyst `0` for an opinion.
    AskAgent(usize),
    /// Ask analyst `agent` to answer the opinion of `opponent`.
    AskRebuttal { agent: usize, opponent: usize },
    /// Ask for the department's summary of its analysts' opinions.
    AskDepartment(Department),
    /// Ask the fund manager for the decision.
    AskFundManager,
    /// The debate is complete.
    Finished,
    /// The debate ended with an error.
    Aborted,
}

/// A debate in progress.
#[derive(Debug)]
pub struct Debate {
    pub style: DebateStyle,
    pub stage: Stage,
    /// The analyst or department whose answer is awaited.
    pub next: usize,
    pub opinions: Vec<AgentOpinion>,
    /// Opinions after the rebuttal round, while it runs.
    pub revised: Vec<AgentOpinion>,
    pub reports: Vec<DeptReport>,
    pub decision: Option<FundManagerParsed>,
    pub error: Option<String>,
}

/// The opinions are those of analysts `0, 1, ...`, in order.
pub open spec fn in_roster_order(ops: Seq<AgentOpinion>) -> bool {
    forall|k: int| 0 <= k < ops.len() ==> (#[trigger] ops[k]).agent == k
}

/// The reports are those of the departments in reporting order.
pub open spec fn in_department_order(reports: Seq<DeptReport>) -> bool {
    forall|k: int| 0 <= k < reports.len() ==> (#[trigger] reports[k]).department == spec_department_at(k)
}

impl Debate {
    /// The debate's parts fit the step it is at.
    pub open spec fn wf(&self) -> bool {
        &&& in_roster_order(self.opinions@)
        &&& in_roster_order(self.revised@)
        &&& in_department_order(self.reports@)
        &&& match self.stage {
            Stage::Agents => self.opinions@.len() == self.next && self.next < AGENT_COUNT
                && self.revised@.len() == 0 && self.reports@.len() == 0 && self.decision is None,
            Stage::Rebuttals => self.style == DebateStyle::Simulation && self.opinions@.len()
                == AGENT_COUNT && self.revised@.len() == self.next && self.next < AGENT_COUNT
                && self.reports@.len() == 0 && self.decision is None,
            Stage::Reports => self.opinions@.len() == AGENT_COUNT && self.reports@.len()
                == self.next && self.next < DEPARTMENT_COUNT && self.decision is None,
            Stage::Decision => self.opinions@.len() == AGENT_COUNT && self.reports@.len()
                == DEPARTMENT_COUNT && self.decision is None,
            Stage::Done => self.opinions@.len() == AGENT_COUNT && self.reports@.len()
                == DEPARTMENT_COUNT && self.decision is Some,
            Stage::Failed => self.error is Some,
        }
    }

    /// The action the debate's step calls for.
    pub open spec fn spec_next_action(&self) -> DebateAction {
        match self.stage {
            Stage::Agents => DebateAction::AskAgent(self.next),
            Stage::Rebuttals => DebateAction::AskRebuttal {
                agent: self.next,
                opponent: spec_opponent(self.next as int) as usize,
            },
            Stage::Reports => DebateAction::AskDepartment(spec_department_at(self.next as int)),
            Stage::Decision => DebateAction::AskFundManager,
            Stage::Done => DebateAction::Finished,
            Stage::Failed => DebateAction::Aborted,
        }
    }

    /// How many more model calls the debate can make.
    pub open spec fn calls_left(&self) -> nat {
        match self.stage {
            Stage::Agents => ((AGENT_COUNT - self.next) + (if self.style == DebateStyle::Simulation {
                AGENT_COUNT
            } else {
                0
            }) + DEPARTMENT_COUNT + 1) as nat,
            Stage::Rebuttals => ((AGENT_COUNT - self.next) + DEPARTMENT_COUNT + 1) as nat,
            Stage::Reports => ((DEPARTMENT_COUNT - self.next) + 1) as nat,
            Stage::Decision => 1,
            Stage::Done => 0,
            Stage::Failed => 0,
        }
    }

    /// A new debate, about to ask the first analyst.
    pub fn new(style: DebateStyle) -> (d: Debate)
        ensures
            d.wf(),
            d.style == style,
            d.stage == Stage::Agents,
            d.next == 0,
            d.calls_left() == if style == DebateStyle::Simulation { 16nat } else { 10nat },
    {
        Debate {
            style,
            stage: Stage::Agents,
            next: 0,
            opinions: Vec::new(),
            revised: Vec::new(),
            reports: Vec::new(),
            decision: None,
            error: None,
        }
    }

    /// The model call the debate waits for, or its end.
    pub fn next_action(&self) -> (a: DebateAction)
        requires
            self.wf(),
        ensures
            a == self.spec_next_action(),
    {
        match self.stage {
            Stage::Agents => DebateAction::AskAgent(self.next),
            Stage::Rebuttals => DebateAction::AskRebuttal {
                agent: self.next,
                opponent: opponent(self.next),
            },
            Stage::Reports => DebateAction::AskDepartment(department_at(self.next)),
            Stage::Decision => DebateAction::AskFundManager,
            Stage::Done => DebateAction::Finished,
            Stage::Failed => DebateAction::Aborted,
        }
    }
}

/// The other analyst of analyst `i`'s department.
pub open spec fn spec_opponent(i: int) -> int {
    if i % 2 == 0 {
        i + 1
    } else {
        i - 1
    }
}

/// The other analyst of analyst `i`'s department: the first analyst of the same
/// department with another identifier.
pub fn opponent(i: usize) -> (o: usize)
    requires
        i < AGENT_COUNT,
    ensures
        o == spec_opponent(i as int),
        o < AGENT_COUNT,
        o != i,
        spec_agent_department(o as int) == spec_agent_department(i as int),
        forall|k: int|
            0 <= k < o && k != i ==> spec_agent_department(k) != spec_agent_department(i as int),
{
    if i % 2 == 0 {
        i + 1
    } else {
        i - 1
    }
}

} // verus!

verus! {

/// How many opinions of department `d` have the sentiment `word`.
pub open spec fn sentiment_count(ops: Seq<AgentOpinion>, d: Department, word: Seq<char>) -> nat
    decreases ops.len(),
{
    if ops.len() == 0 {
        0
    } else {
        sentiment_count(ops.drop_last(), d, word) + if spec_agent_department(
            ops.last().agent as int,
        ) == d && ops.last().sentiment@ == word {
            1nat
        } else {
            0nat
        }
    }
}

/// How many reports have the consensus `word`.
pub open spec fn consensus_count(reports: Seq<DeptReport>, word: Seq<char>) -> nat
    decreases reports.len(),
{
    if reports.len() == 0 {
        0
    } else {
        consensus_count(reports.drop_last(), word) + if reports.last().consensus@ == word {
            1nat
        } else {
            0nat
        }
    }
}

/// The side with more votes, or `tie` when neither has more.
pub open spec fn majority(up: nat, down: nat, up_word: Seq<char>, down_word: Seq<char>, tie: Seq<char>) -> Seq<char> {
    if up > down {
        up_word
    } else if down > up {
        down_word
    } else {
        tie
    }
}

/// The analysis recorded when an analyst's call failed with `e`.
pub open spec fn failure_analysis(style: DebateStyle, e: Seq<char>) -> Seq<char> {
    if style == DebateStyle::Simulation {
        "LLM失败: "@ + e
    } else {
        "LLM调用失败: "@ + e
    }
}

/// The summary a department gets when its summary call failed.
pub open spec fn fallback_summary(style: DebateStyle) -> Seq<char> {
    if style == DebateStyle::Simulation {
        "基于多数意见"@
    } else {
        "LLM不可用，基于分析师多数意见汇总"@
    }
}

/// `o` is analyst `i`'s first-round opinion for `reply`.
pub open spec fn first_opinion(o: AgentOpinion, i: int, style: DebateStyle, reply: LlmReply) -> bool {
    &&& o.agent == i
    &&& o.revision is None
    &&& match reply {
        LlmReply::Answered { raw } => o.source == OpinionSource::Llm && agent_fields(
            o.sentiment@,
            o.confidence,
            o.analysis@,
            o.key_factors.deep_view(),
            raw@,
            reply_json(raw@),
        ),
        LlmReply::Failed(e) => {
            &&& o.source == OpinionSource::LlmError
            &&& o.sentiment@ == "neutral"@
            &&& o.confidence == Confidence::Low
            &&& o.analysis@ == failure_analysis(style, e@)
            &&& o.key_factors.deep_view() == Seq::<Seq<char>>::empty()
        },
    }
}

/// `o` is analyst `first.agent`'s opinion after answering its opponent with `reply`.
pub open spec fn rebutted_opinion(o: AgentOpinion, first: AgentOpinion, reply: LlmReply) -> bool {
    &&& o.agent == first.agent
    &&& match reply {
        LlmReply::Answered { raw } => {
            &&& o.source == OpinionSource::Rebuttal
            &&& agent_fields(
                o.sentiment@,
                o.confidence,
                o.analysis@,
                o.key_factors.deep_view(),
                raw@,
                reply_json(raw@),
            )
            &&& o.revision matches Some(r) && r.original_sentiment@ == first.sentiment@
                && r.sentiment_changed == (first.sentiment@ != o.sentiment@)
        },
        LlmReply::Failed(_) => {
            &&& o.source == OpinionSource::RebuttalFallback
            &&& o.sentiment@ == first.sentiment@
            &&& o.confidence == first.confidence
            &&& o.analysis@ == first.analysis@
            &&& o.key_factors.deep_view() == first.key_factors.deep_view()
            &&& o.revision matches Some(r) && r.original_sentiment@ == first.sentiment@
                && !r.sentiment_changed
        },
    }
}

/// `r` is department `d`'s summary for `reply`, given the analysts' opinions.
pub open spec fn department_report(
    r: DeptReport,
    d: Department,
    ops: Seq<AgentOpinion>,
    style: DebateStyle,
    reply: LlmReply,
) -> bool {
    &&& r.department == d
    &&& match reply {
        LlmReply::Answered { raw } => dept_fields(
            r.consensus@,
            r.bull_summary@,
            r.bear_summary@,
            reply_json(raw@),
        ),
        LlmReply::Failed(_) => {
            &&& r.consensus@ == majority(
                sentiment_count(ops, d, "bullish"@),
                sentiment_count(ops, d, "bearish"@),
                "bullish"@,
                "bearish"@,
                "neutral"@,
            )
            &&& r.bull_summary@ == fallback_summary(style)
            &&& r.bear_summary@ == fallback_summary(style)
        },
    }
}

/// `f` is the fund manager's decision for `reply`, given the departments' reports.
pub open spec fn fund_decision(f: FundManagerParsed, reports: Seq<DeptReport>, reply: LlmReply) -> bool {
    match reply {
        LlmReply::Answered { raw } => fund_fields(f, raw@, reply_json(raw@)),
        LlmReply::Failed(_) => {
            &&& f.action@ == majority(
                consensus_count(reports, "bullish"@),
                consensus_count(reports, "bearish"@),
                "long"@,
                "short"@,
                "hold"@,
            )
            &&& f.confidence == Confidence::Majority
            &&& f.entry_range is None
            &&& f.stop_loss is None
            &&& f.take_profit is None
            &&& f.leverage == 2
            &&& f.reasoning@ == "LLM不可用，基于部门多数意见决策"@
        },
    }
}

fn count_sentiment(ops: &Vec<AgentOpinion>, d: Department, word: &str) -> (n: usize)
    requires
        ops@.len() <= AGENT_COUNT,
        in_roster_order(ops@),
    ensures
        n == sentiment_count(ops@, d, word@),
        n <= ops@.len(),
{
    let mut n: usize = 0;
    let mut i: usize = 0;
    while i < ops.len()
        invariant
            i <= ops@.len() <= AGENT_COUNT,
            in_roster_order(ops@),
            n == sentiment_count(ops@.take(i as int), d, word@),
            n <= i,
        decreases ops.len() - i,
    {
        assert(ops@.take(i + 1).drop_last() =~= ops@.take(i as int));
        let a = ops[i].agent;
        if agent_department(a) == d && str_eq(ops[i].sentiment.as_str(), word) {
            n = n + 1;
        }
        i = i + 1;
    }
    assert(ops@.take(i as int) =~= ops@);
    n
}

fn count_consensus(reports: &Vec<DeptReport>, word: &str) -> (n: usize)
    requires
        reports@.len() <= DEPARTMENT_COUNT,
    ensures
        n == consensus_count(reports@, word@),
{
    let mut n: usize = 0;
    let mut i: usize = 0;
    while i < reports.len()
        invariant
            i <= reports@.len() <= DEPARTMENT_COUNT,
            n == consensus_count(reports@.take(i as int), word@),
            n <= i,
        decreases reports.len() - i,
    {
        assert(reports@.take(i + 1).drop_last() =~= reports@.take(i as int));
        if str_eq(reports[i].consensus.as_str(), word) {
            n = n + 1;
        }
        i = i + 1;
    }
    assert(reports@.take(i as int) =~= reports@);
    n
}

fn majority_word(up: usize, down: usize, up_word: &str, down_word: &str, tie: &str) -> (r: String)
    ensures
        r@ == majority(up as nat, down as nat, up_word@, down_word@, tie@),
{
    if up > down {
        String::from_str(up_word)
    } else if down > up {
        String::from_str(down_word)
    } else {
        String::from_str(tie)
    }
}

fn copy_strings(v: &Vec<String>) -> (r: Vec<String>)
    ensures
        r.deep_view() == v.deep_view(),
{
    let mut r: Vec<String> = Vec::new();
    let mut i: usize = 0;
    while i < v.len()
        invariant
            i <= v.len(),
            r@ == v@.take(i as int),
        decreases v.len() - i,
    {
        r.push(v[i].clone());
        assert(r@ =~= v@.take(i + 1));
        i = i + 1;
    }
    assert(v@.take(i as int) =~= v@);
    assert(r.deep_view() =~= v.deep_view());
    r
}

fn copy_confidence(c: &Confidence) -> (r: Confidence)
    ensures
        r == *c,
{
    match c {
        Confidence::Reported(t) => Confidence::Reported(t.clone()),
        Confidence::Missing => Confidence::Missing,
        Confidence::Low => Confidence::Low,
        Confidence::Majority => Confidence::Majority,
    }
}

} // verus!

verus! {

impl Debate {
    /// Takes the answer to the call that `next_action` asked for and moves the
    /// debate on: each analyst's opinion, each rebuttal, each department's
    /// summary and the decision come from the reply, or from the fallback when
    /// the call failed. In the blocking flow the first analyst's failure ends
    /// the debate with its error.
    pub fn apply(&mut self, reply: LlmReply)
        requires
            old(self).wf(),
            old(self).stage != Stage::Done,
            old(self).stage != Stage::Failed,
        ensures
            final(self).wf(),
            final(self).style == old(self).style,
            final(self).calls_left() < old(self).calls_left(),
            old(self).stage == Stage::Agents ==> {
                if old(self).style == DebateStyle::Blocking && old(self).next == 0
                    && reply is Failed {
                    &&& final(self).stage == Stage::Failed
                    &&& final(self).error matches Some(e) && reply matches LlmReply::Failed(m)
                        && e@ == m@
                    &&& final(self).opinions@ == old(self).opinions@
                    &&& final(self).reports@ == old(self).reports@
                } else {
                    let n = old(self).opinions@.len();
                    &&& final(self).opinions@.len() == n + 1
                    &&& final(self).opinions@.take(n as int) == old(self).opinions@
                    &&& final(self).reports@ == old(self).reports@
                    &&& final(self).revised@ == old(self).revised@
                    &&& final(self).next == if n + 1 < AGENT_COUNT { n + 1 } else { 0 }
                    &&& first_opinion(
                        final(self).opinions@[n as int],
                        n as int,
                        old(self).style,
                        reply,
                    )
                    &&& final(self).stage == if n + 1 < AGENT_COUNT {
                        Stage::Agents
                    } else if old(self).style == DebateStyle::Simulation {
                        Stage::Rebuttals
                    } else {
                        Stage::Reports
                    }
                }
            },
            old(self).stage == Stage::Rebuttals ==> {
                let i = old(self).next as int;
                &&& rebutted_opinion(
                    if i + 1 < AGENT_COUNT {
                        final(self).revised@[i]
                    } else {
                        final(self).opinions@[i]
                    },
                    old(self).opinions@[i],
                    reply,
                )
                &&& final(self).reports@ == old(self).reports@
                &&& i + 1 < AGENT_COUNT ==> final(self).opinions@ == old(self).opinions@
                    && final(self).revised@.len() == i + 1
                    && final(self).revised@.take(i) == old(self).revised@
                    && final(self).next == i + 1
                    && final(self).stage == Stage::Rebuttals
                &&& i + 1 == AGENT_COUNT ==> final(self).opinions@.len() == AGENT_COUNT
                    && final(self).opinions@.take(i) == old(self).revised@
                    && final(self).revised@.len() == 0
                    && final(self).next == 0
                    && final(self).stage == Stage::Reports
            },
            old(self).stage == Stage::Reports ==> {
                let k = old(self).next as int;
                &&& final(self).opinions@ == old(self).opinions@
                &&& final(self).reports@.len() == k + 1
                &&& final(self).reports@.take(k) == old(self).reports@
                &&& k + 1 < DEPARTMENT_COUNT ==> final(self).next == k + 1
                &&& department_report(
                    final(self).reports@[k],
                    spec_department_at(k),
                    old(self).opinions@,
                    old(self).style,
                    reply,
                )
                &&& final(self).stage == if k + 1 < DEPARTMENT_COUNT {
                    Stage::Reports
                } else {
                    Stage::Decision
                }
            },
            old(self).stage == Stage::Decision ==> {
                &&& final(self).stage == Stage::Done
                &&& final(self).opinions@ == old(self).opinions@
                &&& final(self).reports@ == old(self).reports@
                &&& final(self).decision matches Some(f) && fund_decision(
                    f,
                    old(self).reports@,
                    reply,
                )
            },
    {
        match self.stage {
            Stage::Agents => self.apply_agent(reply),
            Stage::Rebuttals => self.apply_rebuttal(reply),
            Stage::Reports => self.apply_report(reply),
            _ => self.apply_decision(reply),
        }
    }

    fn apply_agent(&mut self, reply: LlmReply)
        requires
            old(self).wf(),
            old(self).stage == Stage::Agents,
        ensures
            final(self).wf(),
            final(self).style == old(self).style,
            final(self).calls_left() < old(self).calls_left(),
            if old(self).style == DebateStyle::Blocking && old(self).next == 0 && reply is Failed {
                &&& final(self).stage == Stage::Failed
                &&& final(self).error matches Some(e) && reply matches LlmReply::Failed(m) && e@
                    == m@
                &&& final(self).opinions@ == old(self).opinions@
                &&& final(self).reports@ == old(self).reports@
            } else {
                let n = old(self).opinions@.len();
                &&& final(self).opinions@.len() == n + 1
                &&& final(self).opinions@.take(n as int) == old(self).opinions@
                &&& final(self).reports@ == old(self).reports@
                &&& final(self).revised@ == old(self).revised@
                &&& final(self).next == if n + 1 < AGENT_COUNT { n + 1 } else { 0 }
                &&& first_opinion(final(self).opinions@[n as int], n as int, old(self).style, reply)
                &&& final(self).stage == if n + 1 < AGENT_COUNT {
                    Stage::Agents
                } else if old(self).style == DebateStyle::Simulation {
                    Stage::Rebuttals
                } else {
                    Stage::Reports
                }
            },
    {
        let i = self.next;
        let opinion = match reply {
            LlmReply::Answered { raw } => {
                let p = parse_agent_json_response(raw.as_str());
                AgentOpinion {
                    agent: i,
                    sentiment: p.sentiment,
                    confidence: p.confidence,
                    analysis: p.analysis,
                    key_factors: p.key_factors,
                    source: OpinionSource::Llm,
                    revision: None,
                }
            },
            LlmReply::Failed(e) => {
                if self.style == DebateStyle::Blocking && i == 0 {
                    self.stage = Stage::Failed;
                    self.error = Some(e);
                    return ;
                }
                let mut analysis = if self.style == DebateStyle::Simulation {
                    String::from_str("LLM失败: ")
                } else {
                    String::from_str("LLM调用失败: ")
                };
                analysis.append(e.as_str());
                let key_factors: Vec<String> = Vec::new();
                assert(key_factors.deep_view() =~= Seq::<Seq<char>>::empty());
                AgentOpinion {
                    agent: i,
                    sentiment: String::from_str("neutral"),
                    confidence: Confidence::Low,
                    analysis,
                    key_factors,
                    source: OpinionSource::LlmError,
                    revision: None,
                }
            },
        };
        let ghost before = self.opinions@;
        self.opinions.push(opinion);
        assert(self.opinions@.take(before.len() as int) =~= before);
        if i + 1 < AGENT_COUNT {
            self.next = i + 1;
        } else if self.style == DebateStyle::Simulation {
            self.stage = Stage::Rebuttals;
            self.next = 0;
        } else {
            self.stage = Stage::Reports;
            self.next = 0;
        }
    }

    fn apply_rebuttal(&mut self, reply: LlmReply)
        requires
            old(self).wf(),
            old(self).stage == Stage::Rebuttals,
        ensures
            final(self).wf(),
            final(self).style == old(self).style,
            final(self).calls_left() < old(self).calls_left(),
            ({
                let i = old(self).next as int;
                &&& rebutted_opinion(
                    if i + 1 < AGENT_COUNT {
                        final(self).revised@[i]
                    } else {
                        final(self).opinions@[i]
                    },
                    old(self).opinions@[i],
                    reply,
                )
                &&& final(self).reports@ == old(self).reports@
                &&& i + 1 < AGENT_COUNT ==> final(self).opinions@ == old(self).opinions@
                    && final(self).revised@.len() == i + 1
                    && final(self).revised@.take(i) == old(self).revised@
                    && final(self).next == i + 1
                    && final(self).stage == Stage::Rebuttals
                &&& i + 1 == AGENT_COUNT ==> final(self).opinions@.len() == AGENT_COUNT
                    && final(self).opinions@.take(i) == old(self).revised@
                    && final(self).revised@.len() == 0
                    && final(self).next == 0
                    && final(self).stage == Stage::Reports
            }),
    {
        let i = self.next;
        let first = &self.opinions[i];
        let revised = match reply {
            LlmReply::Answered { raw } => {
                let p = parse_agent_json_response(raw.as_str());
                let changed = !str_eq(first.sentiment.as_str(), p.sentiment.as_str());
                AgentOpinion {
                    agent: i,
                    sentiment: p.sentiment,
                    confidence: p.confidence,
                    analysis: p.analysis,
                    key_factors: p.key_factors,
                    source: OpinionSource::Rebuttal,
                    revision: Some(
                        Revision {
                            original_sentiment: first.sentiment.clone(),
                            sentiment_changed: changed,
                        },
                    ),
                }
            },
            LlmReply::Failed(_) => AgentOpinion {
                agent: i,
                sentiment: first.sentiment.clone(),
                confidence: copy_confidence(&first.confidence),
                analysis: first.analysis.clone(),
                key_factors: copy_strings(&first.key_factors),
                source: OpinionSource::RebuttalFallback,
                revision: Some(
                    Revision { original_sentiment: first.sentiment.clone(), sentiment_changed: false },
                ),
            },
        };
        let ghost before = self.revised@;
        self.revised.push(revised);
        assert(self.revised@.take(before.len() as int) =~= before);
        if i + 1 < AGENT_COUNT {
            self.next = i + 1;
        } else {
            std::mem::swap(&mut self.opinions, &mut self.revised);
            self.revised = Vec::new();
            self.stage = Stage::Reports;
            self.next = 0;
        }
    }

    fn apply_report(&mut self, reply: LlmReply)
        requires
            old(self).wf(),
            old(self).stage == Stage::Reports,
        ensures
            final(self).wf(),
            final(self).style == old(self).style,
            final(self).calls_left() < old(self).calls_left(),
            ({
                let k = old(self).next as int;
                &&& final(self).opinions@ == old(self).opinions@
                &&& final(self).reports@.len() == k + 1
                &&& final(self).reports@.take(k) == old(self).reports@
                &&& k + 1 < DEPARTMENT_COUNT ==> final(self).next == k + 1
                &&& department_report(
                    final(self).reports@[k],
                    spec_department_at(k),
                    old(self).opinions@,
                    old(self).style,
                    reply,
                )
                &&& final(self).stage == if k + 1 < DEPARTMENT_COUNT {
                    Stage::Reports
                } else {
                    Stage::Decision
                }
            }),
    {
        let k = self.next;
        let d = department_at(k);
        let report = match reply {
            LlmReply::Answered { raw } => {
                let p = parse_dept_report_response(raw.as_str());
                DeptReport {
                    department: d,
                    consensus: p.consensus,
                    bull_summary: p.bull_summary,
                    bear_summary: p.bear_summary,
                }
            },
            LlmReply::Failed(_) => {
                let bull = count_sentiment(&self.opinions, d, "bullish");
                let bear = count_sentiment(&self.opinions, d, "bearish");
                let summary = if self.style == DebateStyle::Simulation {
                    "基于多数意见"
                } else {
                    "LLM不可用，基于分析师多数意见汇总"
                };
                DeptReport {
                    department: d,
                    consensus: majority_word(bull, bear, "bullish", "bearish", "neutral"),
                    bull_summary: String::from_str(summary),
                    bear_summary: String::from_str(summary),
                }
            },
        };
        let ghost before = self.reports@;
        self.reports.push(report);
        assert(self.reports@.take(before.len() as int) =~= before);
        if k + 1 < DEPARTMENT_COUNT {
            self.next = k + 1;
        } else {
            self.stage = Stage::Decision;
            self.next = 0;
        }
    }

    fn apply_decision(&mut self, reply: LlmReply)
        requires
            old(self).wf(),
            old(self).stage == Stage::Decision,
        ensures
            final(self).wf(),
            final(self).style == old(self).style,
            final(self).calls_left() < old(self).calls_left(),
            final(self).stage == Stage::Done,
            final(self).opinions@ == old(self).opinions@,
            final(self).reports@ == old(self).reports@,
            final(self).decision matches Some(f) && fund_decision(f, old(self).reports@, reply),
    {
        let decision = match reply {
            LlmReply::Answered { raw } => parse_fund_manager_response(raw.as_str()),
            LlmReply::Failed(_) => {
                let bull = count_consensus(&self.reports, "bullish");
                let bear = count_consensus(&self.reports, "bearish");
                FundManagerParsed {
                    action: majority_word(bull, bear, "long", "short", "hold"),
                    confidence: Confidence::Majority,
                    entry_range: None,
                    stop_loss: None,
                    take_profit: None,
                    leverage: 2,
                    reasoning: String::from_str("LLM不可用，基于部门多数意见决策"),
                }
            },
        };
        self.decision = Some(decision);
        self.stage = Stage::Done;
    }
}

} // verus!

verus! {

/// The places in `ops` of the opinions given by analysts of department `d`,
/// in order.
pub open spec fn members_of(ops: Seq<AgentOpinion>, d: Department) -> Seq<usize>
    decreases ops.len(),
{
    if ops.len() == 0 {
        Seq::empty()
    } else {
        let rest = members_of(ops.drop_last(), d);
        let a = ops.last().agent;
        if a < AGENT_COUNT && spec_agent_department(a as int) == d {
            rest.push((ops.len() - 1) as usize)
        } else {
            rest
        }
    }
}

impl Debate {
    /// Where in `opinions` the opinions of department `d`'s analysts stand,
    /// in order: what the department is asked to summarise.
    pub fn department_members(&self, d: Department) -> (r: Vec<usize>)
        ensures
            r@ == members_of(self.opinions@, d),
    {
        let mut r: Vec<usize> = Vec::new();
        let mut i: usize = 0;
        while i < self.opinions.len()
            invariant
                i <= self.opinions@.len(),
                r@ == members_of(self.opinions@.take(i as int), d),
            decreases self.opinions@.len() - i,
        {
            proof {
                assert(self.opinions@.take(i as int + 1).drop_last() =~= self.opinions@.take(i as int));
            }
            let a = self.opinions[i].agent;
            if a < AGENT_COUNT && agent_department(a) == d {
                r.push(i);
            }
            i = i + 1;
        }
        proof {
            assert(self.opinions@.take(self.opinions@.len() as int) =~= self.opinions@);
        }
        r
    }
}

/// Once every analyst has answered, the departments are asked in the order
/// technical, capital, news, each exactly once: the department asked at a
/// report step is the one after those already reported, and the fund manager
/// is asked only when all three have reported.
pub proof fn departments_asked_in_order(d: Debate)
    requires
        d.wf(),
    ensures
        spec_department_at(0) == Department::Technical,
        spec_department_at(1) == Department::Capital,
        spec_department_at(2) == Department::News,
        d.stage == Stage::Reports ==> d.spec_next_action() == DebateAction::AskDepartment(
            spec_department_at(d.reports@.len() as int),
        ),
        d.spec_next_action() == DebateAction::AskFundManager ==> d.reports@.len() == DEPARTMENT_COUNT,
        d.stage == Stage::Agents || d.stage == Stage::Rebuttals ==> d.reports@.len() == 0,
{
}

/// Analysts pair up within departments: each analyst's opponent is another
/// analyst of the same department, whose opponent is the first analyst again.
pub proof fn opponents_pair_up(i: int)
    requires
        0 <= i < AGENT_COUNT,
    ensures
        0 <= spec_opponent(i) < AGENT_COUNT,
        spec_opponent(i) != i,
        spec_agent_department(spec_opponent(i)) == spec_agent_department(i),
        spec_opponent(spec_opponent(i)) == i,
{
}

/// The fallback majority is even-handed: swapping the bullish and bearish
/// sides (votes and outcomes together) gives the same outcome, and a tie is
/// a tie.
pub proof fn majority_is_symmetric(up: nat, down: nat, a: Seq<char>, b: Seq<char>, tie: Seq<char>)
    ensures
        majority(down, up, b, a, tie) == majority(up, down, a, b, tie),
        up == down ==> majority(up, down, a, b, tie) == tie,
        majority(up, down, a, b, tie) == if up > down {
            a
        } else if down > up {
            b
        } else {
            tie
        },
{
}

} // verus!

verus! {

/// How many opinions have the sentiment `word`.
pub open spec fn word_count(ops: Seq<AgentOpinion>, word: Seq<char>) -> nat
    decreases ops.len(),
{
    if ops.len() == 0 {
        0
    } else {
        word_count(ops.drop_last(), word) + if ops.last().sentiment@ == word {
            1nat
        } else {
            0nat
        }
    }
}

/// How many opinions changed sentiment in the rebuttal round.
pub open spec fn changed_count(ops: Seq<AgentOpinion>) -> nat
    decreases ops.len(),
{
    if ops.len() == 0 {
        0
    } else {
        changed_count(ops.drop_last()) + if ops.last().revision matches Some(r) && r.sentiment_changed {
            1nat
        } else {
            0nat
        }
    }
}

/// The tallies that calibrate a decision's confidence: bullish opinions,
/// bearish opinions, all opinions, and opinions changed by a rebuttal.
pub fn opinion_tallies(ops: &Vec<AgentOpinion>) -> (r: (usize, usize, usize, usize))
    ensures
        r.0 == word_count(ops@, "bullish"@),
        r.1 == word_count(ops@, "bearish"@),
        r.2 == ops@.len(),
        r.3 == changed_count(ops@),
{
    let mut bull: usize = 0;
    let mut bear: usize = 0;
    let mut changed: usize = 0;
    let mut i: usize = 0;
    while i < ops.len()
        invariant
            i <= ops.len(),
            bull == word_count(ops@.take(i as int), "bullish"@),
            bear == word_count(ops@.take(i as int), "bearish"@),
            changed == changed_count(ops@.take(i as int)),
            bull <= i,
            bear <= i,
            changed <= i,
        decreases ops.len() - i,
    {
        assert(ops@.take(i + 1).drop_last() =~= ops@.take(i as int));
        if str_eq(ops[i].sentiment.as_str(), "bullish") {
            bull = bull + 1;
        }
        if str_eq(ops[i].sentiment.as_str(), "bearish") {
            bear = bear + 1;
        }
        match &ops[i].revision {
            Some(r) => if r.sentiment_changed {
                changed = changed + 1;
            },
            None => {},
        }
        i = i + 1;
    }
    assert(ops@.take(i as int) =~= ops@);
    (bull, bear, ops.len(), changed)
}

/// How many timeframes share the first timeframe's trend, when it is known.
pub open spec fn aligned(trends: Seq<Seq<char>>, first: Seq<char>) -> nat
    decreases trends.len(),
{
    if trends.len() == 0 {
        0
    } else {
        aligned(trends.drop_last(), first) + if trends.last() != "unknown"@ && trends.last() == first {
            1nat
        } else {
            0nat
        }
    }
}

/// How many timeframes agree with the first one (an unknown trend agrees with
/// nothing).
pub fn aligned_count(trends: &Vec<String>) -> (n: usize)
    ensures
        trends@.len() == 0 ==> n == 0,
        trends@.len() > 0 ==> n == aligned(trends.deep_view(), trends@[0]@),
{
    if trends.len() == 0 {
        return 0;
    }
    let first = trends[0].as_str();
    let mut n: usize = 0;
    let mut i: usize = 0;
    while i < trends.len()
        invariant
            i <= trends.len(),
            trends@.len() > 0,
            first@ == trends@[0]@,
            n == aligned(trends.deep_view().take(i as int), first@),
            n <= i,
        decreases trends.len() - i,
    {
        assert(trends.deep_view().take(i + 1).drop_last() =~= trends.deep_view().take(i as int));
        assert(trends.deep_view()[i as int] == trends@[i as int]@);
        if !str_eq(trends[i].as_str(), "unknown") && str_eq(trends[i].as_str(), first) {
            n = n + 1;
        }
        i = i + 1;
    }
    assert(trends.deep_view().take(i as int) =~= trends.deep_view());
    n
}

} // verus!
