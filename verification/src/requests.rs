//! Request and response shapes shared by the agent endpoints, with the
//! defaults that requests fill in.
use vstd::prelude::*;
use crate::text::str_eq;

verus! {

/// The data frequency of a backtest job when the request names none.
pub fn default_freq() -> (f: String)
    ensures
        f@ == "1h"@,
{
    String::from_str("1h")
}

/// How many model cards a listing returns when the request says nothing.
pub fn default_limit() -> (n: i64)
    ensures
        n == 50,
{
    50
}

/// Whether a generated counterfactual is saved when the request says nothing.
pub fn default_save() -> (b: bool)
    ensures
        b,
{
    true
}

/// The answer of an agent endpoint: the data on success, the error otherwise.
#[derive(Debug)]
pub struct AgentResponse<T> {
    pub success: bool,
    pub data: Option<T>,
    pub error: Option<String>,
}

/// The answer of an evolution endpoint: the data on success, the error otherwise.
#[derive(Debug)]
pub struct EvolutionResponse<T> {
    pub success: bool,
    pub data: Option<T>,
    pub error: Option<String>,
}

/// The answer of a memory endpoint: the data on success, the error otherwise.
#[derive(Debug)]
pub struct MemoryResponse<T> {
    pub success: bool,
    pub data: Option<T>,
    pub error: Option<String>,
}

impl<T> AgentResponse<T> {
    /// A successful answer carrying `data`.
    pub fn ok(data: T) -> (r: Self)
        ensures
            r.success,
            r.data == Some(data),
            r.error is None,
    {
        AgentResponse { success: true, data: Some(data), error: None }
    }

    /// A failed answer carrying the error message.
    pub fn err(message: String) -> (r: Self)
        ensures
            !r.success,
            r.data is None,
            r.error == Some(message),
    {
        AgentResponse { success: false, data: None, error: Some(message) }
    }
}

impl<T> EvolutionResponse<T> {
    /// A successful answer carrying `data`.
    pub fn ok(data: T) -> (r: Self)
        ensures
            r.success,
            r.data == Some(data),
            r.error is None,
    {
        EvolutionResponse { success: true, data: Some(data), error: None }
    }

    /// A failed answer carrying the error message.
    pub fn err(message: String) -> (r: Self)
        ensures
            !r.success,
            r.data is None,
            r.error == Some(message),
    {
        EvolutionResponse { success: false, data: None, error: Some(message) }
    }
}

impl<T> MemoryResponse<T> {
    /// A successful answer carrying `data`.
    pub fn ok(data: T) -> (r: Self)
        ensures
            r.success,
            r.data == Some(data),
            r.error is None,
    {
        MemoryResponse { success: true, data: Some(data), error: None }
    }

    /// A failed answer carrying the error message.
    pub fn err(message: String) -> (r: Self)
        ensures
            !r.success,
            r.data is None,
            r.error == Some(message),
    {
        MemoryResponse { success: false, data: None, error: Some(message) }
    }
}

/// A listing of evolution records.
#[derive(Debug)]
pub struct EvolutionQuery {
    pub agent_id: Option<String>,
    pub limit: Option<i64>,
    pub offset: Option<i64>,
}

/// A listing of agent memories.
#[derive(Debug)]
pub struct MemoryQuery {
    pub agent_id: Option<String>,
    pub symbol: Option<String>,
    pub category: Option<String>,
    pub validated_only: Option<bool>,
    pub limit: Option<i64>,
    pub offset: Option<i64>,
}

/// A request to run a reflection.
#[derive(Debug)]
pub struct TriggerReflectionRequest {
    pub reflection_type: String,
    pub trigger: Option<String>,
}

/// One lesson the simulation draws from its record.
#[derive(Debug)]
pub struct ReflectionItem {
    pub category: String,
    pub insight: String,
    pub recommendation: String,
}

/// The reflections that can be run.
#[derive(Debug)]
pub enum ReflectionRun {
    DailyMorning,
    WeeklyReview,
    MonthlyArchitecture,
    /// A reflection set off by an event, named by the trigger.
    Triggered(String),
}

/// The message for an unknown reflection type.
pub open spec fn invalid_reflection_message() -> Seq<char> {
    "Invalid reflection type. Use: daily_morning, weekly_review, monthly_architecture, triggered"@
}

/// The reflection a request asks for: one of the four types (a triggered
/// reflection is named by its trigger, `manual` by default), or the error for
/// any other type.
pub fn reflection_to_run(req: &TriggerReflectionRequest) -> (r: Result<ReflectionRun, String>)
    ensures
        req.reflection_type@ == "daily_morning"@ ==> r matches Ok(ReflectionRun::DailyMorning),
        req.reflection_type@ == "weekly_review"@ ==> r matches Ok(ReflectionRun::WeeklyReview),
        req.reflection_type@ == "monthly_architecture"@ ==> r matches Ok(
            ReflectionRun::MonthlyArchitecture,
        ),
        req.reflection_type@ == "triggered"@ ==> (r matches Ok(ReflectionRun::Triggered(t)) && t@
            == match req.trigger {
            Some(x) => x@,
            None => "manual"@,
        }),
        !(req.reflection_type@ == "daily_morning"@ || req.reflection_type@ == "weekly_review"@
            || req.reflection_type@ == "monthly_architecture"@ || req.reflection_type@
            == "triggered"@) ==> (r matches Err(m) && m@ == invalid_reflection_message()),
{
    proof {
        reveal_strlit("daily_morning");
        reveal_strlit("weekly_review");
        reveal_strlit("monthly_architecture");
        reveal_strlit("triggered");
        assert("daily_morning"@.len() == 13);
        assert("weekly_review"@.len() == 13);
        assert("daily_morning"@[0] != "weekly_review"@[0]);
        assert("monthly_architecture"@.len() == 20);
        assert("triggered"@.len() == 9);
    }
    let t = req.reflection_type.as_str();
    if str_eq(t, "daily_morning") {
        Ok(ReflectionRun::DailyMorning)
    } else if str_eq(t, "weekly_review") {
        Ok(ReflectionRun::WeeklyReview)
    } else if str_eq(t, "monthly_architecture") {
        Ok(ReflectionRun::MonthlyArchitecture)
    } else if str_eq(t, "triggered") {
        let trigger = match &req.trigger {
            Some(x) => x.clone(),
            None => String::from_str("manual"),
        };
        Ok(ReflectionRun::Triggered(trigger))
    } else {
        Err(
            String::from_str(
                "Invalid reflection type. Use: daily_morning, weekly_review, monthly_architecture, triggered",
            ),
        )
    }
}

/// The calibration models that can be trained.
#[derive(PartialEq, Eq, Structural, Clone, Copy, Debug)]
pub enum CalibrationKind {
    Platt,
    Isotonic,
    Linear,
}

/// The calibration model a training request names, or the message refusing it.
pub fn calibration_kind(model_type: &str) -> (r: Result<CalibrationKind, String>)
    ensures
        model_type@ == "platt"@ ==> r == Ok::<CalibrationKind, String>(CalibrationKind::Platt),
        model_type@ == "isotonic"@ ==> r == Ok::<CalibrationKind, String>(CalibrationKind::Isotonic),
        model_type@ == "linear"@ ==> r == Ok::<CalibrationKind, String>(CalibrationKind::Linear),
        !(model_type@ == "platt"@ || model_type@ == "isotonic"@ || model_type@ == "linear"@) ==> (r matches Err(
            m,
        ) && m@ == "不支持的校准模型类型: "@ + model_type@ + "，可选: platt, isotonic, linear"@),
{
    proof {
        reveal_strlit("platt");
        reveal_strlit("isotonic");
        reveal_strlit("linear");
        assert("platt"@.len() == 5);
        assert("isotonic"@.len() == 8);
        assert("linear"@.len() == 6);
    }
    if str_eq(model_type, "platt") {
        Ok(CalibrationKind::Platt)
    } else if str_eq(model_type, "isotonic") {
        Ok(CalibrationKind::Isotonic)
    } else if str_eq(model_type, "linear") {
        Ok(CalibrationKind::Linear)
    } else {
        let mut m = String::from_str("不支持的校准模型类型: ");
        m.append(model_type);
        m.append("，可选: platt, isotonic, linear");
        Err(m)
    }
}

} // verus!

verus! {

/// Only an administrator passes; anyone else is refused.
pub fn require_admin(role: &str) -> (r: Result<(), crate::error::RouteError>)
    ensures
        r is Ok <==> role@ == "admin"@,
        r is Err ==> (r matches Err(crate::error::RouteError::Authorization(m)) && m@
            == "Admin access required"@),
{
    if str_eq(role, "admin") {
        Ok(())
    } else {
        Err(crate::error::RouteError::Authorization(String::from_str("Admin access required")))
    }
}

/// The exchanges of a backtest job: Binance unless the request names some.
pub fn job_exchanges(exchanges: Option<Vec<String>>) -> (r: Vec<String>)
    ensures
        match exchanges {
            Some(e) => r@ == e@,
            None => r.deep_view() == seq!["binance"@],
        },
{
    match exchanges {
        Some(e) => e,
        None => {
            let r = vec![String::from_str("binance")];
            assert(r.deep_view() =~= seq!["binance"@]);
            r
        },
    }
}

} // verus!
