//! The trading simulation's background loop: each cycle checks that the
//! simulation still runs, closes trades whose levels or holding time are
//! reached, and opens a new trade when the daily limit allows. The loop's
//! decisions are a step function from its state and the last event to its next
//! state and action; the caller performs the action and reports back.
use vstd::prelude::*;
use crate::text::str_eq;

verus! {

/// Where the loop is in its cycle.
#[derive(PartialEq, Eq, Structural, Clone, Copy, Debug)]
pub enum SimState {
    /// Between cycles.
    Idle,
    /// Waiting for the simulation's status.
    AwaitStatus,
    /// Waiting for the simulation's configuration.
    AwaitConfig,
    /// Waiting to hear whether a due trade was closed; `max_daily` is the
    /// configured daily trade limit.
    AwaitClosed { max_daily: i32 },
    /// Waiting for the configuration again after a trade was closed.
    AwaitReload,
    /// Waiting for the trade counts.
    AwaitCounts { max_daily: i32, after_close: bool },
    /// The loop has ended.
    Stopped,
}

/// What the caller reports.
#[derive(Debug)]
pub enum SimEvent {
    /// The loop starts, or the last cycle's action is done.
    Tick,
    /// The stored status, if the simulation still exists.
    Status(Option<String>),
    /// The daily trade limit of the configuration, if it could be loaded.
    Config(Option<i32>),
    /// Whether some open trade was closed.
    Closed(bool),
    /// Trades opened in the last day, and trades still open.
    Counts { today: i64, open: i64 },
}

/// What the caller does next.
#[derive(PartialEq, Eq, Structural, Clone, Copy, Debug)]
pub enum SimAction {
    ReadStatus,
    LoadConfig,
    /// Close each open trade whose stop loss or take profit is reached or that
    /// is held too long.
    CloseDueTrades,
    CountTrades,
    /// Try to open a trade (when `open_trade`), update the running statistics
    /// (when `update_stats`), then sleep.
    Cycle { open_trade: bool, update_stats: bool, sleep_secs: u64 },
    Stop,
}

/// The loop's next state and action.
pub open spec fn spec_sim_step(state: SimState, event: SimEvent) -> (SimState, SimAction) {
    match (state, event) {
        (SimState::Idle, SimEvent::Tick) => (SimState::AwaitStatus, SimAction::ReadStatus),
        (SimState::AwaitStatus, SimEvent::Status(s)) => if s matches Some(x) && x@ == "running"@ {
            (SimState::AwaitConfig, SimAction::LoadConfig)
        } else {
            (SimState::Stopped, SimAction::Stop)
        },
        (SimState::AwaitConfig, SimEvent::Config(c)) => match c {
            Some(m) => (SimState::AwaitClosed { max_daily: m }, SimAction::CloseDueTrades),
            None => (SimState::Stopped, SimAction::Stop),
        },
        (SimState::AwaitClosed { max_daily }, SimEvent::Closed(any)) => if any {
            (SimState::AwaitReload, SimAction::LoadConfig)
        } else {
            (SimState::AwaitCounts { max_daily, after_close: false }, SimAction::CountTrades)
        },
        (SimState::AwaitReload, SimEvent::Config(c)) => match c {
            Some(m) => (SimState::AwaitCounts { max_daily: m, after_close: true }, SimAction::CountTrades),
            None => (SimState::Stopped, SimAction::Stop),
        },
        (SimState::AwaitCounts { max_daily, after_close }, SimEvent::Counts { today, open }) => if after_close {
            (
                SimState::Idle,
                SimAction::Cycle { open_trade: today < max_daily, update_stats: false, sleep_secs: 60 },
            )
        } else {
            (
                SimState::Idle,
                SimAction::Cycle {
                    open_trade: today < max_daily && open == 0,
                    update_stats: true,
                    sleep_secs: 300,
                },
            )
        },
        _ => (SimState::Stopped, SimAction::Stop),
    }
}

/// One step of the loop. A status other than `running`, a configuration that
/// cannot be loaded, or an event the state does not wait for ends the loop.
/// After a close the loop re-reads the configuration, opens a trade only under
/// the daily limit and sleeps a minute; otherwise it opens a trade only under
/// the limit and with no trade open, updates its statistics and sleeps five
/// minutes.
pub fn sim_step(state: SimState, event: SimEvent) -> (r: (SimState, SimAction))
    ensures
        r == spec_sim_step(state, event),
{
    match (state, event) {
        (SimState::Idle, SimEvent::Tick) => (SimState::AwaitStatus, SimAction::ReadStatus),
        (SimState::AwaitStatus, SimEvent::Status(s)) => {
            let running = match &s {
                Some(x) => str_eq(x.as_str(), "running"),
                None => false,
            };
            if running {
                (SimState::AwaitConfig, SimAction::LoadConfig)
            } else {
                (SimState::Stopped, SimAction::Stop)
            }
        },
        (SimState::AwaitConfig, SimEvent::Config(c)) => match c {
            Some(m) => (SimState::AwaitClosed { max_daily: m }, SimAction::CloseDueTrades),
            None => (SimState::Stopped, SimAction::Stop),
        },
        (SimState::AwaitClosed { max_daily }, SimEvent::Closed(any)) => if any {
            (SimState::AwaitReload, SimAction::LoadConfig)
        } else {
            (SimState::AwaitCounts { max_daily, after_close: false }, SimAction::CountTrades)
        },
        (SimState::AwaitReload, SimEvent::Config(c)) => match c {
            Some(m) => (SimState::AwaitCounts { max_daily: m, after_close: true }, SimAction::CountTrades),
            None => (SimState::Stopped, SimAction::Stop),
        },
        (SimState::AwaitCounts { max_daily, after_close }, SimEvent::Counts { today, open }) => {
            if after_close {
                (
                    SimState::Idle,
                    SimAction::Cycle {
                        open_trade: today < max_daily as i64,
                        update_stats: false,
                        sleep_secs: 60,
                    },
                )
            } else {
                (
                    SimState::Idle,
                    SimAction::Cycle {
                        open_trade: today < max_daily as i64 && open == 0,
                        update_stats: true,
                        sleep_secs: 300,
                    },
                )
            }
        },
        _ => (SimState::Stopped, SimAction::Stop),
    }
}

/// Once stopped, the loop stays stopped whatever it hears.
pub proof fn stopped_is_final(event: SimEvent)
    ensures
        spec_sim_step(SimState::Stopped, event) == (SimState::Stopped, SimAction::Stop),
{
}

/// A cycle never opens a trade once the day's limit is reached, nor, outside
/// the re-analysis after a close, while a trade is still open.
pub proof fn no_trade_over_limit(max_daily: i32, after_close: bool, today: i64, open: i64)
    ensures
        spec_sim_step(
            SimState::AwaitCounts { max_daily, after_close },
            SimEvent::Counts { today, open },
        ).1 matches SimAction::Cycle { open_trade, .. } && (open_trade ==> today < max_daily && (
        !after_close ==> open == 0)),
{
}

/// The loop's state after it has heard `events`, one after another, from `start`.
pub open spec fn state_after(start: SimState, events: Seq<SimEvent>) -> SimState
    decreases events.len(),
{
    if events.len() == 0 {
        start
    } else {
        spec_sim_step(state_after(start, events.drop_last()), events.last()).0
    }
}

/// The action the loop takes on hearing the `k`-th of `events`.
pub open spec fn action_at(start: SimState, events: Seq<SimEvent>, k: int) -> SimAction {
    spec_sim_step(state_after(start, events.take(k)), events[k]).1
}

/// The loop is inside a cycle, past its status check.
pub open spec fn mid_cycle(s: SimState) -> bool {
    s is AwaitConfig || s is AwaitClosed || s is AwaitReload || s is AwaitCounts
}

/// The event reports the status `running`.
pub open spec fn running_status(e: SimEvent) -> bool {
    e matches SimEvent::Status(Some(x)) && x@ == "running"@
}

/// Within a run, the cycle's status check: the `j`-th event answered the
/// status read with `running`, and the loop has stayed inside that cycle up to
/// and including the state after the `k`-th event.
pub open spec fn checked_running_since(events: Seq<SimEvent>, j: int, k: int) -> bool {
    &&& 0 <= j < k
    &&& state_after(SimState::Idle, events.take(j)) == SimState::AwaitStatus
    &&& running_status(events[j])
    &&& forall|m: int| j < m <= k ==> mid_cycle(#[trigger] state_after(SimState::Idle, events.take(m)))
}

proof fn lemma_state_after_step(start: SimState, events: Seq<SimEvent>, k: int)
    requires
        0 <= k < events.len(),
    ensures
        state_after(start, events.take(k + 1)) == spec_sim_step(
            state_after(start, events.take(k)),
            events[k],
        ).0,
{
    assert(events.take(k + 1).drop_last() =~= events.take(k));
    assert(events.take(k + 1).last() == events[k]);
}

proof fn lemma_mid_cycle_checked(events: Seq<SimEvent>, k: int)
    requires
        0 <= k <= events.len(),
        mid_cycle(state_after(SimState::Idle, events.take(k))),
    ensures
        exists|j: int| #[trigger] checked_running_since(events, j, k),
    decreases k,
{
    if k == 0 {
        assert(events.take(0) =~= Seq::<SimEvent>::empty());
    } else {
        lemma_state_after_step(SimState::Idle, events, k - 1);
        let p = state_after(SimState::Idle, events.take(k - 1));
        if p == SimState::AwaitStatus {
            assert(checked_running_since(events, k - 1, k));
        } else {
            assert(mid_cycle(p));
            lemma_mid_cycle_checked(events, k - 1);
            let j = choose|j: int| #[trigger] checked_running_since(events, j, k - 1);
            assert(checked_running_since(events, j, k));
        }
    }
}

/// Over a whole run from the start: the loop closes trades, or tries to open
/// one, only in a cycle whose status check answered `running` — some earlier
/// event reported `running` and the loop has stayed inside that cycle since.
pub proof fn trades_only_while_running(events: Seq<SimEvent>, k: int)
    requires
        0 <= k < events.len(),
        action_at(SimState::Idle, events, k) == SimAction::CloseDueTrades || action_at(
            SimState::Idle,
            events,
            k,
        ) matches SimAction::Cycle { open_trade: true, .. },
    ensures
        exists|j: int| #[trigger] checked_running_since(events, j, k),
{
    let st = state_after(SimState::Idle, events.take(k));
    assert(mid_cycle(st));
    lemma_mid_cycle_checked(events, k);
}

proof fn lemma_stays_stopped(events: Seq<SimEvent>, j: int, k: int)
    requires
        0 <= j <= k <= events.len(),
        state_after(SimState::Idle, events.take(j)) == SimState::Stopped,
    ensures
        state_after(SimState::Idle, events.take(k)) == SimState::Stopped,
    decreases k - j,
{
    if j < k {
        lemma_state_after_step(SimState::Idle, events, j);
        lemma_stays_stopped(events, j + 1, k);
    }
}

/// Over a whole run from the start: once the loop has stopped, every later
/// event is answered by stopping again, so it never trades after it stops.
pub proof fn stop_ends_the_run(events: Seq<SimEvent>, j: int, k: int)
    requires
        0 <= j < k < events.len(),
        action_at(SimState::Idle, events, j) == SimAction::Stop,
    ensures
        action_at(SimState::Idle, events, k) == SimAction::Stop,
        state_after(SimState::Idle, events.take(k)) == SimState::Stopped,
{
    lemma_state_after_step(SimState::Idle, events, j);
    lemma_stays_stopped(events, j + 1, k);
}

/// A cycle opens a trade exactly when the day's limit allows one and, outside
/// the re-analysis after a close, no trade is open; a regular cycle updates
/// the statistics and sleeps five minutes, a re-analysis neither updates them
/// and sleeps one minute. The loop is then between cycles.
pub proof fn trade_opened_exactly_when_allowed(max_daily: i32, after_close: bool, today: i64, open: i64)
    ensures
        spec_sim_step(
            SimState::AwaitCounts { max_daily, after_close },
            SimEvent::Counts { today, open },
        ) matches (SimState::Idle, SimAction::Cycle { open_trade, update_stats, sleep_secs }) && (
        open_trade <==> (today < max_daily && (after_close || open == 0))) && update_stats
            == !after_close && sleep_secs == (if after_close { 60u64 } else { 300u64 }),
{
}

/// Why a trade is closed.
#[derive(PartialEq, Eq, Structural, Clone, Copy, Debug)]
pub enum CloseReason {
    StopLoss,
    TakeProfit,
    Timeout,
}

impl CloseReason {
    /// The reason as recorded with the trade.
    pub fn as_str(&self) -> (s: &'static str)
        ensures
            *self == CloseReason::StopLoss ==> s@ == "stop_loss"@,
            *self == CloseReason::TakeProfit ==> s@ == "take_profit"@,
            *self == CloseReason::Timeout ==> s@ == "timeout"@,
    {
        match self {
            CloseReason::StopLoss => "stop_loss",
            CloseReason::TakeProfit => "take_profit",
            CloseReason::Timeout => "timeout",
        }
    }
}

/// Why an open trade is closed: the level it reached, else a timeout after
/// more than four hours, else it stays open.
pub fn close_reason(level_reached: Option<CloseReason>, holding_minutes: i64) -> (r: Option<CloseReason>)
    ensures
        level_reached is Some ==> r == level_reached,
        level_reached is None ==> r == if holding_minutes > 240 {
            Some(CloseReason::Timeout)
        } else {
            None
        },
{
    match level_reached {
        Some(reason) => Some(reason),
        None => if holding_minutes > 240 {
            Some(CloseReason::Timeout)
        } else {
            None
        },
    }
}

/// The leverage of a new trade: the debate's, capped at the configured
/// maximum, and at least 1.
pub fn trade_leverage(debated: i32, max_leverage: i32) -> (l: i32)
    ensures
        l == if (if debated < max_leverage { debated } else { max_leverage }) < 1 {
            1
        } else if debated < max_leverage {
            debated
        } else {
            max_leverage
        },
        l >= 1,
{
    let capped = if debated < max_leverage { debated } else { max_leverage };
    if capped < 1 {
        1
    } else {
        capped
    }
}

/// How many of the latest trades, newest first, are losses before the first
/// one that is not.
pub open spec fn leading_losses(losses: Seq<bool>) -> nat
    decreases losses.len(),
{
    if losses.len() == 0 || !losses[0] {
        0
    } else {
        1 + leading_losses(losses.drop_first())
    }
}

/// The run of losses that ends the record: trades are given newest first,
/// `true` for a loss.
pub fn consecutive_losses(losses: &Vec<bool>) -> (n: i32)
    requires
        losses@.len() <= i32::MAX,
    ensures
        n == leading_losses(losses@),
{
    let mut n: i32 = 0;
    let mut i: usize = 0;
    assert(losses@.skip(0) =~= losses@);
    while i < losses.len()
        invariant
            i <= losses@.len() <= i32::MAX,
            n == i,
            leading_losses(losses@) == n + leading_losses(losses@.skip(i as int)),
        decreases losses.len() - i,
    {
        if !losses[i] {
            return n;
        }
        assert(losses@.skip(i as int).drop_first() =~= losses@.skip(i + 1));
        n = n + 1;
        i = i + 1;
    }
    n
}

/// The statement that updates the latest simulation configuration (`$1` is
/// its id): a new symbol sets `symbol` and `allowed_symbols`, a new interval
/// sets `analysis_interval`, numbered in that order from `$2`; with neither
/// there is nothing to update.
pub open spec fn spec_config_update_sql(has_symbol: bool, has_interval: bool) -> Option<Seq<char>> {
    if has_symbol && has_interval {
        Some("UPDATE ai_simulation_configs SET symbol = $2, allowed_symbols = ARRAY[$3]::VARCHAR[], analysis_interval = $4, updated_at = NOW() WHERE id = $1"@)
    } else if has_symbol {
        Some("UPDATE ai_simulation_configs SET symbol = $2, allowed_symbols = ARRAY[$3]::VARCHAR[], updated_at = NOW() WHERE id = $1"@)
    } else if has_interval {
        Some("UPDATE ai_simulation_configs SET analysis_interval = $2, updated_at = NOW() WHERE id = $1"@)
    } else {
        None
    }
}

/// The update statement for a configuration change, or none when the
/// request changes nothing.
pub fn config_update_sql(has_symbol: bool, has_interval: bool) -> (r: Option<&'static str>)
    ensures
        match r {
            Some(q) => spec_config_update_sql(has_symbol, has_interval) == Some(q@),
            None => spec_config_update_sql(has_symbol, has_interval) is None,
        },
{
    if has_symbol && has_interval {
        Some("UPDATE ai_simulation_configs SET symbol = $2, allowed_symbols = ARRAY[$3]::VARCHAR[], analysis_interval = $4, updated_at = NOW() WHERE id = $1")
    } else if has_symbol {
        Some("UPDATE ai_simulation_configs SET symbol = $2, allowed_symbols = ARRAY[$3]::VARCHAR[], updated_at = NOW() WHERE id = $1")
    } else if has_interval {
        Some("UPDATE ai_simulation_configs SET analysis_interval = $2, updated_at = NOW() WHERE id = $1")
    } else {
        None
    }
}

} // verus!
