//! The life cycle of a trading strategy: which command moves it from which
//! status to which.
use vstd::prelude::*;
use crate::error::RouteError;
use crate::text::str_eq;

verus! {

/// The statuses a strategy can be in.
#[derive(PartialEq, Eq, Structural, Clone, Copy, Debug)]
pub enum StrategyStatus {
    Created,
    Active,
    Paused,
    Cancelled,
    /// A status that no command acts on.
    Other,
}

/// The commands on a strategy.
#[derive(PartialEq, Eq, Structural, Clone, Copy, Debug)]
pub enum StrategyCommand {
    /// Start a created or paused strategy.
    Execute,
    /// Stop an active or paused strategy for good.
    Cancel,
    /// Hold an active strategy.
    Pause,
    /// Restart a paused strategy.
    Resume,
}

/// The status a stored (lower-cased) status name means.
pub fn strategy_status_from_text(s: &str) -> (r: StrategyStatus)
    ensures
        s@ == "created"@ ==> r == StrategyStatus::Created,
        s@ == "active"@ ==> r == StrategyStatus::Active,
        s@ == "paused"@ ==> r == StrategyStatus::Paused,
        s@ == "cancelled"@ ==> r == StrategyStatus::Cancelled,
        !(s@ == "created"@ || s@ == "active"@ || s@ == "paused"@ || s@ == "cancelled"@) ==> r
            == StrategyStatus::Other,
{
    proof {
        reveal_strlit("created");
        reveal_strlit("active");
        reveal_strlit("paused");
        reveal_strlit("cancelled");
        assert("created"@.len() == 7);
        assert("active"@.len() == 6);
        assert("paused"@.len() == 6);
        assert("active"@[0] != "paused"@[0]);
        assert("cancelled"@.len() == 9);
    }
    if str_eq(s, "created") {
        StrategyStatus::Created
    } else if str_eq(s, "active") {
        StrategyStatus::Active
    } else if str_eq(s, "paused") {
        StrategyStatus::Paused
    } else if str_eq(s, "cancelled") {
        StrategyStatus::Cancelled
    } else {
        StrategyStatus::Other
    }
}

/// The status a command leads to from `status`, if it applies there.
pub open spec fn spec_transition(status: StrategyStatus, cmd: StrategyCommand) -> Option<StrategyStatus> {
    match cmd {
        StrategyCommand::Execute => if status == StrategyStatus::Created || status
            == StrategyStatus::Paused {
            Some(StrategyStatus::Active)
        } else {
            None
        },
        StrategyCommand::Cancel => if status == StrategyStatus::Active || status
            == StrategyStatus::Paused {
            Some(StrategyStatus::Cancelled)
        } else {
            None
        },
        StrategyCommand::Pause => if status == StrategyStatus::Active {
            Some(StrategyStatus::Paused)
        } else {
            None
        },
        StrategyCommand::Resume => if status == StrategyStatus::Paused {
            Some(StrategyStatus::Active)
        } else {
            None
        },
    }
}

/// The message when a command does not apply.
pub open spec fn refusal_message(cmd: StrategyCommand) -> Seq<char> {
    match cmd {
        StrategyCommand::Execute => "Strategy not found or cannot be executed"@,
        StrategyCommand::Cancel => "Strategy not found or cannot be cancelled"@,
        StrategyCommand::Pause => "Strategy not found or not active"@,
        StrategyCommand::Resume => "Strategy not found or not paused"@,
    }
}

/// Applies `cmd` to a strategy with status `status` (`None` when the user has
/// no such strategy): the new status, or not found when the command does not
/// apply.
pub fn transition(status: Option<StrategyStatus>, cmd: StrategyCommand) -> (r: Result<StrategyStatus, RouteError>)
    ensures
        match status {
            Some(s) => match spec_transition(s, cmd) {
                Some(t) => r == Ok::<StrategyStatus, RouteError>(t),
                None => r matches Err(RouteError::NotFound(m)) && m@ == refusal_message(cmd),
            },
            None => r matches Err(RouteError::NotFound(m)) && m@ == refusal_message(cmd),
        },
{
    let next = match status {
        Some(s) => match cmd {
            StrategyCommand::Execute => if s == StrategyStatus::Created || s == StrategyStatus::Paused {
                Some(StrategyStatus::Active)
            } else {
                None
            },
            StrategyCommand::Cancel => if s == StrategyStatus::Active || s == StrategyStatus::Paused {
                Some(StrategyStatus::Cancelled)
            } else {
                None
            },
            StrategyCommand::Pause => if s == StrategyStatus::Active {
                Some(StrategyStatus::Paused)
            } else {
                None
            },
            StrategyCommand::Resume => if s == StrategyStatus::Paused {
                Some(StrategyStatus::Active)
            } else {
                None
            },
        },
        None => None,
    };
    match next {
        Some(t) => Ok(t),
        None => {
            let m = match cmd {
                StrategyCommand::Execute => "Strategy not found or cannot be executed",
                StrategyCommand::Cancel => "Strategy not found or cannot be cancelled",
                StrategyCommand::Pause => "Strategy not found or not active",
                StrategyCommand::Resume => "Strategy not found or not paused",
            };
            Err(RouteError::NotFound(String::from_str(m)))
        },
    }
}

/// Pausing an active strategy and resuming it makes it active again; resuming
/// a paused strategy and pausing it makes it paused again.
pub proof fn pause_resume_round_trip()
    ensures
        spec_transition(StrategyStatus::Active, StrategyCommand::Pause) == Some(StrategyStatus::Paused),
        spec_transition(StrategyStatus::Paused, StrategyCommand::Resume) == Some(StrategyStatus::Active),
{
}

/// A cancelled strategy stays cancelled: no command applies to it.
pub proof fn cancelled_is_final(cmd: StrategyCommand)
    ensures
        spec_transition(StrategyStatus::Cancelled, cmd) is None,
{
}

/// Every command that applies leads to a status that some command can leave
/// again, except cancelling, which is final.
pub proof fn only_cancel_is_final(s: StrategyStatus, cmd: StrategyCommand)
    requires
        spec_transition(s, cmd) is Some,
    ensures
        spec_transition(s, cmd) == Some(StrategyStatus::Cancelled) <==> cmd == StrategyCommand::Cancel,
        cmd != StrategyCommand::Cancel ==> spec_transition(
            spec_transition(s, cmd)->0,
            StrategyCommand::Cancel,
        ) == Some(StrategyStatus::Cancelled),
{
}

} // verus!
