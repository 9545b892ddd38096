//! What follows a turn: the steps that the server takes once the actor of a session
//! has executed one.
//!
//! Each step is outside work that succeeds or does not, and that decides which step
//! comes next.

use vstd::prelude::*;

use crate::rollout::LegacyTurnStatus;
use crate::session_state::{SessionActorState, TurnMetadataView};

verus! {

/// A step after a turn.
#[derive(Debug, Clone, Copy, PartialEq, Eq, Structural)]
pub enum AfterTurn {
    /// Give the session a final title, if it is due.
    ScheduleTitle,
    /// Continue with an input that was queued behind the turn.
    ChainFollowUp,
    /// Start a turn for the next input of the queue.
    StartFromQueue,
    /// Find out whether the session is the child of another.
    FindParent,
    /// Find out whether the child can take another turn.
    AskChild,
    /// Turn the messages that wait for the child into turns.
    DrainChildMailbox,
    /// Continue with the goal of the session.
    ContinueGoal,
    /// Nothing follows.
    Finished,
}

/// Whether the goal of a session may be continued after its latest turn: not after
/// one that was interrupted.
pub open spec fn continues_goal(latest_turn: Option<TurnMetadataView>) -> bool {
    latest_turn matches Some(turn) && (turn.status == LegacyTurnStatus::Completed || turn.status
        == LegacyTurnStatus::Failed)
}

/// The goal, if it may be continued.
pub open spec fn goal_step(continue_goal: bool) -> AfterTurn {
    if continue_goal {
        AfterTurn::ContinueGoal
    } else {
        AfterTurn::Finished
    }
}

/// The step that follows a step.
pub open spec fn step_after(step: AfterTurn, succeeded: bool, continue_goal: bool) -> AfterTurn {
    match step {
        AfterTurn::ScheduleTitle => AfterTurn::ChainFollowUp,
        AfterTurn::ChainFollowUp => if succeeded {
            AfterTurn::Finished
        } else {
            AfterTurn::StartFromQueue
        },
        AfterTurn::StartFromQueue => if succeeded {
            AfterTurn::Finished
        } else {
            AfterTurn::FindParent
        },
        AfterTurn::FindParent => if succeeded {
            AfterTurn::AskChild
        } else {
            goal_step(continue_goal)
        },
        AfterTurn::AskChild => if succeeded {
            AfterTurn::DrainChildMailbox
        } else {
            goal_step(continue_goal)
        },
        AfterTurn::DrainChildMailbox => AfterTurn::Finished,
        AfterTurn::ContinueGoal => AfterTurn::Finished,
        AfterTurn::Finished => AfterTurn::Finished,
    }
}

/// How many steps may still follow.
pub open spec fn steps_left(step: AfterTurn) -> nat {
    match step {
        AfterTurn::ScheduleTitle => 6,
        AfterTurn::ChainFollowUp => 5,
        AfterTurn::StartFromQueue => 4,
        AfterTurn::FindParent => 3,
        AfterTurn::AskChild => 2,
        AfterTurn::DrainChildMailbox => 1,
        AfterTurn::ContinueGoal => 1,
        AfterTurn::Finished => 0,
    }
}

impl SessionActorState {
    /// Whether the goal of the session may be continued now.
    pub fn should_continue_goal(&self) -> (result: bool)
        ensures
            result == continues_goal(self@.latest_turn),
    {
        match &self.latest_turn {
            Some(turn) => match turn.status {
                LegacyTurnStatus::Completed => true,
                LegacyTurnStatus::Failed => true,
                _ => false,
            },
            None => false,
        }
    }
}

impl AfterTurn {
    /// The first step after a turn.
    pub fn first() -> (result: AfterTurn)
        ensures
            result == AfterTurn::ScheduleTitle,
    {
        AfterTurn::ScheduleTitle
    }

    /// The step that follows this one, which succeeded or did not.
    pub fn next(&self, succeeded: bool, continue_goal: bool) -> (result: AfterTurn)
        ensures
            result == step_after(*self, succeeded, continue_goal),
    {
        let goal = if continue_goal {
            AfterTurn::ContinueGoal
        } else {
            AfterTurn::Finished
        };
        match self {
            AfterTurn::ScheduleTitle => AfterTurn::ChainFollowUp,
            AfterTurn::ChainFollowUp => {
                if succeeded {
                    AfterTurn::Finished
                } else {
                    AfterTurn::StartFromQueue
                }
            },
            AfterTurn::StartFromQueue => {
                if succeeded {
                    AfterTurn::Finished
                } else {
                    AfterTurn::FindParent
                }
            },
            AfterTurn::FindParent => {
                if succeeded {
                    AfterTurn::AskChild
                } else {
                    goal
                }
            },
            AfterTurn::AskChild => {
                if succeeded {
                    AfterTurn::DrainChildMailbox
                } else {
                    goal
                }
            },
            AfterTurn::DrainChildMailbox => AfterTurn::Finished,
            AfterTurn::ContinueGoal => AfterTurn::Finished,
            AfterTurn::Finished => AfterTurn::Finished,
        }
    }
}

/// The steps after a turn come to an end, whatever they do.
pub proof fn law_steps_end(step: AfterTurn, succeeded: bool, continue_goal: bool)
    ensures
        step != AfterTurn::Finished ==> steps_left(step_after(step, succeeded, continue_goal))
            < steps_left(step),
{
}

/// Nothing continues the goal of a session whose latest turn was interrupted.
pub proof fn law_interrupted_turn_ends_the_goal(
    latest_turn: Option<TurnMetadataView>,
    step: AfterTurn,
    succeeded: bool,
)
    requires
        latest_turn matches Some(turn) && turn.status == LegacyTurnStatus::Interrupted,
    ensures
        step_after(step, succeeded, continues_goal(latest_turn)) != AfterTurn::ContinueGoal,
{
}

} // verus!
