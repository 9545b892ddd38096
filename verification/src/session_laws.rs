//! What holds of the actor of a session, whatever commands it takes.

use vstd::prelude::*;

use crate::pending_input::queued_input;
use crate::session_actor::{
    actor_step, interrupted, read_summary_step, read_work_step, with_metadata, ActorStep,
    SessionCommand, SessionReplyView,
};
use crate::session_memory::patched_settings;
use crate::session_state::{
    PendingInputItem, SessionActorStateView, SessionRuntimeStatus, TurnConfig, TurnMetadata,
};
use crate::time::Timestamp;

verus! {

/// Whether a session says that it works on a turn exactly when it has one.
pub open spec fn status_fits_turn(state: SessionActorStateView) -> bool {
    state.summary.status == SessionRuntimeStatus::ActiveTurn <==> state.active_turn is Some
}

/// Whether a command brings a state of its own, which has to be sound already.
pub open spec fn brings_state(command: SessionCommand) -> bool {
    command is UpdateSummary || command is ReplaceState
}

/// A session says that it works on a turn exactly when it has one: no command
/// breaks this, but for those that replace what the session says of itself.
pub proof fn law_status_fits_turn(
    state: SessionActorStateView,
    command: SessionCommand,
    at: Timestamp,
)
    requires
        status_fits_turn(state),
        !brings_state(command),
    ensures
        status_fits_turn(actor_step(state, command, at).state),
{
}

/// Commands that read change nothing.
pub proof fn law_reading_changes_nothing(
    state: SessionActorStateView,
    command: SessionCommand,
    at: Timestamp,
)
    requires
        read_summary_step(state, command) is Some || read_work_step(state, command) is Some,
    ensures
        actor_step(state, command, at).state == state,
{
}

/// A turn begins on request only in a session that has no turn and no waiting
/// input; otherwise the request is refused and changes nothing.
pub proof fn law_turn_begins_only_in_idle_session(
    state: SessionActorStateView,
    turn: TurnMetadata,
    turn_config: TurnConfig,
    captured_context: Option<String>,
    at: Timestamp,
)
    ensures
        ({
            let command = SessionCommand::TryBeginActiveTurn {
                turn,
                turn_config,
                captured_context,
            };
            let step = actor_step(state, command, at);
            let free = state.active_turn is None && state.pending_turn_queue.len() == 0;
            &&& step.reply == SessionReplyView::Decided(free)
            &&& free ==> step.state.active_turn == Some(turn@)
            &&& !free ==> step.state == state
        }),
{
}

/// A session is locked to the first context that a turn brings; no later turn
/// changes it.
pub proof fn law_context_is_locked_once(
    state: SessionActorStateView,
    command: SessionCommand,
    at: Timestamp,
)
    requires
        state.core.session_context is Some,
        !(command is ReplaceState),
    ensures
        actor_step(state, command, at).state.core.session_context == state.core.session_context,
{
}

/// A final title stays, unless the user renames the session or the session is
/// replaced; an update of it is answered with nothing.
pub proof fn law_final_title_stays(
    state: SessionActorStateView,
    command: SessionCommand,
    at: Timestamp,
)
    requires
        state.summary.title_state is Final,
        !brings_state(command),
        !(command is SetSessionTitleUserRename),
    ensures
        actor_step(state, command, at).state.summary.title == state.summary.title,
        actor_step(state, command, at).state.summary.title_state == state.summary.title_state,
        command is UpdateTitle ==> actor_step(state, command, at) == (ActorStep {
            state,
            reply: SessionReplyView::Retitled(None),
        }),
{
}

/// Numbers of items are given out once each, in order, as long as there are any.
pub proof fn law_item_numbers_grow(state: SessionActorStateView, at: Timestamp)
    requires
        state.next_item_seq < u64::MAX,
    ensures
        ({
            let step = actor_step(state, SessionCommand::AllocateItemSeq, at);
            &&& step.reply == SessionReplyView::ItemSeq(state.next_item_seq)
            &&& step.state.next_item_seq == state.next_item_seq + 1
        }),
{
}

/// No command but that one gives numbers of items back.
pub proof fn law_item_numbers_are_not_given_back(
    state: SessionActorStateView,
    command: SessionCommand,
    at: Timestamp,
)
    requires
        !(command is ReplaceState),
    ensures
        actor_step(state, command, at).state.next_item_seq >= state.next_item_seq,
{
}

/// Inputs wait in order: an input that is put into a session goes behind those that
/// wait already, and the one that waits longest is taken first.
pub proof fn law_inputs_wait_in_order(
    state: SessionActorStateView,
    item: PendingInputItem,
    at: Timestamp,
    later: Timestamp,
)
    ensures
        ({
            let queued = actor_step(
                state,
                SessionCommand::EnqueuePendingTurnInput { item },
                at,
            ).state;
            let popped = actor_step(
                queued,
                SessionCommand::PopQueuedTurnInput { require_idle_session: false },
                later,
            );
            &&& popped.state.pending_turn_queue.len() == state.pending_turn_queue.len()
            &&& state.pending_turn_queue.len() == 0 ==> popped.reply
                == SessionReplyView::QueuedInput(queued_input(item@))
            &&& state.pending_turn_queue.len() > 0 ==> popped.reply
                == SessionReplyView::QueuedInput(queued_input(state.pending_turn_queue[0]))
                && popped.state.pending_turn_queue == state.pending_turn_queue.skip(1).push(item@)
        }),
{
    let queue = state.pending_turn_queue;
    if queue.len() > 0 {
        assert(queue.push(item@).skip(1) =~= queue.skip(1).push(item@));
    }
}

/// An input that waits for an idle session stays where it is while a turn runs.
pub proof fn law_inputs_wait_for_idle_session(state: SessionActorStateView, at: Timestamp)
    requires
        state.active_turn is Some,
    ensures
        actor_step(
            state,
            SessionCommand::PopQueuedTurnInput { require_idle_session: true },
            at,
        ) == (ActorStep { state, reply: SessionReplyView::QueuedInput(None) }),
{
}

/// Interrupting ends the active turn, which becomes the latest one; interrupting
/// again interrupts nothing.
pub proof fn law_interrupting_ends_the_turn(
    state: SessionActorStateView,
    at: Timestamp,
    later: Timestamp,
)
    ensures
        ({
            let step = actor_step(state, SessionCommand::InterruptActiveTurn, at);
            let again = actor_step(step.state, SessionCommand::InterruptActiveTurn, later);
            &&& step.state.active_turn is None
            &&& state.active_turn matches Some(turn) ==> step.state.latest_turn == Some(
                interrupted(turn, at),
            ) && step.reply == SessionReplyView::Interrupted(Some(interrupted(turn, at)))
            &&& state.active_turn is None ==> step.state.latest_turn == state.latest_turn
            &&& again.reply == SessionReplyView::Interrupted(None)
            &&& again.state.latest_turn == step.state.latest_turn
        }),
{
}

/// The first input of the user is kept: no command replaces it, but for one that
/// replaces the whole session.
pub proof fn law_first_input_is_kept(
    state: SessionActorStateView,
    command: SessionCommand,
    at: Timestamp,
)
    requires
        state.first_user_input is Some,
        !(command is ReplaceState),
    ensures
        actor_step(state, command, at).state.first_user_input == state.first_user_input,
{
}

/// Changing nothing but the mode of a session leaves its model as it is.
pub proof fn law_mode_change_keeps_model(
    state: SessionActorStateView,
    mode: crate::session::NamedChoiceView,
    at: Timestamp,
)
    ensures
        ({
            let after = with_metadata(state, None, None, None, Some(mode), at);
            &&& after.summary.model == state.summary.model
            &&& after.summary.model_binding_id == state.summary.model_binding_id
            &&& after.summary.reasoning_effort_selection
                == state.summary.reasoning_effort_selection
            &&& after.summary.collaboration_mode == mode
            &&& after.core.collaboration_mode == mode
        }),
{
}

/// The memory settings of a session change only by the command that patches them:
/// to what the patch asks for, with a version that counts the change.
pub proof fn law_memory_settings_change_by_patch_alone(
    state: SessionActorStateView,
    command: SessionCommand,
    at: Timestamp,
)
    requires
        !(command is ReplaceState),
    ensures
        match command {
            SessionCommand::UpdateMemorySettings { recall, contribution } => {
                let step = actor_step(state, command, at);
                &&& step.state.memory.settings == patched_settings(
                    state.memory.settings,
                    recall,
                    contribution,
                )
                &&& step.reply == SessionReplyView::MemorySettings(step.state.memory)
                &&& step.state.memory.settings == state.memory.settings ==> step.state == state
                &&& step.state.memory.settings != state.memory.settings && state.memory.version
                    < u64::MAX ==> step.state.memory.version == state.memory.version + 1
            },
            _ => actor_step(state, command, at).state.memory == state.memory,
        },
{
}

/// A change of the permission profile takes back what was approved; a change of the
/// sandbox profile does not.
pub proof fn law_profile_change_takes_approvals_back(
    state: SessionActorStateView,
    command: SessionCommand,
    at: Timestamp,
)
    ensures
        command is ApplyPermissionProfile ==> actor_step(
            state,
            command,
            at,
        ).state.session_approvals.len() == 0 && actor_step(
            state,
            command,
            at,
        ).state.turn_approvals.len() == 0,
        command is ApplySandboxProfile ==> actor_step(state, command, at).state.session_approvals
            == state.session_approvals && actor_step(state, command, at).state.turn_approvals
            == state.turn_approvals,
{
}

} // verus!
