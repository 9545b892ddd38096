//! What each command does to the actor of a session, and what no command does.

use vstd::prelude::*;

use crate::ids::uuid_value;
use crate::pending_input::{field_of, key_is, queued_input};
use crate::rollout::{LegacyTurnKindView, LegacyTurnStatus};
use crate::rows::{lemma_is_first_match, lemma_no_match};
use crate::session::NamedChoiceView;
use crate::session_actor::{
    actor_step, pending_texts, NormalizedSandboxProfileView, SessionCommand, SessionReplyView,
};
use crate::session_state::{
    MetadataFieldView, PendingInputItemView, PendingInputKindView, PendingMetadataView,
    SessionActorStateView, SessionRuntimeStatus, SessionTitleFinalSource, SessionTitleState,
    TurnConfigView, TurnMetadataView,
};
use crate::text::{opt_view, trimmed, views};
use crate::time::{law_timestamp_order, Timestamp};

verus! {

// ---------------------------------------------------------------------------
// Turns.
// ---------------------------------------------------------------------------
/// Whether nothing of a session changed but its turns, what it says of itself, and what
/// it is about.
pub open spec fn keeps_all_but_turns(
    before: SessionActorStateView,
    after: SessionActorStateView,
) -> bool {
    &&& after.config == before.config
    &&& after.memory == before.memory
    &&& after.record == before.record
    &&& after.max_turns == before.max_turns
    &&& after.pending_turn_queue == before.pending_turn_queue
    &&& after.next_item_seq == before.next_item_seq
    &&& after.loaded_item_count == before.loaded_item_count
    &&& after.persisted_turn_items == before.persisted_turn_items
    &&& after.history_items == before.history_items
    &&& after.first_user_input == before.first_user_input
    &&& after.session_approvals == before.session_approvals
    &&& after.turn_approvals == before.turn_approvals
    &&& after.deferred_assistant == before.deferred_assistant
    &&& after.deferred_reasoning == before.deferred_reasoning
    &&& after.runtime_context == before.runtime_context
    &&& after.tool_registry == before.tool_registry
    &&& after.session_context_recorded == before.session_context_recorded
    &&& after.core.cwd == before.core.cwd
    &&& after.core.collaboration_mode == before.core.collaboration_mode
    &&& after.core.config == before.core.config
    &&& after.core.tokens == before.core.tokens
    &&& after.core.latest_turn_context == before.core.latest_turn_context
    &&& after.core.active_goal == before.core.active_goal
    &&& after.summary.session_id == before.summary.session_id
    &&& after.summary.parent_session_id == before.summary.parent_session_id
    &&& after.summary.ephemeral == before.summary.ephemeral
    &&& after.summary.cwd == before.summary.cwd
    &&& after.summary.title == before.summary.title
    &&& after.summary.title_state == before.summary.title_state
    &&& after.summary.collaboration_mode == before.summary.collaboration_mode
    &&& after.summary.permission_preset == before.summary.permission_preset
    &&& after.summary.effective_context_window == before.summary.effective_context_window
}

/// Whether a session became idle at an instant, with its model and its core as they
/// were.
pub open spec fn became_idle(
    before: SessionActorStateView,
    after: SessionActorStateView,
    at: Timestamp,
) -> bool {
    &&& after.active_turn is None
    &&& after.summary.status == SessionRuntimeStatus::Idle
    &&& after.summary.updated_at == at
    &&& after.summary.last_activity_at == at
    &&& after.summary.model == before.summary.model
    &&& after.summary.model_binding_id == before.summary.model_binding_id
    &&& after.summary.reasoning_effort_selection == before.summary.reasoning_effort_selection
    &&& after.core.session_context == before.core.session_context
    &&& keeps_all_but_turns(before, after)
}

/// Setting a session idle leaves it without an active turn. A turn that comes with it
/// is the latest one from then on; without one the latest turn is what it was.
pub proof fn law_setting_idle_keeps_the_latest_turn(
    state: SessionActorStateView,
    command: SessionCommand,
    at: Timestamp,
)
    ensures
        command matches SessionCommand::SetSessionIdle { latest_turn } ==> {
            let step = actor_step(state, command, at);
            &&& became_idle(state, step.state, at)
            &&& latest_turn matches Some(turn) ==> step.state.latest_turn == Some(turn@)
            &&& latest_turn is None ==> step.state.latest_turn == state.latest_turn
            &&& step.state.summary.tokens == state.summary.tokens
            &&& step.state.core.last_turn_interrupted == state.core.last_turn_interrupted
            &&& step.reply is Silent
        },
{
}

/// Clearing the active turn does so if it is the one that is named, which then is not
/// the latest turn by that alone; else nothing changes.
pub proof fn law_clearing_needs_the_turn(
    state: SessionActorStateView,
    command: SessionCommand,
    at: Timestamp,
)
    ensures
        command matches SessionCommand::ClearActiveTurnIfMatches { turn_id } ==> {
            let step = actor_step(state, command, at);
            let matching = state.active_turn is Some && state.active_turn->Some_0.turn_id
                == turn_id;
            &&& step.reply == SessionReplyView::Decided(matching)
            &&& matching ==> became_idle(state, step.state, at) && step.state.latest_turn
                == state.latest_turn && step.state.summary.tokens == state.summary.tokens
                && step.state.core.last_turn_interrupted == state.core.last_turn_interrupted
            &&& !matching ==> step.state == state
        },
{
}

/// Interrupting ends the active turn at that instant: it is the latest turn, as
/// interrupted then and otherwise as it was, it is given back, and the session counts
/// what was used so far. Without an active turn nothing was interrupted.
pub proof fn law_interrupting_marks_the_turn(
    state: SessionActorStateView,
    command: SessionCommand,
    at: Timestamp,
)
    ensures
        command is InterruptActiveTurn ==> {
            let step = actor_step(state, command, at);
            &&& became_idle(state, step.state, at)
            &&& step.state.summary.tokens == state.core.tokens
            &&& match state.active_turn {
                Some(turn) => {
                    &&& step.state.core.last_turn_interrupted
                    &&& step.reply == SessionReplyView::Interrupted(step.state.latest_turn)
                    &&& step.state.latest_turn matches Some(latest) && latest.turn_id
                        == turn.turn_id && latest.kind == turn.kind && latest.details
                        == turn.details && latest.status == LegacyTurnStatus::Interrupted
                        && latest.completed_at == Some(at)
                },
                None => {
                    &&& step.state.core.last_turn_interrupted == state.core.last_turn_interrupted
                    &&& step.reply == SessionReplyView::Interrupted(None)
                    &&& step.state.latest_turn == state.latest_turn
                },
            }
        },
{
}

/// Whether a turn became the active one at an instant, with the model that it brings and
/// the context that the session had, or else the one that was captured.
pub open spec fn began(
    before: SessionActorStateView,
    after: SessionActorStateView,
    turn: TurnMetadataView,
    turn_config: TurnConfigView,
    captured_context: Option<Seq<char>>,
    at: Timestamp,
) -> bool {
    &&& after.active_turn == Some(turn)
    &&& after.latest_turn == before.latest_turn
    &&& after.summary.status == SessionRuntimeStatus::ActiveTurn
    &&& after.summary.model == Some(turn_config.model_slug)
    &&& after.summary.model_binding_id == turn_config.model_binding_id
    &&& after.summary.reasoning_effort_selection == turn_config.reasoning_effort_selection
    &&& after.summary.updated_at == at
    &&& after.summary.last_activity_at == at
    &&& after.summary.tokens == before.summary.tokens
    &&& after.core.last_turn_interrupted == before.core.last_turn_interrupted
    &&& before.core.session_context is Some ==> after.core.session_context
        == before.core.session_context
    &&& before.core.session_context is None ==> after.core.session_context == captured_context
    &&& keeps_all_but_turns(before, after)
}

/// A turn that begins, or that is activated from the queue, is the active one; one that
/// only tries to begin is so in a session that is free, and else changes nothing.
pub proof fn law_beginning_makes_the_turn_active(
    state: SessionActorStateView,
    command: SessionCommand,
    at: Timestamp,
)
    ensures
        ({
            let step = actor_step(state, command, at);
            &&& command matches SessionCommand::BeginActiveTurn {
                turn,
                turn_config,
                captured_context,
            } ==> step.reply is Silent && began(
                state,
                step.state,
                turn@,
                turn_config@,
                opt_view(captured_context),
                at,
            )
            &&& command matches SessionCommand::ActivateQueuedTurn {
                turn,
                turn_config,
                captured_context,
            } ==> step.reply is Silent && began(
                state,
                step.state,
                turn@,
                turn_config@,
                opt_view(captured_context),
                at,
            )
            &&& command matches SessionCommand::TryBeginActiveTurn {
                turn,
                turn_config,
                captured_context,
            } ==> if state.active_turn is None && state.pending_turn_queue.len() == 0 {
                step.reply == SessionReplyView::Decided(true) && began(
                    state,
                    step.state,
                    turn@,
                    turn_config@,
                    opt_view(captured_context),
                    at,
                )
            } else {
                step.reply == SessionReplyView::Decided(false) && step.state == state
            }
        }),
{
}

/// A turn line goes to the record of the session, with the contexts that the session
/// has; without a record there is nothing to append to. What was appended is told of
/// the context.
pub proof fn law_turn_lines_go_to_the_record(
    state: SessionActorStateView,
    command: SessionCommand,
    at: Timestamp,
)
    ensures
        ({
            let step = actor_step(state, command, at);
            &&& command matches SessionCommand::PersistTurnLine { turn } ==> {
                &&& step.state == state
                &&& state.record is None ==> step.reply is NoRecord
                &&& state.record matches Some(known) ==> (
                step.reply matches SessionReplyView::AppendTurn {
                    record,
                    turn: told,
                    latest_turn_context,
                    session_context,
                    session_context_recorded,
                } && record == known && told == turn@ && latest_turn_context
                    == state.core.latest_turn_context && session_context
                    == state.core.session_context && session_context_recorded
                    == state.session_context_recorded)
            }
            &&& command matches SessionCommand::TurnLineAppended { session_context_recorded } ==> {
                &&& step.reply is Silent
                &&& step.state.session_context_recorded == session_context_recorded
                &&& step.state.active_turn == state.active_turn
                &&& step.state.latest_turn == state.latest_turn
                &&& step.state.summary == state.summary
                &&& step.state.core == state.core
            }
        }),
{
}

// ---------------------------------------------------------------------------
// What is told.
// ---------------------------------------------------------------------------
/// Every question is answered with what the session has, and changes nothing.
pub proof fn law_questions_are_answered(
    state: SessionActorStateView,
    command: SessionCommand,
    at: Timestamp,
)
    ensures
        ({
            let step = actor_step(state, command, at);
            let active = match state.active_turn {
                Some(turn) => Some(turn.turn_id),
                None => None,
            };
            &&& command is GetSummary ==> step.reply == SessionReplyView::Summary(state.summary)
            &&& command is GetMemorySettings ==> step.reply == SessionReplyView::MemorySettings(
                state.memory,
            )
            &&& command is GetSpawnSnapshot || command is ExportRuntimeSession ==> step.reply
                == SessionReplyView::State(state)
            &&& command is GetApprovalCacheSnapshot ==> (
            step.reply matches SessionReplyView::Approvals { session_approvals, turn_approvals }
                && session_approvals == state.session_approvals && turn_approvals
                == state.turn_approvals)
            &&& command is GetCollaborationMode ==> step.reply
                == SessionReplyView::CollaborationMode(state.core.collaboration_mode)
            &&& command is GetParentSessionId ==> step.reply == SessionReplyView::ParentSession(
                state.summary.parent_session_id,
            )
            &&& command is GetTurnReservationSnapshot ==> (
            step.reply matches SessionReplyView::TurnReservation {
                max_turns,
                active_turn,
                latest_turn,
                ephemeral,
                parent_session_id,
                summary,
                runtime_context,
                pending_turn_queue,
            } && max_turns == state.max_turns && active_turn == state.active_turn && latest_turn
                == state.latest_turn && ephemeral == state.summary.ephemeral && parent_session_id
                == state.summary.parent_session_id && summary == state.summary && runtime_context
                == state.runtime_context && pending_turn_queue == state.pending_turn_queue)
            &&& command is GetHookContextSnapshot ==> (
            step.reply matches SessionReplyView::HookContext {
                runtime_context,
                record,
                summary,
                config,
            } && runtime_context == state.runtime_context && record == state.record && summary
                == state.summary && config == state.config)
            &&& command is GetTurnPersistenceSnapshot || command is GetRecord ==> step.reply
                == SessionReplyView::Record(state.record)
            &&& command is GetShellExecContext ==> step.reply
                == SessionReplyView::ShellExecContext(state.core.config.sandbox_profile)
            &&& command is GetTitleGenerationContext ==> (
            step.reply matches SessionReplyView::TitleGenerationContext {
                model,
                model_binding_id,
                reasoning_effort_selection,
                title_state,
                runtime_context,
            } && model == state.summary.model && model_binding_id == state.summary.model_binding_id
                && reasoning_effort_selection == state.summary.reasoning_effort_selection
                && title_state == state.summary.title_state && runtime_context
                == state.runtime_context)
            &&& command is GetActiveTurnId ==> step.reply == SessionReplyView::ActiveTurnId(active)
            &&& command is TakeShutdownDeferredSnapshot ==> (
            step.reply matches SessionReplyView::ShutdownDeferred {
                deferred_assistant,
                deferred_reasoning,
                active_turn_id,
                record,
            } && deferred_assistant == state.deferred_assistant && deferred_reasoning
                == state.deferred_reasoning && active_turn_id == active && record == state.record)
            &&& command is GetRuntimeContext ==> step.reply == SessionReplyView::RuntimeContext(
                state.runtime_context,
            )
            &&& command is GetResumeSnapshot ==> (step.reply matches SessionReplyView::Resume {
                summary,
                latest_turn,
                loaded_item_count,
                history_items,
                pending_texts: texts,
            } && summary == state.summary && latest_turn == state.latest_turn && loaded_item_count
                == state.loaded_item_count && history_items == state.history_items && texts
                == pending_texts(state.pending_turn_queue))
            &&& command is GetPendingQueueSnapshot ==> step.reply == SessionReplyView::PendingCount(
                pending_texts(state.pending_turn_queue).len() as u64,
            )
            &&& command is Shutdown ==> step.reply is Stopped
            &&& command is GetSummary || command is GetMemorySettings || command is GetSpawnSnapshot
                || command is ExportRuntimeSession || command is GetApprovalCacheSnapshot
                || command is GetCollaborationMode || command is GetParentSessionId
                || command is GetTurnReservationSnapshot || command is GetHookContextSnapshot
                || command is GetTurnPersistenceSnapshot || command is GetRecord
                || command is GetShellExecContext || command is GetTitleGenerationContext
                || command is GetActiveTurnId || command is PreparePersistItem
                || command is TakeShutdownDeferredSnapshot || command is GetRuntimeContext
                || command is GetResumeSnapshot || command is GetPendingQueueSnapshot
                || command is Shutdown ==> step.state == state
        }),
{
}

/// An item is of the kind of its turn, be it the active or the latest one; the active
/// turn goes first, and of any other turn nothing special is known.
pub proof fn law_items_are_of_the_kind_of_their_turn(
    state: SessionActorStateView,
    command: SessionCommand,
    at: Timestamp,
)
    ensures
        command matches SessionCommand::PreparePersistItem { turn_id } ==> (
        actor_step(state, command, at).reply matches SessionReplyView::PersistItem {
            turn_kind,
            record,
        } && record == state.record && {
            let active = state.active_turn is Some && state.active_turn->Some_0.turn_id == turn_id;
            let latest = state.latest_turn is Some && state.latest_turn->Some_0.turn_id == turn_id;
            &&& active ==> turn_kind == state.active_turn->Some_0.kind
            &&& !active && latest ==> turn_kind == state.latest_turn->Some_0.kind
            &&& !active && !latest ==> turn_kind == LegacyTurnKindView::Regular
        }),
{
}

/// The texts that wait are those that the user typed, in order: one more for each input
/// of the user that is queued, none for any other.
pub proof fn law_waiting_texts(queue: Seq<PendingInputItemView>, item: PendingInputItemView)
    ensures
        pending_texts(Seq::empty()).len() == 0,
        item.kind matches PendingInputKindView::UserText { text } ==> pending_texts(
            queue.push(item),
        ) == pending_texts(queue).push(text),
        item.kind matches PendingInputKindView::UserInput { display_text, .. } ==> pending_texts(
            queue.push(item),
        ) == pending_texts(queue).push(display_text),
        item.kind is Other ==> pending_texts(queue.push(item)) == pending_texts(queue),
{
    assert(queue.push(item).drop_last() =~= queue);
}

// ---------------------------------------------------------------------------
// Items and inputs.
// ---------------------------------------------------------------------------
/// What is queued, appended, numbered, deferred or touched is so exactly: at the end of
/// what is there, and nothing is lost of that.
pub proof fn law_items_are_appended(
    state: SessionActorStateView,
    command: SessionCommand,
    at: Timestamp,
)
    ensures
        ({
            let step = actor_step(state, command, at);
            &&& command matches SessionCommand::EnqueuePendingTurnInput { item } ==> step.reply
                is Silent && step.state.pending_turn_queue == state.pending_turn_queue.push(item@)
            &&& command matches SessionCommand::PopQueuedTurnInput { require_idle_session } ==> if (
            require_idle_session && state.active_turn is Some) || state.pending_turn_queue.len()
                == 0 {
                step.state == state && step.reply == SessionReplyView::QueuedInput(None)
            } else {
                &&& seq![state.pending_turn_queue[0]] + step.state.pending_turn_queue
                    == state.pending_turn_queue
                &&& step.reply == SessionReplyView::QueuedInput(
                    queued_input(state.pending_turn_queue[0]),
                )
            }
            &&& command is AllocateItemSeq ==> {
                &&& step.reply == SessionReplyView::ItemSeq(state.next_item_seq)
                &&& state.next_item_seq < u64::MAX ==> step.state.next_item_seq
                    == state.next_item_seq + 1
                &&& state.loaded_item_count < u64::MAX ==> step.state.loaded_item_count
                    == state.loaded_item_count + 1
                &&& state.next_item_seq == u64::MAX ==> step.state.next_item_seq == u64::MAX
                &&& state.loaded_item_count == u64::MAX ==> step.state.loaded_item_count
                    == u64::MAX
            }
            &&& command matches SessionCommand::AppendPersistedItem { item } ==> step.reply
                is Silent && step.state.persisted_turn_items == state.persisted_turn_items.push(
                item@,
            )
            &&& command matches SessionCommand::AppendHistoryItem { item } ==> step.reply is Silent
                && step.state.history_items == state.history_items.push(item@)
            &&& command is TakeDeferredItems ==> {
                &&& step.state.deferred_assistant is None
                &&& step.state.deferred_reasoning is None
                &&& step.reply matches SessionReplyView::DeferredItems {
                    deferred_assistant,
                    deferred_reasoning,
                } && deferred_assistant == state.deferred_assistant && deferred_reasoning
                    == state.deferred_reasoning
            }
            &&& command is TouchLastActivity ==> {
                &&& step.reply is Silent
                &&& !step.state.summary.last_activity_at.earlier(state.summary.last_activity_at)
                    || step.state.summary.last_activity_at == state.summary.last_activity_at
                &&& state.summary.last_activity_at.earlier(at)
                    ==> step.state.summary.last_activity_at == at
                &&& !state.summary.last_activity_at.earlier(at) ==> step.state == state
                &&& step.state.summary.updated_at == state.summary.updated_at
            }
            &&& command matches SessionCommand::SetFirstUserInputIfUnset { text } ==> {
                &&& step.reply == SessionReplyView::FirstUserInput(step.state.first_user_input)
                &&& state.first_user_input is Some ==> step.state == state
                &&& state.first_user_input is None ==> step.state.first_user_input == Some(text@)
            }
        }),
{
    if command is PopQueuedTurnInput && state.pending_turn_queue.len() > 0 {
        assert(seq![state.pending_turn_queue[0]] + state.pending_turn_queue.skip(1)
            =~= state.pending_turn_queue);
    }
    if command is TouchLastActivity {
        law_timestamp_order(state.summary.last_activity_at, at, at);
    }
}

// ---------------------------------------------------------------------------
// Settings.
// ---------------------------------------------------------------------------
/// A setting is what the command says, both for the turn that runs and for those to
/// come.
pub proof fn law_settings_are_as_set(
    state: SessionActorStateView,
    command: SessionCommand,
    at: Timestamp,
)
    ensures
        ({
            let step = actor_step(state, command, at);
            let after = step.state;
            &&& command matches SessionCommand::ApplyApprovalScope {
                session_approvals,
                turn_approvals,
                core_profile,
                profile,
            } ==> {
                &&& after.session_approvals == views(session_approvals@)
                &&& after.turn_approvals == views(turn_approvals@)
                &&& after.core.config.permission_profile == core_profile@
                &&& after.config.permission_profile == profile@
                &&& after.core.config.permission_mode == state.core.config.permission_mode
                &&& after.config.permission_mode == state.config.permission_mode
                &&& after.core.config.sandbox_profile == state.core.config.sandbox_profile
                &&& after.config.sandbox_profile == state.config.sandbox_profile
                &&& after.summary == state.summary
                &&& step.reply is Silent
            }
            &&& command matches SessionCommand::UpdateCorePermissionMode { permission_mode } ==> {
                &&& after.core.config.permission_mode == permission_mode@
                &&& after.config.permission_mode == permission_mode@
                &&& after.core.config.permission_profile == state.core.config.permission_profile
                &&& after.config.permission_profile == state.config.permission_profile
                &&& after.core.config.sandbox_profile == state.core.config.sandbox_profile
                &&& after.config.sandbox_profile == state.config.sandbox_profile
                &&& after.summary == state.summary
                &&& step.reply is Silent
            }
            &&& command matches SessionCommand::SetActiveGoal { goal } ==> after.core.active_goal
                == opt_view(goal) && step.reply is Silent
            &&& command matches SessionCommand::SetToolRegistry { tool_registry }
                ==> after.tool_registry == tool_registry && step.reply is Done
            &&& command matches SessionCommand::UpdateMemorySettings { recall, contribution } ==> {
                &&& after.memory.settings.recall == match recall {
                    Some(recall) => recall,
                    None => state.memory.settings.recall,
                }
                &&& after.memory.settings.contribution == match contribution {
                    Some(contribution) => contribution,
                    None => state.memory.settings.contribution,
                }
                &&& step.reply == SessionReplyView::MemorySettings(after.memory)
                &&& after.memory.settings == state.memory.settings ==> after == state
                &&& after.memory.settings != state.memory.settings ==> {
                    &&& state.memory.version < u64::MAX ==> after.memory.version
                        == state.memory.version + 1
                    &&& state.memory.version == u64::MAX ==> after.memory.version == u64::MAX
                    &&& after.summary.updated_at == at
                    &&& after.summary.last_activity_at == state.summary.last_activity_at
                    &&& state.record is Some ==> after.record is Some
                        && after.record->Some_0.updated_at == at && after.record->Some_0.details
                        == state.record->Some_0.details
                    &&& state.record is None ==> after.record is None
                }
            }
            &&& command matches SessionCommand::ApplyPermissionProfile { profile } ==> {
                &&& step.reply is Done
                &&& after.core.config.permission_mode == profile@.permission_mode
                &&& after.config.permission_mode == profile@.permission_mode
                &&& after.core.config.permission_profile == profile@.profile
                &&& after.config.permission_profile == profile@.profile
                &&& after.core.config.sandbox_profile == Some(profile@.implied_sandbox_profile)
                &&& after.config.sandbox_profile == Some(profile@.implied_sandbox_profile)
                &&& after.core.config.context_window == state.core.config.context_window
                &&& after.config.context_window == state.config.context_window
                &&& after.session_approvals.len() == 0
                &&& after.turn_approvals.len() == 0
                &&& after.summary.permission_preset == Some(profile@.preset)
                &&& after.summary.updated_at == at
                &&& after.summary.last_activity_at == state.summary.last_activity_at
                &&& state.record is None ==> after.record is None
                &&& state.record is Some ==> after.record is Some
                    && after.record->Some_0.permission_preset == Some(profile@.preset)
                    && after.record->Some_0.updated_at == at && after.record->Some_0.details
                    == state.record->Some_0.details
            }
            &&& command matches SessionCommand::ApplyEffectiveContextWindow { limit } ==> {
                &&& step.reply is Done
                &&& after.core.config.effective_context_window_override == Some(limit)
                &&& after.core.config.context_window == limit
                &&& after.core.config.auto_compact_token_limit == Some(limit)
                &&& after.config.effective_context_window_override == Some(limit)
                &&& after.config.context_window == limit
                &&& after.config.auto_compact_token_limit == Some(limit)
                &&& after.summary.effective_context_window == Some(limit)
                &&& after.summary.updated_at == state.summary.updated_at
                &&& after.core.config.sandbox_profile == state.core.config.sandbox_profile
                &&& after.config.permission_mode == state.config.permission_mode
                &&& after.record == state.record
            }
            &&& command matches SessionCommand::ApplySandboxProfile { normalized } ==> {
                &&& normalized@ matches NormalizedSandboxProfileView::Known(name) ==> step.reply
                    == SessionReplyView::SandboxProfile(name)
                    && after.core.config.sandbox_profile == Some(name)
                    && after.config.sandbox_profile == Some(name)
                    && after.core.config.permission_mode == state.core.config.permission_mode
                    && after.config.permission_mode == state.config.permission_mode
                    && after.summary == state.summary && after.record == state.record
                &&& normalized@ matches NormalizedSandboxProfileView::Unknown(reason) ==> step.reply
                    == SessionReplyView::SandboxProfileRefused(reason) && after == state
            }
        }),
{
}

/// Whether a session has a title in a state since an instant, in what it says of itself
/// and in its record.
pub open spec fn is_titled(
    before: SessionActorStateView,
    after: SessionActorStateView,
    title: Seq<char>,
    title_state: SessionTitleState,
    at: Timestamp,
) -> bool {
    &&& after.summary.title == Some(title)
    &&& after.summary.title_state == title_state
    &&& after.summary.updated_at == at
    &&& after.summary.last_activity_at == before.summary.last_activity_at
    &&& after.summary.model == before.summary.model
    &&& after.summary.status == before.summary.status
    &&& after.core == before.core
    &&& before.record is None ==> after.record is None
    &&& before.record matches Some(known) ==> (after.record matches Some(record) && record.title
        == Some(title) && record.title_state == title_state && record.updated_at == at
        && record.model == known.model && record.rollout_path == known.rollout_path
        && record.details == known.details)
}

/// What a session says of itself is what the command says: its title, its record, its
/// usage, its workspace. A title is given to a session whose title is not final, or by
/// the user, whose title is final.
pub proof fn law_metadata_is_as_told(
    state: SessionActorStateView,
    command: SessionCommand,
    at: Timestamp,
)
    ensures
        ({
            let step = actor_step(state, command, at);
            let after = step.state;
            &&& command matches SessionCommand::UpdateSummary { summary } ==> after.summary
                == summary@ && after.core == state.core && step.reply is Silent
            &&& command matches SessionCommand::UpdateTitle { title, title_state } ==> if (
            state.summary.title_state is Final) {
                after == state && step.reply == SessionReplyView::Retitled(None)
            } else {
                is_titled(state, after, title@, title_state, at) && step.reply
                    == SessionReplyView::Retitled(Some(after.summary))
            }
            &&& command matches SessionCommand::SetSessionTitleUserRename { title } ==> is_titled(
                state,
                after,
                title@,
                SessionTitleState::Final(SessionTitleFinalSource::UserRename),
                at,
            ) && step.reply == SessionReplyView::Summary(after.summary)
            &&& command matches SessionCommand::UpdateRecordRolloutPath { rollout_path } ==> {
                &&& step.reply is Silent
                &&& state.record is None ==> after.record is None
                &&& state.record matches Some(known) ==> (after.record matches Some(record)
                    && record.rollout_path == rollout_path@ && record.title == known.title
                    && record.updated_at == known.updated_at && record.details == known.details
                    && record.model == known.model)
                &&& after.summary == state.summary
            }
            &&& command matches SessionCommand::ApplyParentUsageSnapshot { tokens } ==> {
                &&& after.summary.tokens == tokens
                &&& after.core.tokens == tokens
                &&& after.summary.updated_at == state.summary.updated_at
                &&& step.reply is Silent
            }
            &&& command matches SessionCommand::UpdateSessionWorkspace { cwd, runtime_context }
                ==> {
                &&& after.core.cwd == cwd@
                &&& after.summary.cwd == cwd@
                &&& after.runtime_context == runtime_context
                &&& step.reply is Silent
            }
            &&& command matches SessionCommand::ReplaceState { state: replacement } ==> after == (
            *replacement)@ && step.reply is Done
        }),
{
}

/// A session keeps its model where nothing but its mode is told, and else has the model
/// that is told, known or not; it keeps its mode where none is told. Its record follows.
pub proof fn law_model_and_mode_are_as_told(
    state: SessionActorStateView,
    command: SessionCommand,
    at: Timestamp,
)
    ensures
        command matches SessionCommand::UpdateSessionMetadata {
            model,
            model_binding_id,
            reasoning_effort_selection,
            collaboration_mode,
        } ==> {
            let step = actor_step(state, command, at);
            let after = step.state;
            let only_mode = model is None && model_binding_id is None
                && reasoning_effort_selection is None && collaboration_mode is Some;
            &&& step.reply == SessionReplyView::Summary(after.summary)
            &&& after.summary.updated_at == at
            &&& after.summary.last_activity_at == state.summary.last_activity_at
            &&& after.summary.title == state.summary.title
            &&& after.active_turn == state.active_turn
            &&& only_mode ==> after.summary.model == state.summary.model
                && after.summary.model_binding_id == state.summary.model_binding_id
                && after.summary.reasoning_effort_selection
                == state.summary.reasoning_effort_selection
            &&& !only_mode ==> after.summary.model == opt_view(model)
                && after.summary.model_binding_id == opt_view(model_binding_id)
                && after.summary.reasoning_effort_selection == opt_view(
                reasoning_effort_selection,
            )
            &&& collaboration_mode matches Some(mode) ==> after.summary.collaboration_mode == mode@
                && after.core.collaboration_mode == mode@
            &&& collaboration_mode is None ==> after.summary.collaboration_mode
                == state.summary.collaboration_mode && after.core.collaboration_mode
                == state.core.collaboration_mode
            &&& state.record is None ==> after.record is None
            &&& state.record matches Some(known) ==> (after.record matches Some(record) && {
                &&& record.updated_at == at
                &&& record.title == known.title
                &&& record.rollout_path == known.rollout_path
                &&& record.permission_preset == known.permission_preset
                &&& record.details == known.details
                &&& only_mode ==> record.model == known.model && record.model_binding_id
                    == known.model_binding_id && record.reasoning_effort_selection
                    == known.reasoning_effort_selection
                &&& !only_mode ==> record.model == opt_view(model) && record.model_binding_id
                    == opt_view(model_binding_id) && record.reasoning_effort_selection == opt_view(
                    reasoning_effort_selection,
                )
                &&& collaboration_mode matches Some(mode) ==> record.collaboration_mode == Some(
                    mode@,
                )
                &&& collaboration_mode is None ==> record.collaboration_mode
                    == known.collaboration_mode
            })
        },
{
}

/// Turns begin and end by the commands that begin and end them, and by no others; so do
/// the contexts that turns bring.
pub proof fn law_turns_change_by_their_commands(
    state: SessionActorStateView,
    command: SessionCommand,
    at: Timestamp,
)
    requires
        !(command is ReplaceState),
    ensures
        ({
            let after = actor_step(state, command, at).state;
            let begins = command is BeginActiveTurn || command is ActivateQueuedTurn
                || command is TryBeginActiveTurn;
            let ends = command is ClearActiveTurnIfMatches || command is SetSessionIdle
                || command is InterruptActiveTurn;
            &&& after.max_turns == state.max_turns
            &&& after.core.latest_turn_context == state.core.latest_turn_context
            &&& !begins && !ends ==> after.active_turn == state.active_turn
            &&& !(command is TurnLineAppended) ==> after.session_context_recorded
                == state.session_context_recorded
            &&& !begins ==> after.core.session_context == state.core.session_context
            &&& !(command is InterruptActiveTurn) ==> after.core.last_turn_interrupted
                == state.core.last_turn_interrupted
        }),
{
}

/// Inputs and items come and go by the commands that are about them, and by no others.
pub proof fn law_items_change_by_their_commands(
    state: SessionActorStateView,
    command: SessionCommand,
    at: Timestamp,
)
    requires
        !(command is ReplaceState),
    ensures
        ({
            let after = actor_step(state, command, at).state;
            &&& !(command is EnqueuePendingTurnInput || command is PopQueuedTurnInput)
                ==> after.pending_turn_queue == state.pending_turn_queue
            &&& !(command is AllocateItemSeq) ==> after.next_item_seq == state.next_item_seq
                && after.loaded_item_count == state.loaded_item_count
            &&& !(command is AppendPersistedItem) ==> after.persisted_turn_items
                == state.persisted_turn_items
            &&& !(command is AppendHistoryItem) ==> after.history_items == state.history_items
            &&& !(command is SetFirstUserInputIfUnset) ==> after.first_user_input
                == state.first_user_input
            &&& !(command is TakeDeferredItems) ==> after.deferred_assistant
                == state.deferred_assistant && after.deferred_reasoning == state.deferred_reasoning
        }),
{
}

/// Settings change by the commands that set them, and by no others.
pub proof fn law_settings_change_by_their_commands(
    state: SessionActorStateView,
    command: SessionCommand,
    at: Timestamp,
)
    requires
        !(command is ReplaceState),
    ensures
        ({
            let after = actor_step(state, command, at).state;
            &&& !(command is SetSessionIdle || command is InterruptActiveTurn) ==> after.latest_turn
                == state.latest_turn
            &&& !(command is ApplyApprovalScope || command is ApplyPermissionProfile)
                ==> after.session_approvals == state.session_approvals && after.turn_approvals
                == state.turn_approvals
            &&& !(command is UpdateSessionWorkspace) ==> after.runtime_context
                == state.runtime_context && after.core.cwd == state.core.cwd
            &&& !(command is SetToolRegistry) ==> after.tool_registry == state.tool_registry
            &&& !(command is UpdateMemorySettings) ==> after.memory == state.memory
            &&& !(command is ApplyApprovalScope || command is UpdateCorePermissionMode
                || command is ApplyPermissionProfile || command is ApplyEffectiveContextWindow
                || command is ApplySandboxProfile) ==> after.config == state.config
                && after.core.config == state.core.config
            &&& !(command is SetActiveGoal) ==> after.core.active_goal == state.core.active_goal
            &&& !(command is ApplyParentUsageSnapshot) ==> after.core.tokens == state.core.tokens
            &&& !(command is UpdateSessionMetadata) ==> after.core.collaboration_mode
                == state.core.collaboration_mode
        }),
{
}

/// What a session says of itself, and its record, change by the commands that are about
/// them, and by no others; whose session it is never changes.
pub proof fn law_metadata_changes_by_its_commands(
    state: SessionActorStateView,
    command: SessionCommand,
    at: Timestamp,
)
    requires
        !(command is ReplaceState),
    ensures
        ({
            let after = actor_step(state, command, at).state;
            let begins = command is BeginActiveTurn || command is ActivateQueuedTurn
                || command is TryBeginActiveTurn;
            let ends = command is ClearActiveTurnIfMatches || command is SetSessionIdle
                || command is InterruptActiveTurn;
            &&& !(command is UpdateTitle || command is SetSessionTitleUserRename
                || command is UpdateSessionMetadata || command is UpdateMemorySettings
                || command is ApplyPermissionProfile || command is UpdateRecordRolloutPath)
                ==> after.record == state.record
            &&& !(begins || ends || command is UpdateSummary || command is TouchLastActivity
                || command is UpdateTitle || command is SetSessionTitleUserRename
                || command is UpdateSessionMetadata || command is UpdateMemorySettings
                || command is ApplyPermissionProfile || command is ApplyEffectiveContextWindow
                || command is ApplyParentUsageSnapshot || command is UpdateSessionWorkspace)
                ==> after.summary == state.summary
            &&& !(command is UpdateSummary) ==> after.summary.session_id
                == state.summary.session_id && after.summary.parent_session_id
                == state.summary.parent_session_id && after.summary.ephemeral
                == state.summary.ephemeral
        }),
{
}

// ---------------------------------------------------------------------------
// What an input brings along.
// ---------------------------------------------------------------------------
/// Whether a field is the first with a key.
pub open spec fn is_field(
    metadata: PendingMetadataView,
    key: Seq<char>,
    at: int,
) -> bool {
    &&& 0 <= at < metadata.fields.len()
    &&& metadata.fields[at].key == key
    &&& forall|i: int| 0 <= i < at ==> (#[trigger] metadata.fields[i]).key != key
}

/// Whether there is no field with a key.
pub open spec fn lacks_field(metadata: PendingMetadataView, key: Seq<char>) -> bool {
    forall|i: int|
        0 <= i < metadata.fields.len() ==> (#[trigger] metadata.fields[i]).key != key
}

/// Whether a text is what a field says, without the whitespace round it.
pub open spec fn is_said(field: MetadataFieldView, text: Seq<char>) -> bool {
    field.text matches Some(said) && trimmed(said).len() > 0 && text == trimmed(said)
}

/// An input of the user is queued with its words: what is shown and what is sent.
pub proof fn law_queued_input_says_what_was_typed(item: PendingInputItemView)
    ensures
        queued_input(item) is None <==> item.kind is Other,
        queued_input(item) matches Some(queued) ==> queued.queued_input_id == item.id,
        queued_input(item) matches Some(queued) ==> (
        item.kind matches PendingInputKindView::UserText { text } ==> queued.display_input == text
            && queued.input_text == text && queued.input_messages.len() == 0),
        queued_input(item) matches Some(queued) ==> (
        item.kind matches PendingInputKindView::UserInput {
            display_text,
            prompt_text,
            prompt_messages,
        } ==> queued.display_input == display_text && queued.input_text == prompt_text
            && queued.input_messages == prompt_messages),
{
}

/// The mode of an input is the one under "collaboration_mode", or under
/// "interaction_mode" where there is none.
pub proof fn law_queued_input_has_its_mode(
    item: PendingInputItemView,
    metadata: PendingMetadataView,
    at: int,
)
    requires
        item.metadata == Some(metadata),
    ensures
        queued_input(item) matches Some(queued) ==> {
            &&& is_field(metadata, "collaboration_mode"@, at) || (lacks_field(
                metadata,
                "collaboration_mode"@,
            ) && is_field(metadata, "interaction_mode"@, at)) ==> queued.collaboration_mode
                == match metadata.fields[at].mode {
                Some(mode) => mode,
                None => NamedChoiceView::Default,
            }
            &&& lacks_field(metadata, "collaboration_mode"@) && lacks_field(
                metadata,
                "interaction_mode"@,
            ) ==> queued.collaboration_mode == NamedChoiceView::Default
        },
{
    lemma_field(metadata, "collaboration_mode"@, at);
    lemma_field(metadata, "interaction_mode"@, at);
}

/// The model of an input is the binding, or else the model, that is named.
pub proof fn law_queued_input_has_its_model(
    item: PendingInputItemView,
    metadata: PendingMetadataView,
    at: int,
    text: Seq<char>,
)
    requires
        item.metadata == Some(metadata),
    ensures
        queued_input(item) matches Some(queued) ==> {
            &&& is_field(metadata, "model_binding_id"@, at) && is_said(metadata.fields[at], text)
                ==> queued.model_selection == Some(text)
            &&& lacks_field(metadata, "model_binding_id"@) && is_field(metadata, "model"@, at)
                && is_said(metadata.fields[at], text) ==> queued.model_selection == Some(text)
            &&& lacks_field(metadata, "model_binding_id"@) && lacks_field(metadata, "model"@)
                ==> queued.model_selection is None
        },
{
    lemma_field(metadata, "model_binding_id"@, at);
    lemma_field(metadata, "model"@, at);
}

/// The usage of an input counts for the session, and within it for the turn, that are
/// named as the ones to count it for.
pub proof fn law_queued_input_has_its_owner(
    item: PendingInputItemView,
    metadata: PendingMetadataView,
    at: int,
    text: Seq<char>,
)
    requires
        item.metadata == Some(metadata),
    ensures
        queued_input(item) matches Some(queued) ==> {
            &&& is_field(metadata, "devo_subagent_usage_parent_session_id"@, at) && is_said(
                metadata.fields[at],
                text,
            ) ==> match queued.subagent_usage_owner {
                Some(owner) => uuid_value(text) == Some(owner.session_id.value),
                None => uuid_value(text) is None,
            }
            &&& lacks_field(metadata, "devo_subagent_usage_parent_session_id"@)
                ==> queued.subagent_usage_owner is None
        },
        queued_input(item) matches Some(queued) ==> (
        queued.subagent_usage_owner matches Some(owner) ==> {
            &&& is_field(metadata, "devo_subagent_usage_parent_turn_id"@, at) && is_said(
                metadata.fields[at],
                text,
            ) ==> match owner.turn_id {
                Some(turn) => uuid_value(text) == Some(turn.value),
                None => uuid_value(text) is None,
            }
            &&& lacks_field(metadata, "devo_subagent_usage_parent_turn_id"@) ==> owner.turn_id
                is None
        }),
{
    lemma_field(metadata, "devo_subagent_usage_parent_session_id"@, at);
    lemma_field(metadata, "devo_subagent_usage_parent_turn_id"@, at);
}

proof fn lemma_field(metadata: PendingMetadataView, key: Seq<char>, at: int)
    ensures
        is_field(metadata, key, at) ==> field_of(Some(metadata), key) == Some(
            metadata.fields[at],
        ),
        lacks_field(metadata, key) ==> field_of(
            Some(metadata),
            key,
        ) is None,
{
    if is_field(metadata, key, at) {
        lemma_is_first_match(metadata.fields, key_is(key), at);
    }
    if lacks_field(metadata, key) {
        lemma_no_match(metadata.fields, key_is(key));
    }
}

} // verus!
