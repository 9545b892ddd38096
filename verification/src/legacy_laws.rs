//! Laws of converting old records: what an old word means, and that nothing a record
//! says is lost or attributed to another session, turn or request.

use vstd::prelude::*;

use crate::claim_laws::lemma_is_lower;
use crate::config::MemorySetting;
use crate::ids::{uuid_text, uuid_value};
use crate::item::{
    ApprovalDecisionKind, ApprovalDecisionView, ApprovalScope, ApprovalTargetView,
    CompactionTrigger, ExecOrigin, ExecutionMode, ItemState, ItemView, PlanStepStatus, ToolSource,
    UserInputView, UserMessageEntry,
};
use crate::legacy_projector::{
    approval_is, can_observe, can_project_line, decision_kind_of, decision_of, decision_step,
    fold_of, has_room, is_consistent, item_lines, legacy_ids, line_step, new_projector,
    observe_step, project_step, request_from_parts, request_step, scope_kind_of, with_fold,
    ApprovalEntryView, ApprovalFoldView, FreshIds, ItemPlace, ProjectedView, ProjectorView,
};
use crate::rollout::{
    ApprovalDecisionItemView, ApprovalRequestItemView, InternalEntryView, InternalRecordV2View,
    RolloutLine, RolloutLineV2View, SessionRecord, TurnItemView, TurnRecord,
};
use crate::rows::{first_match, lemma_first_match, lemma_is_first_match, lemma_no_match};
use crate::session::{
    NamedChoiceView, PermissionProfile, SessionParentView, SessionStatus, SessionView, TurnKind,
    TurnStatus, TurnView,
};
use crate::text::{ascii_lower, has_part, opt_view, views};
use crate::text_laws::{law_lower_case_compares_letters, reads_as, reads_in};
use crate::time::Timestamp;

verus! {

// ---------------------------------------------------------------------------
// Old words.
// ---------------------------------------------------------------------------
proof fn lemma_word(text: Seq<char>, word: Seq<char>)
    requires
        forall|i: int| 0 <= i < word.len() ==> !('A' <= #[trigger] word[i] <= 'Z'),
    ensures
        ascii_lower(text) == word <==> reads_as(text, word),
        has_part(ascii_lower(text), word) <==> reads_in(text, word),
{
    lemma_is_lower(word);
    law_lower_case_compares_letters(text, word);
}

/// Whether a decision says what an old record says: that something was approved, denied
/// or neither, within which bounds, by whom and when. Words are read in any case of
/// their ASCII letters; a word that is none of those known means neither, and a bound
/// that is none of those known means once.
pub open spec fn says_as_decided(
    told: ApprovalDecisionView,
    decision: ApprovalDecisionItemView,
    timestamp: Timestamp,
) -> bool {
    let word = decision.decision;
    let bound = decision.scope;
    &&& told.decision == ApprovalDecisionKind::Approved <==> reads_as(word, "approve"@)
        || reads_as(word, "approved"@) || reads_as(word, "allow"@)
    &&& told.decision == ApprovalDecisionKind::Denied <==> reads_as(word, "deny"@) || reads_as(
        word,
        "denied"@,
    )
    &&& told.scope == ApprovalScope::Turn <==> reads_as(bound, "turn"@)
    &&& told.scope == ApprovalScope::Session <==> reads_as(bound, "session"@)
    &&& told.scope == ApprovalScope::PathPrefix <==> reads_as(bound, "path_prefix"@)
    &&& told.scope == ApprovalScope::Host <==> reads_as(bound, "host"@)
    &&& told.scope == ApprovalScope::Tool <==> reads_as(bound, "tool"@)
    &&& told.scope == ApprovalScope::CommandPrefix <==> reads_as(bound, "command_prefix"@)
    &&& told.scope == ApprovalScope::CommandPrefixPersist <==> reads_as(
        bound,
        "command_prefix_persist"@,
    )
    &&& told.decided_at == timestamp
    &&& match decision.decision_source {
        Some(source) => told.decision_source == source,
        None => told.decision_source == NamedChoiceView::Default,
    }
}

proof fn lemma_decided(word: Seq<char>)
    ensures
        ({
            let told = decision_kind_of(word);
            &&& told == ApprovalDecisionKind::Approved <==> reads_as(word, "approve"@) || reads_as(
                word,
                "approved"@,
            ) || reads_as(word, "allow"@)
            &&& told == ApprovalDecisionKind::Denied <==> reads_as(word, "deny"@) || reads_as(
                word,
                "denied"@,
            )
        }),
{
    reveal_strlit("approve");
    reveal_strlit("approved");
    reveal_strlit("allow");
    reveal_strlit("deny");
    reveal_strlit("denied");
    lemma_word(word, "approve"@);
    lemma_word(word, "approved"@);
    lemma_word(word, "allow"@);
    lemma_word(word, "deny"@);
    lemma_word(word, "denied"@);
    assert("approve"@.len() == 7 && "approved"@.len() == 8 && "allow"@.len() == 5);
    assert("deny"@.len() == 4 && "denied"@.len() == 6);
}

proof fn lemma_bounded(bound: Seq<char>)
    ensures
        ({
            let told = scope_kind_of(bound);
            &&& told == ApprovalScope::Turn <==> reads_as(bound, "turn"@)
            &&& told == ApprovalScope::Session <==> reads_as(bound, "session"@)
            &&& told == ApprovalScope::PathPrefix <==> reads_as(bound, "path_prefix"@)
            &&& told == ApprovalScope::Host <==> reads_as(bound, "host"@)
            &&& told == ApprovalScope::Tool <==> reads_as(bound, "tool"@)
            &&& told == ApprovalScope::CommandPrefix <==> reads_as(bound, "command_prefix"@)
            &&& told == ApprovalScope::CommandPrefixPersist <==> reads_as(
                bound,
                "command_prefix_persist"@,
            )
        }),
{
    reveal_strlit("turn");
    reveal_strlit("session");
    reveal_strlit("path_prefix");
    reveal_strlit("host");
    reveal_strlit("tool");
    reveal_strlit("command_prefix");
    reveal_strlit("command_prefix_persist");
    lemma_word(bound, "turn"@);
    lemma_word(bound, "session"@);
    lemma_word(bound, "path_prefix"@);
    lemma_word(bound, "host"@);
    lemma_word(bound, "tool"@);
    lemma_word(bound, "command_prefix"@);
    lemma_word(bound, "command_prefix_persist"@);
    assert("turn"@[1] != "host"@[1]);
    assert("turn"@[1] != "tool"@[1]);
    assert("host"@[0] != "tool"@[0]);
    assert("turn"@.len() == 4 && "session"@.len() == 7 && "path_prefix"@.len() == 11);
    assert("host"@.len() == 4 && "tool"@.len() == 4 && "command_prefix"@.len() == 14);
    assert("command_prefix_persist"@.len() == 22);
}

proof fn lemma_decision(decision: ApprovalDecisionItemView, timestamp: Timestamp)
    ensures
        says_as_decided(decision_of(decision, timestamp), decision, timestamp),
{
    lemma_decided(decision.decision);
    lemma_bounded(decision.scope);
}

/// Whether an item asks for what a request asks for, of the path that it names, or else
/// of the host, or else of the command.
pub open spec fn asks_as_requested(
    item: ItemView,
    request: ApprovalRequestItemView,
    decision: Option<ApprovalDecisionView>,
) -> bool {
    item matches ItemView::Approval {
        approval_id,
        target_item_id,
        action_summary,
        justification,
        resource,
        available_scopes,
        command_pattern,
        command_prefix,
        target,
        decision: told,
    } && {
        &&& approval_id == request.approval_id
        &&& target_item_id is None
        &&& action_summary == request.action_summary
        &&& justification == request.justification
        &&& resource == request.resource
        &&& available_scopes == request.available_scopes
        &&& command_pattern == request.command_pattern
        &&& command_prefix == request.command_prefix
        &&& told == decision
        &&& request.path matches Some(named) ==> target == Some(
            ApprovalTargetView::Path { path: named },
        )
        &&& request.path is None ==> (request.host matches Some(named) ==> target == Some(
            ApprovalTargetView::Host { host: named },
        ))
        &&& request.path is None && request.host is None ==> (request.target matches Some(named)
            ==> target == Some(ApprovalTargetView::Command { command: named }))
        &&& request.path is None && request.host is None && request.target is None
            ==> target is None
    }
}

/// A decision on a known request completes the item of that request, one revision on,
/// and says what was decided. One on an unknown request is a warning of its own.
pub proof fn law_decision_completes_its_request(
    state: ProjectorView,
    timestamp: Timestamp,
    orphan_id: Seq<char>,
    decision: ApprovalDecisionItemView,
)
    requires
        is_consistent(state),
        forall|k: int|
            0 <= k < state.approvals.len() ==> (#[trigger] state.approvals[k]).fold.revision
                < u32::MAX,
        state.next_seq < u64::MAX,
    ensures
        forall|k: int|
            0 <= k < state.approvals.len() && (#[trigger] state.approvals[k]).approval_id
                == decision.approval_id ==> {
                let step = decision_step(state, timestamp, orphan_id, decision);
                let fold = state.approvals[k].fold;
                &&& step.projected matches ProjectedView::FoldedItem {
                    id,
                    seq,
                    revision,
                    item,
                    state: item_state,
                } && id == fold.item_id && seq == fold.seq && revision == fold.revision + 1
                    && item_state == ItemState::Completed && decided_item(
                    item,
                    fold.request,
                    decision,
                    timestamp,
                )
                &&& step.state.next_seq == state.next_seq
                &&& step.state.approvals.len() == state.approvals.len()
                &&& step.state.approvals[k].fold.revision == fold.revision + 1
                &&& step.state.approvals[k].fold.request == fold.request
                &&& step.state.approvals[k].fold.item_id == fold.item_id
                &&& step.state.approvals[k].fold.seq == fold.seq
                &&& step.state.approvals[k].approval_id == decision.approval_id
                &&& forall|j: int|
                    0 <= j < state.approvals.len() && j != k ==> #[trigger] step.state.approvals[j]
                        == state.approvals[j]
            },
        (forall|k: int|
            0 <= k < state.approvals.len() ==> (#[trigger] state.approvals[k]).approval_id
                != decision.approval_id) ==> {
            let step = decision_step(state, timestamp, orphan_id, decision);
            &&& step.state.approvals == state.approvals
            &&& step.state.next_seq == state.next_seq + 1
            &&& step.projected matches ProjectedView::FoldedItem {
                id,
                seq,
                revision,
                item,
                state: item_state,
            } && id == orphan_id && seq == state.next_seq && revision == 1 && item_state
                == ItemState::Completed && (item matches ItemView::Warning {
                code,
                message,
                retryable,
            } && code == "legacyOrphanApprovalDecision"@ && !retryable && message
                == "approval decision '"@ + decision.decision + "'/'"@ + decision.scope
                + "' references unknown approval id "@ + decision.approval_id)
        },
{
    let accepts = approval_is(decision.approval_id);
    lemma_decision(decision, timestamp);
    assert forall|k: int|
        0 <= k < state.approvals.len() && (#[trigger] state.approvals[k]).approval_id
            == decision.approval_id implies fold_of(state.approvals, decision.approval_id) == Some(
        state.approvals[k].fold,
    ) && first_match(state.approvals, accepts) == Some(k) by {
        lemma_is_first_match(state.approvals, accepts, k);
    }
    if forall|k: int|
        0 <= k < state.approvals.len() ==> (#[trigger] state.approvals[k]).approval_id
            != decision.approval_id {
        lemma_no_match(state.approvals, accepts);
    }
}

/// Whether an item asks for what a request asked for and says what was decided on it.
pub open spec fn decided_item(
    item: ItemView,
    request: ApprovalRequestItemView,
    decision: ApprovalDecisionItemView,
    timestamp: Timestamp,
) -> bool {
    item matches ItemView::Approval { decision: told, .. } && (told matches Some(told)
        && says_as_decided(told, decision, timestamp)) && asks_as_requested(item, request, told)
}

/// A request waits as an item of its own, the next in sequence, and is known from then
/// on by its ID; all other requests stay known as they were.
pub proof fn law_request_waits(
    state: ProjectorView,
    item_id: Seq<char>,
    request: ApprovalRequestItemView,
)
    requires
        is_consistent(state),
        state.next_seq < u64::MAX,
    ensures
        ({
            let step = request_step(state, item_id, request);
            &&& step.projected matches ProjectedView::FoldedItem {
                id,
                seq,
                revision,
                item,
                state: item_state,
            } && id == item_id && seq == state.next_seq && revision == 1 && item_state
                == ItemState::Waiting && asks_as_requested(item, request, None)
            &&& step.state.next_seq == state.next_seq + 1
            &&& fold_of(step.state.approvals, request.approval_id) == Some(
                ApprovalFoldView { item_id, seq: state.next_seq, revision: 1, request },
            )
            &&& forall|other: Seq<char>|
                other != request.approval_id ==> #[trigger] fold_of(step.state.approvals, other)
                    == fold_of(state.approvals, other)
        }),
{
    let after = request_step(state, item_id, request).state.approvals;
    let fold = ApprovalFoldView { item_id, seq: state.next_seq, revision: 1, request };
    law_known_requests(state.approvals, request.approval_id, fold);
}

/// Making a request known leaves every other request as it was.
pub proof fn law_known_requests(
    approvals: Seq<ApprovalEntryView>,
    approval_id: Seq<char>,
    fold: ApprovalFoldView,
)
    ensures
        fold_of(with_fold(approvals, approval_id, fold), approval_id) == Some(fold),
        forall|other: Seq<char>|
            other != approval_id ==> #[trigger] fold_of(
                with_fold(approvals, approval_id, fold),
                other,
            ) == fold_of(approvals, other),
{
    let after = with_fold(approvals, approval_id, fold);
    lemma_first_match(approvals, approval_is(approval_id));
    let at = match first_match(approvals, approval_is(approval_id)) {
        Some(i) => i,
        None => approvals.len() as int,
    };
    lemma_is_first_match(after, approval_is(approval_id), at);
    assert forall|other: Seq<char>| other != approval_id implies #[trigger] fold_of(after, other)
        == fold_of(approvals, other) by {
        lemma_first_match(approvals, approval_is(other));
        match first_match(approvals, approval_is(other)) {
            Some(i) => {
                lemma_is_first_match(after, approval_is(other), i);
            },
            None => {
                lemma_no_match(after, approval_is(other));
            },
        }
    }
}

// ---------------------------------------------------------------------------
// Payloads.
// ---------------------------------------------------------------------------
/// Whether a line is the entry of a payload among those that only the record keeps.
pub open spec fn is_entry_line(
    line: RolloutLineV2View,
    place: ItemPlace,
    next_seq: u64,
    entry: InternalEntryView,
) -> bool {
    line matches RolloutLineV2View::Internal {
        v,
        timestamp,
        session_id,
        turn_id,
        seq,
        entry: told,
    } && v == 2 && timestamp == place.line_timestamp && session_id == place.session_id && turn_id
        == Some(place.turn_id) && seq == next_seq && (told matches InternalRecordV2View::Entry {
        entry: told,
    } && told == entry)
}

/// What the item of a payload that was done says: the words and the results of the
/// payload, under the call that they belong to.
pub open spec fn says_as_recorded(
    item: ItemView,
    payload: TurnItemView,
    id: Seq<char>,
    cwd: Option<Seq<char>>,
) -> bool {
    match payload {
        TurnItemView::UserMessage(said) => item matches ItemView::UserMessage {
            client_user_message_id,
            content,
            entry,
        } && client_user_message_id is None && content == seq![UserInputView::Text { text: said }]
            && entry == UserMessageEntry::TurnStart,
        TurnItemView::SteerInput(said) => item matches ItemView::UserMessage {
            client_user_message_id,
            content,
            entry,
        } && client_user_message_id is None && content == seq![UserInputView::Text { text: said }]
            && entry == UserMessageEntry::Steer,
        TurnItemView::AgentMessage(said) => item matches ItemView::AssistantMessage {
            text,
            phase,
        } && text == said && phase is None,
        TurnItemView::Plan(said) => item matches ItemView::Plan { entries } && entries.len() == 1
            && entries[0].step == said && entries[0].status == PlanStepStatus::Completed,
        TurnItemView::Reasoning(said) => item matches ItemView::Reasoning {
            text,
            provider_payload_ref,
        } && text == said && provider_payload_ref is None,
        TurnItemView::ToolCall(call) => item matches ItemView::ToolCall {
            call_id,
            tool_name,
            source,
            server_name,
            input,
        } && call_id == call.tool_call_id && tool_name == call.tool_name && input == Some(
            call.input,
        ) && source == ToolSource::Builtin && server_name is None,
        TurnItemView::ToolResult(result) => item matches ItemView::ToolResult {
            call_id,
            output,
            display_content,
            is_error,
            truncated,
        } && call_id == result.tool_call_id && output == result.output && display_content
            == result.display_content && is_error == result.is_error && !truncated,
        TurnItemView::CommandExecution(run) => item matches ItemView::CommandExecution {
            call_id,
            command,
            argv,
            cwd: told_cwd,
            input,
            output,
            exit_code,
            execution_handle,
            is_error,
            execution_mode,
            origin,
            sandbox,
        } && call_id == run.tool_call_id && command == run.command && input == Some(run.input)
            && output == Some(run.output) && is_error == run.is_error && (match cwd {
            Some(known) => told_cwd == known,
            None => told_cwd.len() == 0,
        }) && execution_mode == ExecutionMode::Foreground && origin == ExecOrigin::AgentTool
            && argv is None && exit_code is None && execution_handle is None && sandbox is None,
        TurnItemView::WebSearch(said) => item matches ItemView::HostedToolCall {
            call_id,
            tool_name,
            input,
            output_text,
        } && call_id == id && tool_name == "web_search"@ && input is None && output_text == Some(
            said,
        ),
        TurnItemView::ImageGeneration(said) => item matches ItemView::HostedToolCall {
            call_id,
            tool_name,
            input,
            output_text,
        } && call_id == id && tool_name == "image_generation"@ && input is None && output_text
            == Some(said),
        TurnItemView::ContextCompaction(said) => item matches ItemView::ContextCompaction {
            trigger,
            before,
            after,
            summary,
        } && summary == Some(said) && after is None && trigger == CompactionTrigger::AutoThreshold
            && !before.measured && before.used_tokens == 0,
        _ => false,
    }
}

/// Whether a payload is done once it is recorded: it is no approval, and not kept for
/// the record alone.
pub open spec fn is_done(payload: TurnItemView) -> bool {
    !(payload is HookPrompt || payload is ToolProgress || payload is TurnSummary
        || payload is ApprovalRequest || payload is ApprovalDecision)
}

/// Whether a line holds an item at a place: of the session and the turn of the record,
/// made when the record was made.
pub open spec fn is_item_at(
    line: RolloutLineV2View,
    place: ItemPlace,
    id: Seq<char>,
    seq: int,
    revision: int,
    state: ItemState,
) -> bool {
    line matches RolloutLineV2View::Item { v, timestamp, item } && {
        &&& v == 2
        &&& timestamp == place.line_timestamp
        &&& item.id == id
        &&& item.session_id == place.session_id
        &&& item.turn_id == place.turn_id
        &&& item.seq == seq
        &&& item.revision == revision
        &&& item.created_at == place.timestamp
        &&& item.updated_at == place.timestamp
        &&& item.state == state
    }
}

/// Every payload of a record becomes one line, of the record's session and turn, that
/// says what the payload says. The first payload keeps the record's ID, the others get
/// fresh ones, and each takes the next number in sequence.
pub proof fn law_payload_is_carried_over(
    state: ProjectorView,
    place: ItemPlace,
    index: int,
    ids: FreshIds,
    payload: TurnItemView,
)
    requires
        is_consistent(state),
        has_room(state, 1),
        state.next_seq < u64::MAX,
    ensures
        ({
            let step = line_step(state, place, index, ids, payload);
            let id = if index == 0 {
                place.item_id
            } else {
                uuid_text(ids.item)
            };
            &&& step.state.session_cwd == state.session_cwd
            &&& step.state.next_settings_epoch == state.next_settings_epoch
            &&& is_done(payload) ==> {
                &&& is_item_at(step.line, place, id, state.next_seq as int, 1, ItemState::Completed)
                &&& step.line matches RolloutLineV2View::Item { item, .. } && says_as_recorded(
                    item.item,
                    payload,
                    id,
                    state.session_cwd,
                )
                &&& step.state.next_seq == state.next_seq + 1
                &&& step.state.approvals == state.approvals
            }
            &&& payload matches TurnItemView::HookPrompt(said) ==> is_entry_line(
                step.line,
                place,
                state.next_seq,
                InternalEntryView::HookPrompt { text: said },
            ) && step.state.next_seq == state.next_seq + 1
            &&& payload matches TurnItemView::ToolProgress(progress) ==> is_entry_line(
                step.line,
                place,
                state.next_seq,
                InternalEntryView::ToolProgress {
                    call_id: progress.tool_call_id,
                    message: progress.message,
                },
            ) && step.state.next_seq == state.next_seq + 1
            &&& payload matches TurnItemView::TurnSummary(said) ==> is_entry_line(
                step.line,
                place,
                state.next_seq,
                InternalEntryView::TurnSummary { text: said },
            ) && step.state.next_seq == state.next_seq + 1
            &&& payload matches TurnItemView::ApprovalRequest(request) ==> {
                &&& is_item_at(step.line, place, id, state.next_seq as int, 1, ItemState::Waiting)
                &&& step.line matches RolloutLineV2View::Item { item, .. } && asks_as_requested(
                    item.item,
                    request,
                    None,
                )
                &&& step.state.next_seq == state.next_seq + 1
                &&& fold_of(step.state.approvals, request.approval_id) == Some(
                    ApprovalFoldView { item_id: id, seq: state.next_seq, revision: 1, request },
                )
            }
            &&& payload matches TurnItemView::ApprovalDecision(decision) ==> match fold_of(
                state.approvals,
                decision.approval_id,
            ) {
                Some(fold) => {
                    &&& is_item_at(
                        step.line,
                        place,
                        fold.item_id,
                        fold.seq as int,
                        fold.revision + 1,
                        ItemState::Completed,
                    )
                    &&& step.line matches RolloutLineV2View::Item { item, .. } && decided_item(
                        item.item,
                        fold.request,
                        decision,
                        place.timestamp,
                    )
                    &&& step.state.next_seq == state.next_seq
                },
                None => {
                    &&& is_item_at(
                        step.line,
                        place,
                        uuid_text(ids.orphan),
                        state.next_seq as int,
                        1,
                        ItemState::Completed,
                    )
                    &&& step.line matches RolloutLineV2View::Item { item, .. } && item.item
                        is Warning
                    &&& step.state.next_seq == state.next_seq + 1
                },
            }
        }),
{
    if let TurnItemView::ApprovalDecision(decision) = payload {
        law_decision_completes_its_request(
            state,
            place.timestamp,
            uuid_text(ids.orphan),
            decision,
        );
        let accepts = approval_is(decision.approval_id);
        lemma_first_match(state.approvals, accepts);
        if let Some(k) = first_match(state.approvals, accepts) {
            assert(state.approvals[k].approval_id == decision.approval_id);
        }
    }
    if let TurnItemView::ApprovalRequest(request) = payload {
        let id = if index == 0 {
            place.item_id
        } else {
            uuid_text(ids.item)
        };
        law_request_waits(state, id, request);
    }
}

/// The lines of a record are those of its payloads in order, each after what the
/// payloads before it left.
pub proof fn law_lines_follow_the_payloads(
    state: ProjectorView,
    place: ItemPlace,
    payloads: Seq<TurnItemView>,
    fresh: Seq<FreshIds>,
    i: int,
)
    requires
        0 <= i < payloads.len(),
    ensures
        item_lines(state, place, payloads, fresh).lines.len() == payloads.len(),
        item_lines(state, place, payloads, fresh).lines[i] == line_step(
            item_lines(state, place, payloads.take(i), fresh).state,
            place,
            i,
            fresh[i],
            payloads[i],
        ).line,
        item_lines(state, place, payloads.take(i + 1), fresh).state == line_step(
            item_lines(state, place, payloads.take(i), fresh).state,
            place,
            i,
            fresh[i],
            payloads[i],
        ).state,
        item_lines(state, place, payloads.take(0), fresh).state == state,
        payloads.take(payloads.len() as int) == payloads,
    decreases payloads.len(),
{
    let front = payloads.drop_last();
    assert(payloads.take(payloads.len() as int) =~= payloads);
    assert(payloads.take(i + 1).drop_last() =~= payloads.take(i));
    if i < front.len() {
        law_lines_follow_the_payloads(state, place, front, fresh, i);
        assert(front.take(i) =~= payloads.take(i));
        assert(front.take(i + 1) =~= payloads.take(i + 1));
    } else {
        assert(payloads.take(i) =~= front);
        if front.len() > 0 {
            law_lines_follow_the_payloads(state, place, front, fresh, 0);
        } else {
            assert(front =~= Seq::<TurnItemView>::empty());
        }
    }
}

/// An item record becomes the lines of what went in and then of what came out, in the
/// session and the turn that it names. It is refused, and told why, only where one of
/// its IDs is none.
pub proof fn law_item_record_is_carried_over(
    state: ProjectorView,
    line: RolloutLine,
    fresh: Seq<FreshIds>,
)
    ensures
        line matches RolloutLine::Item { timestamp, item } ==> {
            let step = project_step(state, line, fresh);
            &&& step.result is Ok <==> uuid_value(item.session_id@) is Some && uuid_value(
                item.turn_id@,
            ) is Some && uuid_value(item.id@) is Some
            &&& step.result matches Err(text) ==> step.state == state && uuid_value(text) is None
                && (text == item.session_id@ || text == item.turn_id@ || text == item.id@)
            &&& step.result matches Ok(lines) ==> {
                let done = item_lines(
                    state,
                    ItemPlace {
                        line_timestamp: timestamp,
                        timestamp: item.timestamp,
                        session_id: uuid_text(uuid_value(item.session_id@)->Some_0),
                        turn_id: uuid_text(uuid_value(item.turn_id@)->Some_0),
                        item_id: uuid_text(uuid_value(item.id@)->Some_0),
                    },
                    views(item.input_items@) + views(item.output_items@),
                    fresh,
                );
                lines == done.lines && step.state == done.state
            }
        },
{
}

// ---------------------------------------------------------------------------
// Sessions and turns.
// ---------------------------------------------------------------------------
/// The ID that an old ID is written as, if it is one.
pub open spec fn is_same_id(told: Seq<char>, old: Seq<char>) -> bool {
    uuid_value(old) matches Some(value) && told == uuid_text(value)
}

/// A converted session is the session of the record, idle and without a turn: same
/// place, title, model and age. Its approval mode is read for "auto" first and for
/// "full" next, anywhere and in any case of ASCII letters. A parent is that of an agent
/// if anything is known of an agent, else of a fork. Tokens that were used count as
/// usage of old, never below zero.
pub proof fn law_session_is_carried_over(
    state: ProjectorView,
    line: RolloutLine,
    fresh: Seq<FreshIds>,
)
    ensures
        line matches RolloutLine::SessionMeta { timestamp, session: record } ==> {
            let step = project_step(state, line, fresh);
            &&& step.state.session_cwd == Some(record.cwd@)
            &&& step.state.next_seq == state.next_seq
            &&& step.state.next_settings_epoch == state.next_settings_epoch
            &&& step.state.approvals == state.approvals
            &&& step.result is Ok <==> uuid_value(record.id@) is Some && (
            record.parent_session_id matches Some(parent) ==> uuid_value(parent@) is Some)
            &&& step.result matches Ok(lines) ==> lines.len() == 1 && (
            lines[0] matches RolloutLineV2View::SessionMeta {
                v,
                timestamp: told_at,
                session,
                extras,
            } && v == 2 && told_at == timestamp && is_session_of(session, *record) && (
            extras matches Some(extras) && extras.session_context == opt_view(
                record.session_context,
            ) && extras.cli_version == record.cli_version@ && extras.source == record.source@
                && extras.collaboration_mode == record.collaboration_mode@
                && extras.permission_preset == record.permission_preset@))
        },
{
    if let RolloutLine::SessionMeta { timestamp, session: record } = line {
        let mode = record.approval_mode@;
        reveal_strlit("auto");
        reveal_strlit("full");
        lemma_word(mode, "auto"@);
        lemma_word(mode, "full"@);
    }
}

/// Whether a session is the one of a record.
pub open spec fn is_session_of(session: SessionView, record: SessionRecord) -> bool {
    let mode = record.approval_mode@;
    let used = session.usage.total;
    &&& is_same_id(session.id, record.id@)
    &&& session.version == 1
    &&& session.cwd == record.cwd@
    &&& session.additional_directories == views(record.additional_directories@)
    &&& session.status == SessionStatus::Idle
    &&& session.active_turn_id is None
    &&& session.queued_count == 0
    &&& session.flags.len() == 0
    &&& !session.ephemeral
    &&& session.archived <==> record.archived_at is Some
    &&& session.created_at == record.created_at
    &&& match record.last_activity_at {
        Some(at) => session.last_activity_at == at,
        None => session.last_activity_at == record.updated_at,
    }
    &&& session.title == opt_view(record.title)
    &&& session.model.provider == record.model_provider@
    &&& match record.model {
        Some(model) => session.model.model == model@,
        None => session.model.model.len() == 0,
    }
    &&& session.model.reasoning_effort == opt_view(record.reasoning_effort)
    &&& session.settings.permission_profile == PermissionProfile::AutoReview <==> reads_in(
        mode,
        "auto"@,
    )
    &&& session.settings.permission_profile == PermissionProfile::FullAccess <==> reads_in(
        mode,
        "full"@,
    ) && !reads_in(mode, "auto"@)
    &&& session.settings.permission_profile == PermissionProfile::Default <==> !reads_in(
        mode,
        "full"@,
    ) && !reads_in(mode, "auto"@)
    &&& session.settings.sandbox_profile is None <==> record.sandbox_policy@.len() == 0
    &&& session.settings.sandbox_profile matches Some(sandbox) ==> sandbox
        == record.sandbox_policy@
    &&& session.settings.effective_context_window == record.effective_context_window
    &&& session.settings.reasoning_effort is None
    &&& session.settings.mode is None
    &&& session.settings.memory_recall == MemorySetting::Inherit
    &&& session.settings.memory_contribution == MemorySetting::Inherit
    &&& match record.first_user_message {
        Some(message) => session.preview == message@,
        None => session.preview.len() == 0,
    }
    &&& session.transcript_size_bytes is None
    &&& match record.parent_session_id {
        None => session.parent is None,
        Some(parent) => {
            let agent = record.agent_role is Some || record.agent_nickname is Some
                || record.agent_path is Some;
            match session.parent {
                None => false,
                Some(SessionParentView::Agent { session_id, role }) => agent && is_same_id(
                    session_id,
                    parent@,
                ) && role == opt_view(record.agent_role),
                Some(SessionParentView::Fork { session_id, at_turn_id }) => !agent && is_same_id(
                    session_id,
                    parent@,
                ) && at_turn_id is None,
            }
        },
    }
    &&& session.git_info is None <==> record.git_sha is None && record.git_branch is None
        && record.git_origin_url is None
    &&& session.git_info matches Some(git) ==> git.sha == opt_view(record.git_sha) && git.branch
        == opt_view(record.git_branch) && git.origin_url == opt_view(record.git_origin_url)
        && git.dirty is None && git.observed_at == record.updated_at
    &&& record.tokens_used >= 0 ==> used.total_tokens == record.tokens_used
    &&& record.tokens_used < 0 ==> used.total_tokens == 0
    &&& used.input_tokens == 0 && used.output_tokens == 0 && used.reasoning_tokens == 0
    &&& used.cache_read_input_tokens == 0 && used.cache_creation_input_tokens == 0
    &&& used.call_count == 0 && used.metered_call_count == 0
    &&& session.usage.legacy == Some(used)
    &&& session.usage.by_purpose.len() == 0
    &&& session.usage.updated_at == record.updated_at
}

/// A converted turn is the turn of the record: what had not ended is in progress, a
/// compaction is one only if the user asked for it, the model is the one that was
/// requested where that is known, and what was used counts as one metered query.
pub proof fn law_turn_is_carried_over(
    state: ProjectorView,
    line: RolloutLine,
    fresh: Seq<FreshIds>,
)
    requires
        can_project_line(state, line),
    ensures
        line matches RolloutLine::Turn { timestamp, turn: record } ==> {
            let step = project_step(state, line, fresh);
            &&& step.state == state
            &&& step.result is Ok <==> uuid_value(record.id@) is Some && uuid_value(
                record.session_id@,
            ) is Some
            &&& step.result matches Ok(lines) ==> lines.len() == 1 && (
            lines[0] matches RolloutLineV2View::Turn { v, timestamp: told_at, turn, extras } && v
                == 2 && told_at == timestamp && is_turn_of(turn, *record) && (
            extras matches Some(extras) && extras.session_context == opt_view(
                record.session_context,
            ) && extras.turn_context == opt_view(record.turn_context) && extras.request_thinking
                == opt_view(record.request_thinking) && extras.input_token_estimate
                == record.input_token_estimate && extras.latest_query_usage == opt_view(
                record.latest_query_usage,
            ) && extras.context_occupancy == opt_view(record.context_occupancy)
                && extras.stop_reason == opt_view(record.stop_reason) && extras.failure_reason
                == opt_view(record.failure_reason)))
        },
{
}

/// Whether a turn is the one of a record.
pub open spec fn is_turn_of(turn: TurnView, record: TurnRecord) -> bool {
    &&& is_same_id(turn.id, record.id@)
    &&& is_same_id(turn.session_id, record.session_id@)
    &&& turn.sequence == record.sequence
    &&& turn.kind == TurnKind::Compaction <==> record.kind is ManualCompaction
    &&& turn.status == TurnStatus::InProgress <==> record.status is Pending || record.status
        is Running || record.status is WaitingApproval
    &&& turn.status == TurnStatus::Completed <==> record.status is Completed
    &&& turn.status == TurnStatus::Interrupted <==> record.status is Interrupted
    &&& turn.status == TurnStatus::Failed <==> record.status is Failed
    &&& match record.model_binding_id {
        Some(provider) => turn.model.provider == provider@,
        None => turn.model.provider == "unknown"@,
    }
    &&& record.request_model@.len() > 0 ==> turn.model.model == record.request_model@
    &&& record.request_model@.len() == 0 ==> turn.model.model == record.model@
    &&& turn.model.reasoning_effort == opt_view(record.reasoning_effort)
    &&& match record.turn_context {
        Some(context) => turn.collaboration_mode == Some(context.collaboration_mode@),
        None => turn.collaboration_mode == Some(NamedChoiceView::Default),
    }
    &&& turn.started_at == record.started_at
    &&& turn.completed_at == record.completed_at
    &&& match record.error {
        None => turn.error is None,
        Some(error) => turn.error matches Some(told) && told.code == error.code@ && told.message
            == error.message@ && told.recovery_hint == opt_view(error.recovery_hint),
    }
    &&& match record.usage {
        None => turn.usage is None,
        Some(usage) => turn.usage matches Some(told) && {
            &&& told.query.input_tokens == usage.input_tokens
            &&& told.query.output_tokens == usage.output_tokens
            &&& usage.total_tokens matches Some(total) ==> told.query.total_tokens == total
            &&& usage.total_tokens is None ==> told.query.total_tokens == usage.input_tokens
                + usage.output_tokens
            &&& is_count(told.query.reasoning_tokens, usage.reasoning_output_tokens)
            &&& is_count(told.query.cache_read_input_tokens, usage.cache_read_input_tokens)
            &&& is_count(
                told.query.cache_creation_input_tokens,
                usage.cache_creation_input_tokens,
            )
            &&& told.query.call_count == 0
            &&& told.query.metered_call_count == 1
            &&& told.overhead.total_tokens == 0 && told.overhead.input_tokens == 0
            &&& told.overhead.output_tokens == 0 && told.overhead.reasoning_tokens == 0
            &&& told.overhead.cache_read_input_tokens == 0
            &&& told.overhead.cache_creation_input_tokens == 0
            &&& told.overhead.call_count == 0 && told.overhead.metered_call_count == 0
        },
    }
}

/// Whether a number is a count that may be unknown, which counts as none.
pub open spec fn is_count(told: u64, count: Option<u32>) -> bool {
    match count {
        Some(count) => told == count,
        None => told == 0,
    }
}

// ---------------------------------------------------------------------------
// Other lines.
// ---------------------------------------------------------------------------
/// Whether IDs are old IDs, each as it is written and in their order.
pub open spec fn are_same_ids(told: Seq<Seq<char>>, old: Seq<Seq<char>>) -> bool {
    told.len() == old.len() && forall|i: int|
        0 <= i < old.len() ==> is_same_id(#[trigger] told[i], old[i])
}

proof fn lemma_ids(old: Seq<Seq<char>>)
    ensures
        legacy_ids(old) matches Ok(told) ==> are_same_ids(told, old),
        legacy_ids(old) is Ok <==> forall|i: int|
            0 <= i < old.len() ==> uuid_value(#[trigger] old[i]) is Some,
    decreases old.len(),
{
    if old.len() > 0 {
        let front = old.drop_last();
        lemma_ids(front);
        assert(forall|i: int| 0 <= i < front.len() ==> #[trigger] old[i] == front[i]);
        if legacy_ids(old) is Err {
            if legacy_ids(front) is Err {
                let i = choose|i: int|
                    0 <= i < front.len() && uuid_value(#[trigger] front[i]) is None;
                assert(uuid_value(old[i]) is None);
            } else {
                assert(uuid_value(old[old.len() - 1]) is None);
            }
        } else {
            assert forall|i: int| 0 <= i < old.len() implies uuid_value(
                #[trigger] old[i],
            ) is Some by {
                if i < front.len() {
                    assert(uuid_value(front[i]) is Some);
                }
            }
        }
    }
}

/// The line of a record that only the store keeps, as it is written.
pub open spec fn is_record_line(
    line: RolloutLineV2View,
    at: Timestamp,
    session: Seq<char>,
    turn: Option<Seq<char>>,
    record: InternalRecordV2View,
) -> bool {
    line matches RolloutLineV2View::Internal { v, timestamp, session_id, turn_id, seq, entry } && v
        == 2 && timestamp == at && is_same_id(session_id, session) && (match turn {
        Some(turn) => turn_id matches Some(told) && is_same_id(told, turn),
        None => turn_id is None,
    }) && seq == 0 && entry == record
}

/// Every other line becomes one line of its kind and time that says what it says, in the
/// session that it names; an edit belongs to the turn that replaces the old one, or else
/// to the turn that was edited. Nothing else changes, but that settings count their
/// epochs.
pub proof fn law_other_lines_are_carried_over(
    state: ProjectorView,
    line: RolloutLine,
    fresh: Seq<FreshIds>,
)
    ensures
        ({
            let step = project_step(state, line, fresh);
            &&& !(line is SessionMeta || line is Item || line is SessionSettings) ==> step.state
                == state
            &&& !(line is Item) ==> (step.result matches Ok(lines) ==> lines.len() == 1)
            &&& line matches RolloutLine::SessionTitleUpdated {
                timestamp,
                session_id,
                title,
                previous_title,
            } ==> {
                &&& step.result is Ok <==> uuid_value(session_id@) is Some
                &&& step.result matches Ok(lines) ==> (
                lines[0] matches RolloutLineV2View::SessionTitleUpdated {
                    v,
                    timestamp: at,
                    session_id: told_id,
                    title: told,
                    previous_title: previous,
                } && v == 2 && at == timestamp && is_same_id(told_id, session_id@) && told == title@
                    && previous == opt_view(previous_title))
            }
            &&& line matches RolloutLine::SessionContextUpdated {
                timestamp,
                session_id,
                session_context,
            } ==> {
                &&& step.result is Ok <==> uuid_value(session_id@) is Some
                &&& step.result matches Ok(lines) ==> is_record_line(
                    lines[0],
                    timestamp,
                    session_id@,
                    None,
                    InternalRecordV2View::SessionContext(session_context@),
                )
            }
            &&& line matches RolloutLine::SessionSettings { timestamp, session_id, field, value }
                ==> {
                &&& step.result is Ok <==> uuid_value(session_id@) is Some
                &&& step.result matches Ok(lines) ==> is_record_line(
                    lines[0],
                    timestamp,
                    session_id@,
                    None,
                    InternalRecordV2View::SessionSettings {
                        schema_version: 1,
                        field: field@,
                        value: value@,
                        epoch: state.next_settings_epoch,
                    },
                )
                &&& step.state.next_seq == state.next_seq
                &&& step.state.approvals == state.approvals
                &&& step.state.session_cwd == state.session_cwd
            }
            &&& line matches RolloutLine::MessageEditRecorded { timestamp, record } ==> {
                let turn = match record.replacement_turn_id {
                    Some(turn) => Some(turn@),
                    None => opt_view(record.target_turn_id),
                };
                &&& step.result is Ok <==> uuid_value(record.session_id@) is Some && (
                turn matches Some(turn) ==> uuid_value(turn) is Some)
                &&& step.result matches Ok(lines) ==> is_record_line(
                    lines[0],
                    timestamp,
                    record.session_id@,
                    turn,
                    InternalRecordV2View::MessageEdit(record@),
                )
            }
            &&& line matches RolloutLine::TurnSuperseded { timestamp, record } ==> {
                &&& step.result is Ok <==> uuid_value(record.session_id@) is Some && uuid_value(
                    record.replacement_turn_id@,
                ) is Some
                &&& step.result matches Ok(lines) ==> is_record_line(
                    lines[0],
                    timestamp,
                    record.session_id@,
                    Some(record.replacement_turn_id@),
                    InternalRecordV2View::TurnSuperseded(record@),
                )
            }
        }),
{
}

/// Snapshots, rollbacks and workspace records keep what they say and the order in which
/// they say it.
pub proof fn law_history_lines_are_carried_over(
    state: ProjectorView,
    line: RolloutLine,
    fresh: Seq<FreshIds>,
)
    ensures
        ({
            let step = project_step(state, line, fresh);
            &&& line matches RolloutLine::CompactionSnapshot {
                timestamp,
                session_id,
                turn_id,
                summary_item_id,
                preserved_item_ids,
                context_occupancy,
            } ==> {
                &&& step.result is Ok <==> uuid_value(session_id@) is Some && uuid_value(
                    turn_id@,
                ) is Some && uuid_value(summary_item_id@) is Some && forall|i: int|
                    0 <= i < preserved_item_ids@.len() ==> uuid_value(
                        #[trigger] views(preserved_item_ids@)[i],
                    ) is Some
                &&& step.result matches Ok(lines) ==> (
                lines[0] matches RolloutLineV2View::CompactionSnapshot {
                    v,
                    timestamp: at,
                    session_id: told_session,
                    turn_id: told_turn,
                    summary_item_id: told_summary,
                    preserved_item_ids: told_items,
                    context_occupancy: told,
                } && v == 2 && at == timestamp && is_same_id(told_session, session_id@)
                    && is_same_id(told_turn, turn_id@) && is_same_id(told_summary, summary_item_id@)
                    && are_same_ids(told_items, views(preserved_item_ids@)) && told == opt_view(
                    context_occupancy,
                ))
            }
            &&& line matches RolloutLine::SessionRollback {
                timestamp,
                session_id,
                retained_turn_ids,
                retained_item_ids,
                latest_turn_id,
            } ==> (step.result matches Ok(lines) ==> (
            lines[0] matches RolloutLineV2View::SessionRollback {
                v,
                timestamp: at,
                session_id: told_session,
                retained_turn_ids: told_turns,
                retained_item_ids: told_items,
                latest_turn_id: told_latest,
            } && v == 2 && at == timestamp && is_same_id(told_session, session_id@)
                && are_same_ids(told_turns, views(retained_turn_ids@)) && are_same_ids(
                told_items,
                views(retained_item_ids@),
            ) && match latest_turn_id {
                Some(latest) => told_latest matches Some(told) && is_same_id(told, latest@),
                None => told_latest is None,
            }))
            &&& line matches RolloutLine::TurnWorkspaceCheckpointRecorded { timestamp, record }
                ==> step.result == Ok::<Seq<RolloutLineV2View>, Seq<char>>(
                seq![
                    RolloutLineV2View::WorkspaceCheckpoint { v: 2, timestamp, record: record@ },
                ],
            )
            &&& line matches RolloutLine::TurnWorkspaceChangeRecorded { timestamp, record }
                ==> step.result == Ok::<Seq<RolloutLineV2View>, Seq<char>>(
                seq![RolloutLineV2View::WorkspaceChange { v: 2, timestamp, record: record@ }],
            )
            &&& line matches RolloutLine::TurnWorkspaceRestoreStarted { timestamp, record }
                ==> step.result == Ok::<Seq<RolloutLineV2View>, Seq<char>>(
                seq![
                    RolloutLineV2View::WorkspaceRestoreStarted { v: 2, timestamp, record: record@ },
                ],
            )
            &&& line matches RolloutLine::TurnWorkspaceRestoreCompleted { timestamp, record }
                ==> step.result == Ok::<Seq<RolloutLineV2View>, Seq<char>>(
                seq![
                    RolloutLineV2View::WorkspaceRestoreCompleted {
                        v: 2,
                        timestamp,
                        record: record@,
                    },
                ],
            )
        }),
{
    if let RolloutLine::CompactionSnapshot { preserved_item_ids, .. } = line {
        lemma_ids(views(preserved_item_ids@));
        assert(views(preserved_item_ids@).len() == preserved_item_ids@.len());
    }
    if let RolloutLine::SessionRollback { retained_turn_ids, retained_item_ids, .. } = line {
        lemma_ids(views(retained_turn_ids@));
        lemma_ids(views(retained_item_ids@));
    }
}

// ---------------------------------------------------------------------------
// Reading back.
// ---------------------------------------------------------------------------
/// A projector starts with the first number and knows nothing.
pub proof fn law_projector_starts_empty()
    ensures
        new_projector().next_seq == 1,
        new_projector().next_settings_epoch == 1,
        new_projector().session_cwd is None,
        new_projector().approvals.len() == 0,
{
}

/// Reading a written line back makes its numbers taken, a session's directory known and
/// an open request known by its item; a decision only counts the revision of a request
/// that is known, never down. Nothing else changes.
pub proof fn law_observing_learns_what_a_line_says(
    state: ProjectorView,
    line: RolloutLineV2View,
)
    requires
        can_observe(line),
    ensures
        ({
            let after = observe_step(state, line);
            match line {
                RolloutLineV2View::SessionMeta { session, .. } => after == (ProjectorView {
                    session_cwd: Some(session.cwd),
                    ..state
                }),
                RolloutLineV2View::Internal { seq, entry, .. } => {
                    &&& after.next_seq == if seq < state.next_seq {
                        state.next_seq as int
                    } else {
                        seq + 1
                    }
                    &&& after.next_settings_epoch == match entry {
                        InternalRecordV2View::SessionSettings { epoch, .. } => if epoch
                            < state.next_settings_epoch {
                            state.next_settings_epoch as int
                        } else {
                            epoch + 1
                        },
                        _ => state.next_settings_epoch as int,
                    }
                    &&& after.session_cwd == state.session_cwd
                    &&& after.approvals == state.approvals
                },
                RolloutLineV2View::Item { item, .. } => {
                    &&& after.next_seq == if item.seq < state.next_seq {
                        state.next_seq as int
                    } else {
                        item.seq + 1
                    }
                    &&& after.next_settings_epoch == state.next_settings_epoch
                    &&& after.session_cwd == state.session_cwd
                    &&& !(item.item is Approval) ==> after.approvals == state.approvals
                    &&& item.item matches ItemView::Approval { approval_id, decision, .. } ==> {
                        let before = fold_of(state.approvals, approval_id);
                        let known = fold_of(after.approvals, approval_id);
                        &&& forall|other: Seq<char>|
                            other != approval_id ==> #[trigger] fold_of(after.approvals, other)
                                == fold_of(state.approvals, other)
                        &&& decision is None ==> (known matches Some(fold) && fold.item_id
                            == item.id && fold.seq == item.seq && fold.revision == item.revision
                            && fold.request.approval_id == approval_id && asks_as_requested(
                            ItemView::Approval {
                                approval_id,
                                target_item_id: None,
                                action_summary: item.item->action_summary,
                                justification: item.item->justification,
                                resource: item.item->resource,
                                available_scopes: item.item->available_scopes,
                                command_pattern: item.item->command_pattern,
                                command_prefix: item.item->command_prefix,
                                target: item.item->target,
                                decision: None,
                            },
                            fold.request,
                            None,
                        ))
                        &&& decision is Some ==> match before {
                            None => known is None,
                            Some(fold) => known matches Some(now) && now.item_id == fold.item_id
                                && now.seq == fold.seq && now.request == fold.request
                                && now.revision >= fold.revision && now.revision >= item.revision
                                && (now.revision == fold.revision || now.revision
                                == item.revision),
                        }
                    }
                },
                _ => after == state,
            }
        }),
{
    if let RolloutLineV2View::Item { item, .. } = line {
        if let ItemView::Approval {
            approval_id,
            target_item_id,
            action_summary,
            justification,
            resource,
            available_scopes,
            command_pattern,
            command_prefix,
            target,
            decision,
        } = item.item {
            let fold = match decision {
                None => ApprovalFoldView {
                    item_id: item.id,
                    seq: item.seq,
                    revision: item.revision,
                    request: request_from_parts(
                        approval_id,
                        action_summary,
                        justification,
                        resource,
                        available_scopes,
                        command_pattern,
                        command_prefix,
                        target,
                    ),
                },
                Some(_) => {
                    let fold = fold_of(state.approvals, approval_id)->Some_0;
                    ApprovalFoldView {
                        revision: if fold.revision < item.revision {
                            item.revision
                        } else {
                            fold.revision
                        },
                        ..fold
                    }
                },
            };
            law_known_requests(state.approvals, approval_id, fold);
        }
    }
}

} // verus!
