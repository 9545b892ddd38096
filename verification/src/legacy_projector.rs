//! Converts a session's record line by line from the older form to the present
//! one.
//!
//! One projector converts the record of one session: it owns the sequence numbers
//! and settings epochs of the session, what is known of its approvals, and the
//! working directory that older command records lack.

use vstd::prelude::*;

use crate::config::MemorySetting;
use crate::ids::{fresh_uuid_value, parse_uuid, uuid_text, uuid_value, ItemId, SessionId, TurnId};
use crate::item::{
    clone_opt_texts, opt_texts, ApprovalDecision, ApprovalDecisionKind, ApprovalDecisionView,
    ApprovalScope, ApprovalTarget, ApprovalTargetView, CompactionTrigger, ContextUsage, ExecOrigin,
    ExecutionMode, Item, ItemEnvelope, ItemEnvelopeView, ItemState, ItemView, PlanEntry,
    PlanEntryView, PlanStepStatus, ToolSource, UserInput, UserInputView, UserMessageEntry,
};
use crate::rollout::{
    ApprovalDecisionItem, ApprovalDecisionItemView, ApprovalRequestItem, ApprovalRequestItemView,
    InternalEntry, InternalEntryView, InternalRecordV2, InternalRecordV2View, ItemRecord,
    LegacyTurnKind, LegacyTurnStatus, LegacyTurnUsage, RolloutLine, RolloutLineV2,
    RolloutLineV2View, SessionPersistenceExtras, SessionPersistenceExtrasView, SessionRecord,
    TurnItem, TurnItemView, TurnPersistenceExtras, TurnPersistenceExtrasView, TurnRecord,
    ROLLOUT_FORMAT_VERSION,
};
use crate::rows::{first_match, lemma_first_match, lemma_is_first_match, lemma_no_match};
use crate::session::{
    no_usage, AgentError, AgentErrorView, GitInfo, GitInfoView, ModelBinding, ModelBindingView,
    NamedChoice, NamedChoiceView, PermissionProfile, PurposeUsageView, Session, SessionFlag,
    SessionParent, SessionParentView, SessionSettings, SessionSettingsView, SessionStatus,
    SessionUsage, SessionUsageView, SessionView, Turn, TurnKind, TurnStatus, TurnUsage, TurnView,
    UsageTotals,
};
use crate::text::{
    ascii_lower, chars_of, concat, contains_part, has_part, opt_view, same_text, text_of,
    to_ascii_lower, views,
};
use crate::time::Timestamp;

verus! {

/// Why a line cannot be converted.
#[derive(Debug, PartialEq, Eq)]
pub enum LegacyProjectError {
    /// An identifier of an older record is no UUID.
    InvalidLegacyId(String),
}

impl View for LegacyProjectError {
    type V = Seq<char>;

    open spec fn view(&self) -> Seq<char> {
        match self {
            LegacyProjectError::InvalidLegacyId(text) => text@,
        }
    }
}

impl LegacyProjectError {
    /// What the error says to a reader.
    pub fn message(&self) -> (result: String)
        ensures
            result@ == "legacy identifier is not a valid UUID: "@ + self@,
    {
        match self {
            LegacyProjectError::InvalidLegacyId(text) => concat(
                "legacy identifier is not a valid UUID: ",
                text.as_str(),
            ),
        }
    }
}

// ---------------------------------------------------------------------------
// Identifiers.
// ---------------------------------------------------------------------------
/// The identifier that an older text stands for: the UUID in hyphenated form. The
/// error is the text that is no UUID.
pub open spec fn legacy_id(text: Seq<char>) -> Result<Seq<char>, Seq<char>> {
    match uuid_value(text) {
        Some(value) => Ok(uuid_text(value)),
        None => Err(text),
    }
}

/// The identifiers that older texts stand for, or the first text that is no UUID.
pub open spec fn legacy_ids(texts: Seq<Seq<char>>) -> Result<Seq<Seq<char>>, Seq<char>>
    decreases texts.len(),
{
    if texts.len() == 0 {
        Ok(Seq::empty())
    } else {
        match legacy_ids(texts.drop_last()) {
            Err(text) => Err(text),
            Ok(front) => match legacy_id(texts.last()) {
                Err(text) => Err(text),
                Ok(id) => Ok(front.push(id)),
            },
        }
    }
}

/// The identifier that an optional older text stands for.
pub open spec fn legacy_optional_id(text: Option<Seq<char>>) -> Result<
    Option<Seq<char>>,
    Seq<char>,
> {
    match text {
        None => Ok(None),
        Some(text) => match legacy_id(text) {
            Ok(id) => Ok(Some(id)),
            Err(text) => Err(text),
        },
    }
}

/// The view of a converted identifier.
pub open spec fn id_result<T: View<V = Seq<char>>>(result: Result<T, LegacyProjectError>) -> Result<
    Seq<char>,
    Seq<char>,
> {
    match result {
        Ok(id) => Ok(id@),
        Err(error) => Err(error@),
    }
}

/// The view of converted identifiers.
pub open spec fn ids_result<T: View<V = Seq<char>>>(
    result: Result<Vec<T>, LegacyProjectError>,
) -> Result<Seq<Seq<char>>, Seq<char>> {
    match result {
        Ok(ids) => Ok(views(ids@)),
        Err(error) => Err(error@),
    }
}

/// The view of an optional converted identifier.
pub open spec fn optional_id_result<T: View<V = Seq<char>>>(
    result: Result<Option<T>, LegacyProjectError>,
) -> Result<Option<Seq<char>>, Seq<char>> {
    match result {
        Ok(id) => Ok(opt_view(id)),
        Err(error) => Err(error@),
    }
}

fn legacy_uuid(text: &String) -> (result: Result<u128, LegacyProjectError>)
    ensures
        match result {
            Ok(value) => uuid_value(text@) == Some(value),
            Err(error) => uuid_value(text@) is None && error@ == text@,
        },
{
    match parse_uuid(text.as_str()) {
        Some(value) => Ok(value),
        None => Err(LegacyProjectError::InvalidLegacyId(text.clone())),
    }
}

fn legacy_session(text: &String) -> (result: Result<SessionId, LegacyProjectError>)
    ensures
        id_result(result) == legacy_id(text@),
{
    match legacy_uuid(text) {
        Ok(value) => Ok(SessionId::from_legacy_uuid(value)),
        Err(error) => Err(error),
    }
}

fn legacy_turn(text: &String) -> (result: Result<TurnId, LegacyProjectError>)
    ensures
        id_result(result) == legacy_id(text@),
{
    match legacy_uuid(text) {
        Ok(value) => Ok(TurnId::from_legacy_uuid(value)),
        Err(error) => Err(error),
    }
}

fn legacy_item(text: &String) -> (result: Result<ItemId, LegacyProjectError>)
    ensures
        id_result(result) == legacy_id(text@),
{
    match legacy_uuid(text) {
        Ok(value) => Ok(ItemId::from_legacy_uuid(value)),
        Err(error) => Err(error),
    }
}

fn legacy_optional_turn(text: &Option<String>) -> (result: Result<
    Option<TurnId>,
    LegacyProjectError,
>)
    ensures
        optional_id_result(result) == legacy_optional_id(opt_view(*text)),
{
    match text {
        None => Ok(None),
        Some(text) => match legacy_turn(text) {
            Ok(id) => Ok(Some(id)),
            Err(error) => Err(error),
        },
    }
}

proof fn lemma_legacy_ids_fail(texts: Seq<Seq<char>>, at: int)
    requires
        0 <= at <= texts.len(),
        legacy_ids(texts.take(at)) is Err,
    ensures
        legacy_ids(texts) == legacy_ids(texts.take(at)),
    decreases texts.len(),
{
    if at == texts.len() {
        assert(texts.take(at) =~= texts);
    } else {
        assert(texts.drop_last().take(at) =~= texts.take(at));
        lemma_legacy_ids_fail(texts.drop_last(), at);
    }
}

fn legacy_turns(texts: &Vec<String>) -> (result: Result<Vec<TurnId>, LegacyProjectError>)
    ensures
        ids_result(result) == legacy_ids(views(texts@)),
{
    let ghost all = views(texts@);
    let mut ids: Vec<TurnId> = Vec::new();
    let mut i: usize = 0;
    assert(views(ids@) =~= Seq::<Seq<char>>::empty());
    while i < texts.len()
        invariant
            i <= texts.len(),
            all == views(texts@),
            legacy_ids(all.take(i as int)) == Ok::<Seq<Seq<char>>, Seq<char>>(views(ids@)),
        decreases texts.len() - i,
    {
        let ghost next = all.take(i + 1);
        assert(next.drop_last() =~= all.take(i as int));
        assert(next.last() == texts@[i as int]@);
        match legacy_turn(&texts[i]) {
            Ok(id) => {
                let ghost before = views(ids@);
                let ghost added = id@;
                ids.push(id);
                assert(views(ids@) =~= before.push(added));
            },
            Err(error) => {
                proof {
                    lemma_legacy_ids_fail(all, i + 1);
                }
                return Err(error);
            },
        }
        i = i + 1;
    }
    assert(all.take(texts.len() as int) =~= all);
    Ok(ids)
}

fn legacy_items(texts: &Vec<String>) -> (result: Result<Vec<ItemId>, LegacyProjectError>)
    ensures
        ids_result(result) == legacy_ids(views(texts@)),
{
    let ghost all = views(texts@);
    let mut ids: Vec<ItemId> = Vec::new();
    let mut i: usize = 0;
    assert(views(ids@) =~= Seq::<Seq<char>>::empty());
    while i < texts.len()
        invariant
            i <= texts.len(),
            all == views(texts@),
            legacy_ids(all.take(i as int)) == Ok::<Seq<Seq<char>>, Seq<char>>(views(ids@)),
        decreases texts.len() - i,
    {
        let ghost next = all.take(i + 1);
        assert(next.drop_last() =~= all.take(i as int));
        assert(next.last() == texts@[i as int]@);
        match legacy_item(&texts[i]) {
            Ok(id) => {
                let ghost before = views(ids@);
                let ghost added = id@;
                ids.push(id);
                assert(views(ids@) =~= before.push(added));
            },
            Err(error) => {
                proof {
                    lemma_legacy_ids_fail(all, i + 1);
                }
                return Err(error);
            },
        }
        i = i + 1;
    }
    assert(all.take(texts.len() as int) =~= all);
    Ok(ids)
}

// ---------------------------------------------------------------------------
// Approvals.
// ---------------------------------------------------------------------------
/// What is known of an approval: the item that stands for it, and the request,
/// which the item needs again when the decision comes.
#[derive(Debug, PartialEq, Eq)]
pub struct ApprovalFold {
    pub item_id: ItemId,
    pub seq: u64,
    pub revision: u32,
    pub request: ApprovalRequestItem,
}

/// The view of [`ApprovalFold`].
#[verifier::ext_equal]
pub struct ApprovalFoldView {
    pub item_id: Seq<char>,
    pub seq: u64,
    pub revision: u32,
    pub request: ApprovalRequestItemView,
}

impl View for ApprovalFold {
    type V = ApprovalFoldView;

    open spec fn view(&self) -> ApprovalFoldView {
        ApprovalFoldView {
            item_id: self.item_id@,
            seq: self.seq,
            revision: self.revision,
            request: self.request@,
        }
    }
}

impl Clone for ApprovalFold {
    fn clone(&self) -> (result: Self)
        ensures
            result@ == self@,
    {
        let result = ApprovalFold {
            item_id: self.item_id.clone(),
            seq: self.seq,
            revision: self.revision,
            request: self.request.clone(),
        };
        result
    }
}

/// An approval by its ID.
#[derive(Debug, PartialEq, Eq)]
pub struct ApprovalEntry {
    pub approval_id: String,
    pub fold: ApprovalFold,
}

/// The view of [`ApprovalEntry`].
#[verifier::ext_equal]
pub struct ApprovalEntryView {
    pub approval_id: Seq<char>,
    pub fold: ApprovalFoldView,
}

impl View for ApprovalEntry {
    type V = ApprovalEntryView;

    open spec fn view(&self) -> ApprovalEntryView {
        ApprovalEntryView {
            approval_id: self.approval_id@,
            fold: self.fold@,
        }
    }
}

/// Accepts the approval with an ID.
pub open spec fn approval_is(approval_id: Seq<char>) -> spec_fn(ApprovalEntryView) -> bool {
    |entry: ApprovalEntryView| entry.approval_id == approval_id
}

/// What is known of the approval with an ID.
pub open spec fn fold_of(
    approvals: Seq<ApprovalEntryView>,
    approval_id: Seq<char>,
) -> Option<ApprovalFoldView> {
    match first_match(approvals, approval_is(approval_id)) {
        Some(i) => Some(approvals[i].fold),
        None => None,
    }
}

/// The approvals once something else is known of the one with an ID.
pub open spec fn with_fold(
    approvals: Seq<ApprovalEntryView>,
    approval_id: Seq<char>,
    fold: ApprovalFoldView,
) -> Seq<ApprovalEntryView> {
    match first_match(approvals, approval_is(approval_id)) {
        Some(i) => approvals.update(i, ApprovalEntryView { approval_id, fold }),
        None => approvals.push(ApprovalEntryView { approval_id, fold }),
    }
}

/// What an approval is about: a path, a host or something else, in this order.
pub open spec fn target_of(request: ApprovalRequestItemView) -> Option<ApprovalTargetView> {
    if request.path is Some {
        Some(ApprovalTargetView::Path { path: request.path->Some_0 })
    } else if request.host is Some {
        Some(ApprovalTargetView::Host { host: request.host->Some_0 })
    } else if request.target is Some {
        Some(ApprovalTargetView::Command { command: request.target->Some_0 })
    } else {
        None
    }
}

/// The item that stands for an approval.
pub open spec fn approval_item(
    request: ApprovalRequestItemView,
    decision: Option<ApprovalDecisionView>,
) -> ItemView {
    ItemView::Approval {
        approval_id: request.approval_id,
        target_item_id: None,
        action_summary: request.action_summary,
        justification: request.justification,
        resource: request.resource,
        available_scopes: request.available_scopes,
        command_pattern: request.command_pattern,
        command_prefix: request.command_prefix,
        target: target_of(request),
        decision,
    }
}

/// The request that an approval item was made of.
pub open spec fn request_from_parts(
    approval_id: Seq<char>,
    action_summary: Seq<char>,
    justification: Seq<char>,
    resource: Option<Seq<char>>,
    available_scopes: Seq<Seq<char>>,
    command_pattern: Option<Seq<Seq<char>>>,
    command_prefix: Option<Seq<Seq<char>>>,
    target: Option<ApprovalTargetView>,
) -> ApprovalRequestItemView {
    ApprovalRequestItemView {
        approval_id,
        action_summary,
        justification,
        resource,
        available_scopes,
        command_pattern,
        command_prefix,
        path: match target {
            Some(ApprovalTargetView::Path { path }) => Some(path),
            _ => None,
        },
        host: match target {
            Some(ApprovalTargetView::Host { host }) => Some(host),
            _ => None,
        },
        target: match target {
            Some(ApprovalTargetView::Command { command }) => Some(command),
            _ => None,
        },
    }
}

fn approval_target(request: &ApprovalRequestItem) -> (result: Option<ApprovalTarget>)
    ensures
        opt_view(result) == target_of(request@),
{
    if let Some(path) = &request.path {
        Some(ApprovalTarget::Path { path: path.clone() })
    } else if let Some(host) = &request.host {
        Some(ApprovalTarget::Host { host: host.clone() })
    } else if let Some(command) = &request.target {
        Some(ApprovalTarget::Command { command: command.clone() })
    } else {
        None
    }
}

fn approval_request_item(
    request: &ApprovalRequestItem,
    decision: Option<ApprovalDecision>,
) -> (result:
    Item)
    ensures
        result@ == approval_item(request@, opt_view(decision)),
{
    let available_scopes = request.available_scopes.clone();
    assert(views(available_scopes@) =~= views(request.available_scopes@));
    Item::Approval {
        approval_id: request.approval_id.clone(),
        target_item_id: None,
        action_summary: request.action_summary.clone(),
        justification: request.justification.clone(),
        resource: request.resource.clone(),
        available_scopes,
        command_pattern: clone_opt_texts(&request.command_pattern),
        command_prefix: clone_opt_texts(&request.command_prefix),
        target: approval_target(request),
        decision,
    }
}

fn approval_request_from_parts(
    approval_id: &String,
    action_summary: &String,
    justification: &String,
    resource: &Option<String>,
    available_scopes: &Vec<String>,
    command_pattern: &Option<Vec<String>>,
    command_prefix: &Option<Vec<String>>,
    target: &Option<ApprovalTarget>,
) -> (result: ApprovalRequestItem)
    ensures
        result@ == request_from_parts(
            approval_id@,
            action_summary@,
            justification@,
            opt_view(*resource),
            views(available_scopes@),
            opt_texts(*command_pattern),
            opt_texts(*command_prefix),
            opt_view(*target),
        ),
{
    let (path, host, command) = match target {
        None => (None, None, None),
        Some(ApprovalTarget::Path { path }) => (Some(path.clone()), None, None),
        Some(ApprovalTarget::Host { host }) => (None, Some(host.clone()), None),
        Some(ApprovalTarget::Command { command }) => (None, None, Some(command.clone())),
    };
    let scopes = available_scopes.clone();
    assert(views(scopes@) =~= views(available_scopes@));
    ApprovalRequestItem {
        approval_id: approval_id.clone(),
        action_summary: action_summary.clone(),
        justification: justification.clone(),
        resource: resource.clone(),
        available_scopes: scopes,
        command_pattern: clone_opt_texts(command_pattern),
        command_prefix: clone_opt_texts(command_prefix),
        path,
        host,
        target: command,
    }
}

/// What an older decision text means: what does not clearly approve or deny
/// cancels.
pub open spec fn decision_kind_of(text: Seq<char>) -> ApprovalDecisionKind {
    let lower = ascii_lower(text);
    if lower == "approve"@ || lower == "approved"@ || lower == "allow"@ {
        ApprovalDecisionKind::Approved
    } else if lower == "deny"@ || lower == "denied"@ {
        ApprovalDecisionKind::Denied
    } else {
        ApprovalDecisionKind::Cancelled
    }
}

/// What an older scope text means: an unknown one is the narrowest.
pub open spec fn scope_kind_of(text: Seq<char>) -> ApprovalScope {
    let lower = ascii_lower(text);
    if lower == "turn"@ {
        ApprovalScope::Turn
    } else if lower == "session"@ {
        ApprovalScope::Session
    } else if lower == "path_prefix"@ {
        ApprovalScope::PathPrefix
    } else if lower == "host"@ {
        ApprovalScope::Host
    } else if lower == "tool"@ {
        ApprovalScope::Tool
    } else if lower == "command_prefix"@ {
        ApprovalScope::CommandPrefix
    } else if lower == "command_prefix_persist"@ {
        ApprovalScope::CommandPrefixPersist
    } else {
        ApprovalScope::Once
    }
}

fn lower_text(text: &String) -> (result: String)
    ensures
        result@ == ascii_lower(text@),
{
    let chars = chars_of(text.as_str());
    let lower = to_ascii_lower(&chars);
    text_of(&lower)
}

fn decision_kind(text: &String) -> (result: ApprovalDecisionKind)
    ensures
        result == decision_kind_of(text@),
{
    let lower = lower_text(text);
    let word = lower.as_str();
    if same_text(word, "approve") || same_text(word, "approved") || same_text(word, "allow") {
        ApprovalDecisionKind::Approved
    } else if same_text(word, "deny") || same_text(word, "denied") {
        ApprovalDecisionKind::Denied
    } else {
        ApprovalDecisionKind::Cancelled
    }
}

fn scope_kind(text: &String) -> (result: ApprovalScope)
    ensures
        result == scope_kind_of(text@),
{
    let lower = lower_text(text);
    let word = lower.as_str();
    if same_text(word, "turn") {
        ApprovalScope::Turn
    } else if same_text(word, "session") {
        ApprovalScope::Session
    } else if same_text(word, "path_prefix") {
        ApprovalScope::PathPrefix
    } else if same_text(word, "host") {
        ApprovalScope::Host
    } else if same_text(word, "tool") {
        ApprovalScope::Tool
    } else if same_text(word, "command_prefix") {
        ApprovalScope::CommandPrefix
    } else if same_text(word, "command_prefix_persist") {
        ApprovalScope::CommandPrefixPersist
    } else {
        ApprovalScope::Once
    }
}

// ---------------------------------------------------------------------------
// Turns.
// ---------------------------------------------------------------------------
/// What an older turn was for, in present terms.
pub open spec fn turn_kind_of(kind: LegacyTurnKind) -> TurnKind {
    match kind {
        LegacyTurnKind::ManualCompaction => TurnKind::Compaction,
        _ => TurnKind::Regular,
    }
}

/// How far an older turn was, in present terms: waiting for an approval is part of
/// a turn in progress.
pub open spec fn turn_status_of(status: LegacyTurnStatus) -> TurnStatus {
    match status {
        LegacyTurnStatus::Pending => TurnStatus::InProgress,
        LegacyTurnStatus::Running => TurnStatus::InProgress,
        LegacyTurnStatus::WaitingApproval => TurnStatus::InProgress,
        LegacyTurnStatus::Completed => TurnStatus::Completed,
        LegacyTurnStatus::Interrupted => TurnStatus::Interrupted,
        LegacyTurnStatus::Failed => TurnStatus::Failed,
    }
}

/// An optional count, or none.
pub open spec fn count_or_zero(count: Option<u32>) -> u64 {
    match count {
        Some(count) => count as u64,
        None => 0,
    }
}

/// The usage of an older turn. Its provider reported it, so at least one call was
/// metered.
pub open spec fn turn_usage_of(usage: LegacyTurnUsage) -> TurnUsage {
    TurnUsage {
        query: UsageTotals {
            total_tokens: match usage.total_tokens {
                Some(total) => total as u64,
                None => (usage.input_tokens + usage.output_tokens) as u64,
            },
            input_tokens: usage.input_tokens as u64,
            output_tokens: usage.output_tokens as u64,
            reasoning_tokens: count_or_zero(usage.reasoning_output_tokens),
            cache_read_input_tokens: count_or_zero(usage.cache_read_input_tokens),
            cache_creation_input_tokens: count_or_zero(usage.cache_creation_input_tokens),
            call_count: 0,
            metered_call_count: 1,
        },
        overhead: no_usage(),
    }
}

/// An older turn record in present terms.
pub open spec fn canonical_turn(record: TurnRecord) -> Result<TurnView, Seq<char>> {
    match legacy_id(record.id@) {
        Err(text) => Err(text),
        Ok(id) => match legacy_id(record.session_id@) {
            Err(text) => Err(text),
            Ok(session_id) => Ok(
                TurnView {
                    id,
                    session_id,
                    sequence: record.sequence,
                    kind: turn_kind_of(record.kind),
                    status: turn_status_of(record.status),
                    model: ModelBindingView {
                        provider: match record.model_binding_id {
                            Some(provider) => provider@,
                            None => "unknown"@,
                        },
                        model: if record.request_model@.len() == 0 {
                            record.model@
                        } else {
                            record.request_model@
                        },
                        reasoning_effort: opt_view(record.reasoning_effort),
                    },
                    collaboration_mode: Some(
                        match record.turn_context {
                            Some(context) => context@.collaboration_mode,
                            None => NamedChoiceView::Default,
                        },
                    ),
                    started_at: record.started_at,
                    completed_at: record.completed_at,
                    error: match record.error {
                        Some(error) => Some(
                            AgentErrorView {
                                code: error.code@,
                                message: error.message@,
                                recovery_hint: opt_view(error.recovery_hint),
                            },
                        ),
                        None => None,
                    },
                    usage: match record.usage {
                        Some(usage) => Some(turn_usage_of(usage)),
                        None => None,
                    },
                },
            ),
        },
    }
}

/// Whether the token counts of a record can be totalled.
pub open spec fn usage_can_be_totalled(record: TurnRecord) -> bool {
    record.usage matches Some(usage) ==> usage.total_tokens is Some || usage.input_tokens
        + usage.output_tokens <= u32::MAX
}

fn or_zero(count: Option<u32>) -> (result: u64)
    ensures
        result == count_or_zero(count),
{
    match count {
        Some(count) => count as u64,
        None => 0,
    }
}

/// Converts an older turn record.
pub fn canonical_turn_from_record(record: &TurnRecord) -> (result: Result<
    Turn,
    LegacyProjectError,
>)
    requires
        usage_can_be_totalled(*record),
    ensures
        match result {
            Ok(turn) => canonical_turn(*record) == Ok::<TurnView, Seq<char>>(turn@),
            Err(error) => canonical_turn(*record) == Err::<TurnView, Seq<char>>(error@),
        },
{
    let kind = match &record.kind {
        LegacyTurnKind::Regular => TurnKind::Regular,
        LegacyTurnKind::Review => TurnKind::Regular,
        LegacyTurnKind::Other(_) => TurnKind::Regular,
        LegacyTurnKind::ManualCompaction => TurnKind::Compaction,
    };
    let status = match record.status {
        LegacyTurnStatus::Pending => TurnStatus::InProgress,
        LegacyTurnStatus::Running => TurnStatus::InProgress,
        LegacyTurnStatus::WaitingApproval => TurnStatus::InProgress,
        LegacyTurnStatus::Completed => TurnStatus::Completed,
        LegacyTurnStatus::Interrupted => TurnStatus::Interrupted,
        LegacyTurnStatus::Failed => TurnStatus::Failed,
    };
    let error = match &record.error {
        Some(error) => Some(
            AgentError {
                code: error.code.clone(),
                message: error.message.clone(),
                recovery_hint: error.recovery_hint.clone(),
            },
        ),
        None => None,
    };
    let usage = match record.usage {
        Some(usage) => {
            let total_tokens: u64 = match usage.total_tokens {
                Some(total) => total as u64,
                None => (usage.input_tokens + usage.output_tokens) as u64,
            };
            Some(
                TurnUsage {
                    query: UsageTotals {
                        total_tokens,
                        input_tokens: usage.input_tokens as u64,
                        output_tokens: usage.output_tokens as u64,
                        reasoning_tokens: or_zero(usage.reasoning_output_tokens),
                        cache_read_input_tokens: or_zero(usage.cache_read_input_tokens),
                        cache_creation_input_tokens: or_zero(usage.cache_creation_input_tokens),
                        call_count: 0,
                        metered_call_count: 1,
                    },
                    overhead: UsageTotals::none(),
                },
            )
        },
        None => None,
    };
    let id = match legacy_turn(&record.id) {
        Ok(id) => id,
        Err(error) => return Err(error),
    };
    let session_id = match legacy_session(&record.session_id) {
        Ok(session_id) => session_id,
        Err(error) => return Err(error),
    };
    let provider = match &record.model_binding_id {
        Some(provider) => provider.clone(),
        None => "unknown".to_string(),
    };
    let model = if record.request_model.as_str().is_empty() {
        record.model.clone()
    } else {
        record.request_model.clone()
    };
    let collaboration_mode = match &record.turn_context {
        Some(context) => context.collaboration_mode.clone(),
        None => NamedChoice::Default,
    };
    Ok(
        Turn {
            id,
            session_id,
            sequence: record.sequence,
            kind,
            status,
            model: ModelBinding {
                provider,
                model,
                reasoning_effort: record.reasoning_effort.clone(),
            },
            collaboration_mode: Some(collaboration_mode),
            started_at: record.started_at,
            completed_at: record.completed_at,
            error,
            usage,
        },
    )
}

/// The view of converted lines.
pub open spec fn lines_result(result: Result<Vec<RolloutLineV2>, LegacyProjectError>) -> Result<
    Seq<RolloutLineV2View>,
    Seq<char>,
> {
    match result {
        Ok(lines) => Ok(views(lines@)),
        Err(error) => Err(error@),
    }
}

fn one_line(line: RolloutLineV2) -> (result: Vec<RolloutLineV2>)
    ensures
        views(result@) == seq![line@],
{
    let ghost only = line@;
    let mut lines: Vec<RolloutLineV2> = Vec::new();
    lines.push(line);
    assert(views(lines@) =~= seq![only]);
    lines
}

/// The line of a turn.
pub open spec fn turn_line(timestamp: Timestamp, record: TurnRecord) -> Result<
    Seq<RolloutLineV2View>,
    Seq<char>,
> {
    match canonical_turn(record) {
        Err(text) => Err(text),
        Ok(turn) => Ok(
            seq![
                RolloutLineV2View::Turn {
                    v: ROLLOUT_FORMAT_VERSION,
                    timestamp,
                    turn,
                    extras: Some(
                        TurnPersistenceExtrasView {
                            session_context: opt_view(record.session_context),
                            turn_context: opt_view(record.turn_context),
                            request_thinking: opt_view(record.request_thinking),
                            input_token_estimate: record.input_token_estimate,
                            latest_query_usage: opt_view(record.latest_query_usage),
                            context_occupancy: opt_view(record.context_occupancy),
                            stop_reason: opt_view(record.stop_reason),
                            failure_reason: opt_view(record.failure_reason),
                        },
                    ),
                },
            ],
        ),
    }
}

fn project_turn(timestamp: Timestamp, record: &TurnRecord) -> (result: Result<
    Vec<RolloutLineV2>,
    LegacyProjectError,
>)
    requires
        usage_can_be_totalled(*record),
    ensures
        lines_result(result) == turn_line(timestamp, *record),
{
    let turn = match canonical_turn_from_record(record) {
        Ok(turn) => turn,
        Err(error) => return Err(error),
    };
    let line = RolloutLineV2::Turn {
        v: ROLLOUT_FORMAT_VERSION,
        timestamp,
        turn: Box::new(turn),
        extras: Some(
            TurnPersistenceExtras {
                session_context: record.session_context.clone(),
                turn_context: record.turn_context.clone(),
                request_thinking: record.request_thinking.clone(),
                input_token_estimate: record.input_token_estimate,
                latest_query_usage: record.latest_query_usage.clone(),
                context_occupancy: record.context_occupancy.clone(),
                stop_reason: record.stop_reason.clone(),
                failure_reason: record.failure_reason.clone(),
            },
        ),
    };
    Ok(one_line(line))
}

// ---------------------------------------------------------------------------
// Sessions.
// ---------------------------------------------------------------------------
/// What a session may do, by keywords of the older approval mode: the safest,
/// unless the mode says otherwise.
pub open spec fn profile_of(approval_mode: Seq<char>) -> PermissionProfile {
    let lower = ascii_lower(approval_mode);
    if has_part(lower, "auto"@) {
        PermissionProfile::AutoReview
    } else if has_part(lower, "full"@) {
        PermissionProfile::FullAccess
    } else {
        PermissionProfile::Default
    }
}

fn permission_profile(approval_mode: &String) -> (result: PermissionProfile)
    ensures
        result == profile_of(approval_mode@),
{
    let chars = chars_of(approval_mode.as_str());
    let lower = to_ascii_lower(&chars);
    let auto = chars_of("auto");
    let full = chars_of("full");
    if contains_part(&lower, &auto) {
        PermissionProfile::AutoReview
    } else if contains_part(&lower, &full) {
        PermissionProfile::FullAccess
    } else {
        PermissionProfile::Default
    }
}

/// Where an older session comes from: a session with any mark of an agent was
/// spawned, any other with a parent was forked.
pub open spec fn parent_of(record: SessionRecord) -> Result<
    Option<SessionParentView>,
    Seq<char>,
> {
    match record.parent_session_id {
        None => Ok(None),
        Some(parent_id) => match legacy_id(parent_id@) {
            Err(text) => Err(text),
            Ok(session_id) => if record.agent_role is Some || record.agent_nickname is Some
                || record.agent_path is Some {
                Ok(
                    Some(
                        SessionParentView::Agent { session_id, role: opt_view(record.agent_role) },
                    ),
                )
            } else {
                Ok(Some(SessionParentView::Fork { session_id, at_turn_id: None }))
            },
        },
    }
}

fn session_parent(record: &SessionRecord) -> (result: Result<
    Option<SessionParent>,
    LegacyProjectError,
>)
    ensures
        match result {
            Ok(parent) => parent_of(*record) == Ok::<Option<SessionParentView>, Seq<char>>(
                opt_view(parent),
            ),
            Err(error) => parent_of(*record) == Err::<Option<SessionParentView>, Seq<char>>(
                error@,
            ),
        },
{
    match &record.parent_session_id {
        None => Ok(None),
        Some(parent_id) => {
            let session_id = match legacy_session(parent_id) {
                Ok(session_id) => session_id,
                Err(error) => return Err(error),
            };
            if record.agent_role.is_some() || record.agent_nickname.is_some()
                || record.agent_path.is_some() {
                Ok(Some(SessionParent::Agent { session_id, role: record.agent_role.clone() }))
            } else {
                Ok(Some(SessionParent::Fork { session_id, at_turn_id: None }))
            }
        },
    }
}

/// What an older session record says of its repository.
pub open spec fn git_of(record: SessionRecord) -> Option<GitInfoView> {
    if record.git_sha is Some || record.git_branch is Some || record.git_origin_url is Some {
        Some(
            GitInfoView {
                sha: opt_view(record.git_sha),
                branch: opt_view(record.git_branch),
                origin_url: opt_view(record.git_origin_url),
                dirty: None,
                observed_at: record.updated_at,
            },
        )
    } else {
        None
    }
}

/// The usage lump of an older session.
pub open spec fn legacy_totals(tokens_used: i64) -> UsageTotals {
    UsageTotals {
        total_tokens: if tokens_used < 0 {
            0
        } else {
            tokens_used as u64
        },
        ..no_usage()
    }
}

/// A text that may be missing, or an empty one.
pub open spec fn text_or_empty(text: Option<String>) -> Seq<char> {
    match text {
        Some(text) => text@,
        None => Seq::empty(),
    }
}

/// An older session record in present terms: idle, without a turn or a queue.
pub open spec fn canonical_session(record: SessionRecord) -> Result<SessionView, Seq<char>> {
    match parent_of(record) {
        Err(text) => Err(text),
        Ok(parent) => match legacy_id(record.id@) {
            Err(text) => Err(text),
            Ok(id) => Ok(
                SessionView {
                    id,
                    version: 1,
                    cwd: record.cwd@,
                    additional_directories: views(record.additional_directories@),
                    parent,
                    ephemeral: false,
                    created_at: record.created_at,
                    status: SessionStatus::Idle,
                    flags: Seq::empty(),
                    archived: record.archived_at is Some,
                    active_turn_id: None,
                    queued_count: 0,
                    title: opt_view(record.title),
                    model: ModelBindingView {
                        provider: record.model_provider@,
                        model: text_or_empty(record.model),
                        reasoning_effort: opt_view(record.reasoning_effort),
                    },
                    settings: SessionSettingsView {
                        permission_profile: profile_of(record.approval_mode@),
                        reasoning_effort: None,
                        mode: None,
                        sandbox_profile: if record.sandbox_policy@.len() == 0 {
                            None
                        } else {
                            Some(record.sandbox_policy@)
                        },
                        effective_context_window: record.effective_context_window,
                        memory_recall: MemorySetting::Inherit,
                        memory_contribution: MemorySetting::Inherit,
                    },
                    git_info: git_of(record),
                    preview: text_or_empty(record.first_user_message),
                    last_activity_at: match record.last_activity_at {
                        Some(at) => at,
                        None => record.updated_at,
                    },
                    transcript_size_bytes: None,
                    usage: SessionUsageView {
                        total: legacy_totals(record.tokens_used),
                        by_purpose: Seq::empty(),
                        legacy: Some(legacy_totals(record.tokens_used)),
                        updated_at: record.updated_at,
                    },
                },
            ),
        },
    }
}

fn or_empty(text: &Option<String>) -> (result: String)
    ensures
        result@ == text_or_empty(*text),
{
    match text {
        Some(text) => text.clone(),
        None => String::new(),
    }
}

fn session_from_record(record: &SessionRecord) -> (result: Result<Session, LegacyProjectError>)
    ensures
        match result {
            Ok(session) => canonical_session(*record) == Ok::<SessionView, Seq<char>>(session@),
            Err(error) => canonical_session(*record) == Err::<SessionView, Seq<char>>(error@),
        },
{
    let parent = match session_parent(record) {
        Ok(parent) => parent,
        Err(error) => return Err(error),
    };
    let git_info = if record.git_sha.is_some() || record.git_branch.is_some()
        || record.git_origin_url.is_some() {
        Some(
            GitInfo {
                sha: record.git_sha.clone(),
                branch: record.git_branch.clone(),
                origin_url: record.git_origin_url.clone(),
                dirty: None,
                observed_at: record.updated_at,
            },
        )
    } else {
        None
    };
    let mut totals = UsageTotals::none();
    if record.tokens_used > 0 {
        totals.total_tokens = record.tokens_used as u64;
    }
    let id = match legacy_session(&record.id) {
        Ok(id) => id,
        Err(error) => return Err(error),
    };
    let sandbox_profile = if record.sandbox_policy.as_str().is_empty() {
        None
    } else {
        Some(record.sandbox_policy.clone())
    };
    let last_activity_at = match record.last_activity_at {
        Some(at) => at,
        None => record.updated_at,
    };
    let session = Session {
        id,
        version: 1,
        cwd: record.cwd.clone(),
        additional_directories: record.additional_directories.clone(),
        parent,
        ephemeral: false,
        created_at: record.created_at,
        status: SessionStatus::Idle,
        flags: Vec::new(),
        archived: record.archived_at.is_some(),
        active_turn_id: None,
        queued_count: 0,
        title: record.title.clone(),
        model: ModelBinding {
            provider: record.model_provider.clone(),
            model: or_empty(&record.model),
            reasoning_effort: record.reasoning_effort.clone(),
        },
        settings: SessionSettings {
            permission_profile: permission_profile(&record.approval_mode),
            reasoning_effort: None,
            mode: None,
            sandbox_profile,
            effective_context_window: record.effective_context_window,
            memory_recall: MemorySetting::Inherit,
            memory_contribution: MemorySetting::Inherit,
        },
        git_info,
        preview: or_empty(&record.first_user_message),
        last_activity_at,
        transcript_size_bytes: None,
        usage: SessionUsage {
            total: totals,
            by_purpose: Vec::new(),
            legacy: Some(totals),
            updated_at: record.updated_at,
        },
    };
    assert(views(session.additional_directories@) =~= views(record.additional_directories@));
    assert(session.flags@ =~= Seq::<SessionFlag>::empty());
    assert(session@.usage.by_purpose =~= Seq::<PurposeUsageView>::empty());
    Ok(session)
}

/// The line of a session.
pub open spec fn session_line(timestamp: Timestamp, record: SessionRecord) -> Result<
    Seq<RolloutLineV2View>,
    Seq<char>,
> {
    match canonical_session(record) {
        Err(text) => Err(text),
        Ok(session) => Ok(
            seq![
                RolloutLineV2View::SessionMeta {
                    v: ROLLOUT_FORMAT_VERSION,
                    timestamp,
                    session,
                    extras: Some(
                        SessionPersistenceExtrasView {
                            session_context: opt_view(record.session_context),
                            cli_version: record.cli_version@,
                            source: record.source@,
                            collaboration_mode: record.collaboration_mode@,
                            permission_preset: record.permission_preset@,
                        },
                    ),
                },
            ],
        ),
    }
}

// ---------------------------------------------------------------------------
// The projector.
// ---------------------------------------------------------------------------
/// Converts the record of one session from the older form to the present one.
#[derive(Debug, PartialEq, Eq)]
pub struct LegacyProjector {
    /// The sequence number of the next new item.
    pub next_seq: u64,
    /// The epoch of the next settings line.
    pub next_settings_epoch: u64,
    /// The working directory of the session, which older command records lack.
    pub session_cwd: Option<String>,
    /// The approvals asked for so far.
    pub approvals: Vec<ApprovalEntry>,
}

/// The view of [`LegacyProjector`].
#[verifier::ext_equal]
pub struct ProjectorView {
    pub next_seq: u64,
    pub next_settings_epoch: u64,
    pub session_cwd: Option<Seq<char>>,
    pub approvals: Seq<ApprovalEntryView>,
}

impl View for LegacyProjector {
    type V = ProjectorView;

    open spec fn view(&self) -> ProjectorView {
        ProjectorView {
            next_seq: self.next_seq,
            next_settings_epoch: self.next_settings_epoch,
            session_cwd: opt_view(self.session_cwd),
            approvals: views(self.approvals@),
        }
    }
}

/// A projector that has seen nothing.
pub open spec fn new_projector() -> ProjectorView {
    ProjectorView {
        next_seq: 1,
        next_settings_epoch: 1,
        session_cwd: None,
        approvals: Seq::empty(),
    }
}

/// What a payload becomes.
#[derive(Debug, PartialEq, Eq)]
#[allow(inconsistent_fields)]
pub enum Projected {
    /// A new item.
    Item { item: Item, state: ItemState },
    /// An item whose place is fixed already.
    FoldedItem { id: ItemId, seq: u64, revision: u32, item: Item, state: ItemState },
    /// No item.
    Internal(InternalRecordV2),
}

/// The view of [`Projected`].
#[verifier::ext_equal]
#[allow(inconsistent_fields)]
pub enum ProjectedView {
    Item { item: ItemView, state: ItemState },
    FoldedItem { id: Seq<char>, seq: u64, revision: u32, item: ItemView, state: ItemState },
    Internal(InternalRecordV2View),
}

impl View for Projected {
    type V = ProjectedView;

    open spec fn view(&self) -> ProjectedView {
        match self {
            Projected::Item { item, state } => ProjectedView::Item {
                item: item@,
                state: *state,
            },
            Projected::FoldedItem { id, seq, revision, item, state } => ProjectedView::FoldedItem {
                id: id@,
                seq: *seq,
                revision: *revision,
                item: item@,
                state: *state,
            },
            Projected::Internal(entry) => ProjectedView::Internal(entry@),
        }
    }
}

/// UUIDs that one payload of an item record may use.
#[derive(Debug, Clone, Copy, PartialEq, Eq, Structural)]
pub struct FreshIds {
    /// Of the item, unless the record's own ID is its ID.
    pub item: u128,
    /// Of a decision that belongs to no request.
    pub orphan: u128,
}

/// A projector after a payload, and what the payload became.
#[verifier::ext_equal]
pub struct PayloadStep {
    pub state: ProjectorView,
    pub projected: ProjectedView,
}

/// The projector after it gave a sequence number out.
pub open spec fn with_next_seq(state: ProjectorView) -> ProjectorView {
    ProjectorView { next_seq: (state.next_seq + 1) as u64, ..state }
}

/// A completed new item.
pub open spec fn completed(state: ProjectorView, item: ItemView) -> PayloadStep {
    PayloadStep {
        state,
        projected: ProjectedView::Item { item, state: ItemState::Completed },
    }
}

/// Something that is no item.
pub open spec fn internal(state: ProjectorView, entry: InternalEntryView) -> PayloadStep {
    PayloadStep {
        state,
        projected: ProjectedView::Internal(InternalRecordV2View::Entry { entry }),
    }
}

/// A user message.
pub open spec fn user_message(text: Seq<char>, entry: UserMessageEntry) -> ItemView {
    ItemView::UserMessage {
        client_user_message_id: None,
        content: seq![UserInputView::Text { text }],
        entry,
    }
}

/// A tool of the provider. Its own ID is not known: the ID of the item stands in.
pub open spec fn hosted_call(
    item_id: Seq<char>,
    tool_name: Seq<char>,
    text: Seq<char>,
) -> ItemView {
    ItemView::HostedToolCall {
        call_id: item_id,
        tool_name,
        input: None,
        output_text: Some(text),
    }
}

/// What is said of a decision that belongs to no request.
pub open spec fn orphan_message(decision: ApprovalDecisionItemView) -> Seq<char> {
    "approval decision '"@ + decision.decision + "'/'"@ + decision.scope
        + "' references unknown approval id "@ + decision.approval_id
}

/// The decision that an older one stands for.
pub open spec fn decision_of(
    decision: ApprovalDecisionItemView,
    timestamp: Timestamp,
) -> ApprovalDecisionView {
    ApprovalDecisionView {
        decision: decision_kind_of(decision.decision),
        scope: scope_kind_of(decision.scope),
        decision_source: match decision.decision_source {
            Some(source) => source,
            None => NamedChoiceView::Default,
        },
        decided_at: timestamp,
    }
}

/// What asking for an approval does: the item waits, and what the decision will
/// need is kept.
pub open spec fn request_step(
    state: ProjectorView,
    item_id: Seq<char>,
    request: ApprovalRequestItemView,
) -> PayloadStep {
    PayloadStep {
        state: ProjectorView {
            approvals: with_fold(
                state.approvals,
                request.approval_id,
                ApprovalFoldView { item_id, seq: state.next_seq, revision: 1, request },
            ),
            ..with_next_seq(state)
        },
        projected: ProjectedView::FoldedItem {
            id: item_id,
            seq: state.next_seq,
            revision: 1,
            item: approval_item(request, None),
            state: ItemState::Waiting,
        },
    }
}

/// What deciding an approval does: the item of the request is revised, in its
/// place. A decision on nothing known is kept as a warning.
pub open spec fn decision_step(
    state: ProjectorView,
    timestamp: Timestamp,
    orphan_id: Seq<char>,
    decision: ApprovalDecisionItemView,
) -> PayloadStep {
    match fold_of(state.approvals, decision.approval_id) {
        Some(fold) => PayloadStep {
            state: ProjectorView {
                approvals: with_fold(
                    state.approvals,
                    decision.approval_id,
                    ApprovalFoldView { revision: (fold.revision + 1) as u32, ..fold },
                ),
                ..state
            },
            projected: ProjectedView::FoldedItem {
                id: fold.item_id,
                seq: fold.seq,
                revision: (fold.revision + 1) as u32,
                item: approval_item(fold.request, Some(decision_of(decision, timestamp))),
                state: ItemState::Completed,
            },
        },
        None => PayloadStep {
            state: with_next_seq(state),
            projected: ProjectedView::FoldedItem {
                id: orphan_id,
                seq: state.next_seq,
                revision: 1,
                item: ItemView::Warning {
                    code: "legacyOrphanApprovalDecision"@,
                    message: orphan_message(decision),
                    retryable: false,
                },
                state: ItemState::Completed,
            },
        },
    }
}

/// What a payload becomes.
pub open spec fn payload_step(
    state: ProjectorView,
    timestamp: Timestamp,
    item_id: Seq<char>,
    orphan_id: Seq<char>,
    payload: TurnItemView,
) -> PayloadStep {
    match payload {
        TurnItemView::UserMessage(text) => completed(
            state,
            user_message(text, UserMessageEntry::TurnStart),
        ),
        TurnItemView::SteerInput(text) => completed(
            state,
            user_message(text, UserMessageEntry::Steer),
        ),
        TurnItemView::HookPrompt(text) => internal(state, InternalEntryView::HookPrompt { text }),
        TurnItemView::AgentMessage(text) => completed(
            state,
            ItemView::AssistantMessage { text, phase: None },
        ),
        TurnItemView::Plan(text) => completed(
            state,
            ItemView::Plan {
                entries: seq![PlanEntryView { step: text, status: PlanStepStatus::Completed }],
            },
        ),
        TurnItemView::Reasoning(text) => completed(
            state,
            ItemView::Reasoning { text, provider_payload_ref: None },
        ),
        TurnItemView::ToolCall(call) => completed(
            state,
            ItemView::ToolCall {
                call_id: call.tool_call_id,
                tool_name: call.tool_name,
                source: ToolSource::Builtin,
                server_name: None,
                input: Some(call.input),
            },
        ),
        TurnItemView::ToolProgress(progress) => internal(
            state,
            InternalEntryView::ToolProgress {
                call_id: progress.tool_call_id,
                message: progress.message,
            },
        ),
        TurnItemView::ToolResult(result) => completed(
            state,
            ItemView::ToolResult {
                call_id: result.tool_call_id,
                output: result.output,
                display_content: result.display_content,
                is_error: result.is_error,
                truncated: false,
            },
        ),
        TurnItemView::CommandExecution(command) => completed(
            state,
            ItemView::CommandExecution {
                call_id: command.tool_call_id,
                command: command.command,
                argv: None,
                cwd: match state.session_cwd {
                    Some(cwd) => cwd,
                    None => Seq::empty(),
                },
                input: Some(command.input),
                output: Some(command.output),
                exit_code: None,
                execution_handle: None,
                is_error: command.is_error,
                execution_mode: ExecutionMode::Foreground,
                origin: ExecOrigin::AgentTool,
                sandbox: None,
            },
        ),
        TurnItemView::WebSearch(text) => completed(
            state,
            hosted_call(item_id, "web_search"@, text),
        ),
        TurnItemView::ImageGeneration(text) => completed(
            state,
            hosted_call(item_id, "image_generation"@, text),
        ),
        TurnItemView::ContextCompaction(text) => completed(
            state,
            ItemView::ContextCompaction {
                trigger: CompactionTrigger::AutoThreshold,
                before: ContextUsage { measured: false, used_tokens: 0 },
                after: None,
                summary: Some(text),
            },
        ),
        TurnItemView::TurnSummary(text) => internal(state, InternalEntryView::TurnSummary { text }),
        TurnItemView::ApprovalRequest(request) => request_step(state, item_id, request),
        TurnItemView::ApprovalDecision(decision) => decision_step(
            state,
            timestamp,
            orphan_id,
            decision,
        ),
    }
}

/// What the lines of an item record have in common.
#[verifier::ext_equal]
pub struct ItemPlace {
    /// When the line was written.
    pub line_timestamp: Timestamp,
    /// When the record was made.
    pub timestamp: Timestamp,
    pub session_id: Seq<char>,
    pub turn_id: Seq<char>,
    /// The ID of the record.
    pub item_id: Seq<char>,
}

/// A projector after a payload, and the line that the payload became.
#[verifier::ext_equal]
pub struct LineStep {
    pub state: ProjectorView,
    pub line: RolloutLineV2View,
}

/// The line of an item.
pub open spec fn item_line(
    place: ItemPlace,
    id: Seq<char>,
    seq: u64,
    revision: u32,
    state: ItemState,
    item: ItemView,
) -> RolloutLineV2View {
    RolloutLineV2View::Item {
        v: ROLLOUT_FORMAT_VERSION,
        timestamp: place.line_timestamp,
        item: ItemEnvelopeView {
            id,
            session_id: place.session_id,
            turn_id: place.turn_id,
            seq,
            revision,
            created_at: place.timestamp,
            updated_at: place.timestamp,
            state,
            item,
        },
    }
}

/// The ID of the payload at an index: the first keeps the record's ID.
pub open spec fn payload_id(place: ItemPlace, index: int, ids: FreshIds) -> Seq<char> {
    if index == 0 {
        place.item_id
    } else {
        uuid_text(ids.item)
    }
}

/// The line that the payload at an index becomes. What is no item takes a sequence
/// number too, so that its place among the items is kept.
pub open spec fn line_step(
    state: ProjectorView,
    place: ItemPlace,
    index: int,
    ids: FreshIds,
    payload: TurnItemView,
) -> LineStep {
    let id = payload_id(place, index, ids);
    let step = payload_step(state, place.timestamp, id, uuid_text(ids.orphan), payload);
    match step.projected {
        ProjectedView::Item { item, state: item_state } => LineStep {
            state: with_next_seq(step.state),
            line: item_line(place, id, step.state.next_seq, 1, item_state, item),
        },
        ProjectedView::FoldedItem { id, seq, revision, item, state: item_state } => LineStep {
            state: step.state,
            line: item_line(place, id, seq, revision, item_state, item),
        },
        ProjectedView::Internal(entry) => LineStep {
            state: with_next_seq(step.state),
            line: RolloutLineV2View::Internal {
                v: ROLLOUT_FORMAT_VERSION,
                timestamp: place.line_timestamp,
                session_id: place.session_id,
                turn_id: Some(place.turn_id),
                seq: step.state.next_seq,
                entry,
            },
        },
    }
}

/// A projector after payloads, and the lines that they became.
#[verifier::ext_equal]
pub struct LinesStep {
    pub state: ProjectorView,
    pub lines: Seq<RolloutLineV2View>,
}

/// The lines that the payloads of a record become, one each.
pub open spec fn item_lines(
    state: ProjectorView,
    place: ItemPlace,
    payloads: Seq<TurnItemView>,
    fresh: Seq<FreshIds>,
) -> LinesStep
    decreases payloads.len(),
{
    if payloads.len() == 0 {
        LinesStep { state, lines: Seq::empty() }
    } else {
        let front = item_lines(state, place, payloads.drop_last(), fresh);
        let last = payloads.len() - 1;
        let step = line_step(front.state, place, last, fresh[last], payloads.last());
        LinesStep { state: step.state, lines: front.lines.push(step.line) }
    }
}

/// The payloads of a record, in order.
pub open spec fn payloads_of(record: ItemRecord) -> Seq<TurnItemView> {
    views(record.input_items@) + views(record.output_items@)
}

/// The payloads that a line packs.
pub open spec fn payload_count(line: RolloutLine) -> nat {
    match line {
        RolloutLine::Item { item, .. } => item.input_items@.len() + item.output_items@.len(),
        _ => 0,
    }
}

/// Whether the numbers of a projector have room for some payloads more.
pub open spec fn has_room(state: ProjectorView, payloads: int) -> bool {
    &&& state.next_seq + payloads <= u64::MAX
    &&& payloads <= u32::MAX
    &&& forall|i: int|
        0 <= i < state.approvals.len() ==> (#[trigger] state.approvals[i]).fold.revision + payloads
            <= u32::MAX
}

/// Whether a line can be converted within the limits of its numbers.
pub open spec fn can_project_line(state: ProjectorView, line: RolloutLine) -> bool {
    &&& has_room(state, payload_count(line) as int)
    &&& line matches RolloutLine::Turn { turn, .. } ==> usage_can_be_totalled(*turn)
}

/// A projector after a line, and the lines that the line became.
#[verifier::ext_equal]
pub struct ProjectStep {
    pub state: ProjectorView,
    pub result: Result<Seq<RolloutLineV2View>, Seq<char>>,
}

/// A line of its own.
pub open spec fn projected_line(state: ProjectorView, line: RolloutLineV2View) -> ProjectStep {
    ProjectStep { state, result: Ok(seq![line]) }
}

/// A refused line.
pub open spec fn refused_line(state: ProjectorView, text: Seq<char>) -> ProjectStep {
    ProjectStep { state, result: Err(text) }
}

/// A line of something that is no item and takes no sequence number.
pub open spec fn record_line(
    state: ProjectorView,
    timestamp: Timestamp,
    session_id: Seq<char>,
    turn_id: Option<Seq<char>>,
    entry: InternalRecordV2View,
) -> ProjectStep {
    projected_line(
        state,
        RolloutLineV2View::Internal {
            v: ROLLOUT_FORMAT_VERSION,
            timestamp,
            session_id,
            turn_id,
            seq: 0,
            entry,
        },
    )
}

/// What an item record becomes.
pub open spec fn item_step(
    state: ProjectorView,
    timestamp: Timestamp,
    record: ItemRecord,
    fresh: Seq<FreshIds>,
) -> ProjectStep {
    match (legacy_id(record.session_id@), legacy_id(record.turn_id@), legacy_id(record.id@)) {
        (Err(text), _, _) => refused_line(state, text),
        (_, Err(text), _) => refused_line(state, text),
        (_, _, Err(text)) => refused_line(state, text),
        (Ok(session_id), Ok(turn_id), Ok(item_id)) => {
            let step = item_lines(
                state,
                ItemPlace {
                    line_timestamp: timestamp,
                    timestamp: record.timestamp,
                    session_id,
                    turn_id,
                    item_id,
                },
                payloads_of(record),
                fresh,
            );
            ProjectStep { state: step.state, result: Ok(step.lines) }
        },
    }
}

/// The projector after it gave a settings epoch out.
pub open spec fn with_next_epoch(state: ProjectorView) -> ProjectorView {
    ProjectorView {
        next_settings_epoch: if state.next_settings_epoch < u64::MAX {
            (state.next_settings_epoch + 1) as u64
        } else {
            u64::MAX
        },
        ..state
    }
}

/// The turn that an edit belongs to: the one that replaces, or else the one that
/// is replaced.
pub open spec fn edited_turn(
    replacement: Option<Seq<char>>,
    target: Option<Seq<char>>,
) -> Option<Seq<char>> {
    if replacement is Some {
        replacement
    } else {
        target
    }
}

/// What a line of the older form becomes.
pub open spec fn project_step(
    state: ProjectorView,
    line: RolloutLine,
    fresh: Seq<FreshIds>,
) -> ProjectStep {
    match line {
        RolloutLine::SessionMeta { timestamp, session } => ProjectStep {
            state: ProjectorView { session_cwd: Some(session.cwd@), ..state },
            result: session_line(timestamp, *session),
        },
        RolloutLine::Turn { timestamp, turn } => ProjectStep {
            state,
            result: turn_line(timestamp, *turn),
        },
        RolloutLine::Item { timestamp, item } => item_step(state, timestamp, *item, fresh),
        RolloutLine::SessionTitleUpdated { timestamp, session_id, title, previous_title } => {
            match legacy_id(session_id@) {
                Err(text) => refused_line(state, text),
                Ok(session_id) => projected_line(
                    state,
                    RolloutLineV2View::SessionTitleUpdated {
                        v: ROLLOUT_FORMAT_VERSION,
                        timestamp,
                        session_id,
                        title: title@,
                        previous_title: opt_view(previous_title),
                    },
                ),
            }
        },
        RolloutLine::SessionContextUpdated { timestamp, session_id, session_context } => {
            match legacy_id(session_id@) {
                Err(text) => refused_line(state, text),
                Ok(session_id) => record_line(
                    state,
                    timestamp,
                    session_id,
                    None,
                    InternalRecordV2View::SessionContext(session_context@),
                ),
            }
        },
        RolloutLine::SessionSettings { timestamp, session_id, field, value } => {
            match legacy_id(session_id@) {
                Err(text) => refused_line(with_next_epoch(state), text),
                Ok(session_id) => record_line(
                    with_next_epoch(state),
                    timestamp,
                    session_id,
                    None,
                    InternalRecordV2View::SessionSettings {
                        schema_version: 1,
                        field: field@,
                        value: value@,
                        epoch: state.next_settings_epoch,
                    },
                ),
            }
        },
        RolloutLine::CompactionSnapshot {
            timestamp,
            session_id,
            turn_id,
            summary_item_id,
            preserved_item_ids,
            context_occupancy,
        } => match (
            legacy_id(session_id@),
            legacy_id(turn_id@),
            legacy_id(summary_item_id@),
            legacy_ids(views(preserved_item_ids@)),
        ) {
            (Err(text), _, _, _) => refused_line(state, text),
            (_, Err(text), _, _) => refused_line(state, text),
            (_, _, Err(text), _) => refused_line(state, text),
            (_, _, _, Err(text)) => refused_line(state, text),
            (
                Ok(session_id),
                Ok(turn_id),
                Ok(summary_item_id),
                Ok(preserved_item_ids),
            ) => projected_line(
                state,
                RolloutLineV2View::CompactionSnapshot {
                    v: ROLLOUT_FORMAT_VERSION,
                    timestamp,
                    session_id,
                    turn_id,
                    summary_item_id,
                    preserved_item_ids,
                    context_occupancy: opt_view(context_occupancy),
                },
            ),
        },
        RolloutLine::MessageEditRecorded { timestamp, record } => match (
            legacy_id(record.session_id@),
            legacy_optional_id(
                edited_turn(opt_view(record.replacement_turn_id), opt_view(record.target_turn_id)),
            ),
        ) {
            (Err(text), _) => refused_line(state, text),
            (_, Err(text)) => refused_line(state, text),
            (Ok(session_id), Ok(turn_id)) => record_line(
                state,
                timestamp,
                session_id,
                turn_id,
                InternalRecordV2View::MessageEdit(record@),
            ),
        },
        RolloutLine::TurnSuperseded { timestamp, record } => match (
            legacy_id(record.session_id@),
            legacy_id(record.replacement_turn_id@),
        ) {
            (Err(text), _) => refused_line(state, text),
            (_, Err(text)) => refused_line(state, text),
            (Ok(session_id), Ok(turn_id)) => record_line(
                state,
                timestamp,
                session_id,
                Some(turn_id),
                InternalRecordV2View::TurnSuperseded(record@),
            ),
        },
        RolloutLine::TurnWorkspaceCheckpointRecorded { timestamp, record } => projected_line(
            state,
            RolloutLineV2View::WorkspaceCheckpoint {
                v: ROLLOUT_FORMAT_VERSION,
                timestamp,
                record: record@,
            },
        ),
        RolloutLine::TurnWorkspaceChangeRecorded { timestamp, record } => projected_line(
            state,
            RolloutLineV2View::WorkspaceChange {
                v: ROLLOUT_FORMAT_VERSION,
                timestamp,
                record: record@,
            },
        ),
        RolloutLine::TurnWorkspaceRestoreStarted { timestamp, record } => projected_line(
            state,
            RolloutLineV2View::WorkspaceRestoreStarted {
                v: ROLLOUT_FORMAT_VERSION,
                timestamp,
                record: record@,
            },
        ),
        RolloutLine::TurnWorkspaceRestoreCompleted { timestamp, record } => projected_line(
            state,
            RolloutLineV2View::WorkspaceRestoreCompleted {
                v: ROLLOUT_FORMAT_VERSION,
                timestamp,
                record: record@,
            },
        ),
        RolloutLine::SessionRollback {
            timestamp,
            session_id,
            retained_turn_ids,
            retained_item_ids,
            latest_turn_id,
        } => match (
            legacy_id(session_id@),
            legacy_ids(views(retained_turn_ids@)),
            legacy_ids(views(retained_item_ids@)),
            legacy_optional_id(opt_view(latest_turn_id)),
        ) {
            (Err(text), _, _, _) => refused_line(state, text),
            (_, Err(text), _, _) => refused_line(state, text),
            (_, _, Err(text), _) => refused_line(state, text),
            (_, _, _, Err(text)) => refused_line(state, text),
            (
                Ok(session_id),
                Ok(retained_turn_ids),
                Ok(retained_item_ids),
                Ok(latest_turn_id),
            ) => projected_line(
                state,
                RolloutLineV2View::SessionRollback {
                    v: ROLLOUT_FORMAT_VERSION,
                    timestamp,
                    session_id,
                    retained_turn_ids,
                    retained_item_ids,
                    latest_turn_id,
                },
            ),
        },
    }
}

/// The larger of two numbers.
pub open spec fn at_least(left: u64, right: int) -> u64 {
    if left < right {
        right as u64
    } else {
        left
    }
}

/// The approvals once an item that is already recorded is known.
pub open spec fn observed_approvals(
    approvals: Seq<ApprovalEntryView>,
    item: ItemEnvelopeView,
) -> Seq<ApprovalEntryView> {
    match item.item {
        ItemView::Approval {
            approval_id,
            target_item_id,
            action_summary,
            justification,
            resource,
            available_scopes,
            command_pattern,
            command_prefix,
            target,
            decision,
        } => match decision {
            None => with_fold(
                approvals,
                approval_id,
                ApprovalFoldView {
                    item_id: item.id,
                    seq: item.seq,
                    revision: item.revision,
                    request: request_from_parts(
                        approval_id,
                        action_summary,
                        justification,
                        resource,
                        available_scopes,
                        command_pattern,
                        command_prefix,
                        target,
                    ),
                },
            ),
            Some(_) => match fold_of(approvals, approval_id) {
                None => approvals,
                Some(fold) => with_fold(
                    approvals,
                    approval_id,
                    ApprovalFoldView {
                        revision: if fold.revision < item.revision {
                            item.revision
                        } else {
                            fold.revision
                        },
                        ..fold
                    },
                ),
            },
        },
        _ => approvals,
    }
}

/// The projector once a line that is already in the present form is known.
pub open spec fn observe_step(state: ProjectorView, line: RolloutLineV2View) -> ProjectorView {
    match line {
        RolloutLineV2View::SessionMeta { session, .. } => ProjectorView {
            session_cwd: Some(session.cwd),
            ..state
        },
        RolloutLineV2View::Item { item, .. } => ProjectorView {
            next_seq: at_least(state.next_seq, item.seq + 1),
            approvals: observed_approvals(state.approvals, item),
            ..state
        },
        RolloutLineV2View::Internal { seq, entry, .. } => ProjectorView {
            next_seq: at_least(state.next_seq, seq + 1),
            next_settings_epoch: match entry {
                InternalRecordV2View::SessionSettings { epoch, .. } => at_least(
                    state.next_settings_epoch,
                    epoch + 1,
                ),
                _ => state.next_settings_epoch,
            },
            ..state
        },
        _ => state,
    }
}

/// Whether a line leaves room for numbers after its own.
pub open spec fn can_observe(line: RolloutLineV2View) -> bool {
    match line {
        RolloutLineV2View::Item { item, .. } => item.seq < u64::MAX,
        RolloutLineV2View::Internal { seq, entry, .. } => seq < u64::MAX && (
        entry matches InternalRecordV2View::SessionSettings { epoch, .. } ==> epoch < u64::MAX),
        _ => true,
    }
}

fn find_approval(approvals: &Vec<ApprovalEntry>, approval_id: &String) -> (result: Option<usize>)
    ensures
        match result {
            Some(i) => i < approvals.len() && first_match(
                views(approvals@),
                approval_is(approval_id@),
            ) == Some(i as int),
            None => first_match(views(approvals@), approval_is(approval_id@)) is None,
        },
{
    let ghost all = views(approvals@);
    let ghost wanted = approval_is(approval_id@);
    let mut i: usize = 0;
    while i < approvals.len()
        invariant
            i <= approvals.len(),
            all == views(approvals@),
            wanted == approval_is(approval_id@),
            forall|j: int| 0 <= j < i ==> !wanted(#[trigger] all[j]),
        decreases approvals.len() - i,
    {
        assert(all[i as int] == approvals@[i as int]@);
        if same_text(approvals[i].approval_id.as_str(), approval_id.as_str()) {
            proof {
                lemma_is_first_match(all, wanted, i as int);
            }
            return Some(i);
        }
        i = i + 1;
    }
    proof {
        lemma_no_match(all, wanted);
    }
    None
}

fn set_fold(approvals: &mut Vec<ApprovalEntry>, approval_id: &String, fold: ApprovalFold)
    ensures
        views(final(approvals)@) == with_fold(views(old(approvals)@), approval_id@, fold@),
{
    let ghost before = views(approvals@);
    let ghost known = fold@;
    let entry = ApprovalEntry { approval_id: approval_id.clone(), fold };
    let ghost added = entry@;
    match find_approval(approvals, approval_id) {
        Some(i) => {
            approvals.set(i, entry);
            assert(views(approvals@) =~= before.update(i as int, added));
        },
        None => {
            approvals.push(entry);
            assert(views(approvals@) =~= before.push(added));
        },
    }
}

fn completed_item(item: Item) -> (result: Projected)
    ensures
        result@ == (ProjectedView::Item { item: item@, state: ItemState::Completed }),
{
    Projected::Item { item, state: ItemState::Completed }
}

fn internal_entry(entry: InternalEntry) -> (result: Projected)
    ensures
        result@ == ProjectedView::Internal(InternalRecordV2View::Entry { entry: entry@ }),
{
    Projected::Internal(InternalRecordV2::Entry { entry })
}

fn user_message_item(text: &String, entry: UserMessageEntry) -> (result: Item)
    ensures
        result@ == user_message(text@, entry),
{
    let mut content: Vec<UserInput> = Vec::new();
    content.push(UserInput::Text { text: text.clone() });
    assert(views(content@) =~= seq![UserInputView::Text { text: text@ }]);
    Item::UserMessage { client_user_message_id: None, content, entry }
}

fn hosted_call_item(item_id: &ItemId, tool_name: &str, text: &String) -> (result: Item)
    ensures
        result@ == hosted_call(item_id@, tool_name@, text@),
{
    Item::HostedToolCall {
        call_id: item_id.to_text(),
        tool_name: tool_name.to_string(),
        input: None,
        output_text: Some(text.clone()),
    }
}

fn plan_item(text: &String) -> (result: Item)
    ensures
        result@ == (ItemView::Plan {
            entries: seq![PlanEntryView { step: text@, status: PlanStepStatus::Completed }],
        }),
{
    let mut entries: Vec<PlanEntry> = Vec::new();
    entries.push(PlanEntry { step: text.clone(), status: PlanStepStatus::Completed });
    assert(views(entries@) =~= seq![
        PlanEntryView { step: text@, status: PlanStepStatus::Completed },
    ]);
    Item::Plan { entries }
}

proof fn lemma_payload_keeps_room(
    state: ProjectorView,
    place: ItemPlace,
    index: int,
    ids: FreshIds,
    payload: TurnItemView,
    room: int,
)
    requires
        room > 0,
        has_room(state, room),
    ensures
        has_room(line_step(state, place, index, ids, payload).state, room - 1),
{
    match payload {
        TurnItemView::ApprovalRequest(request) => {
            lemma_first_match(state.approvals, approval_is(request.approval_id));
        },
        TurnItemView::ApprovalDecision(decision) => {
            lemma_first_match(state.approvals, approval_is(decision.approval_id));
        },
        _ => {},
    }
}

impl LegacyProjector {
    /// A projector that has seen nothing.
    pub fn new() -> (result: Self)
        ensures
            result@ == new_projector(),
    {
        let result = LegacyProjector {
            next_seq: 1,
            next_settings_epoch: 1,
            session_cwd: None,
            approvals: Vec::new(),
        };
        assert(views(result.approvals@) =~= Seq::<ApprovalEntryView>::empty());
        result
    }

    /// The epoch of the next settings line: the first is one.
    pub fn next_settings_epoch(&self) -> (result: u64)
        ensures
            result == self@.next_settings_epoch,
    {
        self.next_settings_epoch
    }

    fn next_seq(&mut self) -> (result: u64)
        requires
            old(self)@.next_seq < u64::MAX,
        ensures
            result == old(self)@.next_seq,
            final(self)@ == with_next_seq(old(self)@),
    {
        let seq = self.next_seq;
        self.next_seq = self.next_seq + 1;
        seq
    }

    /// Takes in a line that is already in the present form, so that what is written
    /// after it continues its numbers and approvals.
    pub fn observe_v2_line(&mut self, line: &RolloutLineV2)
        requires
            can_observe(line@),
        ensures
            final(self)@ == observe_step(old(self)@, line@),
    {
        match line {
            RolloutLineV2::SessionMeta { session, .. } => {
                self.session_cwd = Some(session.cwd.clone());
            },
            RolloutLineV2::Item { item, .. } => {
                if self.next_seq < item.seq + 1 {
                    self.next_seq = item.seq + 1;
                }
                self.observe_item(item);
            },
            RolloutLineV2::Internal { seq, entry, .. } => {
                if self.next_seq < *seq + 1 {
                    self.next_seq = *seq + 1;
                }
                if let InternalRecordV2::SessionSettings { epoch, .. } = entry {
                    if self.next_settings_epoch < *epoch + 1 {
                        self.next_settings_epoch = *epoch + 1;
                    }
                }
            },
            _ => {},
        }
    }

    fn observe_item(&mut self, item: &ItemEnvelope)
        ensures
            final(self)@ == (ProjectorView {
                approvals: observed_approvals(old(self)@.approvals, item@),
                ..old(self)@
            }),
    {
        if let Item::Approval {
            approval_id,
            action_summary,
            justification,
            resource,
            available_scopes,
            command_pattern,
            command_prefix,
            target,
            decision,
            ..
        } = &item.item {
            match decision {
                None => {
                    let request = approval_request_from_parts(
                        approval_id,
                        action_summary,
                        justification,
                        resource,
                        available_scopes,
                        command_pattern,
                        command_prefix,
                        target,
                    );
                    let fold = ApprovalFold {
                        item_id: item.id.clone(),
                        seq: item.seq,
                        revision: item.revision,
                        request,
                    };
                    set_fold(&mut self.approvals, approval_id, fold);
                },
                Some(_) => {
                    if let Some(i) = find_approval(&self.approvals, approval_id) {
                        let mut fold = self.approvals[i].fold.clone();
                        assert(self@.approvals[i as int] == self.approvals@[i as int]@);
                        if fold.revision < item.revision {
                            fold.revision = item.revision;
                        }
                        set_fold(&mut self.approvals, approval_id, fold);
                    }
                },
            }
        }
    }

    fn project_payload(
        &mut self,
        timestamp: Timestamp,
        item_id: &ItemId,
        orphan: u128,
        payload: &TurnItem,
    ) -> (result: Projected)
        requires
            has_room(old(self)@, 1),
        ensures
            (PayloadStep { state: final(self)@, projected: result@ }) == payload_step(
                old(self)@,
                timestamp,
                item_id@,
                uuid_text(orphan),
                payload@,
            ),
    {
        match payload {
            TurnItem::UserMessage(text) => completed_item(
                user_message_item(text, UserMessageEntry::TurnStart),
            ),
            TurnItem::SteerInput(text) => completed_item(
                user_message_item(text, UserMessageEntry::Steer),
            ),
            TurnItem::HookPrompt(text) => internal_entry(
                InternalEntry::HookPrompt { text: text.clone() },
            ),
            TurnItem::AgentMessage(text) => completed_item(
                Item::AssistantMessage { text: text.clone(), phase: None },
            ),
            TurnItem::Plan(text) => completed_item(plan_item(text)),
            TurnItem::Reasoning(text) => completed_item(
                Item::Reasoning { text: text.clone(), provider_payload_ref: None },
            ),
            TurnItem::ToolCall(call) => completed_item(
                Item::ToolCall {
                    call_id: call.tool_call_id.clone(),
                    tool_name: call.tool_name.clone(),
                    source: ToolSource::Builtin,
                    server_name: None,
                    input: Some(call.input.clone()),
                },
            ),
            TurnItem::ToolProgress(progress) => internal_entry(
                InternalEntry::ToolProgress {
                    call_id: progress.tool_call_id.clone(),
                    message: progress.message.clone(),
                },
            ),
            TurnItem::ToolResult(result) => completed_item(
                Item::ToolResult {
                    call_id: result.tool_call_id.clone(),
                    output: result.output.clone(),
                    display_content: result.display_content.clone(),
                    is_error: result.is_error,
                    truncated: false,
                },
            ),
            TurnItem::CommandExecution(command) => completed_item(
                Item::CommandExecution {
                    call_id: command.tool_call_id.clone(),
                    command: command.command.clone(),
                    argv: None,
                    cwd: or_empty(&self.session_cwd),
                    input: Some(command.input.clone()),
                    output: Some(command.output.clone()),
                    exit_code: None,
                    execution_handle: None,
                    is_error: command.is_error,
                    execution_mode: ExecutionMode::Foreground,
                    origin: ExecOrigin::AgentTool,
                    sandbox: None,
                },
            ),
            TurnItem::WebSearch(text) => completed_item(
                hosted_call_item(item_id, "web_search", text),
            ),
            TurnItem::ImageGeneration(text) => completed_item(
                hosted_call_item(item_id, "image_generation", text),
            ),
            TurnItem::ContextCompaction(text) => completed_item(
                Item::ContextCompaction {
                    trigger: CompactionTrigger::AutoThreshold,
                    before: ContextUsage { measured: false, used_tokens: 0 },
                    after: None,
                    summary: Some(text.clone()),
                },
            ),
            TurnItem::TurnSummary(text) => internal_entry(
                InternalEntry::TurnSummary { text: text.clone() },
            ),
            TurnItem::ApprovalRequest(request) => {
                let seq = self.next_seq();
                let fold = ApprovalFold {
                    item_id: item_id.clone(),
                    seq,
                    revision: 1,
                    request: request.clone(),
                };
                set_fold(&mut self.approvals, &request.approval_id, fold);
                Projected::FoldedItem {
                    id: item_id.clone(),
                    seq,
                    revision: 1,
                    item: approval_request_item(request, None),
                    state: ItemState::Waiting,
                }
            },
            TurnItem::ApprovalDecision(decision) => self.project_decision(
                timestamp,
                orphan,
                decision,
            ),
        }
    }

    fn project_decision(
        &mut self,
        timestamp: Timestamp,
        orphan: u128,
        decision: &ApprovalDecisionItem,
    ) -> (result: Projected)
        requires
            has_room(old(self)@, 1),
        ensures
            (PayloadStep { state: final(self)@, projected: result@ }) == decision_step(
                old(self)@,
                timestamp,
                uuid_text(orphan),
                decision@,
            ),
    {
        match find_approval(&self.approvals, &decision.approval_id) {
            Some(i) => {
                let mut fold = self.approvals[i].fold.clone();
                assert(self@.approvals[i as int] == self.approvals@[i as int]@);
                fold.revision = fold.revision + 1;
                let decision_source = match &decision.decision_source {
                    Some(source) => source.clone(),
                    None => NamedChoice::Default,
                };
                let decided = ApprovalDecision {
                    decision: decision_kind(&decision.decision),
                    scope: scope_kind(&decision.scope),
                    decision_source,
                    decided_at: timestamp,
                };
                let item = approval_request_item(&fold.request, Some(decided));
                let projected = Projected::FoldedItem {
                    id: fold.item_id.clone(),
                    seq: fold.seq,
                    revision: fold.revision,
                    item,
                    state: ItemState::Completed,
                };
                set_fold(&mut self.approvals, &decision.approval_id, fold);
                projected
            },
            None => {
                let mut message = concat("approval decision '", decision.decision.as_str());
                message.append("'/'");
                message.append(decision.scope.as_str());
                message.append("' references unknown approval id ");
                message.append(decision.approval_id.as_str());
                let seq = self.next_seq();
                Projected::FoldedItem {
                    id: ItemId::from_legacy_uuid(orphan),
                    seq,
                    revision: 1,
                    item: Item::Warning {
                        code: "legacyOrphanApprovalDecision".to_string(),
                        message,
                        retryable: false,
                    },
                    state: ItemState::Completed,
                }
            },
        }
    }

    fn project_item(
        &mut self,
        line_timestamp: Timestamp,
        record: &ItemRecord,
        fresh: &Vec<FreshIds>,
    ) -> (result: Result<Vec<RolloutLineV2>, LegacyProjectError>)
        requires
            has_room(old(self)@, payloads_of(*record).len() as int),
            fresh@.len() == record.input_items@.len() + record.output_items@.len(),
        ensures
            (ProjectStep { state: final(self)@, result: lines_result(result) }) == item_step(
                old(self)@,
                line_timestamp,
                *record,
                fresh@,
            ),
    {
        let session_id = match legacy_session(&record.session_id) {
            Ok(session_id) => session_id,
            Err(error) => return Err(error),
        };
        let turn_id = match legacy_turn(&record.turn_id) {
            Ok(turn_id) => turn_id,
            Err(error) => return Err(error),
        };
        let first_item_id = match legacy_item(&record.id) {
            Ok(first_item_id) => first_item_id,
            Err(error) => return Err(error),
        };
        let ghost before = self@;
        let ghost all = payloads_of(*record);
        let ghost place = ItemPlace {
            line_timestamp,
            timestamp: record.timestamp,
            session_id: session_id@,
            turn_id: turn_id@,
            item_id: first_item_id@,
        };
        let mut out: Vec<RolloutLineV2> = Vec::new();
        let mut i: usize = 0;
        assert(views(out@) =~= Seq::<RolloutLineV2View>::empty());
        while i < fresh.len()
            invariant
                i <= fresh.len(),
                fresh@.len() == record.input_items@.len() + record.output_items@.len(),
                all == payloads_of(*record),
                all.len() == fresh@.len(),
                place.line_timestamp == line_timestamp,
                place.timestamp == record.timestamp,
                place.session_id == session_id@,
                place.turn_id == turn_id@,
                place.item_id == first_item_id@,
                has_room(self@, fresh@.len() - i),
                (LinesStep { state: self@, lines: views(out@) }) == item_lines(
                    before,
                    place,
                    all.take(i as int),
                    fresh@,
                ),
            decreases fresh.len() - i,
        {
            let ghost front = self@;
            let ghost lines = views(out@);
            let ghost next = all.take(i + 1);
            assert(next.drop_last() =~= all.take(i as int));
            let payload = if i < record.input_items.len() {
                &record.input_items[i]
            } else {
                &record.output_items[i - record.input_items.len()]
            };
            assert(next.last() == payload@);
            proof {
                lemma_payload_keeps_room(
                    front,
                    place,
                    i as int,
                    fresh@[i as int],
                    payload@,
                    fresh@.len() - i,
                );
            }
            let item_id = if i == 0 {
                first_item_id.clone()
            } else {
                ItemId::from_legacy_uuid(fresh[i].item)
            };
            let line = match self.project_payload(
                record.timestamp,
                &item_id,
                fresh[i].orphan,
                payload,
            ) {
                Projected::Item { item, state } => {
                    let seq = self.next_seq();
                    RolloutLineV2::Item {
                        v: ROLLOUT_FORMAT_VERSION,
                        timestamp: line_timestamp,
                        item: Box::new(
                            ItemEnvelope {
                                id: item_id,
                                session_id: session_id.clone(),
                                turn_id: turn_id.clone(),
                                seq,
                                revision: 1,
                                created_at: record.timestamp,
                                updated_at: record.timestamp,
                                state,
                                item,
                            },
                        ),
                    }
                },
                Projected::FoldedItem { id, seq, revision, item, state } => {
                    RolloutLineV2::Item {
                        v: ROLLOUT_FORMAT_VERSION,
                        timestamp: line_timestamp,
                        item: Box::new(
                            ItemEnvelope {
                                id,
                                session_id: session_id.clone(),
                                turn_id: turn_id.clone(),
                                seq,
                                revision,
                                created_at: record.timestamp,
                                updated_at: record.timestamp,
                                state,
                                item,
                            },
                        ),
                    }
                },
                Projected::Internal(entry) => {
                    let seq = self.next_seq();
                    RolloutLineV2::Internal {
                        v: ROLLOUT_FORMAT_VERSION,
                        timestamp: line_timestamp,
                        session_id: session_id.clone(),
                        turn_id: Some(turn_id.clone()),
                        seq,
                        entry,
                    }
                },
            };
            let ghost added = line@;
            assert((LineStep { state: self@, line: added }) == line_step(
                front,
                place,
                i as int,
                fresh@[i as int],
                payload@,
            ));
            out.push(line);
            assert(views(out@) =~= lines.push(added));
            i = i + 1;
        }
        assert(all.take(fresh@.len() as int) =~= all);
        Ok(out)
    }

    fn project_session_meta(&mut self, timestamp: Timestamp, record: &SessionRecord) -> (result:
        Result<Vec<RolloutLineV2>, LegacyProjectError>)
        ensures
            lines_result(result) == session_line(timestamp, *record),
            final(self)@ == (ProjectorView { session_cwd: Some(record.cwd@), ..old(self)@ }),
    {
        self.session_cwd = Some(record.cwd.clone());
        let session = match session_from_record(record) {
            Ok(session) => session,
            Err(error) => return Err(error),
        };
        let line = RolloutLineV2::SessionMeta {
            v: ROLLOUT_FORMAT_VERSION,
            timestamp,
            session: Box::new(session),
            extras: Some(
                SessionPersistenceExtras {
                    session_context: record.session_context.clone(),
                    cli_version: record.cli_version.clone(),
                    source: record.source.clone(),
                    collaboration_mode: record.collaboration_mode.clone(),
                    permission_preset: record.permission_preset.clone(),
                },
            ),
        };
        Ok(one_line(line))
    }

    /// Converts a line with given UUIDs, one pair for each payload.
    pub fn project_line_with(&mut self, line: &RolloutLine, fresh: &Vec<FreshIds>) -> (result:
        Result<Vec<RolloutLineV2>, LegacyProjectError>)
        requires
            can_project_line(old(self)@, *line),
            fresh@.len() == payload_count(*line),
        ensures
            (ProjectStep { state: final(self)@, result: lines_result(result) }) == project_step(
                old(self)@,
                *line,
                fresh@,
            ),
    {
        match line {
            RolloutLine::SessionMeta { timestamp, session } => self.project_session_meta(
                *timestamp,
                session,
            ),
            RolloutLine::Turn { timestamp, turn } => project_turn(*timestamp, turn),
            RolloutLine::Item { timestamp, item } => self.project_item(*timestamp, item, fresh),
            RolloutLine::SessionTitleUpdated { timestamp, session_id, title, previous_title } => {
                let session_id = match legacy_session(session_id) {
                    Ok(session_id) => session_id,
                    Err(error) => return Err(error),
                };
                Ok(
                    one_line(
                        RolloutLineV2::SessionTitleUpdated {
                            v: ROLLOUT_FORMAT_VERSION,
                            timestamp: *timestamp,
                            session_id,
                            title: title.clone(),
                            previous_title: previous_title.clone(),
                        },
                    ),
                )
            },
            RolloutLine::SessionContextUpdated { timestamp, session_id, session_context } => {
                let session_id = match legacy_session(session_id) {
                    Ok(session_id) => session_id,
                    Err(error) => return Err(error),
                };
                Ok(
                    record_line_of(
                        *timestamp,
                        session_id,
                        None,
                        InternalRecordV2::SessionContext(session_context.clone()),
                    ),
                )
            },
            RolloutLine::SessionSettings { timestamp, session_id, field, value } => {
                let epoch = self.next_settings_epoch;
                self.next_settings_epoch = self.next_settings_epoch.saturating_add(1);
                let session_id = match legacy_session(session_id) {
                    Ok(session_id) => session_id,
                    Err(error) => return Err(error),
                };
                Ok(
                    record_line_of(
                        *timestamp,
                        session_id,
                        None,
                        InternalRecordV2::SessionSettings {
                            schema_version: 1,
                            field: field.clone(),
                            value: value.clone(),
                            epoch,
                        },
                    ),
                )
            },
            RolloutLine::CompactionSnapshot {
                timestamp,
                session_id,
                turn_id,
                summary_item_id,
                preserved_item_ids,
                context_occupancy,
            } => {
                let session_id = match legacy_session(session_id) {
                    Ok(session_id) => session_id,
                    Err(error) => return Err(error),
                };
                let turn_id = match legacy_turn(turn_id) {
                    Ok(turn_id) => turn_id,
                    Err(error) => return Err(error),
                };
                let summary_item_id = match legacy_item(summary_item_id) {
                    Ok(summary_item_id) => summary_item_id,
                    Err(error) => return Err(error),
                };
                let preserved_item_ids = match legacy_items(preserved_item_ids) {
                    Ok(preserved_item_ids) => preserved_item_ids,
                    Err(error) => return Err(error),
                };
                Ok(
                    one_line(
                        RolloutLineV2::CompactionSnapshot {
                            v: ROLLOUT_FORMAT_VERSION,
                            timestamp: *timestamp,
                            session_id,
                            turn_id,
                            summary_item_id,
                            preserved_item_ids,
                            context_occupancy: context_occupancy.clone(),
                        },
                    ),
                )
            },
            RolloutLine::MessageEditRecorded { timestamp, record } => {
                let session_id = match legacy_session(&record.session_id) {
                    Ok(session_id) => session_id,
                    Err(error) => return Err(error),
                };
                let edited = if record.replacement_turn_id.is_some() {
                    &record.replacement_turn_id
                } else {
                    &record.target_turn_id
                };
                let turn_id = match legacy_optional_turn(edited) {
                    Ok(turn_id) => turn_id,
                    Err(error) => return Err(error),
                };
                Ok(
                    record_line_of(
                        *timestamp,
                        session_id,
                        turn_id,
                        InternalRecordV2::MessageEdit(record.clone()),
                    ),
                )
            },
            RolloutLine::TurnSuperseded { timestamp, record } => {
                let session_id = match legacy_session(&record.session_id) {
                    Ok(session_id) => session_id,
                    Err(error) => return Err(error),
                };
                let turn_id = match legacy_turn(&record.replacement_turn_id) {
                    Ok(turn_id) => turn_id,
                    Err(error) => return Err(error),
                };
                Ok(
                    record_line_of(
                        *timestamp,
                        session_id,
                        Some(turn_id),
                        InternalRecordV2::TurnSuperseded(record.clone()),
                    ),
                )
            },
            RolloutLine::TurnWorkspaceCheckpointRecorded { timestamp, record } => Ok(
                one_line(
                    RolloutLineV2::WorkspaceCheckpoint {
                        v: ROLLOUT_FORMAT_VERSION,
                        timestamp: *timestamp,
                        record: record.clone(),
                    },
                ),
            ),
            RolloutLine::TurnWorkspaceChangeRecorded { timestamp, record } => Ok(
                one_line(
                    RolloutLineV2::WorkspaceChange {
                        v: ROLLOUT_FORMAT_VERSION,
                        timestamp: *timestamp,
                        record: record.clone(),
                    },
                ),
            ),
            RolloutLine::TurnWorkspaceRestoreStarted { timestamp, record } => Ok(
                one_line(
                    RolloutLineV2::WorkspaceRestoreStarted {
                        v: ROLLOUT_FORMAT_VERSION,
                        timestamp: *timestamp,
                        record: record.clone(),
                    },
                ),
            ),
            RolloutLine::TurnWorkspaceRestoreCompleted { timestamp, record } => Ok(
                one_line(
                    RolloutLineV2::WorkspaceRestoreCompleted {
                        v: ROLLOUT_FORMAT_VERSION,
                        timestamp: *timestamp,
                        record: record.clone(),
                    },
                ),
            ),
            RolloutLine::SessionRollback {
                timestamp,
                session_id,
                retained_turn_ids,
                retained_item_ids,
                latest_turn_id,
            } => {
                let session_id = match legacy_session(session_id) {
                    Ok(session_id) => session_id,
                    Err(error) => return Err(error),
                };
                let retained_turn_ids = match legacy_turns(retained_turn_ids) {
                    Ok(retained_turn_ids) => retained_turn_ids,
                    Err(error) => return Err(error),
                };
                let retained_item_ids = match legacy_items(retained_item_ids) {
                    Ok(retained_item_ids) => retained_item_ids,
                    Err(error) => return Err(error),
                };
                let latest_turn_id = match legacy_optional_turn(latest_turn_id) {
                    Ok(latest_turn_id) => latest_turn_id,
                    Err(error) => return Err(error),
                };
                Ok(
                    one_line(
                        RolloutLineV2::SessionRollback {
                            v: ROLLOUT_FORMAT_VERSION,
                            timestamp: *timestamp,
                            session_id,
                            retained_turn_ids,
                            retained_item_ids,
                            latest_turn_id,
                        },
                    ),
                )
            },
        }
    }

    /// Converts a line of the older form into lines of the present one. Most lines
    /// become one line; an item record becomes one for each payload.
    pub fn project_line(&mut self, line: &RolloutLine) -> (result: Result<
        Vec<RolloutLineV2>,
        LegacyProjectError,
    >)
        requires
            can_project_line(old(self)@, *line),
        ensures
            exists|fresh: Seq<FreshIds>|
                fresh.len() == payload_count(*line) && (ProjectStep {
                    state: final(self)@,
                    result: lines_result(result),
                }) == #[trigger] project_step(old(self)@, *line, fresh),
    {
        let mut fresh: Vec<FreshIds> = Vec::new();
        if let RolloutLine::Item { item, .. } = line {
            let count: usize = item.input_items.len() + item.output_items.len();
            while fresh.len() < count
                invariant
                    fresh.len() <= count,
                decreases count - fresh.len(),
            {
                let item_value: u128 = fresh_uuid_value();
                let orphan: u128 = fresh_uuid_value();
                fresh.push(FreshIds { item: item_value, orphan });
            }
        }
        self.project_line_with(line, &fresh)
    }

    /// Whether the numbers of the projector and of a line leave room to convert it.
    pub fn can_project(&self, line: &RolloutLine) -> (result: bool)
        ensures
            result == can_project_line(self@, *line),
    {
        let payloads: usize = match line {
            RolloutLine::Item { item, .. } => {
                if item.input_items.len() > usize::MAX - item.output_items.len() {
                    return false;
                }
                item.input_items.len() + item.output_items.len()
            },
            RolloutLine::Turn { turn, .. } => {
                if let Some(usage) = &turn.usage {
                    if usage.total_tokens.is_none() && usage.input_tokens > u32::MAX
                        - usage.output_tokens {
                        return false;
                    }
                }
                0
            },
            _ => 0,
        };
        if payloads as u64 > u64::MAX - self.next_seq || payloads as u64 > u32::MAX as u64 {
            return false;
        }
        let ghost all = self@.approvals;
        let mut i: usize = 0;
        while i < self.approvals.len()
            invariant
                i <= self.approvals.len(),
                all == views(self.approvals@),
                payloads <= u32::MAX,
                payloads == payload_count(*line),
                forall|j: int|
                    0 <= j < i ==> (#[trigger] all[j]).fold.revision + payloads <= u32::MAX,
            decreases self.approvals.len() - i,
        {
            assert(all[i as int] == self.approvals@[i as int]@);
            if self.approvals[i].fold.revision > u32::MAX - payloads as u32 {
                assert(self@.approvals[i as int].fold.revision + payloads > u32::MAX);
                return false;
            }
            i = i + 1;
        }
        true
    }
}

fn record_line_of(
    timestamp: Timestamp,
    session_id: SessionId,
    turn_id: Option<TurnId>,
    entry: InternalRecordV2,
) -> (result: Vec<RolloutLineV2>)
    ensures
        forall|state: ProjectorView|
            (ProjectStep { state, result: Ok(views(result@)) }) == #[trigger] record_line(
                state,
                timestamp,
                session_id@,
                opt_view(turn_id),
                entry@,
            ),
{
    one_line(
        RolloutLineV2::Internal {
            v: ROLLOUT_FORMAT_VERSION,
            timestamp,
            session_id,
            turn_id,
            seq: 0,
            entry,
        },
    )
}

impl Default for LegacyProjector {
    fn default() -> (result: Self)
        ensures
            result@ == new_projector(),
    {
        LegacyProjector::new()
    }
}

// ---------------------------------------------------------------------------
// Laws.
// ---------------------------------------------------------------------------
/// Whether the state of a projector holds together: what is known of an approval
/// belongs to its ID, was numbered before, and no ID is known twice.
pub open spec fn is_consistent(state: ProjectorView) -> bool {
    &&& state.next_seq >= 1
    &&& forall|i: int|
        0 <= i < state.approvals.len() ==> is_sound_approval(
            state.next_seq,
            #[trigger] state.approvals[i],
        )
    &&& forall|i: int, j: int|
        0 <= i < j < state.approvals.len() ==> (#[trigger] state.approvals[i]).approval_id != (
        #[trigger] state.approvals[j]).approval_id
}

/// Whether what is known of an approval belongs to its ID and was numbered before.
pub open spec fn is_sound_approval(next_seq: u64, entry: ApprovalEntryView) -> bool {
    &&& entry.fold.request.approval_id == entry.approval_id
    &&& entry.fold.seq < next_seq
    &&& entry.fold.revision >= 1
}

/// The sequence number of a line, if it takes or keeps one.
pub open spec fn line_seq(line: RolloutLineV2View) -> u64 {
    match line {
        RolloutLineV2View::Item { item, .. } => item.seq,
        RolloutLineV2View::Internal { seq, .. } => seq,
        _ => 0,
    }
}

/// Whether a line is not the revision of an earlier item.
pub open spec fn is_first_appearance(line: RolloutLineV2View) -> bool {
    match line {
        RolloutLineV2View::Item { item, .. } => item.revision == 1,
        _ => true,
    }
}

proof fn lemma_fold_kept(
    approvals: Seq<ApprovalEntryView>,
    approval_id: Seq<char>,
    fold: ApprovalFoldView,
    before: u64,
    after: u64,
)
    requires
        before <= after,
        is_sound_approval(after, ApprovalEntryView { approval_id, fold }),
        forall|i: int|
            0 <= i < approvals.len() ==> is_sound_approval(before, #[trigger] approvals[i]),
        forall|i: int, j: int|
            0 <= i < j < approvals.len() ==> (#[trigger] approvals[i]).approval_id != (
            #[trigger] approvals[j]).approval_id,
    ensures
        forall|i: int|
            0 <= i < with_fold(approvals, approval_id, fold).len() ==> is_sound_approval(
                after,
                #[trigger] with_fold(approvals, approval_id, fold)[i],
            ),
        forall|i: int, j: int|
            0 <= i < j < with_fold(approvals, approval_id, fold).len() ==> (
            #[trigger] with_fold(approvals, approval_id, fold)[i]).approval_id != (
            #[trigger] with_fold(approvals, approval_id, fold)[j]).approval_id,
        fold_of(with_fold(approvals, approval_id, fold), approval_id) == Some(fold),
{
    let wanted = approval_is(approval_id);
    let changed = with_fold(approvals, approval_id, fold);
    lemma_first_match(approvals, wanted);
    match first_match(approvals, wanted) {
        Some(i) => {
            assert forall|k: int| 0 <= k < i implies !wanted(#[trigger] changed[k]) by {
                assert(changed[k] == approvals[k]);
            }
            lemma_is_first_match(changed, wanted, i);
        },
        None => {
            let at = approvals.len() as int;
            assert forall|k: int| 0 <= k < at implies !wanted(#[trigger] changed[k]) by {
                assert(changed[k] == approvals[k]);
            }
            lemma_is_first_match(changed, wanted, at);
        },
    }
}

/// A projector that has seen nothing is consistent, and converting a payload keeps
/// a projector consistent. What is no decision on a known approval takes the next
/// sequence number; such a decision keeps the ID and the number of the request, and
/// counts its revisions up.
pub proof fn law_payload_takes_its_place(
    state: ProjectorView,
    place: ItemPlace,
    index: int,
    ids: FreshIds,
    payload: TurnItemView,
)
    requires
        is_consistent(state),
        has_room(state, 1),
    ensures
        is_consistent(new_projector()),
        is_consistent(line_step(state, place, index, ids, payload).state),
        match payload {
            TurnItemView::ApprovalDecision(decision) if fold_of(
                state.approvals,
                decision.approval_id,
            ) is Some => {
                let fold = fold_of(state.approvals, decision.approval_id)->Some_0;
                let step = line_step(state, place, index, ids, payload);
                &&& step.state.next_seq == state.next_seq
                &&& step.line == item_line(
                    place,
                    fold.item_id,
                    fold.seq,
                    (fold.revision + 1) as u32,
                    ItemState::Completed,
                    approval_item(fold.request, Some(decision_of(decision, place.timestamp))),
                )
                &&& !is_first_appearance(step.line)
            },
            _ => {
                let step = line_step(state, place, index, ids, payload);
                &&& line_seq(step.line) == state.next_seq
                &&& step.state.next_seq == state.next_seq + 1
                &&& is_first_appearance(step.line)
            },
        },
{
    match payload {
        TurnItemView::ApprovalRequest(request) => {
            lemma_fold_kept(
                state.approvals,
                request.approval_id,
                ApprovalFoldView {
                    item_id: payload_id(place, index, ids),
                    seq: state.next_seq,
                    revision: 1,
                    request,
                },
                state.next_seq,
                (state.next_seq + 1) as u64,
            );
        },
        TurnItemView::ApprovalDecision(decision) => {
            lemma_first_match(state.approvals, approval_is(decision.approval_id));
            if let Some(fold) = fold_of(state.approvals, decision.approval_id) {
                lemma_fold_kept(
                    state.approvals,
                    decision.approval_id,
                    ApprovalFoldView { revision: (fold.revision + 1) as u32, ..fold },
                    state.next_seq,
                    state.next_seq,
                );
            }
        },
        _ => {},
    }
}

/// Sequence numbers only grow: in the lines of a record, those that are no
/// revisions are numbered in order, from the next number on, and the numbers that
/// follow are larger.
pub proof fn law_sequence_numbers_grow(
    state: ProjectorView,
    place: ItemPlace,
    payloads: Seq<TurnItemView>,
    fresh: Seq<FreshIds>,
)
    requires
        is_consistent(state),
        has_room(state, payloads.len() as int),
    ensures
        is_consistent(item_lines(state, place, payloads, fresh).state),
        item_lines(state, place, payloads, fresh).lines.len() == payloads.len(),
        state.next_seq <= item_lines(state, place, payloads, fresh).state.next_seq,
        ({
            let step = item_lines(state, place, payloads, fresh);
            &&& forall|i: int|
                0 <= i < step.lines.len() && is_first_appearance(#[trigger] step.lines[i])
                    ==> state.next_seq <= line_seq(step.lines[i]) < step.state.next_seq
            &&& forall|i: int, j: int|
                0 <= i < j < step.lines.len() && is_first_appearance(#[trigger] step.lines[i])
                    && is_first_appearance(#[trigger] step.lines[j]) ==> line_seq(step.lines[i])
                    < line_seq(step.lines[j])
        }),
{
    lemma_lines(state, place, payloads, fresh, payloads.len() as int);
}

proof fn lemma_lines(
    state: ProjectorView,
    place: ItemPlace,
    payloads: Seq<TurnItemView>,
    fresh: Seq<FreshIds>,
    room: int,
)
    requires
        is_consistent(state),
        payloads.len() <= room,
        has_room(state, room),
    ensures
        is_consistent(item_lines(state, place, payloads, fresh).state),
        has_room(item_lines(state, place, payloads, fresh).state, room - payloads.len()),
        item_lines(state, place, payloads, fresh).lines.len() == payloads.len(),
        state.next_seq <= item_lines(state, place, payloads, fresh).state.next_seq,
        ({
            let step = item_lines(state, place, payloads, fresh);
            &&& forall|i: int|
                0 <= i < step.lines.len() && is_first_appearance(#[trigger] step.lines[i])
                    ==> state.next_seq <= line_seq(step.lines[i]) < step.state.next_seq
            &&& forall|i: int, j: int|
                0 <= i < j < step.lines.len() && is_first_appearance(#[trigger] step.lines[i])
                    && is_first_appearance(#[trigger] step.lines[j]) ==> line_seq(step.lines[i])
                    < line_seq(step.lines[j])
        }),
    decreases payloads.len(),
{
    if payloads.len() > 0 {
        let last = payloads.len() - 1;
        lemma_lines(state, place, payloads.drop_last(), fresh, room);
        let front = item_lines(state, place, payloads.drop_last(), fresh);
        lemma_payload_keeps_room(
            front.state,
            place,
            last,
            fresh[last],
            payloads.last(),
            room - last,
        );
        law_payload_takes_its_place(front.state, place, last, fresh[last], payloads.last());
        let step = item_lines(state, place, payloads, fresh);
        assert(step.lines.drop_last() =~= front.lines);
        assert forall|i: int| 0 <= i < step.lines.len() - 1 implies #[trigger] step.lines[i]
            == front.lines[i] by {}
    }
}

/// Every settings line gets the next epoch, and the epochs after it are larger; no
/// other line changes the epoch.
pub proof fn law_settings_epochs_grow(
    state: ProjectorView,
    line: RolloutLine,
    fresh: Seq<FreshIds>,
)
    ensures
        match line {
            RolloutLine::SessionSettings { timestamp, session_id, field, value } => {
                let step = project_step(state, line, fresh);
                &&& step.result matches Ok(lines) ==> lines.len() == 1 && (
                lines[0] matches RolloutLineV2View::Internal { entry, .. } && (
                entry matches InternalRecordV2View::SessionSettings { epoch, .. } && epoch
                    == state.next_settings_epoch))
                &&& state.next_settings_epoch < u64::MAX ==> step.state.next_settings_epoch
                    == state.next_settings_epoch + 1
            },
            _ => project_step(state, line, fresh).state.next_settings_epoch
                == state.next_settings_epoch,
        },
{
    if let RolloutLine::Item { timestamp, item } = line {
        if legacy_id(item.session_id@) is Ok && legacy_id(item.turn_id@) is Ok && legacy_id(
            item.id@,
        ) is Ok {
            lemma_items_keep_settings(
                state,
                ItemPlace {
                    line_timestamp: timestamp,
                    timestamp: item.timestamp,
                    session_id: legacy_id(item.session_id@)->Ok_0,
                    turn_id: legacy_id(item.turn_id@)->Ok_0,
                    item_id: legacy_id(item.id@)->Ok_0,
                },
                payloads_of(*item),
                fresh,
            );
        }
    }
}

proof fn lemma_items_keep_settings(
    state: ProjectorView,
    place: ItemPlace,
    payloads: Seq<TurnItemView>,
    fresh: Seq<FreshIds>,
)
    ensures
        item_lines(state, place, payloads, fresh).state.next_settings_epoch
            == state.next_settings_epoch,
        item_lines(state, place, payloads, fresh).state.session_cwd == state.session_cwd,
    decreases payloads.len(),
{
    if payloads.len() > 0 {
        lemma_items_keep_settings(state, place, payloads.drop_last(), fresh);
    }
}

/// A refused line gives no lines; the sequence numbers and the approvals stay as
/// they were.
pub proof fn law_refused_line_changes_no_items(
    state: ProjectorView,
    line: RolloutLine,
    fresh: Seq<FreshIds>,
)
    requires
        project_step(state, line, fresh).result is Err,
    ensures
        project_step(state, line, fresh).state.next_seq == state.next_seq,
        project_step(state, line, fresh).state.approvals == state.approvals,
{
}

/// A converted session holds together: it is idle, so it has no turn.
pub proof fn law_converted_session_is_consistent(record: SessionRecord)
    ensures
        canonical_session(record) matches Ok(session) ==> session.is_consistent(),
{
}

/// The request that was made of an approval item is the one that the item was made
/// of, unless the request named more than one target.
pub proof fn law_request_reads_back(
    request: ApprovalRequestItemView,
    decision: Option<ApprovalDecisionView>,
)
    requires
        names_one_target(request),
    ensures
        approval_item(request, decision) matches ItemView::Approval {
            approval_id,
            target_item_id,
            action_summary,
            justification,
            resource,
            available_scopes,
            command_pattern,
            command_prefix,
            target,
            decision: _,
        } && request == request_from_parts(
            approval_id,
            action_summary,
            justification,
            resource,
            available_scopes,
            command_pattern,
            command_prefix,
            target,
        ),
{
}

/// An item that is made of a request that was made of parts shows those parts; the
/// request names its target in one way at most.
pub proof fn law_parts_show_in_item(
    approval_id: Seq<char>,
    action_summary: Seq<char>,
    justification: Seq<char>,
    resource: Option<Seq<char>>,
    available_scopes: Seq<Seq<char>>,
    command_pattern: Option<Seq<Seq<char>>>,
    command_prefix: Option<Seq<Seq<char>>>,
    target: Option<ApprovalTargetView>,
    decision: Option<ApprovalDecisionView>,
)
    ensures
        ({
            let request = request_from_parts(
                approval_id,
                action_summary,
                justification,
                resource,
                available_scopes,
                command_pattern,
                command_prefix,
                target,
            );
            &&& names_one_target(request)
            &&& approval_item(request, decision) == ItemView::Approval {
                approval_id,
                target_item_id: None,
                action_summary,
                justification,
                resource,
                available_scopes,
                command_pattern,
                command_prefix,
                target,
                decision,
            }
        }),
{
}

/// Whether a request names at most one target.
pub open spec fn names_one_target(request: ApprovalRequestItemView) -> bool {
    &&& request.path is Some ==> request.host is None && request.target is None
    &&& request.host is Some ==> request.target is None
}

/// The projector once lines that are already in the present form are known.
pub open spec fn observe_all(state: ProjectorView, lines: Seq<RolloutLineV2View>) -> ProjectorView
    decreases lines.len(),
{
    if lines.len() == 0 {
        state
    } else {
        observe_step(observe_all(state, lines.drop_last()), lines.last())
    }
}

/// Whether every request among payloads names at most one target.
pub open spec fn requests_name_one_target(payloads: Seq<TurnItemView>) -> bool {
    forall|i: int|
        0 <= i < payloads.len() ==> (#[trigger] payloads[i] matches TurnItemView::ApprovalRequest(
            request,
        ) ==> names_one_target(request))
}

proof fn lemma_observing_a_line(
    state: ProjectorView,
    place: ItemPlace,
    index: int,
    ids: FreshIds,
    payload: TurnItemView,
)
    requires
        is_consistent(state),
        has_room(state, 1),
        payload matches TurnItemView::ApprovalRequest(request) ==> names_one_target(request),
    ensures
        observe_step(state, line_step(state, place, index, ids, payload).line) == line_step(
            state,
            place,
            index,
            ids,
            payload,
        ).state,
{
    law_payload_takes_its_place(state, place, index, ids, payload);
    match payload {
        TurnItemView::ApprovalRequest(request) => {
            law_request_reads_back(request, None);
        },
        TurnItemView::ApprovalDecision(decision) => {
            lemma_first_match(state.approvals, approval_is(decision.approval_id));
        },
        _ => {},
    }
}

proof fn lemma_observing_lines(
    state: ProjectorView,
    place: ItemPlace,
    payloads: Seq<TurnItemView>,
    fresh: Seq<FreshIds>,
    room: int,
)
    requires
        is_consistent(state),
        payloads.len() <= room,
        has_room(state, room),
        requests_name_one_target(payloads),
    ensures
        observe_all(state, item_lines(state, place, payloads, fresh).lines) == item_lines(
            state,
            place,
            payloads,
            fresh,
        ).state,
    decreases payloads.len(),
{
    if payloads.len() > 0 {
        let last = payloads.len() - 1;
        assert forall|i: int|
            0 <= i < payloads.drop_last().len() implies (#[trigger] payloads.drop_last()[i] matches
            TurnItemView::ApprovalRequest(request) ==> names_one_target(request)) by {
            assert(payloads.drop_last()[i] == payloads[i]);
        }
        lemma_observing_lines(state, place, payloads.drop_last(), fresh, room);
        lemma_lines(state, place, payloads.drop_last(), fresh, room);
        let front = item_lines(state, place, payloads.drop_last(), fresh);
        assert(payloads.last() == payloads[last]);
        lemma_observing_a_line(front.state, place, last, fresh[last], payloads.last());
        let lines = item_lines(state, place, payloads, fresh).lines;
        assert(lines.drop_last() =~= front.lines);
    }
}

/// Whoever reads back the lines that a line became stands where the writer stood
/// after writing them, so that what is written next continues what is recorded.
/// Approvals that name more than one target are read back with the first alone.
pub proof fn law_reading_back_continues_the_record(
    state: ProjectorView,
    line: RolloutLine,
    fresh: Seq<FreshIds>,
)
    requires
        is_consistent(state),
        can_project_line(state, line),
        state.next_settings_epoch < u64::MAX,
        line matches RolloutLine::Item { item, .. } ==> requests_name_one_target(
            payloads_of(*item),
        ),
    ensures
        project_step(state, line, fresh).result matches Ok(lines) ==> observe_all(state, lines)
            == project_step(state, line, fresh).state,
{
    let step = project_step(state, line, fresh);
    if let Ok(lines) = step.result {
        if let RolloutLine::Item { timestamp, item } = line {
            lemma_observing_lines(
                state,
                ItemPlace {
                    line_timestamp: timestamp,
                    timestamp: item.timestamp,
                    session_id: legacy_id(item.session_id@)->Ok_0,
                    turn_id: legacy_id(item.turn_id@)->Ok_0,
                    item_id: legacy_id(item.id@)->Ok_0,
                },
                payloads_of(*item),
                fresh,
                payload_count(line) as int,
            );
        } else {
            assert(lines.len() == 1);
            assert(lines.drop_last() =~= Seq::<RolloutLineV2View>::empty());
            assert(observe_all(state, lines.drop_last()) == state);
        }
    }
}

/// After a recorded line is known, the numbers given out next are larger than its
/// own, and a consistent projector stays consistent.
pub proof fn law_observing_reserves_numbers(state: ProjectorView, line: RolloutLineV2View)
    requires
        is_consistent(state),
        can_observe(line),
        line matches RolloutLineV2View::Item { item, .. } ==> item.revision >= 1,
    ensures
        is_consistent(observe_step(state, line)),
        line_seq(line) < observe_step(state, line).next_seq,
        state.next_seq <= observe_step(state, line).next_seq,
        line matches RolloutLineV2View::Internal { entry, .. } ==> (
        entry matches InternalRecordV2View::SessionSettings { epoch, .. } ==> epoch < observe_step(
            state,
            line,
        ).next_settings_epoch),
{
    if let RolloutLineV2View::Item { item, .. } = line {
        if let ItemView::Approval {
            approval_id,
            target_item_id,
            action_summary,
            justification,
            resource,
            available_scopes,
            command_pattern,
            command_prefix,
            target,
            decision,
        } = item.item {
            let after = at_least(state.next_seq, item.seq + 1);
            lemma_first_match(state.approvals, approval_is(approval_id));
            if decision is None {
                lemma_fold_kept(
                    state.approvals,
                    approval_id,
                    ApprovalFoldView {
                        item_id: item.id,
                        seq: item.seq,
                        revision: item.revision,
                        request: request_from_parts(
                            approval_id,
                            action_summary,
                            justification,
                            resource,
                            available_scopes,
                            command_pattern,
                            command_prefix,
                            target,
                        ),
                    },
                    state.next_seq,
                    after,
                );
            } else if let Some(fold) = fold_of(state.approvals, approval_id) {
                lemma_fold_kept(
                    state.approvals,
                    approval_id,
                    ApprovalFoldView {
                        revision: if fold.revision < item.revision {
                            item.revision
                        } else {
                            fold.revision
                        },
                        ..fold
                    },
                    state.next_seq,
                    after,
                );
            }
        }
    }
}

} // verus!
