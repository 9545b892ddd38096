//! Remembering: what a write admits, what it leaves in the store, and what a
//! revocation keeps out.

use vstd::prelude::*;

use crate::command_types::{
    MemoryInferredRememberRequest, MemoryRememberRequest, MemoryRememberRequestView,
    MemorySourceContext, MemorySourceContextView, WorkspaceRoot, WorkspaceRootView,
};
use crate::equivalence::{explicit_memory_key, memory_key};
use crate::ids::{fresh_uuid, is_new_id, is_simple_uuid, uuid_text, MemoryEntryId};
use crate::memory_error::{MemoryError, MemoryErrorView};
use crate::projection::{projection_of, render_projection};
use crate::rows::{first_match, first_row, lemma_filter_take, lemma_first_match};
use crate::rpc_memory::{
    MemoryEntry, MemoryEntryView, MemoryKind, MemoryOrigin, MemoryScope, MemoryState,
};
use crate::store::{
    entry_is, find_entry, find_identity, find_revocation, has_entry, has_evidence, identity_is,
    load_entry, load_scope_entries, optional_result, revocation_is, same_identity, same_revoked,
    scope_entries, stored_entry,
};
use crate::stored_values::{
    kind_name, kind_text, origin_name, origin_of, origin_text, parse_origin, parse_timestamp,
    plain_result, scope_name, scope_text, state_name, state_text, timestamp_of,
};
use crate::tables::{
    EntryRow, EntryRowView, EvidenceRow, EvidenceRowView, IndexRow, IndexRowView, MemoryTables,
    MemoryTablesView, RevocationRow, RevocationRowView,
};
use crate::text::{
    alphanumeric, ascii_lower, chars_of, collapse_whitespace, collapsed, contains_part, has_part,
    has_prefix, less, same_optional_text, same_text, starts_with, text_less, text_of,
    to_ascii_lower, views, whitespace,
};
use crate::time::{now, Timestamp};

verus! {

// ---------------------------------------------------------------------------
// What a text becomes.
// ---------------------------------------------------------------------------
/// The body that a text is remembered as, unless the text is blank.
pub open spec fn body_of(text: Seq<char>) -> Result<Seq<char>, MemoryErrorView> {
    if collapsed(text).len() == 0 {
        Err(MemoryErrorView::InvalidRequest("memory text must not be empty"@))
    } else {
        Ok(collapsed(text))
    }
}

pub fn normalize_body(text: &str) -> (result: Result<String, MemoryError>)
    ensures
        match result {
            Ok(body) => body_of(text@) == Ok::<Seq<char>, MemoryErrorView>(body@),
            Err(error) => body_of(text@) == Err::<Seq<char>, MemoryErrorView>(error@),
        },
{
    let chars = chars_of(text);
    let body = collapse_whitespace(&chars);
    if body.len() == 0 {
        return Err(MemoryError::InvalidRequest("memory text must not be empty".to_string()));
    }
    Ok(text_of(&body))
}

/// Accepts the characters that count in a loose key.
pub open spec fn counts_in_key() -> spec_fn(char) -> bool {
    |c: char| alphanumeric(c) || whitespace(c)
}

/// The loose identity key of a body: its letters and digits in words, in lower
/// case where they are ASCII.
pub open spec fn loose_key(body: Seq<char>) -> Seq<char> {
    ascii_lower(collapsed(body.filter(counts_in_key())))
}

pub fn normalize_key(body: &str) -> (result: String)
    ensures
        result@ == loose_key(body@),
{
    let chars = chars_of(body);
    let ghost accepts = counts_in_key();
    let mut kept: Vec<char> = Vec::new();
    let mut i: usize = 0;
    assert(chars@.take(0).filter(accepts) =~= Seq::<char>::empty()) by {
        reveal(Seq::filter);
    }
    while i < chars.len()
        invariant
            i <= chars.len(),
            accepts == counts_in_key(),
            kept@ == chars@.take(i as int).filter(accepts),
        decreases chars.len() - i,
    {
        proof {
            lemma_filter_take(chars@, i as int, accepts);
        }
        if chars[i].is_alphanumeric() || chars[i].is_whitespace() {
            kept.push(chars[i]);
        }
        i = i + 1;
    }
    assert(chars@.take(chars.len() as int) =~= chars@);
    let words = collapse_whitespace(&kept);
    let lower = to_ascii_lower(&words);
    text_of(&lower)
}

/// The kind that a body suggests by how it begins.
pub open spec fn suggested_kind(body: Seq<char>) -> MemoryKind {
    let lower = ascii_lower(body);
    if has_prefix(lower, "i prefer "@) || has_prefix(lower, "i like "@) {
        MemoryKind::Preference
    } else if has_prefix(lower, "feedback:"@) {
        MemoryKind::Feedback
    } else if has_prefix(lower, "http://"@) || has_prefix(lower, "https://"@) {
        MemoryKind::Reference
    } else {
        MemoryKind::Fact
    }
}

pub fn classify_kind(body: &str) -> (result: MemoryKind)
    ensures
        result == suggested_kind(body@),
{
    let chars = chars_of(body);
    let lower = to_ascii_lower(&chars);
    if starts_with(&lower, "i prefer ") || starts_with(&lower, "i like ") {
        MemoryKind::Preference
    } else if starts_with(&lower, "feedback:") {
        MemoryKind::Feedback
    } else if starts_with(&lower, "http://") || starts_with(&lower, "https://") {
        MemoryKind::Reference
    } else {
        MemoryKind::Fact
    }
}

/// Whether a body holds a mark by which secrets are known, in any ASCII case.
pub open spec fn has_secret_marker(body: Seq<char>) -> bool {
    let lower = ascii_lower(body);
    ||| has_part(lower, "sk-"@)
    ||| has_part(lower, "ghp_"@)
    ||| has_part(lower, "github_pat_"@)
    ||| has_part(lower, "xoxb-"@)
    ||| has_part(lower, "xoxp-"@)
    ||| has_part(lower, "bearer "@)
    ||| has_part(lower, "api_key="@)
    ||| has_part(lower, "apikey="@)
    ||| has_part(lower, "aws_secret_access_key"@)
    ||| has_part(lower, "-----begin "@)
}

fn holds_part(chars: &Vec<char>, part: &str) -> (result: bool)
    ensures
        result == has_part(chars@, part@),
{
    let part = chars_of(part);
    contains_part(chars, &part)
}

/// Tests whether a body may hold a secret: by the marks that secrets carry, or
/// because a detector found one in it.
pub fn contains_secret(body: &str, detected: bool) -> (result: bool)
    ensures
        result == (has_secret_marker(body@) || detected),
{
    let chars = chars_of(body);
    let lower = to_ascii_lower(&chars);
    holds_part(&lower, "sk-") || holds_part(&lower, "ghp_") || holds_part(&lower, "github_pat_")
        || holds_part(&lower, "xoxb-") || holds_part(&lower, "xoxp-") || holds_part(
        &lower,
        "bearer ",
    ) || holds_part(&lower, "api_key=") || holds_part(&lower, "apikey=") || holds_part(
        &lower,
        "aws_secret_access_key",
    ) || holds_part(&lower, "-----begin ") || detected
}

/// The ID of the scope that a request speaks of.
pub open spec fn scope_id_of(scope: MemoryScope, root: WorkspaceRootView) -> Result<
    Seq<char>,
    MemoryErrorView,
> {
    match scope {
        MemoryScope::User => Ok("user"@),
        MemoryScope::Project => match root.project_scope {
            Ok(scope_id) => Ok(scope_id),
            Err(message) => Err(MemoryErrorView::ProjectIdentity(message)),
        },
    }
}

pub fn scope_id(scope: MemoryScope, root: &WorkspaceRoot) -> (result: Result<String, MemoryError>)
    ensures
        match result {
            Ok(id) => scope_id_of(scope, root@) == Ok::<Seq<char>, MemoryErrorView>(id@),
            Err(error) => scope_id_of(scope, root@) == Err::<Seq<char>, MemoryErrorView>(error@),
        },
{
    match scope {
        MemoryScope::User => Ok("user".to_string()),
        MemoryScope::Project => match &root.project_scope {
            Ok(scope_id) => Ok(scope_id.clone()),
            Err(message) => Err(MemoryError::ProjectIdentity(message.clone())),
        },
    }
}

// ---------------------------------------------------------------------------
// Identities.
// ---------------------------------------------------------------------------
/// The keys under which a body is known.
#[derive(Debug, PartialEq, Eq)]
pub struct MemoryEntryIdentity {
    /// The key that the body has.
    pub canonical_key: String,
    /// The key that an inferred entry with this body had in older stores.
    pub legacy_inferred_key: String,
}

impl MemoryEntryIdentity {
    pub fn from_body(body: &str) -> (result: Self)
        ensures
            result.canonical_key@ == memory_key(body@),
            result.legacy_inferred_key@ == loose_key(body@),
    {
        MemoryEntryIdentity {
            canonical_key: explicit_memory_key(body),
            legacy_inferred_key: normalize_key(body),
        }
    }
}

// ---------------------------------------------------------------------------
// Admission.
// ---------------------------------------------------------------------------
/// What a write carries once it is admitted.
#[derive(Debug, PartialEq, Eq)]
pub struct AdmittedWrite {
    pub body: String,
    pub kind: MemoryKind,
    pub normalized_key: String,
    pub scope_id: String,
}

/// The view of [`AdmittedWrite`].
#[verifier::ext_equal]
pub struct AdmittedWriteView {
    pub body: Seq<char>,
    pub kind: MemoryKind,
    pub normalized_key: Seq<char>,
    pub scope_id: Seq<char>,
}

impl View for AdmittedWrite {
    type V = AdmittedWriteView;

    open spec fn view(&self) -> AdmittedWriteView {
        AdmittedWriteView {
            body: self.body@,
            kind: self.kind,
            normalized_key: self.normalized_key@,
            scope_id: self.scope_id@,
        }
    }
}

/// What a request is admitted as: its text must not be blank, must not hold a
/// secret, and its scope must be resolved.
pub open spec fn admission(request: MemoryRememberRequestView, detected: bool) -> Result<
    AdmittedWriteView,
    MemoryErrorView,
> {
    match body_of(request.text) {
        Err(error) => Err(error),
        Ok(body) => if has_secret_marker(body) || detected {
            Err(MemoryErrorView::SecretContentRejected)
        } else {
            match scope_id_of(request.scope, request.source.workspace_root) {
                Err(error) => Err(error),
                Ok(scope_id) => Ok(
                    AdmittedWriteView {
                        body,
                        kind: match request.kind {
                            Some(kind) => kind,
                            None => suggested_kind(body),
                        },
                        normalized_key: loose_key(body),
                        scope_id,
                    },
                ),
            }
        },
    }
}

/// Admits a request, given whether a detector found a secret in its text.
pub fn admit_write(request: &MemoryRememberRequest, detected: bool) -> (result: Result<
    AdmittedWrite,
    MemoryError,
>)
    ensures
        match result {
            Ok(write) => admission(request@, detected) == Ok::<AdmittedWriteView, MemoryErrorView>(
                write@,
            ),
            Err(error) => admission(request@, detected) == Err::<
                AdmittedWriteView,
                MemoryErrorView,
            >(error@),
        },
{
    let body = match normalize_body(request.text.as_str()) {
        Ok(body) => body,
        Err(error) => return Err(error),
    };
    if contains_secret(body.as_str(), detected) {
        return Err(MemoryError::SecretContentRejected);
    }
    let kind = match request.kind {
        Some(kind) => kind,
        None => classify_kind(body.as_str()),
    };
    let normalized_key = normalize_key(body.as_str());
    let scope_id = match scope_id(request.scope, &request.source.workspace_root) {
        Ok(scope_id) => scope_id,
        Err(error) => return Err(error),
    };
    Ok(AdmittedWrite { body, kind, normalized_key, scope_id })
}

// ---------------------------------------------------------------------------
// Revocations.
// ---------------------------------------------------------------------------
/// When an identity was revoked, and when it was restored if it was.
pub struct RevocationTimes {
    pub revoked_at: Timestamp,
    pub restored_at: Option<Timestamp>,
}

impl RevocationTimes {
    /// Whether the revocation still stands: nothing restored it since.
    pub open spec fn stands(self) -> bool {
        match self.restored_at {
            Some(restored_at) => restored_at.earlier(self.revoked_at),
            None => true,
        }
    }

    fn is_standing(&self) -> (result: bool)
        ensures
            result == self.stands(),
    {
        match self.restored_at {
            Some(restored_at) => restored_at.is_before(&self.revoked_at),
            None => true,
        }
    }
}

/// The times of a revocation, as its row has them.
pub open spec fn times_of(row: RevocationRowView) -> Result<RevocationTimes, MemoryErrorView> {
    match timestamp_of(row.revoked_at) {
        Err(error) => Err(error),
        Ok(revoked_at) => match row.restored_at {
            None => Ok(RevocationTimes { revoked_at, restored_at: None }),
            Some(text) => match timestamp_of(text) {
                Err(error) => Err(error),
                Ok(restored_at) => Ok(
                    RevocationTimes { revoked_at, restored_at: Some(restored_at) },
                ),
            },
        },
    }
}

/// The revocation of an identity, if it was ever revoked.
pub open spec fn revocation_of(
    tables: MemoryTablesView,
    scope: MemoryScope,
    scope_id: Seq<char>,
    key: Seq<char>,
) -> Result<Option<RevocationTimes>, MemoryErrorView> {
    match first_row(tables.revocations, revocation_is(scope_text(scope), scope_id, key)) {
        None => Ok(None),
        Some(row) => match times_of(row) {
            Err(error) => Err(error),
            Ok(times) => Ok(Some(times)),
        },
    }
}

fn load_revocation(
    revocations: &Vec<RevocationRow>,
    scope: MemoryScope,
    scope_id: &str,
    key: &str,
    Ghost(tables): Ghost<MemoryTablesView>,
) -> (result: Result<Option<RevocationTimes>, MemoryError>)
    requires
        tables.revocations == views(revocations@),
    ensures
        plain_result(result) == revocation_of(tables, scope, scope_id@, key@),
{
    match find_revocation(revocations, scope_name(scope), scope_id, key) {
        None => Ok(None),
        Some(i) => {
            assert(views(revocations@)[i as int] == revocations@[i as int]@);
            let revoked_at = match parse_timestamp(revocations[i].revoked_at.as_str()) {
                Ok(revoked_at) => revoked_at,
                Err(error) => return Err(error),
            };
            match &revocations[i].restored_at {
                None => Ok(Some(RevocationTimes { revoked_at, restored_at: None })),
                Some(text) => match parse_timestamp(text.as_str()) {
                    Ok(restored_at) => Ok(
                        Some(RevocationTimes { revoked_at, restored_at: Some(restored_at) }),
                    ),
                    Err(error) => Err(error),
                },
            }
        },
    }
}

// ---------------------------------------------------------------------------
// Decision.
// ---------------------------------------------------------------------------
/// How a write came about.
#[derive(Debug, PartialEq, Eq)]
pub enum MemoryWriteMode {
    /// The user asked for it.
    Explicit,
    /// It was inferred from what a session held at some instant.
    Inferred { source_observed_at: Timestamp, source_watermark: String },
}

/// The view of [`MemoryWriteMode`].
pub enum MemoryWriteModeView {
    Explicit,
    Inferred { source_observed_at: Timestamp, source_watermark: Seq<char> },
}

impl View for MemoryWriteMode {
    type V = MemoryWriteModeView;

    open spec fn view(&self) -> MemoryWriteModeView {
        match self {
            MemoryWriteMode::Explicit => MemoryWriteModeView::Explicit,
            MemoryWriteMode::Inferred { source_observed_at, source_watermark } => {
                MemoryWriteModeView::Inferred {
                    source_observed_at: *source_observed_at,
                    source_watermark: source_watermark@,
                }
            },
        }
    }
}

/// What the store holds of an identity, and what a write does with it.
pub struct WriteDecision {
    /// Position of the entry that has the identity.
    pub existing: Option<int>,
    /// Whether the entry was ever revoked.
    pub revoked_before: bool,
    /// Whether the entry keeps its content, because the user put it there and
    /// the write is only inferred.
    pub preserve: bool,
    /// Whether the write is kept out by a revocation.
    pub skip: bool,
}

/// Decides on a write: an inferred observation is kept out by a revocation that
/// stands, and by any revocation that is not older than the observation.
pub open spec fn decision(
    tables: MemoryTablesView,
    scope: MemoryScope,
    write: AdmittedWriteView,
    mode: MemoryWriteModeView,
) -> Result<WriteDecision, MemoryErrorView> {
    let existing = first_match(
        tables.entries,
        identity_is(scope_text(scope), write.scope_id, write.normalized_key),
    );
    let origin = match existing {
        None => Ok(None),
        Some(i) => match origin_of(tables.entries[i].origin) {
            Ok(origin) => Ok(Some(origin)),
            Err(error) => Err(error),
        },
    };
    match origin {
        Err(error) => Err(error),
        Ok(origin) => match revocation_of(tables, scope, write.scope_id, write.normalized_key) {
            Err(error) => Err(error),
            Ok(revocation) => Ok(
                WriteDecision {
                    existing,
                    revoked_before: revocation is Some,
                    preserve: mode is Inferred && origin == Some(MemoryOrigin::ExplicitUser),
                    skip: match (mode, revocation) {
                        (
                            MemoryWriteModeView::Inferred { source_observed_at, .. },
                            Some(times),
                        ) => {
                            !times.revoked_at.earlier(source_observed_at) || times.stands()
                        },
                        _ => false,
                    },
                },
            ),
        },
    }
}

/// The executable form of [`WriteDecision`].
struct Decided {
    existing: Option<usize>,
    revoked_before: bool,
    preserve: bool,
    skip: bool,
}

impl Decided {
    spec fn stands_for(self, decision: WriteDecision) -> bool {
        &&& self.existing is Some <==> decision.existing is Some
        &&& self.existing matches Some(i) ==> decision.existing == Some(i as int)
        &&& self.revoked_before == decision.revoked_before
        &&& self.preserve == decision.preserve
        &&& self.skip == decision.skip
    }
}

fn decide(
    tables: &MemoryTables,
    scope: MemoryScope,
    write: &AdmittedWrite,
    mode: &MemoryWriteMode,
) -> (result: Result<Decided, MemoryError>)
    ensures
        match result {
            Ok(decided) => {
                &&& decision(tables@, scope, write@, mode@) matches Ok(decision)
                &&& decided.stands_for(decision)
                &&& decided.existing matches Some(i) ==> i < tables.entries.len()
            },
            Err(error) => decision(tables@, scope, write@, mode@) == Err::<
                WriteDecision,
                MemoryErrorView,
            >(error@),
        },
{
    let existing = find_identity(
        &tables.entries,
        scope_name(scope),
        write.scope_id.as_str(),
        write.normalized_key.as_str(),
    );
    let origin = match existing {
        None => None,
        Some(i) => {
            assert(views(tables.entries@)[i as int] == tables.entries@[i as int]@);
            match parse_origin(tables.entries[i].origin.as_str()) {
                Ok(origin) => Some(origin),
                Err(error) => return Err(error),
            }
        },
    };
    let revocation = match load_revocation(
        &tables.revocations,
        scope,
        write.scope_id.as_str(),
        write.normalized_key.as_str(),
        Ghost(tables@),
    ) {
        Ok(revocation) => revocation,
        Err(error) => return Err(error),
    };
    let inferred = match mode {
        MemoryWriteMode::Explicit => false,
        MemoryWriteMode::Inferred { .. } => true,
    };
    let by_user = match origin {
        Some(MemoryOrigin::ExplicitUser) => true,
        _ => false,
    };
    let skip = match (mode, &revocation) {
        (MemoryWriteMode::Inferred { source_observed_at, .. }, Some(times)) => {
            !times.revoked_at.is_before(source_observed_at) || times.is_standing()
        },
        _ => false,
    };
    Ok(
        Decided {
            existing,
            revoked_before: revocation.is_some(),
            preserve: inferred && by_user,
            skip,
        },
    )
}

// ---------------------------------------------------------------------------
// Effect.
// ---------------------------------------------------------------------------
/// The origin that a write gives an entry.
pub open spec fn origin_of_mode(mode: MemoryWriteModeView) -> MemoryOrigin {
    match mode {
        MemoryWriteModeView::Explicit => MemoryOrigin::ExplicitUser,
        MemoryWriteModeView::Inferred { .. } => MemoryOrigin::InferredSession,
    }
}

/// The state that a write leaves an entry in.
pub open spec fn state_after(revoked_before: bool) -> MemoryState {
    if revoked_before {
        MemoryState::Restored
    } else {
        MemoryState::Active
    }
}

/// When the source of a write was observed.
pub open spec fn observed_text(mode: MemoryWriteModeView, now: Seq<char>) -> Seq<char> {
    match mode {
        MemoryWriteModeView::Explicit => now,
        MemoryWriteModeView::Inferred { source_observed_at, .. } => source_observed_at.text(),
    }
}

/// Up to where the source of a write was read.
pub open spec fn watermark_text(mode: MemoryWriteModeView, now: Seq<char>) -> Seq<char> {
    match mode {
        MemoryWriteModeView::Explicit => now,
        MemoryWriteModeView::Inferred { source_watermark, .. } => source_watermark,
    }
}

/// The row of an entry that a write creates.
pub open spec fn created_row(
    scope: MemoryScope,
    write: AdmittedWriteView,
    mode: MemoryWriteModeView,
    revoked_before: bool,
    now: Seq<char>,
    entry_id: Seq<char>,
) -> EntryRowView {
    EntryRowView {
        entry_id,
        scope_type: scope_text(scope),
        scope_id: write.scope_id,
        kind: kind_text(write.kind),
        normalized_key: write.normalized_key,
        body: write.body,
        origin: origin_text(origin_of_mode(mode)),
        state: state_text(state_after(revoked_before)),
        created_at: now,
        updated_at: now,
        last_recalled_at: None,
        replacement_entry_id: None,
        expires_at: None,
    }
}

/// The row of an entry that a write finds, after the write.
pub open spec fn rewritten_row(
    row: EntryRowView,
    write: AdmittedWriteView,
    mode: MemoryWriteModeView,
    revoked_before: bool,
    preserve: bool,
    now: Seq<char>,
) -> EntryRowView {
    if preserve {
        EntryRowView { updated_at: now, ..row }
    } else {
        EntryRowView {
            kind: kind_text(write.kind),
            body: write.body,
            origin: origin_text(origin_of_mode(mode)),
            state: state_text(state_after(revoked_before)),
            updated_at: now,
            replacement_entry_id: None,
            ..row
        }
    }
}

/// Restores an identity at an instant, if its revocation still stands.
pub open spec fn restored_row(
    row: RevocationRowView,
    scope: Seq<char>,
    scope_id: Seq<char>,
    key: Seq<char>,
    now: Seq<char>,
) -> RevocationRowView {
    let standing = match row.restored_at {
        None => true,
        Some(restored_at) => text_less(restored_at, row.revoked_at),
    };
    if revocation_is(scope, scope_id, key)(row) && standing {
        RevocationRowView { restored_at: Some(now), ..row }
    } else {
        row
    }
}

/// The revocations once an identity is restored.
pub open spec fn restored_rows(
    rows: Seq<RevocationRowView>,
    scope: Seq<char>,
    scope_id: Seq<char>,
    key: Seq<char>,
    now: Seq<char>,
) -> Seq<RevocationRowView> {
    rows.map_values(|row: RevocationRowView| restored_row(row, scope, scope_id, key, now))
}

/// Accepts the index rows of all entries but one.
pub open spec fn index_row_of_other(entry_id: Seq<char>) -> spec_fn(IndexRowView) -> bool {
    |row: IndexRowView| row.entry_id != entry_id
}

/// Whether an entry has evidence from a source.
pub open spec fn is_witnessed(
    evidence: Seq<EvidenceRowView>,
    entry_id: Seq<char>,
    session_id: Seq<char>,
    turn_id: Option<Seq<char>>,
    user_item_id: Option<Seq<char>>,
) -> bool {
    exists|i: int|
        0 <= i < evidence.len() && #[trigger] is_witness(
            evidence[i],
            entry_id,
            session_id,
            turn_id,
            user_item_id,
        )
}

/// Whether a piece of evidence ties an entry to a source.
pub open spec fn is_witness(
    row: EvidenceRowView,
    entry_id: Seq<char>,
    session_id: Seq<char>,
    turn_id: Option<Seq<char>>,
    user_item_id: Option<Seq<char>>,
) -> bool {
    row.entry_id == entry_id && row.session_id == session_id && row.turn_id == turn_id
        && row.source_user_item_id == user_item_id
}

/// The text of an optional turn.
pub open spec fn turn_text(source: MemorySourceContextView) -> Option<Seq<char>> {
    match source.turn_id {
        Some(turn_id) => Some(uuid_text(turn_id.value)),
        None => None,
    }
}

/// The ID of the entry that a write is about.
pub open spec fn written_id(
    tables: MemoryTablesView,
    decision: WriteDecision,
    entry_id: Seq<char>,
) -> Seq<char> {
    match decision.existing {
        Some(i) => tables.entries[i].entry_id,
        None => entry_id,
    }
}

/// Whether the source of a write is already among an entry's evidence.
pub open spec fn already_witnessed(
    tables: MemoryTablesView,
    source: MemorySourceContextView,
    entry_id: Seq<char>,
) -> bool {
    is_witnessed(
        tables.evidence,
        entry_id,
        uuid_text(source.session_id.value),
        turn_text(source),
        source.user_item_id,
    )
}

/// The store after a write, or why the store refuses it: a new ID must not be in
/// use yet.
pub open spec fn written(
    tables: MemoryTablesView,
    scope: MemoryScope,
    write: AdmittedWriteView,
    mode: MemoryWriteModeView,
    source: MemorySourceContextView,
    decision: WriteDecision,
    now: Seq<char>,
    entry_id: Seq<char>,
    evidence_id: Seq<char>,
) -> Result<MemoryTablesView, MemoryErrorView> {
    let id = written_id(tables, decision, entry_id);
    if decision.existing is None && has_entry(tables.entries, entry_id) {
        Err(MemoryErrorView::Database("UNIQUE constraint failed: memory_entries.entry_id"@))
    } else if !already_witnessed(tables, source, id) && has_evidence(
        tables.evidence,
        evidence_id,
    ) {
        Err(MemoryErrorView::Database("UNIQUE constraint failed: memory_evidence.evidence_id"@))
    } else {
        Ok(
            MemoryTablesView {
                entries: match decision.existing {
                    Some(i) => tables.entries.update(
                        i,
                        rewritten_row(
                            tables.entries[i],
                            write,
                            mode,
                            decision.revoked_before,
                            decision.preserve,
                            now,
                        ),
                    ),
                    None => tables.entries.push(
                        created_row(scope, write, mode, decision.revoked_before, now, entry_id),
                    ),
                },
                revocations: if decision.existing is Some && mode is Explicit {
                    restored_rows(
                        tables.revocations,
                        scope_text(scope),
                        write.scope_id,
                        write.normalized_key,
                        now,
                    )
                } else {
                    tables.revocations
                },
                index: if decision.preserve {
                    tables.index
                } else {
                    tables.index.filter(index_row_of_other(id)).push(
                        IndexRowView {
                            entry_id: id,
                            normalized_key: write.normalized_key,
                            body: write.body,
                        },
                    )
                },
                evidence: if already_witnessed(tables, source, id) {
                    tables.evidence
                } else {
                    tables.evidence.push(
                        EvidenceRowView {
                            evidence_id,
                            entry_id: id,
                            session_id: uuid_text(source.session_id.value),
                            turn_id: turn_text(source),
                            source_user_item_id: source.user_item_id,
                            observed_at: observed_text(mode, now),
                            source_watermark: watermark_text(mode, now),
                        },
                    )
                },
                ..tables
            },
        )
    }
}

fn restore_rows(
    rows: &mut Vec<RevocationRow>,
    scope: &str,
    scope_id: &str,
    key: &str,
    now: &String,
)
    ensures
        views(final(rows)@) == restored_rows(views(old(rows)@), scope@, scope_id@, key@, now@),
{
    let ghost before = views(rows@);
    let mut i: usize = 0;
    while i < rows.len()
        invariant
            i <= rows.len(),
            rows.len() == before.len(),
            forall|j: int|
                0 <= j < i ==> (#[trigger] rows@[j])@ == restored_row(
                    before[j],
                    scope@,
                    scope_id@,
                    key@,
                    now@,
                ),
            forall|j: int| i <= j < rows.len() ==> (#[trigger] rows@[j])@ == before[j],
        decreases rows.len() - i,
    {
        let standing = match &rows[i].restored_at {
            None => true,
            Some(restored_at) => less(restored_at.as_str(), rows[i].revoked_at.as_str()),
        };
        assert(rows@[i as int]@ == before[i as int]);
        if standing && same_text(rows[i].scope_type.as_str(), scope) && same_text(
            rows[i].scope_id.as_str(),
            scope_id,
        ) && same_text(rows[i].normalized_key.as_str(), key) {
            let mut row = rows[i].clone();
            row.restored_at = Some(now.clone());
            rows.set(i, row);
        }
        i = i + 1;
    }
    assert(views(rows@) =~= restored_rows(before, scope@, scope_id@, key@, now@));
}

/// Drops an entry from the index.
pub fn drop_index_row(index: &mut Vec<IndexRow>, entry_id: &str)
    ensures
        views(final(index)@) == views(old(index)@).filter(index_row_of_other(entry_id@)),
{
    let ghost rows = views(index@);
    let ghost accepts = index_row_of_other(entry_id@);
    let mut kept: Vec<IndexRow> = Vec::new();
    let mut i: usize = 0;
    assert(rows.take(0).filter(accepts) =~= Seq::<IndexRowView>::empty()) by {
        reveal(Seq::filter);
    }
    assert(views(kept@) =~= Seq::<IndexRowView>::empty());
    while i < index.len()
        invariant
            i <= index.len(),
            rows == views(index@),
            accepts == index_row_of_other(entry_id@),
            views(kept@) == rows.take(i as int).filter(accepts),
        decreases index.len() - i,
    {
        assert(rows[i as int] == index@[i as int]@);
        proof {
            lemma_filter_take(rows, i as int, accepts);
        }
        if !same_text(index[i].entry_id.as_str(), entry_id) {
            let ghost before = views(kept@);
            kept.push(index[i].clone());
            assert(views(kept@) =~= before.push(rows[i as int]));
        }
        i = i + 1;
    }
    assert(rows.take(index.len() as int) =~= rows);
    *index = kept;
}

fn find_witness(evidence: &Vec<EvidenceRow>, row: &EvidenceRow) -> (result: bool)
    ensures
        result == is_witnessed(
            views(evidence@),
            row@.entry_id,
            row@.session_id,
            row@.turn_id,
            row@.source_user_item_id,
        ),
{
    let ghost rows = views(evidence@);
    let ghost source = row@;
    let mut i: usize = 0;
    while i < evidence.len()
        invariant
            i <= evidence.len(),
            rows == views(evidence@),
            source == row@,
            forall|j: int|
                0 <= j < i ==> !#[trigger] is_witness(
                    rows[j],
                    source.entry_id,
                    source.session_id,
                    source.turn_id,
                    source.source_user_item_id,
                ),
        decreases evidence.len() - i,
    {
        assert(rows[i as int] == evidence@[i as int]@);
        if same_text(evidence[i].entry_id.as_str(), row.entry_id.as_str()) && same_text(
            evidence[i].session_id.as_str(),
            row.session_id.as_str(),
        ) && same_optional_text(&evidence[i].turn_id, &row.turn_id) && same_optional_text(
            &evidence[i].source_user_item_id,
            &row.source_user_item_id,
        ) {
            assert(is_witness(
                rows[i as int],
                source.entry_id,
                source.session_id,
                source.turn_id,
                source.source_user_item_id,
            ));
            return true;
        }
        i = i + 1;
    }
    false
}

fn uses_evidence_id(evidence: &Vec<EvidenceRow>, evidence_id: &str) -> (result: bool)
    ensures
        result == has_evidence(views(evidence@), evidence_id@),
{
    let ghost rows = views(evidence@);
    let mut i: usize = 0;
    while i < evidence.len()
        invariant
            i <= evidence.len(),
            rows == views(evidence@),
            forall|j: int| 0 <= j < i ==> (#[trigger] rows[j]).evidence_id != evidence_id@,
        decreases evidence.len() - i,
    {
        assert(rows[i as int] == evidence@[i as int]@);
        if same_text(evidence[i].evidence_id.as_str(), evidence_id) {
            return true;
        }
        i = i + 1;
    }
    false
}

fn uses_entry_id(entries: &Vec<EntryRow>, entry_id: &str) -> (result: bool)
    ensures
        result == has_entry(views(entries@), entry_id@),
{
    proof {
        lemma_first_match(views(entries@), entry_is(entry_id@));
    }
    match find_entry(entries, entry_id) {
        Some(i) => {
            assert(views(entries@)[i as int].entry_id == entry_id@);
            true
        },
        None => false,
    }
}

fn mode_origin(mode: &MemoryWriteMode) -> (result: MemoryOrigin)
    ensures
        result == origin_of_mode(mode@),
{
    match mode {
        MemoryWriteMode::Explicit => MemoryOrigin::ExplicitUser,
        MemoryWriteMode::Inferred { .. } => MemoryOrigin::InferredSession,
    }
}

fn mode_observed(mode: &MemoryWriteMode, now: &String) -> (result: String)
    ensures
        result@ == observed_text(mode@, now@),
{
    match mode {
        MemoryWriteMode::Explicit => now.clone(),
        MemoryWriteMode::Inferred { source_observed_at, .. } => source_observed_at.to_rfc3339(),
    }
}

fn mode_watermark(mode: &MemoryWriteMode, now: &String) -> (result: String)
    ensures
        result@ == watermark_text(mode@, now@),
{
    match mode {
        MemoryWriteMode::Explicit => now.clone(),
        MemoryWriteMode::Inferred { source_watermark, .. } => source_watermark.clone(),
    }
}

/// Puts an admitted write into the store.
fn apply_write(
    tables: &mut MemoryTables,
    scope: MemoryScope,
    write: &AdmittedWrite,
    mode: &MemoryWriteMode,
    source: &MemorySourceContext,
    decided: &Decided,
    now: &String,
    new_entry_id: &MemoryEntryId,
    new_evidence_id: &String,
    Ghost(decision): Ghost<WriteDecision>,
) -> (result: Result<MemoryEntryId, MemoryError>)
    requires
        decided.stands_for(decision),
        decided.existing matches Some(i) ==> i < old(tables).entries.len(),
    ensures
        match (
            result,
            written(
                old(tables)@,
                scope,
                write@,
                mode@,
                source@,
                decision,
                now@,
                new_entry_id@,
                new_evidence_id@,
            ),
        ) {
            (Ok(id), Ok(tables_after)) => {
                &&& final(tables)@ == tables_after
                &&& id@ == written_id(old(tables)@, decision, new_entry_id@)
            },
            (Err(error), Err(refusal)) => final(tables)@ == old(tables)@ && error@ == refusal,
            _ => false,
        },
{
    let ghost before = tables@;
    let ghost id = written_id(before, decision, new_entry_id@);
    let written_entry_id = match decided.existing {
        Some(i) => {
            assert(views(tables.entries@)[i as int] == tables.entries@[i as int]@);
            MemoryEntryId::from_string(tables.entries[i].entry_id.clone())
        },
        None => new_entry_id.clone(),
    };
    let fresh = match decided.existing {
        Some(_) => false,
        None => true,
    };
    if fresh && uses_entry_id(&tables.entries, new_entry_id.as_str()) {
        return Err(
            MemoryError::Database(
                "UNIQUE constraint failed: memory_entries.entry_id".to_string(),
            ),
        );
    }
    let turn_id = match source.turn_id {
        Some(turn_id) => Some(turn_id.to_text()),
        None => None,
    };
    let user_item_id = match &source.user_item_id {
        Some(item_id) => Some(item_id.to_text()),
        None => None,
    };
    let evidence = EvidenceRow {
        evidence_id: new_evidence_id.clone(),
        entry_id: written_entry_id.to_text(),
        session_id: source.session_id.to_text(),
        turn_id,
        source_user_item_id: user_item_id,
        observed_at: mode_observed(mode, now),
        source_watermark: mode_watermark(mode, now),
    };
    let witnessed = find_witness(&tables.evidence, &evidence);
    if !witnessed && uses_evidence_id(&tables.evidence, new_evidence_id.as_str()) {
        return Err(
            MemoryError::Database(
                "UNIQUE constraint failed: memory_evidence.evidence_id".to_string(),
            ),
        );
    }
    let state = if decided.revoked_before {
        MemoryState::Restored
    } else {
        MemoryState::Active
    };
    let explicit = match mode {
        MemoryWriteMode::Explicit => true,
        MemoryWriteMode::Inferred { .. } => false,
    };
    match decided.existing {
        Some(i) => {
            let mut row = tables.entries[i].clone();
            row.updated_at = now.clone();
            if !decided.preserve {
                row.kind = kind_name(write.kind).to_string();
                row.body = write.body.clone();
                row.origin = origin_name(mode_origin(mode)).to_string();
                row.state = state_name(state).to_string();
                row.replacement_entry_id = None;
            }
            assert(row@ == rewritten_row(
                before.entries[i as int],
                write@,
                mode@,
                decision.revoked_before,
                decision.preserve,
                now@,
            ));
            tables.entries.set(i, row);
            assert(views(tables.entries@) =~= before.entries.update(i as int, row@));
            if explicit {
                restore_rows(
                    &mut tables.revocations,
                    scope_name(scope),
                    write.scope_id.as_str(),
                    write.normalized_key.as_str(),
                    now,
                );
            }
        },
        None => {
            let row = EntryRow {
                entry_id: new_entry_id.to_text(),
                scope_type: scope_name(scope).to_string(),
                scope_id: write.scope_id.clone(),
                kind: kind_name(write.kind).to_string(),
                normalized_key: write.normalized_key.clone(),
                body: write.body.clone(),
                origin: origin_name(mode_origin(mode)).to_string(),
                state: state_name(state).to_string(),
                created_at: now.clone(),
                updated_at: now.clone(),
                last_recalled_at: None,
                replacement_entry_id: None,
                expires_at: None,
            };
            let ghost added = row@;
            assert(added == created_row(
                scope,
                write@,
                mode@,
                decision.revoked_before,
                now@,
                new_entry_id@,
            ));
            tables.entries.push(row);
            assert(views(tables.entries@) =~= before.entries.push(added));
        },
    }
    if !decided.preserve {
        drop_index_row(&mut tables.index, written_entry_id.as_str());
        let row = IndexRow {
            entry_id: written_entry_id.to_text(),
            normalized_key: write.normalized_key.clone(),
            body: write.body.clone(),
        };
        let ghost kept = views(tables.index@);
        let ghost added = row@;
        tables.index.push(row);
        assert(views(tables.index@) =~= kept.push(added));
    }
    if !witnessed {
        let ghost added = evidence@;
        tables.evidence.push(evidence);
        assert(views(tables.evidence@) =~= before.evidence.push(added));
    }
    assert(Ok::<MemoryTablesView, MemoryErrorView>(tables@) == written(
        before,
        scope,
        write@,
        mode@,
        source@,
        decision,
        now@,
        new_entry_id@,
        new_evidence_id@,
    ));
    Ok(written_entry_id)
}

// ---------------------------------------------------------------------------
// Remembering.
// ---------------------------------------------------------------------------
/// The readable page of a scope, to be written out.
#[derive(Debug, PartialEq, Eq)]
pub struct MemoryProjection {
    pub scope: MemoryScope,
    pub scope_id: String,
    pub text: String,
}

/// The view of [`MemoryProjection`].
#[verifier::ext_equal]
pub struct MemoryProjectionView {
    pub scope: MemoryScope,
    pub scope_id: Seq<char>,
    pub text: Seq<char>,
}

impl View for MemoryProjection {
    type V = MemoryProjectionView;

    open spec fn view(&self) -> MemoryProjectionView {
        MemoryProjectionView {
            scope: self.scope,
            scope_id: self.scope_id@,
            text: self.text@,
        }
    }
}

impl Clone for MemoryProjection {
    fn clone(&self) -> (result: Self)
        ensures
            result@ == self@,
    {
        let result = MemoryProjection {
            scope: self.scope,
            scope_id: self.scope_id.clone(),
            text: self.text.clone(),
        };
        result
    }
}

/// An entry that was committed, and the page that now shows it.
#[derive(Debug, PartialEq, Eq)]
pub struct RememberedEntry {
    pub entry: MemoryEntry,
    pub projection: MemoryProjection,
}

/// The view of [`RememberedEntry`].
#[verifier::ext_equal]
pub struct RememberedEntryView {
    pub entry: MemoryEntryView,
    pub projection: MemoryProjectionView,
}

impl View for RememberedEntry {
    type V = RememberedEntryView;

    open spec fn view(&self) -> RememberedEntryView {
        RememberedEntryView {
            entry: self.entry@,
            projection: self.projection@,
        }
    }
}

impl Clone for RememberedEntry {
    fn clone(&self) -> (result: Self)
        ensures
            result@ == self@,
    {
        let result = RememberedEntry {
            entry: self.entry.clone(),
            projection: self.projection.clone(),
        };
        result
    }
}

/// The page of a scope as the store has it.
pub open spec fn projection_from(
    tables: MemoryTablesView,
    scope: MemoryScope,
    scope_id: Seq<char>,
) -> Result<MemoryProjectionView, MemoryErrorView> {
    match scope_entries(tables, scope, scope_id) {
        Err(error) => Err(error),
        Ok(entries) => Ok(
            MemoryProjectionView { scope, scope_id, text: projection_of(scope, entries) },
        ),
    }
}

/// Renders the page of a scope.
pub fn refresh_projection(tables: &MemoryTables, scope: MemoryScope, scope_id: &str) -> (result:
    Result<MemoryProjection, MemoryError>)
    ensures
        match result {
            Ok(projection) => projection_from(tables@, scope, scope_id@) == Ok::<
                MemoryProjectionView,
                MemoryErrorView,
            >(projection@),
            Err(error) => projection_from(tables@, scope, scope_id@) == Err::<
                MemoryProjectionView,
                MemoryErrorView,
            >(error@),
        },
{
    match load_scope_entries(tables, scope, scope_id) {
        Err(error) => Err(error),
        Ok(entries) => Ok(
            MemoryProjection {
                scope,
                scope_id: scope_id.to_string(),
                text: render_projection(scope, &entries),
            },
        ),
    }
}

/// What a committed write returns: the entry as it is stored, and the page.
pub open spec fn remembered_from(
    tables: MemoryTablesView,
    scope: MemoryScope,
    scope_id: Seq<char>,
    entry_id: Seq<char>,
) -> Result<Option<RememberedEntryView>, MemoryErrorView> {
    match stored_entry(tables, entry_id) {
        Err(error) => Err(error),
        Ok(None) => Err(MemoryErrorView::InvalidStoredValue("committed entry is missing"@)),
        Ok(Some(entry)) => match projection_from(tables, scope, scope_id) {
            Err(error) => Err(error),
            Ok(projection) => Ok(Some(RememberedEntryView { entry, projection })),
        },
    }
}

/// What a write does: the store that it leaves, and what it returns.
pub struct RememberStep {
    pub tables: MemoryTablesView,
    pub result: Result<Option<RememberedEntryView>, MemoryErrorView>,
}

/// A write at an instant, with IDs at hand for what it may create. A write that
/// is refused or kept out leaves the store as it is.
pub open spec fn remember_step(
    tables: MemoryTablesView,
    request: MemoryRememberRequestView,
    mode: MemoryWriteModeView,
    detected: bool,
    now: Timestamp,
    entry_id: Seq<char>,
    evidence_id: Seq<char>,
) -> RememberStep {
    match admission(request, detected) {
        Err(error) => RememberStep { tables, result: Err(error) },
        Ok(write) => match decision(tables, request.scope, write, mode) {
            Err(error) => RememberStep { tables, result: Err(error) },
            Ok(decision) => if decision.skip {
                RememberStep { tables, result: Ok(None) }
            } else {
                match written(
                    tables,
                    request.scope,
                    write,
                    mode,
                    request.source,
                    decision,
                    now.text(),
                    entry_id,
                    evidence_id,
                ) {
                    Err(error) => RememberStep { tables, result: Err(error) },
                    Ok(after) => RememberStep {
                        tables: after,
                        result: remembered_from(
                            after,
                            request.scope,
                            write.scope_id,
                            written_id(tables, decision, entry_id),
                        ),
                    },
                }
            },
        },
    }
}

/// Performs a write at a given instant, with given IDs for what it may create.
pub fn remember_entry_at(
    tables: &mut MemoryTables,
    request: &MemoryRememberRequest,
    mode: &MemoryWriteMode,
    detected: bool,
    at: Timestamp,
    new_entry_id: &MemoryEntryId,
    new_evidence_id: &String,
) -> (result: Result<Option<RememberedEntry>, MemoryError>)
    ensures
        remember_step(
            old(tables)@,
            request@,
            mode@,
            detected,
            at,
            new_entry_id@,
            new_evidence_id@,
        ) == (RememberStep { tables: final(tables)@, result: optional_result(result) }),
{
    let write = match admit_write(request, detected) {
        Ok(write) => write,
        Err(error) => return Err(error),
    };
    let decided = match decide(tables, request.scope, &write, mode) {
        Ok(decided) => decided,
        Err(error) => return Err(error),
    };
    if decided.skip {
        return Ok(None);
    }
    let ghost verdict = decision(tables@, request.scope, write@, mode@)->Ok_0;
    let written_at = at.to_rfc3339();
    let entry_id = match apply_write(
        tables,
        request.scope,
        &write,
        mode,
        &request.source,
        &decided,
        &written_at,
        new_entry_id,
        new_evidence_id,
        Ghost(verdict),
    ) {
        Ok(entry_id) => entry_id,
        Err(error) => return Err(error),
    };
    let entry = match load_entry(tables, &entry_id) {
        Err(error) => return Err(error),
        Ok(None) => return Err(
            MemoryError::InvalidStoredValue("committed entry is missing".to_string()),
        ),
        Ok(Some(entry)) => entry,
    };
    match refresh_projection(tables, request.scope, write.scope_id.as_str()) {
        Err(error) => Err(error),
        Ok(projection) => Ok(Some(RememberedEntry { entry, projection })),
    }
}

/// Performs a write now. Which instant that is, and which new IDs come up, is
/// open; whatever they are, the write is [`remember_step`] for them.
pub fn remember_entry(
    tables: &mut MemoryTables,
    request: &MemoryRememberRequest,
    mode: &MemoryWriteMode,
    detected: bool,
) -> (result: Result<Option<RememberedEntry>, MemoryError>)
    ensures
        exists|at: Timestamp, entry_id: Seq<char>, evidence_id: Seq<char>|
            at.is_told_by_clock() && is_new_id("mem_"@, entry_id) && is_simple_uuid(evidence_id)
                && #[trigger] remember_step(
                old(tables)@,
                request@,
                mode@,
                detected,
                at,
                entry_id,
                evidence_id,
            ) == (RememberStep { tables: final(tables)@, result: optional_result(result) }),
{
    let at = now();
    let entry_id = MemoryEntryId::new();
    let evidence_id = fresh_uuid();
    remember_entry_at(tables, request, mode, detected, at, &entry_id, &evidence_id)
}

/// Remembers what the user asked for. An explicit write is never kept out.
pub fn remember(
    tables: &mut MemoryTables,
    request: &MemoryRememberRequest,
    detected: bool,
) -> (result:
    Result<RememberedEntry, MemoryError>)
    ensures
        exists|at: Timestamp, entry_id: Seq<char>, evidence_id: Seq<char>|
            at.is_told_by_clock() && is_new_id("mem_"@, entry_id) && is_simple_uuid(evidence_id)
                && #[trigger] remember_step(
                old(tables)@,
                request@,
                MemoryWriteModeView::Explicit,
                detected,
                at,
                entry_id,
                evidence_id,
            ) == (RememberStep {
                tables: final(tables)@,
                result: match result {
                    Ok(remembered) => Ok(Some(remembered@)),
                    Err(error) => Err(error@),
                },
            }),
{
    match remember_entry(tables, request, &MemoryWriteMode::Explicit, detected) {
        Ok(Some(remembered)) => Ok(remembered),
        Ok(None) => Err(
            MemoryError::InvalidStoredValue("explicit memory write was skipped".to_string()),
        ),
        Err(error) => Err(error),
    }
}

/// The view of an inferred request as a write.
pub open spec fn inferred_write(request: MemoryInferredRememberRequest) -> (
    MemoryRememberRequestView,
    MemoryWriteModeView,
) {
    (
        MemoryRememberRequestView {
            text: request.text@,
            scope: request.scope,
            kind: request.kind,
            source: request.source@,
        },
        MemoryWriteModeView::Inferred {
            source_observed_at: request.source_observed_at,
            source_watermark: request.source_watermark@,
        },
    )
}

/// Remembers what was inferred from a session at a given instant, with given IDs for
/// what it may create, unless a revocation keeps it out.
pub fn remember_inferred_at(
    tables: &mut MemoryTables,
    request: &MemoryInferredRememberRequest,
    detected: bool,
    at: Timestamp,
    new_entry_id: &MemoryEntryId,
    new_evidence_id: &String,
) -> (result: Result<Option<RememberedEntry>, MemoryError>)
    ensures
        remember_step(
            old(tables)@,
            inferred_write(*request).0,
            inferred_write(*request).1,
            detected,
            at,
            new_entry_id@,
            new_evidence_id@,
        ) == (RememberStep { tables: final(tables)@, result: optional_result(result) }),
{
    let write = MemoryRememberRequest {
        text: request.text.clone(),
        scope: request.scope,
        kind: request.kind,
        source: request.source.clone(),
    };
    let mode = MemoryWriteMode::Inferred {
        source_observed_at: request.source_observed_at,
        source_watermark: request.source_watermark.clone(),
    };
    assert(write@ == inferred_write(*request).0);
    assert(mode@ == inferred_write(*request).1);
    remember_entry_at(tables, &write, &mode, detected, at, new_entry_id, new_evidence_id)
}

/// Remembers what was inferred from a session now, unless a revocation keeps it out.
pub fn remember_inferred(
    tables: &mut MemoryTables,
    request: &MemoryInferredRememberRequest,
    detected: bool,
) -> (result: Result<Option<RememberedEntry>, MemoryError>)
    ensures
        exists|at: Timestamp, entry_id: Seq<char>, evidence_id: Seq<char>|
            at.is_told_by_clock() && is_new_id("mem_"@, entry_id) && is_simple_uuid(evidence_id)
                && #[trigger] remember_step(
                old(tables)@,
                inferred_write(*request).0,
                inferred_write(*request).1,
                detected,
                at,
                entry_id,
                evidence_id,
            ) == (RememberStep { tables: final(tables)@, result: optional_result(result) }),
{
    let at = now();
    let entry_id = MemoryEntryId::new();
    let evidence_id = fresh_uuid();
    remember_inferred_at(tables, request, detected, at, &entry_id, &evidence_id)
}

/// Finishes a write once its page was written, or could not be.
pub fn finish_remember(remembered: RememberedEntry, page_write: Result<(), MemoryError>) -> (result:
    Result<MemoryEntry, MemoryError>)
    ensures
        match page_write {
            Ok(_) => result matches Ok(entry) && entry@ == remembered@.entry,
            Err(error) => result matches Err(failure) && failure@ == error@,
        },
{
    match page_write {
        Ok(_) => Ok(remembered.entry),
        Err(error) => Err(error),
    }
}

// ---------------------------------------------------------------------------
// Laws.
// ---------------------------------------------------------------------------
proof fn lemma_written_well_formed(
    tables: MemoryTablesView,
    scope: MemoryScope,
    write: AdmittedWriteView,
    mode: MemoryWriteModeView,
    source: MemorySourceContextView,
    decision: WriteDecision,
    now: Seq<char>,
    entry_id: Seq<char>,
    evidence_id: Seq<char>,
)
    requires
        tables.well_formed(),
        decision.existing == first_match(
            tables.entries,
            identity_is(scope_text(scope), write.scope_id, write.normalized_key),
        ),
        written(tables, scope, write, mode, source, decision, now, entry_id, evidence_id) is Ok,
    ensures
        written(
            tables,
            scope,
            write,
            mode,
            source,
            decision,
            now,
            entry_id,
            evidence_id,
        )->Ok_0.well_formed(),
{
    let after = written(
        tables,
        scope,
        write,
        mode,
        source,
        decision,
        now,
        entry_id,
        evidence_id,
    )->Ok_0;
    let accepts = identity_is(scope_text(scope), write.scope_id, write.normalized_key);
    lemma_first_match(tables.entries, accepts);
    match decision.existing {
        Some(i) => {
            assert forall|a: int, b: int| 0 <= a < b < after.entries.len() implies (
            #[trigger] after.entries[a]).entry_id != (#[trigger] after.entries[b]).entry_id
                && !same_identity(after.entries[a], after.entries[b]) by {
                assert(tables.entries[a].entry_id != tables.entries[b].entry_id);
                assert(!same_identity(tables.entries[a], tables.entries[b]));
            }
            assert forall|id: Seq<char>| has_entry(tables.entries, id) implies has_entry(
                after.entries,
                id,
            ) by {
                let k = choose|k: int|
                    0 <= k < tables.entries.len() && (#[trigger] tables.entries[k]).entry_id == id;
                assert(after.entries[k].entry_id == id);
            }
        },
        None => {
            let added = after.entries[after.entries.len() - 1];
            assert forall|a: int, b: int| 0 <= a < b < after.entries.len() implies (
            #[trigger] after.entries[a]).entry_id != (#[trigger] after.entries[b]).entry_id
                && !same_identity(after.entries[a], after.entries[b]) by {
                assert(after.entries[a] == tables.entries[a]);
                if b < tables.entries.len() {
                    assert(after.entries[b] == tables.entries[b]);
                    assert(tables.entries[a].entry_id != tables.entries[b].entry_id);
                    assert(!same_identity(tables.entries[a], tables.entries[b]));
                } else {
                    assert(after.entries[b] == added);
                    assert(!accepts(tables.entries[a]));
                }
            }
            assert forall|id: Seq<char>| has_entry(tables.entries, id) implies has_entry(
                after.entries,
                id,
            ) by {
                let k = choose|k: int|
                    0 <= k < tables.entries.len() && (#[trigger] tables.entries[k]).entry_id == id;
                assert(after.entries[k] == tables.entries[k]);
            }
            assert(has_entry(after.entries, entry_id)) by {
                assert(added.entry_id == entry_id);
            }
        },
    }
    let id = written_id(tables, decision, entry_id);
    assert(has_entry(after.entries, id)) by {
        match decision.existing {
            Some(i) => {
                assert(after.entries[i].entry_id == id);
            },
            None => {},
        }
    }
    assert forall|k: int| 0 <= k < after.evidence.len() implies has_entry(
        after.entries,
        (#[trigger] after.evidence[k]).entry_id,
    ) by {
        if k < tables.evidence.len() {
            assert(after.evidence[k] == tables.evidence[k]);
            assert(has_entry(tables.entries, tables.evidence[k].entry_id));
        }
    }
    assert forall|a: int, b: int| 0 <= a < b < after.evidence.len() implies (
    #[trigger] after.evidence[a]).evidence_id != (#[trigger] after.evidence[b]).evidence_id by {
        assert(after.evidence[a] == tables.evidence[a]);
        if b < tables.evidence.len() {
            assert(after.evidence[b] == tables.evidence[b]);
        }
    }
    assert forall|a: int, b: int| 0 <= a < b < after.revocations.len() implies !same_revoked(
        #[trigger] after.revocations[a],
        #[trigger] after.revocations[b],
    ) && after.revocations[a].revocation_id != after.revocations[b].revocation_id by {
        assert(!same_revoked(tables.revocations[a], tables.revocations[b]));
        assert(tables.revocations[a].revocation_id != tables.revocations[b].revocation_id);
    }
}

/// A write keeps the constraints of the store.
pub proof fn law_write_keeps_store_well_formed(
    tables: MemoryTablesView,
    request: MemoryRememberRequestView,
    mode: MemoryWriteModeView,
    detected: bool,
    now: Timestamp,
    entry_id: Seq<char>,
    evidence_id: Seq<char>,
)
    requires
        tables.well_formed(),
    ensures
        remember_step(
            tables,
            request,
            mode,
            detected,
            now,
            entry_id,
            evidence_id,
        ).tables.well_formed(),
{
    if admission(request, detected) is Ok {
        let write = admission(request, detected)->Ok_0;
        if decision(tables, request.scope, write, mode) is Ok {
            let verdict = decision(tables, request.scope, write, mode)->Ok_0;
            if written(
                tables,
                request.scope,
                write,
                mode,
                request.source,
                verdict,
                now.text(),
                entry_id,
                evidence_id,
            ) is Ok {
                lemma_written_well_formed(
                    tables,
                    request.scope,
                    write,
                    mode,
                    request.source,
                    verdict,
                    now.text(),
                    entry_id,
                    evidence_id,
                );
            }
        }
    }
}

/// A revoked identity stays revoked for what is inferred: while the revocation
/// stands, and for every observation that is not later than it, an inferred write
/// returns nothing and changes nothing.
pub proof fn law_revocation_keeps_inferred_out(
    tables: MemoryTablesView,
    request: MemoryRememberRequestView,
    observed_at: Timestamp,
    watermark: Seq<char>,
    now: Timestamp,
    entry_id: Seq<char>,
    evidence_id: Seq<char>,
    write: AdmittedWriteView,
    times: RevocationTimes,
)
    requires
        admission(request, false) == Ok::<AdmittedWriteView, MemoryErrorView>(write),
        revocation_of(tables, request.scope, write.scope_id, write.normalized_key) == Ok::<
            Option<RevocationTimes>,
            MemoryErrorView,
        >(Some(times)),
        times.stands() || !times.revoked_at.earlier(observed_at),
        forall|i: int|
            0 <= i < tables.entries.len() ==> origin_of(
                (#[trigger] tables.entries[i]).origin,
            ) is Ok,
    ensures
        remember_step(
            tables,
            request,
            MemoryWriteModeView::Inferred {
                source_observed_at: observed_at,
                source_watermark: watermark,
            },
            false,
            now,
            entry_id,
            evidence_id,
        ) == (RememberStep { tables, result: Ok(None) }),
{
    lemma_first_match(
        tables.entries,
        identity_is(scope_text(request.scope), write.scope_id, write.normalized_key),
    );
}

/// What the user put into an entry outlives what is inferred: an inferred write to
/// an entry of the user sets the time of the last write and appends the evidence of
/// its source, unless that source is evidence already, and changes nothing else.
/// Where a revocation keeps the write out, it changes nothing at all.
pub proof fn law_inferred_write_preserves_explicit_content(
    tables: MemoryTablesView,
    request: MemoryRememberRequestView,
    observed_at: Timestamp,
    watermark: Seq<char>,
    now: Timestamp,
    entry_id: Seq<char>,
    evidence_id: Seq<char>,
    i: int,
)
    requires
        admission(request, false) is Ok,
        0 <= i < tables.entries.len(),
        first_match(
            tables.entries,
            identity_is(
                scope_text(request.scope),
                admission(request, false)->Ok_0.scope_id,
                admission(request, false)->Ok_0.normalized_key,
            ),
        ) == Some(i),
        tables.entries[i].origin == origin_text(MemoryOrigin::ExplicitUser),
        !has_evidence(tables.evidence, evidence_id),
    ensures
        ({
            let mode = MemoryWriteModeView::Inferred {
                source_observed_at: observed_at,
                source_watermark: watermark,
            };
            let after = remember_step(
                tables,
                request,
                mode,
                false,
                now,
                entry_id,
                evidence_id,
            ).tables;
            let id = tables.entries[i].entry_id;
            match decision(tables, request.scope, admission(request, false)->Ok_0, mode) {
                Err(_) => after == tables,
                Ok(verdict) => if verdict.skip {
                    after == tables
                } else {
                    after == MemoryTablesView {
                        entries: tables.entries.update(
                            i,
                            EntryRowView { updated_at: now.text(), ..tables.entries[i] },
                        ),
                        evidence: if already_witnessed(tables, request.source, id) {
                            tables.evidence
                        } else {
                            tables.evidence.push(
                                EvidenceRowView {
                                    evidence_id,
                                    entry_id: id,
                                    session_id: uuid_text(request.source.session_id.value),
                                    turn_id: turn_text(request.source),
                                    source_user_item_id: request.source.user_item_id,
                                    observed_at: observed_at.text(),
                                    source_watermark: watermark,
                                },
                            )
                        },
                        ..tables
                    }
                },
            }
        }),
{
    crate::stored_values::law_stored_names_read_back(
        MemoryScope::User,
        MemoryKind::Fact,
        MemoryState::Active,
        MemoryOrigin::ExplicitUser,
    );
}

/// A write is about one entry: every other entry stays as it was, in its place.
pub proof fn law_write_leaves_other_entries(
    tables: MemoryTablesView,
    request: MemoryRememberRequestView,
    mode: MemoryWriteModeView,
    detected: bool,
    now: Timestamp,
    entry_id: Seq<char>,
    evidence_id: Seq<char>,
    j: int,
)
    requires
        0 <= j < tables.entries.len(),
        admission(request, detected) matches Ok(write) ==> !identity_is(
            scope_text(request.scope),
            write.scope_id,
            write.normalized_key,
        )(tables.entries[j]),
    ensures
        ({
            let after = remember_step(
                tables,
                request,
                mode,
                detected,
                now,
                entry_id,
                evidence_id,
            ).tables;
            j < after.entries.len() && after.entries[j] == tables.entries[j]
        }),
{
    if admission(request, detected) is Ok {
        let write = admission(request, detected)->Ok_0;
        lemma_first_match(
            tables.entries,
            identity_is(scope_text(request.scope), write.scope_id, write.normalized_key),
        );
    }
}

/// Remembering explicitly is final: whatever was revoked before, the entry of the
/// identity then holds the new body, belongs to the user, and is restored if the
/// identity was ever revoked and active otherwise.
pub proof fn law_explicit_write_takes_effect(
    tables: MemoryTablesView,
    request: MemoryRememberRequestView,
    now: Timestamp,
    entry_id: Seq<char>,
    evidence_id: Seq<char>,
    write: AdmittedWriteView,
)
    requires
        admission(request, false) == Ok::<AdmittedWriteView, MemoryErrorView>(write),
        decision(tables, request.scope, write, MemoryWriteModeView::Explicit) is Ok,
        !has_entry(tables.entries, entry_id),
        !has_evidence(tables.evidence, evidence_id),
    ensures
        ({
            let after = remember_step(
                tables,
                request,
                MemoryWriteModeView::Explicit,
                false,
                now,
                entry_id,
                evidence_id,
            ).tables;
            let accepts = identity_is(
                scope_text(request.scope),
                write.scope_id,
                write.normalized_key,
            );
            let revoked = revocation_of(
                tables,
                request.scope,
                write.scope_id,
                write.normalized_key,
            )->Ok_0 is Some;
            first_row(after.entries, accepts) matches Some(row) && {
                &&& row.body == write.body
                &&& row.kind == kind_text(write.kind)
                &&& row.origin == origin_text(MemoryOrigin::ExplicitUser)
                &&& row.state == state_text(state_after(revoked))
                &&& row.updated_at == now.text()
            }
        }),
{
    let accepts = identity_is(scope_text(request.scope), write.scope_id, write.normalized_key);
    let verdict = decision(tables, request.scope, write, MemoryWriteModeView::Explicit)->Ok_0;
    let after = remember_step(
        tables,
        request,
        MemoryWriteModeView::Explicit,
        false,
        now,
        entry_id,
        evidence_id,
    ).tables;
    lemma_first_match(tables.entries, accepts);
    match verdict.existing {
        Some(i) => {
            assert forall|j: int| 0 <= j < i implies !accepts(#[trigger] after.entries[j]) by {
                assert(after.entries[j] == tables.entries[j]);
            }
            crate::rows::lemma_is_first_match(after.entries, accepts, i);
        },
        None => {
            let last = tables.entries.len() as int;
            assert forall|j: int| 0 <= j < last implies !accepts(#[trigger] after.entries[j]) by {
                assert(after.entries[j] == tables.entries[j]);
            }
            crate::rows::lemma_is_first_match(after.entries, accepts, last);
        },
    }
}

/// Remembering an entry again lifts its revocation: afterwards the identity is
/// marked as restored, now or at an instant that the revocation did not follow.
pub proof fn law_explicit_write_lifts_revocation(
    tables: MemoryTablesView,
    request: MemoryRememberRequestView,
    now: Timestamp,
    entry_id: Seq<char>,
    evidence_id: Seq<char>,
    write: AdmittedWriteView,
    j: int,
)
    requires
        admission(request, false) == Ok::<AdmittedWriteView, MemoryErrorView>(write),
        decision(tables, request.scope, write, MemoryWriteModeView::Explicit) matches Ok(decision)
            && decision.existing is Some,
        !has_evidence(tables.evidence, evidence_id),
        0 <= j < tables.revocations.len(),
        revocation_is(scope_text(request.scope), write.scope_id, write.normalized_key)(
            tables.revocations[j],
        ),
    ensures
        ({
            let before = tables.revocations[j];
            let after = remember_step(
                tables,
                request,
                MemoryWriteModeView::Explicit,
                false,
                now,
                entry_id,
                evidence_id,
            ).tables.revocations[j];
            &&& after.revoked_at == before.revoked_at
            &&& after.restored_at == Some(now.text()) || (after.restored_at == before.restored_at
                && (before.restored_at matches Some(restored_at) && !text_less(
                restored_at,
                before.revoked_at,
            )))
        }),
{
}

} // verus!
