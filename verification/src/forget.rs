//! Forgetting: finding the one entry that a request means, retiring it, and
//! revoking its identity.

use vstd::prelude::*;

use crate::command_types::{
    MemoryForgetSelector, MemoryForgetSelectorView, MemoryForgetSource, MemoryForgetSourceView,
    MemorySourceContext, PreparedMemoryForgetRequest, PreparedMemoryForgetRequestView,
    PreparedMemoryForgetTarget, PreparedMemoryForgetTargetView, ProjectMemorySession,
    ProjectMemorySessionActivity, ProjectMemorySessionView, WorkspaceRoot, WorkspaceRootView,
};
use crate::core_ids::SessionId;
use crate::entries::{
    body_of, drop_index_row, index_row_of_other, normalize_body, projection_from,
    refresh_projection, MemoryProjection, MemoryProjectionView,
};
use crate::ids::{fresh_uuid, is_simple_uuid, MemoryEntryId};
use crate::memory_error::{MemoryError, MemoryErrorView};
use crate::rows::{first_match, lemma_filter_take, lemma_is_first_match, lemma_no_match, ordered};
use crate::rpc_memory::{
    MemoryEntry, MemoryEntryView, MemoryForgetResult, MemoryForgetResultView, MemoryScope,
    MemoryState,
};
use crate::store::{
    entries_from, find_revocation, load_entry, load_rows, newer_first, place_entry, revocation_is,
    stored_entry,
};
use crate::stored_values::{scope_name, scope_text, state_text};
use crate::tables::{
    EntryRow, EntryRowView, MemoryTables, MemoryTablesView, RevocationRow, RevocationRowView,
};
use crate::text::{
    ascii_lower, chars_of, contains_part, has_part, opt_view, same_text, to_ascii_lower, views,
};
use crate::time::{now, Timestamp};

verus! {

// ---------------------------------------------------------------------------
// The session that a request comes from.
// ---------------------------------------------------------------------------
/// A session whose workspace belongs to a known project.
#[derive(Debug, PartialEq, Eq)]
pub struct ResolvedProjectMemorySession {
    pub session_id: SessionId,
    pub workspace_root: WorkspaceRoot,
    pub activity: ProjectMemorySessionActivity,
    pub scope_id: String,
}

/// The view of [`ResolvedProjectMemorySession`].
#[verifier::ext_equal]
pub struct ResolvedProjectMemorySessionView {
    pub session_id: SessionId,
    pub workspace_root: WorkspaceRootView,
    pub activity: ProjectMemorySessionActivity,
    pub scope_id: Seq<char>,
}

impl View for ResolvedProjectMemorySession {
    type V = ResolvedProjectMemorySessionView;

    open spec fn view(&self) -> ResolvedProjectMemorySessionView {
        ResolvedProjectMemorySessionView {
            session_id: self.session_id,
            workspace_root: self.workspace_root@,
            activity: self.activity,
            scope_id: self.scope_id@,
        }
    }
}

impl Clone for ResolvedProjectMemorySession {
    fn clone(&self) -> (result: Self)
        ensures
            result@ == self@,
    {
        let result = ResolvedProjectMemorySession {
            session_id: self.session_id,
            workspace_root: self.workspace_root.clone(),
            activity: self.activity,
            scope_id: self.scope_id.clone(),
        };
        result
    }
}

/// The project of a session's workspace.
pub open spec fn resolved_session(session: ProjectMemorySessionView) -> Result<
    ResolvedProjectMemorySessionView,
    MemoryErrorView,
> {
    match session.workspace_root {
        None => Err(MemoryErrorView::ProjectSessionUnavailable),
        Some(workspace_root) => match workspace_root.project_scope {
            Err(message) => Err(MemoryErrorView::ProjectIdentity(message)),
            Ok(scope_id) => Ok(
                ResolvedProjectMemorySessionView {
                    session_id: session.session_id,
                    workspace_root,
                    activity: session.activity,
                    scope_id,
                },
            ),
        },
    }
}

fn resolve_session(session: &ProjectMemorySession) -> (result: Result<
    ResolvedProjectMemorySession,
    MemoryError,
>)
    ensures
        match result {
            Ok(resolved) => resolved_session(session@) == Ok::<
                ResolvedProjectMemorySessionView,
                MemoryErrorView,
            >(resolved@),
            Err(error) => resolved_session(session@) == Err::<
                ResolvedProjectMemorySessionView,
                MemoryErrorView,
            >(error@),
        },
{
    match &session.workspace_root {
        None => Err(MemoryError::ProjectSessionUnavailable),
        Some(workspace_root) => match &workspace_root.project_scope {
            Err(message) => Err(MemoryError::ProjectIdentity(message.clone())),
            Ok(scope_id) => Ok(
                ResolvedProjectMemorySession {
                    session_id: session.session_id,
                    workspace_root: workspace_root.clone(),
                    activity: session.activity,
                    scope_id: scope_id.clone(),
                },
            ),
        },
    }
}

/// Which of two sessions stands for a project: the first, unless only the second
/// is active. Sessions of two projects cannot stand for one.
pub open spec fn preferred(
    current: Option<ResolvedProjectMemorySessionView>,
    next: ResolvedProjectMemorySessionView,
) -> Result<ResolvedProjectMemorySessionView, MemoryErrorView> {
    match current {
        None => Ok(next),
        Some(current) => if current.scope_id != next.scope_id {
            Err(MemoryErrorView::AmbiguousProjectScope)
        } else if next.activity == ProjectMemorySessionActivity::Active && current.activity
            == ProjectMemorySessionActivity::Inactive {
            Ok(next)
        } else {
            Ok(current)
        },
    }
}

fn prefer(
    current: Option<ResolvedProjectMemorySession>,
    next: ResolvedProjectMemorySession,
) -> (result:
    Result<ResolvedProjectMemorySession, MemoryError>)
    ensures
        match result {
            Ok(chosen) => preferred(opt_view(current), next@) == Ok::<
                ResolvedProjectMemorySessionView,
                MemoryErrorView,
            >(chosen@),
            Err(error) => preferred(opt_view(current), next@) == Err::<
                ResolvedProjectMemorySessionView,
                MemoryErrorView,
            >(error@),
        },
{
    match current {
        None => Ok(next),
        Some(current) => {
            if !same_text(current.scope_id.as_str(), next.scope_id.as_str()) {
                Err(MemoryError::AmbiguousProjectScope)
            } else if next.activity == ProjectMemorySessionActivity::Active && current.activity
                == ProjectMemorySessionActivity::Inactive {
                Ok(next)
            } else {
                Ok(current)
            }
        },
    }
}

/// The session that stands for the project of resolved sessions, if there is any.
pub open spec fn selected_session(sessions: Seq<ResolvedProjectMemorySessionView>) -> Result<
    Option<ResolvedProjectMemorySessionView>,
    MemoryErrorView,
>
    decreases sessions.len(),
{
    if sessions.len() == 0 {
        Ok(None)
    } else {
        match selected_session(sessions.drop_last()) {
            Err(error) => Err(error),
            Ok(current) => match preferred(current, sessions.last()) {
                Err(error) => Err(error),
                Ok(chosen) => Ok(Some(chosen)),
            },
        }
    }
}

proof fn lemma_selection_fails(sessions: Seq<ResolvedProjectMemorySessionView>, at: int)
    requires
        0 <= at <= sessions.len(),
        selected_session(sessions.take(at)) is Err,
    ensures
        selected_session(sessions) == selected_session(sessions.take(at)),
    decreases sessions.len(),
{
    if at == sessions.len() {
        assert(sessions.take(at) =~= sessions);
    } else {
        assert(sessions.drop_last().take(at) =~= sessions.take(at));
        lemma_selection_fails(sessions.drop_last(), at);
    }
}

/// Selects the session that stands for the project of resolved sessions.
pub fn select_project_memory_session(
    sessions: &Vec<ResolvedProjectMemorySession>,
) -> (result: Result<
    ResolvedProjectMemorySession,
    MemoryError,
>)
    ensures
        match selected_session(views(sessions@)) {
            Err(error) => result matches Err(failure) && failure@ == error,
            Ok(None) => result matches Err(failure) && failure@
                == MemoryErrorView::ProjectSessionRequired,
            Ok(Some(session)) => result matches Ok(chosen) && chosen@ == session,
        },
{
    let ghost all = views(sessions@);
    let mut selected: Option<ResolvedProjectMemorySession> = None;
    let mut i: usize = 0;
    while i < sessions.len()
        invariant
            i <= sessions.len(),
            all == views(sessions@),
            selected_session(all.take(i as int)) == Ok::<
                Option<ResolvedProjectMemorySessionView>,
                MemoryErrorView,
            >(opt_view(selected)),
        decreases sessions.len() - i,
    {
        let ghost next = all.take(i + 1);
        assert(next.drop_last() =~= all.take(i as int));
        assert(next.last() == sessions@[i as int]@);
        match prefer(selected, sessions[i].clone()) {
            Ok(chosen) => {
                selected = Some(chosen);
            },
            Err(error) => {
                proof {
                    lemma_selection_fails(all, i + 1);
                }
                return Err(error);
            },
        }
        i = i + 1;
    }
    assert(all.take(sessions.len() as int) =~= all);
    match selected {
        Some(session) => Ok(session),
        None => Err(MemoryError::ProjectSessionRequired),
    }
}

/// The session that stands for the project of candidates, each of which must have
/// a workspace of the same project.
pub open spec fn project_source(candidates: Seq<ProjectMemorySessionView>) -> Result<
    Option<ResolvedProjectMemorySessionView>,
    MemoryErrorView,
>
    decreases candidates.len(),
{
    if candidates.len() == 0 {
        Ok(None)
    } else {
        match project_source(candidates.drop_last()) {
            Err(error) => Err(error),
            Ok(current) => match resolved_session(candidates.last()) {
                Err(error) => Err(error),
                Ok(next) => match preferred(current, next) {
                    Err(error) => Err(error),
                    Ok(chosen) => Ok(Some(chosen)),
                },
            },
        }
    }
}

proof fn lemma_source_fails(candidates: Seq<ProjectMemorySessionView>, at: int)
    requires
        0 <= at <= candidates.len(),
        project_source(candidates.take(at)) is Err,
    ensures
        project_source(candidates) == project_source(candidates.take(at)),
    decreases candidates.len(),
{
    if at == candidates.len() {
        assert(candidates.take(at) =~= candidates);
    } else {
        assert(candidates.drop_last().take(at) =~= candidates.take(at));
        lemma_source_fails(candidates.drop_last(), at);
    }
}

/// Resolves Native Session candidates to the one project source.
pub fn resolve_project_memory_source(candidates: &Vec<ProjectMemorySession>) -> (result: Result<
    (SessionId, WorkspaceRoot),
    MemoryError,
>)
    ensures
        match project_source(views(candidates@)) {
            Err(error) => result matches Err(failure) && failure@ == error,
            Ok(None) => result matches Err(failure) && failure@
                == MemoryErrorView::ProjectSessionRequired,
            Ok(Some(session)) => result matches Ok(source) && source.0 == session.session_id
                && source.1@ == session.workspace_root,
        },
{
    let ghost all = views(candidates@);
    let mut selected: Option<ResolvedProjectMemorySession> = None;
    let mut i: usize = 0;
    while i < candidates.len()
        invariant
            i <= candidates.len(),
            all == views(candidates@),
            project_source(all.take(i as int)) == Ok::<
                Option<ResolvedProjectMemorySessionView>,
                MemoryErrorView,
            >(opt_view(selected)),
        decreases candidates.len() - i,
    {
        let ghost next = all.take(i + 1);
        assert(next.drop_last() =~= all.take(i as int));
        assert(next.last() == candidates@[i as int]@);
        let resolved = match resolve_session(&candidates[i]) {
            Ok(resolved) => resolved,
            Err(error) => {
                proof {
                    lemma_source_fails(all, i + 1);
                }
                return Err(error);
            },
        };
        match prefer(selected, resolved) {
            Ok(chosen) => {
                selected = Some(chosen);
            },
            Err(error) => {
                proof {
                    lemma_source_fails(all, i + 1);
                }
                return Err(error);
            },
        }
        i = i + 1;
    }
    assert(all.take(candidates.len() as int) =~= all);
    match selected {
        Some(session) => Ok((session.session_id, session.workspace_root)),
        None => Err(MemoryError::ProjectSessionRequired),
    }
}

/// What is known of the sessions that could be the source of a project request:
/// those that fit, and the first failure that an expected project lets pass.
#[verifier::ext_equal]
pub struct ForgetCandidates {
    pub fitting: Seq<ResolvedProjectMemorySessionView>,
    pub deferred: Option<MemoryErrorView>,
}

/// Whether a session is ruled out by the session that a connection is bound to.
pub open spec fn is_other_session(bound: Option<SessionId>, session_id: SessionId) -> bool {
    bound is Some && bound != Some(session_id)
}

/// The sessions that fit a project request. Without an expected project the first
/// session that cannot be resolved decides; with one, only sessions of that
/// project fit, and failures are put off.
pub open spec fn fitting_sessions(
    sessions: Seq<ProjectMemorySessionView>,
    bound: Option<SessionId>,
    expected: Option<Seq<char>>,
) -> Result<ForgetCandidates, MemoryErrorView>
    decreases sessions.len(),
{
    if sessions.len() == 0 {
        Ok(ForgetCandidates { fitting: Seq::empty(), deferred: None })
    } else {
        match fitting_sessions(sessions.drop_last(), bound, expected) {
            Err(error) => Err(error),
            Ok(before) => {
                let session = sessions.last();
                if is_other_session(bound, session.session_id) {
                    Ok(before)
                } else {
                    match resolved_session(session) {
                        Err(error) => if expected is Some {
                            Ok(
                                ForgetCandidates {
                                    fitting: before.fitting,
                                    deferred: match before.deferred {
                                        Some(first) => Some(first),
                                        None => Some(error),
                                    },
                                },
                            )
                        } else {
                            Err(error)
                        },
                        Ok(resolved) => if expected is Some && expected != Some(
                            resolved.scope_id,
                        ) {
                            Ok(before)
                        } else {
                            Ok(
                                ForgetCandidates {
                                    fitting: before.fitting.push(resolved),
                                    deferred: before.deferred,
                                },
                            )
                        },
                    }
                }
            },
        }
    }
}

proof fn lemma_fitting_fails(
    sessions: Seq<ProjectMemorySessionView>,
    bound: Option<SessionId>,
    expected: Option<Seq<char>>,
    at: int,
)
    requires
        0 <= at <= sessions.len(),
        fitting_sessions(sessions.take(at), bound, expected) is Err,
    ensures
        fitting_sessions(sessions, bound, expected) == fitting_sessions(
            sessions.take(at),
            bound,
            expected,
        ),
    decreases sessions.len(),
{
    if at == sessions.len() {
        assert(sessions.take(at) =~= sessions);
    } else {
        assert(sessions.drop_last().take(at) =~= sessions.take(at));
        lemma_fitting_fails(sessions.drop_last(), bound, expected, at);
    }
}

/// Accepts the session with an ID.
pub open spec fn session_is(session_id: SessionId) -> spec_fn(ProjectMemorySessionView) -> bool {
    |session: ProjectMemorySessionView| session.session_id == session_id
}

/// The session and the scope ID that a forget request speaks for.
pub open spec fn forget_source(
    scope: MemoryScope,
    expected: Option<Seq<char>>,
    source: MemoryForgetSourceView,
) -> Result<(SessionId, Seq<char>), MemoryErrorView> {
    match scope {
        MemoryScope::User => {
            let session_id = match source.bound_session_id {
                Some(session_id) => Some(session_id),
                None => source.user_session_id,
            };
            match session_id {
                None => Err(
                    MemoryErrorView::InvalidRequest(
                        "memory/forget requires a session-bound connection"@,
                    ),
                ),
                Some(session_id) => match first_match(source.sessions, session_is(session_id)) {
                    Some(i) if source.sessions[i].workspace_root is Some => Ok(
                        (session_id, "user"@),
                    ),
                    _ => Err(
                        MemoryErrorView::InvalidRequest(
                            "memory/forget requires a session with a workspace root"@,
                        ),
                    ),
                },
            }
        },
        MemoryScope::Project => match fitting_sessions(
            source.sessions,
            source.bound_session_id,
            expected,
        ) {
            Err(error) => Err(error),
            Ok(candidates) => if candidates.fitting.len() == 0 && expected is Some {
                match candidates.deferred {
                    Some(error) => Err(error),
                    None => Err(MemoryErrorView::InvalidRequest("memory entry not found"@)),
                }
            } else {
                match selected_session(candidates.fitting) {
                    Err(error) => Err(error),
                    Ok(None) => Err(MemoryErrorView::ProjectSessionRequired),
                    Ok(Some(session)) => Ok((session.session_id, session.scope_id)),
                }
            },
        },
    }
}

/// The view of a resolved forget source.
pub open spec fn source_result(result: Result<(SessionId, String), MemoryError>) -> Result<
    (SessionId, Seq<char>),
    MemoryErrorView,
> {
    match result {
        Ok(source) => Ok((source.0, source.1@)),
        Err(error) => Err(error@),
    }
}

fn resolve_user_source(source: &MemoryForgetSource) -> (result: Result<
    (SessionId, String),
    MemoryError,
>)
    ensures
        source_result(result) == forget_source(MemoryScope::User, None, source@),
{
    let session_id = match source.bound_session_id {
        Some(session_id) => Some(session_id),
        None => source.user_session_id,
    };
    let session_id = match session_id {
        Some(session_id) => session_id,
        None => return Err(
            MemoryError::InvalidRequest(
                "memory/forget requires a session-bound connection".to_string(),
            ),
        ),
    };
    let ghost all = views(source.sessions@);
    let ghost accepts = session_is(session_id);
    let mut i: usize = 0;
    while i < source.sessions.len()
        invariant
            i <= source.sessions.len(),
            all == views(source.sessions@),
            accepts == session_is(session_id),
            source@.bound_session_id == Some(session_id) || (source@.bound_session_id is None
                && source@.user_session_id == Some(session_id)),
            forall|j: int| 0 <= j < i ==> !accepts(#[trigger] all[j]),
        decreases source.sessions.len() - i,
    {
        assert(all[i as int] == source.sessions@[i as int]@);
        if source.sessions[i].session_id == session_id {
            proof {
                lemma_is_first_match(all, accepts, i as int);
            }
            return match &source.sessions[i].workspace_root {
                Some(_) => Ok((session_id, "user".to_string())),
                None => Err(
                    MemoryError::InvalidRequest(
                        "memory/forget requires a session with a workspace root".to_string(),
                    ),
                ),
            };
        }
        i = i + 1;
    }
    proof {
        lemma_no_match(all, accepts);
    }
    Err(
        MemoryError::InvalidRequest(
            "memory/forget requires a session with a workspace root".to_string(),
        ),
    )
}

/// Resolves the session and the scope ID that a forget request speaks for.
pub fn resolve_forget_source(
    scope: MemoryScope,
    expected: &Option<String>,
    source: &MemoryForgetSource,
) -> (result: Result<(SessionId, String), MemoryError>)
    ensures
        source_result(result) == forget_source(scope, opt_view(*expected), source@),
{
    if scope == MemoryScope::User {
        return resolve_user_source(source);
    }
    let ghost all = views(source.sessions@);
    let ghost bound = source.bound_session_id;
    let mut fitting: Vec<ResolvedProjectMemorySession> = Vec::new();
    let mut deferred: Option<MemoryError> = None;
    let mut i: usize = 0;
    assert(views(fitting@) =~= Seq::<ResolvedProjectMemorySessionView>::empty());
    while i < source.sessions.len()
        invariant
            i <= source.sessions.len(),
            scope == MemoryScope::Project,
            all == views(source.sessions@),
            bound == source.bound_session_id,
            fitting_sessions(all.take(i as int), bound, opt_view(*expected)) == Ok::<
                ForgetCandidates,
                MemoryErrorView,
            >(ForgetCandidates { fitting: views(fitting@), deferred: opt_view(deferred) }),
        decreases source.sessions.len() - i,
    {
        let ghost next = all.take(i + 1);
        assert(next.drop_last() =~= all.take(i as int));
        assert(next.last() == source.sessions@[i as int]@);
        let session = &source.sessions[i];
        let other = match source.bound_session_id {
            Some(bound_id) => bound_id != session.session_id,
            None => false,
        };
        if !other {
            match resolve_session(session) {
                Err(error) => {
                    if expected.is_none() {
                        proof {
                            lemma_fitting_fails(all, bound, opt_view(*expected), i + 1);
                        }
                        return Err(error);
                    }
                    if deferred.is_none() {
                        deferred = Some(error);
                    }
                },
                Ok(resolved) => {
                    let fits = match expected {
                        Some(expected) => same_text(expected.as_str(), resolved.scope_id.as_str()),
                        None => true,
                    };
                    if fits {
                        let ghost before = views(fitting@);
                        let ghost added = resolved@;
                        fitting.push(resolved);
                        assert(views(fitting@) =~= before.push(added));
                    }
                },
            }
        }
        i = i + 1;
    }
    assert(all.take(source.sessions.len() as int) =~= all);
    if fitting.len() == 0 && expected.is_some() {
        return match deferred {
            Some(error) => Err(error),
            None => Err(MemoryError::InvalidRequest("memory entry not found".to_string())),
        };
    }
    match select_project_memory_session(&fitting) {
        Ok(session) => Ok((session.session_id, session.scope_id)),
        Err(error) => Err(error),
    }
}

/// The one session of a mutation, as the source of a forget request.
pub fn forget_source_of(source: &MemorySourceContext) -> (result: MemoryForgetSource)
    ensures
        result@ == (MemoryForgetSourceView {
            bound_session_id: Some(source.session_id),
            user_session_id: Some(source.session_id),
            sessions: seq![
                ProjectMemorySessionView {
                    session_id: source.session_id,
                    workspace_root: Some(source.workspace_root@),
                    activity: ProjectMemorySessionActivity::Active,
                },
            ],
        }),
{
    let mut sessions: Vec<ProjectMemorySession> = Vec::new();
    sessions.push(
        ProjectMemorySession {
            session_id: source.session_id,
            workspace_root: Some(source.workspace_root.clone()),
            activity: ProjectMemorySessionActivity::Active,
        },
    );
    let result = MemoryForgetSource {
        bound_session_id: Some(source.session_id),
        user_session_id: Some(source.session_id),
        sessions,
    };
    assert(result@.sessions =~= seq![
        ProjectMemorySessionView {
            session_id: source.session_id,
            workspace_root: Some(source.workspace_root@),
            activity: ProjectMemorySessionActivity::Active,
        },
    ]);
    result
}

// ---------------------------------------------------------------------------
// Preparation.
// ---------------------------------------------------------------------------
/// A request with its target found and its scope resolved. An exact target
/// decides the scope; its entry must belong to the scope that was resolved.
pub open spec fn prepared_forget(
    tables: MemoryTablesView,
    selector: MemoryForgetSelectorView,
    scope: MemoryScope,
    source: MemoryForgetSourceView,
) -> Result<PreparedMemoryForgetRequestView, MemoryErrorView> {
    match selector {
        MemoryForgetSelectorView::EntryId(entry_id) => match stored_entry(tables, entry_id) {
            Err(error) => Err(error),
            Ok(None) => Err(MemoryErrorView::InvalidRequest("memory entry not found"@)),
            Ok(Some(entry)) => {
                let expected = if entry.scope == MemoryScope::Project {
                    Some(entry.scope_id)
                } else {
                    None
                };
                match forget_source(entry.scope, expected, source) {
                    Err(error) => Err(error),
                    Ok((session_id, scope_id)) => if entry.scope_id != scope_id {
                        Err(MemoryErrorView::InvalidRequest("memory entry not found"@))
                    } else {
                        Ok(
                            PreparedMemoryForgetRequestView {
                                target: PreparedMemoryForgetTargetView::Exact(entry),
                                scope: entry.scope,
                                scope_id,
                                source_session_id: session_id,
                            },
                        )
                    },
                }
            },
        },
        MemoryForgetSelectorView::Text(text) => match body_of(text) {
            Err(error) => Err(error),
            Ok(body) => match forget_source(scope, None, source) {
                Err(error) => Err(error),
                Ok((session_id, scope_id)) => Ok(
                    PreparedMemoryForgetRequestView {
                        target: PreparedMemoryForgetTargetView::Text(body),
                        scope,
                        scope_id,
                        source_session_id: session_id,
                    },
                ),
            },
        },
    }
}

/// Finds the target of a forget request and resolves its scope.
pub fn prepare_forget(
    tables: &MemoryTables,
    selector: &MemoryForgetSelector,
    scope: MemoryScope,
    source: &MemoryForgetSource,
) -> (result: Result<PreparedMemoryForgetRequest, MemoryError>)
    ensures
        match result {
            Ok(prepared) => prepared_forget(tables@, selector@, scope, source@) == Ok::<
                PreparedMemoryForgetRequestView,
                MemoryErrorView,
            >(prepared@),
            Err(error) => prepared_forget(tables@, selector@, scope, source@) == Err::<
                PreparedMemoryForgetRequestView,
                MemoryErrorView,
            >(error@),
        },
{
    match selector {
        MemoryForgetSelector::EntryId(entry_id) => {
            let entry = match load_entry(tables, entry_id) {
                Err(error) => return Err(error),
                Ok(None) => return Err(
                    MemoryError::InvalidRequest("memory entry not found".to_string()),
                ),
                Ok(Some(entry)) => entry,
            };
            let expected: Option<String> = if entry.scope == MemoryScope::Project {
                Some(entry.scope_id.clone())
            } else {
                None
            };
            let (source_session_id, scope_id) = match resolve_forget_source(
                entry.scope,
                &expected,
                source,
            ) {
                Ok(resolved) => resolved,
                Err(error) => return Err(error),
            };
            if !same_text(entry.scope_id.as_str(), scope_id.as_str()) {
                return Err(MemoryError::InvalidRequest("memory entry not found".to_string()));
            }
            let scope = entry.scope;
            Ok(
                PreparedMemoryForgetRequest {
                    target: PreparedMemoryForgetTarget::Exact(entry),
                    scope,
                    scope_id,
                    source_session_id,
                },
            )
        },
        MemoryForgetSelector::Text(text) => {
            let body = match normalize_body(text.as_str()) {
                Ok(body) => body,
                Err(error) => return Err(error),
            };
            let expected: Option<String> = None;
            let (source_session_id, scope_id) = match resolve_forget_source(
                scope,
                &expected,
                source,
            ) {
                Ok(resolved) => resolved,
                Err(error) => return Err(error),
            };
            Ok(
                PreparedMemoryForgetRequest {
                    target: PreparedMemoryForgetTarget::Text(body),
                    scope,
                    scope_id,
                    source_session_id,
                },
            )
        },
    }
}

// ---------------------------------------------------------------------------
// Retiring an entry.
// ---------------------------------------------------------------------------
/// Accepts the entries of a scope whose body or key holds a text, in any ASCII
/// case.
pub open spec fn entry_matches(
    scope: Seq<char>,
    scope_id: Seq<char>,
    text: Seq<char>,
) -> spec_fn(EntryRowView) -> bool {
    |row: EntryRowView|
        row.scope_type == scope && row.scope_id == scope_id && (has_part(
            ascii_lower(row.body),
            ascii_lower(text),
        ) || has_part(ascii_lower(row.normalized_key), ascii_lower(text)))
}

/// The entries of a scope that a text matches, newest first.
pub open spec fn matching_rows(
    entries: Seq<EntryRowView>,
    scope: Seq<char>,
    scope_id: Seq<char>,
    text: Seq<char>,
) -> Seq<EntryRowView> {
    ordered(entries.filter(entry_matches(scope, scope_id, text)), newer_first())
}

fn holds_folded(text: &str, folded: &Vec<char>) -> (result: bool)
    ensures
        result == has_part(ascii_lower(text@), folded@),
{
    let chars = chars_of(text);
    let lower = to_ascii_lower(&chars);
    contains_part(&lower, folded)
}

fn select_matching(entries: &Vec<EntryRow>, scope: &str, scope_id: &str, text: &str) -> (result:
    Vec<EntryRow>)
    ensures
        views(result@) == matching_rows(views(entries@), scope@, scope_id@, text@),
{
    let chars = chars_of(text);
    let folded = to_ascii_lower(&chars);
    let ghost rows = views(entries@);
    let ghost accepts = entry_matches(scope@, scope_id@, text@);
    let mut result: Vec<EntryRow> = Vec::new();
    let mut i: usize = 0;
    assert(rows.take(0).filter(accepts) =~= Seq::<EntryRowView>::empty()) by {
        reveal(Seq::filter);
    }
    assert(views(result@) =~= Seq::<EntryRowView>::empty());
    while i < entries.len()
        invariant
            i <= entries.len(),
            rows == views(entries@),
            accepts == entry_matches(scope@, scope_id@, text@),
            folded@ == ascii_lower(text@),
            views(result@) == ordered(rows.take(i as int).filter(accepts), newer_first()),
        decreases entries.len() - i,
    {
        assert(rows[i as int] == entries@[i as int]@);
        proof {
            lemma_filter_take(rows, i as int, accepts);
        }
        if same_text(entries[i].scope_type.as_str(), scope) && same_text(
            entries[i].scope_id.as_str(),
            scope_id,
        ) && (holds_folded(entries[i].body.as_str(), &folded) || holds_folded(
            entries[i].normalized_key.as_str(),
            &folded,
        )) {
            let ghost chosen = rows.take(i as int).filter(accepts);
            assert(chosen.push(rows[i as int]).drop_last() =~= chosen);
            place_entry(&mut result, entries[i].clone());
        }
        i = i + 1;
    }
    assert(rows.take(entries.len() as int) =~= rows);
    result
}

/// Accepts the entry with an ID in a scope.
pub open spec fn scoped_entry_is(
    entry_id: Seq<char>,
    scope: Seq<char>,
    scope_id: Seq<char>,
) -> spec_fn(EntryRowView) -> bool {
    |row: EntryRowView|
        row.entry_id == entry_id && row.scope_type == scope && row.scope_id == scope_id
}

/// Whether a revocation with an ID is stored.
pub open spec fn has_revocation(
    revocations: Seq<RevocationRowView>,
    revocation_id: Seq<char>,
) -> bool {
    exists|i: int|
        0 <= i < revocations.len() && (#[trigger] revocations[i]).revocation_id == revocation_id
}

/// The revocations once an identity is revoked: its row is renewed, or one is
/// added.
pub open spec fn revoked_rows(
    revocations: Seq<RevocationRowView>,
    scope: Seq<char>,
    scope_id: Seq<char>,
    key: Seq<char>,
    now: Seq<char>,
    revocation_id: Seq<char>,
) -> Seq<RevocationRowView> {
    match first_match(revocations, revocation_is(scope, scope_id, key)) {
        Some(i) => revocations.update(
            i,
            RevocationRowView { revoked_at: now, restored_at: None, ..revocations[i] },
        ),
        None => revocations.push(
            RevocationRowView {
                revocation_id,
                scope_type: scope,
                scope_id,
                normalized_key: key,
                revoked_at: now,
                restored_at: None,
            },
        ),
    }
}

/// The store once an entry is retired and its identity revoked, or why not.
pub open spec fn retired(
    tables: MemoryTablesView,
    scope: MemoryScope,
    scope_id: Seq<char>,
    entry_id: Seq<char>,
    key: Seq<char>,
    now: Seq<char>,
    revocation_id: Seq<char>,
) -> Result<MemoryTablesView, MemoryErrorView> {
    if has_revocation(tables.revocations, revocation_id) {
        Err(
            MemoryErrorView::Database(
                "UNIQUE constraint failed: memory_revocations.revocation_id"@,
            ),
        )
    } else {
        match first_match(tables.entries, scoped_entry_is(entry_id, scope_text(scope), scope_id)) {
            None => Err(MemoryErrorView::InvalidRequest("memory entry not found"@)),
            Some(i) => Ok(
                MemoryTablesView {
                    entries: tables.entries.update(
                        i,
                        EntryRowView {
                            state: state_text(MemoryState::Retired),
                            updated_at: now,
                            ..tables.entries[i]
                        },
                    ),
                    revocations: revoked_rows(
                        tables.revocations,
                        scope_text(scope),
                        scope_id,
                        key,
                        now,
                        revocation_id,
                    ),
                    index: tables.index.filter(index_row_of_other(entry_id)),
                    ..tables
                },
            ),
        }
    }
}

/// What a forget request came to: its result, and the page to be written if an
/// entry was retired.
#[derive(Debug, PartialEq, Eq)]
pub struct ForgottenEntry {
    pub result: MemoryForgetResult,
    pub projection: Option<MemoryProjection>,
}

/// The view of [`ForgottenEntry`].
#[verifier::ext_equal]
pub struct ForgottenEntryView {
    pub result: MemoryForgetResultView,
    pub projection: Option<MemoryProjectionView>,
}

impl View for ForgottenEntry {
    type V = ForgottenEntryView;

    open spec fn view(&self) -> ForgottenEntryView {
        ForgottenEntryView {
            result: self.result@,
            projection: opt_view(self.projection),
        }
    }
}

impl Clone for ForgottenEntry {
    fn clone(&self) -> (result: Self)
        ensures
            result@ == self@,
    {
        let result = ForgottenEntry {
            result: self.result.clone(),
            projection: self.projection.clone(),
        };
        result
    }
}

/// What a forget request does: the store that it leaves, and what it returns.
pub struct ForgetStep {
    pub tables: MemoryTablesView,
    pub result: Result<ForgottenEntryView, MemoryErrorView>,
}

/// What is returned once an entry is retired: the entry and the page, or the
/// entry and why there is no page.
pub open spec fn forgotten_from(
    tables: MemoryTablesView,
    scope: MemoryScope,
    scope_id: Seq<char>,
    entry: MemoryEntryView,
) -> Result<ForgottenEntryView, MemoryErrorView> {
    let result = MemoryForgetResultView { forgotten: Some(entry), candidates: Seq::empty() };
    match projection_from(tables, scope, scope_id) {
        Ok(projection) => Ok(ForgottenEntryView { result, projection: Some(projection) }),
        Err(error) => Err(
            MemoryErrorView::ForgetCommitted { result, projection_error: Box::new(error) },
        ),
    }
}

/// A prepared forget request at an instant, with an ID at hand for a revocation.
/// A text must match exactly one entry: with more, the matching entries come back
/// and nothing changes.
pub open spec fn forget_step(
    tables: MemoryTablesView,
    request: PreparedMemoryForgetRequestView,
    now: Timestamp,
    revocation_id: Seq<char>,
) -> ForgetStep {
    let scope = request.scope;
    let scope_id = request.scope_id;
    match request.target {
        PreparedMemoryForgetTargetView::Exact(entry) => match retired(
            tables,
            scope,
            scope_id,
            entry.entry_id,
            entry.normalized_key,
            now.text(),
            revocation_id,
        ) {
            Err(error) => ForgetStep { tables, result: Err(error) },
            Ok(after) => ForgetStep {
                tables: after,
                result: forgotten_from(
                    after,
                    scope,
                    scope_id,
                    MemoryEntryView { state: MemoryState::Retired, updated_at: now, ..entry },
                ),
            },
        },
        PreparedMemoryForgetTargetView::Text(text) => {
            let targets = matching_rows(tables.entries, scope_text(scope), scope_id, text);
            if targets.len() == 0 {
                ForgetStep {
                    tables,
                    result: Err(MemoryErrorView::InvalidRequest("memory entry not found"@)),
                }
            } else if targets.len() > 1 {
                ForgetStep {
                    tables,
                    result: match entries_from(targets, tables.evidence) {
                        Err(error) => Err(error),
                        Ok(candidates) => Ok(
                            ForgottenEntryView {
                                result: MemoryForgetResultView { forgotten: None, candidates },
                                projection: None,
                            },
                        ),
                    },
                }
            } else {
                match retired(
                    tables,
                    scope,
                    scope_id,
                    targets[0].entry_id,
                    targets[0].normalized_key,
                    now.text(),
                    revocation_id,
                ) {
                    Err(error) => ForgetStep { tables, result: Err(error) },
                    Ok(after) => match stored_entry(after, targets[0].entry_id) {
                        Err(error) => ForgetStep { tables, result: Err(error) },
                        Ok(None) => ForgetStep {
                            tables,
                            result: Err(
                                MemoryErrorView::InvalidStoredValue("forgotten entry is missing"@),
                            ),
                        },
                        Ok(Some(entry)) => ForgetStep {
                            tables: after,
                            result: forgotten_from(after, scope, scope_id, entry),
                        },
                    },
                }
            }
        },
    }
}

fn uses_revocation_id(revocations: &Vec<RevocationRow>, revocation_id: &str) -> (result: bool)
    ensures
        result == has_revocation(views(revocations@), revocation_id@),
{
    let ghost rows = views(revocations@);
    let mut i: usize = 0;
    while i < revocations.len()
        invariant
            i <= revocations.len(),
            rows == views(revocations@),
            forall|j: int| 0 <= j < i ==> (#[trigger] rows[j]).revocation_id != revocation_id@,
        decreases revocations.len() - i,
    {
        assert(rows[i as int] == revocations@[i as int]@);
        if same_text(revocations[i].revocation_id.as_str(), revocation_id) {
            return true;
        }
        i = i + 1;
    }
    false
}

fn find_scoped_entry(
    entries: &Vec<EntryRow>,
    entry_id: &str,
    scope: &str,
    scope_id: &str,
) -> (result:
    Option<usize>)
    ensures
        match result {
            Some(i) => i < entries.len() && first_match(
                views(entries@),
                scoped_entry_is(entry_id@, scope@, scope_id@),
            ) == Some(i as int),
            None => first_match(
                views(entries@),
                scoped_entry_is(entry_id@, scope@, scope_id@),
            ) is None,
        },
{
    let ghost rows = views(entries@);
    let ghost accepts = scoped_entry_is(entry_id@, scope@, scope_id@);
    let mut i: usize = 0;
    while i < entries.len()
        invariant
            i <= entries.len(),
            rows == views(entries@),
            accepts == scoped_entry_is(entry_id@, scope@, scope_id@),
            forall|j: int| 0 <= j < i ==> !accepts(#[trigger] rows[j]),
        decreases entries.len() - i,
    {
        assert(rows[i as int] == entries@[i as int]@);
        if same_text(entries[i].entry_id.as_str(), entry_id) && same_text(
            entries[i].scope_type.as_str(),
            scope,
        ) && same_text(entries[i].scope_id.as_str(), scope_id) {
            proof {
                lemma_is_first_match(rows, accepts, i as int);
            }
            return Some(i);
        }
        i = i + 1;
    }
    proof {
        lemma_no_match(rows, accepts);
    }
    None
}

/// Retires an entry and revokes its identity.
fn retire(
    tables: &mut MemoryTables,
    scope: MemoryScope,
    scope_id: &str,
    entry_id: &str,
    key: &str,
    at: &String,
    new_revocation_id: &String,
) -> (result: Result<(), MemoryError>)
    ensures
        match (
            result,
            retired(old(tables)@, scope, scope_id@, entry_id@, key@, at@, new_revocation_id@),
        ) {
            (Ok(_), Ok(after)) => final(tables)@ == after,
            (Err(error), Err(refusal)) => final(tables)@ == old(tables)@ && error@ == refusal,
            _ => false,
        },
{
    let ghost before = tables@;
    if uses_revocation_id(&tables.revocations, new_revocation_id.as_str()) {
        return Err(
            MemoryError::Database(
                "UNIQUE constraint failed: memory_revocations.revocation_id".to_string(),
            ),
        );
    }
    let i = match find_scoped_entry(&tables.entries, entry_id, scope_name(scope), scope_id) {
        Some(i) => i,
        None => return Err(MemoryError::InvalidRequest("memory entry not found".to_string())),
    };
    match find_revocation(&tables.revocations, scope_name(scope), scope_id, key) {
        Some(k) => {
            let mut row = tables.revocations[k].clone();
            row.revoked_at = at.clone();
            row.restored_at = None;
            let ghost renewed = row@;
            tables.revocations.set(k, row);
            assert(views(tables.revocations@) =~= before.revocations.update(k as int, renewed));
        },
        None => {
            let row = RevocationRow {
                revocation_id: new_revocation_id.clone(),
                scope_type: scope_name(scope).to_string(),
                scope_id: scope_id.to_string(),
                normalized_key: key.to_string(),
                revoked_at: at.clone(),
                restored_at: None,
            };
            let ghost added = row@;
            tables.revocations.push(row);
            assert(views(tables.revocations@) =~= before.revocations.push(added));
        },
    }
    let mut row = tables.entries[i].clone();
    row.state = "retired".to_string();
    row.updated_at = at.clone();
    let ghost closed = row@;
    tables.entries.set(i, row);
    assert(views(tables.entries@) =~= before.entries.update(i as int, closed));
    drop_index_row(&mut tables.index, entry_id);
    assert(Ok::<MemoryTablesView, MemoryErrorView>(tables@) == retired(
        before,
        scope,
        scope_id@,
        entry_id@,
        key@,
        at@,
        new_revocation_id@,
    ));
    Ok(())
}

fn conclude(
    tables: &MemoryTables,
    scope: MemoryScope,
    scope_id: &str,
    entry: MemoryEntry,
) -> (result:
    Result<ForgottenEntry, MemoryError>)
    ensures
        forgotten_result(result) == forgotten_from(tables@, scope, scope_id@, entry@),
{
    let ghost forgotten = entry@;
    let candidates: Vec<MemoryEntry> = Vec::new();
    let result = MemoryForgetResult { forgotten: Some(entry), candidates };
    assert(result@.candidates =~= Seq::<MemoryEntryView>::empty());
    match refresh_projection(tables, scope, scope_id) {
        Ok(projection) => Ok(ForgottenEntry { result, projection: Some(projection) }),
        Err(error) => {
            let failure = MemoryError::ForgetCommitted {
                result: Box::new(result),
                projection_error: Box::new(error),
            };
            Err(failure)
        },
    }
}

/// The view of what a forget request returns.
pub open spec fn forgotten_result(result: Result<ForgottenEntry, MemoryError>) -> Result<
    ForgottenEntryView,
    MemoryErrorView,
> {
    match result {
        Ok(forgotten) => Ok(forgotten@),
        Err(error) => Err(error@),
    }
}

/// Performs a prepared forget request at a given instant, with a given ID for a
/// revocation.
pub fn forget_at(
    tables: &mut MemoryTables,
    request: &PreparedMemoryForgetRequest,
    at: Timestamp,
    new_revocation_id: &String,
) -> (result: Result<ForgottenEntry, MemoryError>)
    ensures
        forget_step(old(tables)@, request@, at, new_revocation_id@) == (ForgetStep {
            tables: final(tables)@,
            result: forgotten_result(result),
        }),
{
    let scope = request.scope;
    let scope_id = request.scope_id.as_str();
    let written_at = at.to_rfc3339();
    match &request.target {
        PreparedMemoryForgetTarget::Exact(entry) => {
            match retire(
                tables,
                scope,
                scope_id,
                entry.entry_id.as_str(),
                entry.normalized_key.as_str(),
                &written_at,
                new_revocation_id,
            ) {
                Ok(_) => {},
                Err(error) => return Err(error),
            }
            let mut entry_after = entry.clone();
            entry_after.state = MemoryState::Retired;
            entry_after.updated_at = at;
            conclude(tables, scope, scope_id, entry_after)
        },
        PreparedMemoryForgetTarget::Text(text) => {
            let targets = select_matching(
                &tables.entries,
                scope_name(scope),
                scope_id,
                text.as_str(),
            );
            assert(views(targets@).len() == targets.len());
            if targets.len() == 0 {
                return Err(MemoryError::InvalidRequest("memory entry not found".to_string()));
            }
            if targets.len() > 1 {
                return match load_rows(&targets, &tables.evidence) {
                    Err(error) => Err(error),
                    Ok(candidates) => Ok(
                        ForgottenEntry {
                            result: MemoryForgetResult { forgotten: None, candidates },
                            projection: None,
                        },
                    ),
                };
            }
            assert(views(targets@)[0] == targets@[0]@);
            let mut draft = tables.clone();
            match retire(
                &mut draft,
                scope,
                scope_id,
                targets[0].entry_id.as_str(),
                targets[0].normalized_key.as_str(),
                &written_at,
                new_revocation_id,
            ) {
                Ok(_) => {},
                Err(error) => return Err(error),
            }
            let entry_id = MemoryEntryId::from_string(targets[0].entry_id.clone());
            match load_entry(&draft, &entry_id) {
                Err(error) => Err(error),
                Ok(None) => Err(
                    MemoryError::InvalidStoredValue("forgotten entry is missing".to_string()),
                ),
                Ok(Some(entry)) => {
                    *tables = draft;
                    conclude(tables, scope, scope_id, entry)
                },
            }
        },
    }
}

/// Performs a prepared forget request now. Which instant that is, and which ID a
/// revocation gets, is open; whatever they are, it is [`forget_step`] for them.
pub fn forget(tables: &mut MemoryTables, request: &PreparedMemoryForgetRequest) -> (result: Result<
    ForgottenEntry,
    MemoryError,
>)
    ensures
        exists|at: Timestamp, revocation_id: Seq<char>|
            at.is_told_by_clock() && is_simple_uuid(revocation_id) && #[trigger] forget_step(
                old(tables)@,
                request@,
                at,
                revocation_id,
            ) == (ForgetStep { tables: final(tables)@, result: forgotten_result(result) }),
{
    let at = now();
    let revocation_id = fresh_uuid();
    forget_at(tables, request, at, &revocation_id)
}

/// Finishes a forget request once its page was written, or could not be.
pub fn finish_forget(forgotten: ForgottenEntry, page_write: Result<(), MemoryError>) -> (result:
    Result<MemoryForgetResult, MemoryError>)
    ensures
        match page_write {
            Ok(_) => result matches Ok(returned) && returned@ == forgotten@.result,
            Err(error) => result matches Err(failure) && failure@
                == (MemoryErrorView::ForgetCommitted {
                result: forgotten@.result,
                projection_error: Box::new(error@),
            }),
        },
{
    match page_write {
        Ok(_) => Ok(forgotten.result),
        Err(error) => {
            let failure = MemoryError::ForgetCommitted {
                result: Box::new(forgotten.result),
                projection_error: Box::new(error),
            };
            Err(failure)
        },
    }
}

} // verus!
