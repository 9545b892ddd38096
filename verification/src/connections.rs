//! Which sessions a connection has to do with.

use vstd::prelude::*;

use crate::command_types::{
    ProjectMemorySession, ProjectMemorySessionActivity, ProjectMemorySessionView, WorkspaceRoot,
};
use crate::core_ids::SessionId;
use crate::ids::{uuid_text, uuid_value};
use crate::text::{law_text_order, less, opt_view, text_less};

verus! {

// ---------------------------------------------------------------------------
// The session of a connection.
// ---------------------------------------------------------------------------
/// Whether a session is the one that subscriptions name, and the only one.
pub open spec fn is_only_session(
    subscribed: Seq<Option<SessionId>>,
    session_id: SessionId,
) -> bool {
    &&& subscribed.contains(Some(session_id))
    &&& forall|i: int|
        0 <= i < subscribed.len() ==> #[trigger] subscribed[i] is None || subscribed[i] == Some(
            session_id,
        )
}

/// The session that the subscriptions of a connection name, if they name one and
/// no other.
pub fn subscribed_session(subscribed: &Vec<Option<SessionId>>) -> (result: Option<SessionId>)
    ensures
        match result {
            Some(session_id) => is_only_session(subscribed@, session_id),
            None => forall|session_id: SessionId| !#[trigger] is_only_session(
                subscribed@,
                session_id,
            ),
        },
{
    let mut found: Option<SessionId> = None;
    let mut i: usize = 0;
    while i < subscribed.len()
        invariant
            i <= subscribed.len(),
            match found {
                Some(session_id) => is_only_session(subscribed@.take(i as int), session_id),
                None => forall|j: int| 0 <= j < i ==> #[trigger] subscribed@[j] is None,
            },
        decreases subscribed.len() - i,
    {
        let ghost front = subscribed@.take(i as int);
        let ghost next = subscribed@.take(i + 1);
        assert(next =~= front.push(subscribed@[i as int]));
        if let Some(session_id) = subscribed[i] {
            if let Some(known) = found {
                if known != session_id {
                    proof {
                        let at = choose|j: int| 0 <= j < front.len() && front[j] == Some(known);
                        assert(subscribed@[at] == Some(known));
                        assert forall|other: SessionId| !#[trigger] is_only_session(
                            subscribed@,
                            other,
                        ) by {
                            assert(subscribed@[i as int] == Some(session_id));
                        }
                    }
                    return None;
                }
                assert(next[i as int] == Some(session_id));
                assert(forall|j: int| 0 <= j < i ==> next[j] == front[j]);
            } else {
                assert(next[i as int] == Some(session_id));
                assert(forall|j: int| 0 <= j < i ==> next[j] == subscribed@[j]);
            }
            found = Some(session_id);
        } else if found.is_some() {
            proof {
                let known = found->Some_0;
                let at = choose|j: int| 0 <= j < front.len() && front[j] == Some(known);
                assert(next[at] == Some(known));
                assert(forall|j: int| 0 <= j < i ==> next[j] == front[j]);
            }
        }
        i = i + 1;
    }
    assert(subscribed@.take(i as int) =~= subscribed@);
    found
}

// ---------------------------------------------------------------------------
// The sessions that a native client has selected.
// ---------------------------------------------------------------------------
/// What a native client follows.
#[derive(Debug, PartialEq, Eq)]
pub enum StreamSelector {
    /// A session, by the text of its ID.
    Session { session_id: String },
    /// Something else.
    Other,
}

/// A subscription of a native client.
#[derive(Debug, PartialEq, Eq)]
pub struct EventSubscription {
    pub connection_id: u64,
    pub selectors: Vec<StreamSelector>,
}

/// Whether a selector names a session.
pub open spec fn selects(selector: StreamSelector, session_id: SessionId) -> bool {
    selector matches StreamSelector::Session { session_id: text } && uuid_value(text@) == Some(
        session_id.value,
    )
}

/// Whether a subscription of a connection names a session.
pub open spec fn subscribes(
    subscription: EventSubscription,
    connection_id: u64,
    session_id: SessionId,
) -> bool {
    &&& subscription.connection_id == connection_id
    &&& exists|j: int|
        0 <= j < subscription.selectors@.len() && selects(
            #[trigger] subscription.selectors@[j],
            session_id,
        )
}

/// Whether any subscription of a connection names a session.
pub open spec fn is_selected(
    subscriptions: Seq<EventSubscription>,
    connection_id: u64,
    session_id: SessionId,
) -> bool {
    exists|i: int|
        0 <= i < subscriptions.len() && subscribes(
            #[trigger] subscriptions[i],
            connection_id,
            session_id,
        )
}

/// Whether sessions stand in the order of the texts of their IDs, each once.
pub open spec fn in_text_order(sessions: Seq<SessionId>) -> bool {
    forall|i: int, j: int|
        0 <= i < j < sessions.len() ==> text_less(
            uuid_text(#[trigger] sessions[i].value),
            uuid_text(#[trigger] sessions[j].value),
        )
}

fn insert_session(sessions: &mut Vec<SessionId>, session_id: SessionId)
    requires
        in_text_order(old(sessions)@),
    ensures
        in_text_order(final(sessions)@),
        forall|other: SessionId| #[trigger]
            final(sessions)@.contains(other) <==> old(sessions)@.contains(other) || other
                == session_id,
{
    let ghost before = sessions@;
    let text = session_id.to_text();
    let mut at: usize = 0;
    while at < sessions.len()
        invariant
            at <= sessions.len(),
            sessions@ == before,
            before == old(sessions)@,
            in_text_order(before),
            text@ == uuid_text(session_id.value),
            uuid_value(text@) == Some(session_id.value),
            forall|j: int|
                0 <= j < at ==> text_less(uuid_text(#[trigger] before[j].value), text@),
        decreases sessions.len() - at,
    {
        let known = sessions[at].to_text();
        if sessions[at] == session_id {
            assert(before[at as int] == session_id);
            assert forall|other: SessionId| #[trigger] before.contains(other) <==> before.contains(
                other,
            ) || other == session_id by {}
            return;
        }
        if !less(known.as_str(), text.as_str()) {
            proof {
                law_text_order(known@, text@, text@);
                assert(text_less(text@, known@));
                lemma_inserted(before, at as int, session_id);
            }
            sessions.insert(at, session_id);
            return;
        }
        at = at + 1;
    }
    sessions.push(session_id);
    proof {
        let after = sessions@;
        assert(after == before.push(session_id));
        assert forall|i: int, j: int| 0 <= i < j < after.len() implies text_less(
            uuid_text(#[trigger] after[i].value),
            uuid_text(#[trigger] after[j].value),
        ) by {
            assert(after[i] == before[i]);
            if j < before.len() {
                assert(after[j] == before[j]);
            }
        }
        assert forall|other: SessionId| #[trigger] after.contains(other) <==> before.contains(other)
            || other == session_id by {
            if before.contains(other) {
                let k = choose|k: int| 0 <= k < before.len() && before[k] == other;
                assert(after[k] == other);
            }
            assert(after[before.len() as int] == session_id);
        }
    }
}

proof fn lemma_inserted(before: Seq<SessionId>, at: int, session_id: SessionId)
    requires
        0 <= at < before.len(),
        in_text_order(before),
        forall|j: int|
            0 <= j < at ==> text_less(
                uuid_text(#[trigger] before[j].value),
                uuid_text(session_id.value),
            ),
        text_less(uuid_text(session_id.value), uuid_text(before[at].value)),
    ensures
        in_text_order(before.insert(at, session_id)),
        forall|other: SessionId| #[trigger]
            before.insert(at, session_id).contains(other) <==> before.contains(other) || other
                == session_id,
{
    let after = before.insert(at, session_id);
    let text = uuid_text(session_id.value);
    assert forall|i: int, j: int| 0 <= i < j < after.len() implies text_less(
        uuid_text(#[trigger] after[i].value),
        uuid_text(#[trigger] after[j].value),
    ) by {
        if i < at {
            assert(after[i] == before[i]);
        } else if i > at {
            assert(after[i] == before[i - 1]);
        }
        if j < at {
            assert(after[j] == before[j]);
        } else if j > at {
            assert(after[j] == before[j - 1]);
            if i == at && j - 1 > at {
                law_text_order(text, uuid_text(before[at].value), uuid_text(before[j - 1].value));
            }
        }
    }
    assert forall|other: SessionId| #[trigger] after.contains(other) <==> before.contains(other)
        || other == session_id by {
        assert(after[at] == session_id);
        if before.contains(other) {
            let k = choose|k: int| 0 <= k < before.len() && before[k] == other;
            if k < at {
                assert(after[k] == other);
            } else {
                assert(after[k + 1] == other);
            }
        }
        if after.contains(other) && other != session_id {
            let k = choose|k: int| 0 <= k < after.len() && after[k] == other;
            if k < at {
                assert(before[k] == other);
            } else {
                assert(before[k - 1] == other);
            }
        }
    }
}

/// Whether the first subscriptions of a connection, and the first selectors of the
/// next one, name a session.
spec fn is_selected_so_far(
    subscriptions: Seq<EventSubscription>,
    connection_id: u64,
    done: int,
    selectors_done: int,
    session_id: SessionId,
) -> bool {
    ||| is_selected(subscriptions.take(done), connection_id, session_id)
    ||| exists|j: int|
        0 <= j < selectors_done && selects(
            #[trigger] subscriptions[done].selectors@[j],
            session_id,
        )
}

/// The sessions that the subscriptions of a connection name, each once, in the
/// order of the texts of their IDs.
pub fn native_session_ids_for_connection(
    subscriptions: &Vec<EventSubscription>,
    connection_id: u64,
) -> (result: Vec<SessionId>)
    ensures
        in_text_order(result@),
        forall|session_id: SessionId| #[trigger]
            result@.contains(session_id) <==> is_selected(
                subscriptions@,
                connection_id,
                session_id,
            ),
{
    let mut sessions: Vec<SessionId> = Vec::new();
    let mut i: usize = 0;
    while i < subscriptions.len()
        invariant
            i <= subscriptions.len(),
            in_text_order(sessions@),
            forall|session_id: SessionId| #[trigger]
                sessions@.contains(session_id) <==> is_selected(
                    subscriptions@.take(i as int),
                    connection_id,
                    session_id,
                ),
        decreases subscriptions.len() - i,
    {
        let ghost front = subscriptions@.take(i as int);
        let ghost next = subscriptions@.take(i + 1);
        let subscription = &subscriptions[i];
        assert(next[i as int] == *subscription);
        assert(forall|k: int| 0 <= k < i ==> next[k] == front[k]);
        if subscription.connection_id == connection_id {
            let mut j: usize = 0;
            while j < subscription.selectors.len()
                invariant
                    i < subscriptions.len(),
                    j <= subscription.selectors.len(),
                    subscription == subscriptions@[i as int],
                    in_text_order(sessions@),
                    forall|session_id: SessionId| #[trigger]
                        sessions@.contains(session_id) <==> is_selected_so_far(
                            subscriptions@,
                            connection_id,
                            i as int,
                            j as int,
                            session_id,
                        ),
                decreases subscription.selectors.len() - j,
            {
                let ghost before = sessions@;
                let ghost selector = subscription.selectors@[j as int];
                if let StreamSelector::Session { session_id: text } = &subscription.selectors[j] {
                    if let Some(session_id) = SessionId::parse(text.as_str()) {
                        insert_session(&mut sessions, session_id);
                    }
                }
                assert forall|session_id: SessionId| #[trigger]
                    sessions@.contains(session_id) <==> is_selected_so_far(
                    subscriptions@,
                    connection_id,
                    i as int,
                    j + 1,
                    session_id,
                ) by {
                    assert(sessions@.contains(session_id) <==> before.contains(session_id)
                        || selects(selector, session_id));
                    assert(subscriptions@[i as int].selectors@[j as int] == selector);
                    if is_selected_so_far(
                        subscriptions@,
                        connection_id,
                        i as int,
                        j as int,
                        session_id,
                    ) && !is_selected(subscriptions@.take(i as int), connection_id, session_id) {
                        let k = choose|k: int|
                            0 <= k < j && selects(
                                #[trigger] subscriptions@[i as int].selectors@[k],
                                session_id,
                            );
                        assert(0 <= k < j + 1);
                    }
                }
                j = j + 1;
            }
        }
        assert forall|session_id: SessionId| #[trigger]
            sessions@.contains(session_id) <==> is_selected(next, connection_id, session_id) by {
            if is_selected(front, connection_id, session_id) {
                let k = choose|k: int|
                    0 <= k < front.len() && subscribes(
                        #[trigger] front[k],
                        connection_id,
                        session_id,
                    );
                assert(subscribes(next[k], connection_id, session_id));
            }
            if is_selected(next, connection_id, session_id) {
                let k = choose|k: int|
                    0 <= k < next.len() && subscribes(
                        #[trigger] next[k],
                        connection_id,
                        session_id,
                    );
                if k < i {
                    assert(subscribes(front[k], connection_id, session_id));
                } else {
                    assert(subscribes(*subscription, connection_id, session_id));
                }
            }
            if subscription.connection_id == connection_id && sessions@.contains(session_id)
                && !is_selected(front, connection_id, session_id) {
                assert(subscribes(next[i as int], connection_id, session_id));
            }
        }
        i = i + 1;
    }
    assert(subscriptions@.take(i as int) =~= subscriptions@);
    sessions
}

// ---------------------------------------------------------------------------
// The sessions that a project command may be about.
// ---------------------------------------------------------------------------
/// Sessions and those of others that are not among them yet, in order.
pub open spec fn united_sessions(sessions: Seq<SessionId>, others: Seq<SessionId>) -> Seq<SessionId>
    decreases others.len(),
{
    if others.len() == 0 {
        sessions
    } else {
        let front = united_sessions(sessions, others.drop_last());
        if front.contains(others.last()) {
            front
        } else {
            front.push(others.last())
        }
    }
}

fn holds_session(sessions: &Vec<SessionId>, session_id: SessionId) -> (result: bool)
    ensures
        result == sessions@.contains(session_id),
{
    let mut i: usize = 0;
    while i < sessions.len()
        invariant
            i <= sessions.len(),
            forall|j: int| 0 <= j < i ==> sessions@[j] != session_id,
        decreases sessions.len() - i,
    {
        if sessions[i] == session_id {
            return true;
        }
        i = i + 1;
    }
    false
}

/// The sessions that a project command of a connection may be about: those with an
/// active turn, and then those that the client selected.
pub fn project_session_ids(active: &Vec<SessionId>, selected: &Vec<SessionId>) -> (result: Vec<
    SessionId,
>)
    ensures
        result@ == united_sessions(active@, selected@),
{
    let mut sessions: Vec<SessionId> = active.clone();
    assert(sessions@ =~= active@);
    let mut i: usize = 0;
    while i < selected.len()
        invariant
            i <= selected.len(),
            sessions@ == united_sessions(active@, selected@.take(i as int)),
        decreases selected.len() - i,
    {
        let ghost next = selected@.take(i + 1);
        assert(next.drop_last() =~= selected@.take(i as int));
        if !holds_session(&sessions, selected[i]) {
            sessions.push(selected[i]);
        }
        i = i + 1;
    }
    assert(selected@.take(i as int) =~= selected@);
    sessions
}

/// The workspace of a session, if its summary is available.
#[derive(Debug, PartialEq, Eq)]
pub struct SessionWorkspace {
    pub session_id: SessionId,
    pub workspace_root: Option<WorkspaceRoot>,
}

/// What a project command has to know of a session.
pub open spec fn project_session(
    workspace: SessionWorkspace,
    active: Seq<SessionId>,
) -> ProjectMemorySessionView {
    ProjectMemorySessionView {
        session_id: workspace.session_id,
        workspace_root: opt_view(workspace.workspace_root),
        activity: if active.contains(workspace.session_id) {
            ProjectMemorySessionActivity::Active
        } else {
            ProjectMemorySessionActivity::Inactive
        },
    }
}

/// What a project command has to know of the sessions that it may be about.
pub fn project_memory_sessions(
    workspaces: Vec<SessionWorkspace>,
    active: &Vec<SessionId>,
) -> (result:
    Vec<ProjectMemorySession>)
    ensures
        result@.len() == workspaces@.len(),
        forall|i: int|
            0 <= i < workspaces@.len() ==> (#[trigger] result@[i])@ == project_session(
                workspaces@[i],
                active@,
            ),
{
    let mut sessions: Vec<ProjectMemorySession> = Vec::new();
    let mut i: usize = 0;
    while i < workspaces.len()
        invariant
            i <= workspaces.len(),
            sessions.len() == i,
            forall|j: int|
                0 <= j < i ==> (#[trigger] sessions@[j])@ == project_session(
                    workspaces@[j],
                    active@,
                ),
        decreases workspaces.len() - i,
    {
        let workspace = &workspaces[i];
        let workspace_root = match &workspace.workspace_root {
            Some(root) => Some(root.clone()),
            None => None,
        };
        let activity = if holds_session(active, workspace.session_id) {
            ProjectMemorySessionActivity::Active
        } else {
            ProjectMemorySessionActivity::Inactive
        };
        sessions.push(
            ProjectMemorySession { session_id: workspace.session_id, workspace_root, activity },
        );
        i = i + 1;
    }
    sessions
}

/// A project command is about no session twice, unless the active ones repeat one,
/// and about every active and every selected one.
pub proof fn law_project_sessions_are_complete(active: Seq<SessionId>, selected: Seq<SessionId>)
    ensures
        forall|session_id: SessionId| #[trigger]
            united_sessions(active, selected).contains(session_id) <==> active.contains(session_id)
                || selected.contains(session_id),
        active.no_duplicates() ==> united_sessions(active, selected).no_duplicates(),
    decreases selected.len(),
{
    if selected.len() > 0 {
        let front = united_sessions(active, selected.drop_last());
        let last = selected.last();
        law_project_sessions_are_complete(active, selected.drop_last());
        assert forall|session_id: SessionId| #[trigger]
            united_sessions(active, selected).contains(session_id) <==> active.contains(session_id)
            || selected.contains(session_id) by {
            if selected.contains(session_id) && session_id != last {
                let k = choose|k: int| 0 <= k < selected.len() && selected[k] == session_id;
                assert(selected.drop_last()[k] == session_id);
            }
            if selected.drop_last().contains(session_id) {
                let k = choose|k: int|
                    0 <= k < selected.drop_last().len() && selected.drop_last()[k] == session_id;
                assert(selected[k] == session_id);
            }
            assert(selected[selected.len() - 1] == last);
            let pushed = front.push(last);
            assert(pushed[front.len() as int] == last);
            if front.contains(session_id) {
                let k = choose|k: int| 0 <= k < front.len() && front[k] == session_id;
                assert(pushed[k] == session_id);
            }
        }
    }
}

} // verus!
