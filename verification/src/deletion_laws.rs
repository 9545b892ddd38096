//! Laws of the permission to forget: which words of the user give it, what they give
//! it for, and how it ends.

use vstd::prelude::*;

use crate::command_types::MemoryCommandResult;
use crate::core_ids::SessionId;
use crate::forget_authorization::{
    agent_step, candidate_is, complete_step, names_entry, native_step, other_candidate, released,
    search_step, ActiveForgetKind, ForgetCommandGrammar, ForgetStateView, MemoryToolInvocationView,
    PendingForgetCandidateView, PendingForgetSelectionView,
};
use crate::forget_execution::{forget_end, MemoryForgetExecutionErrorView};
use crate::memory_error::MemoryError;
use crate::rows::{first_match, lemma_filter_holds, lemma_first_match};
use crate::rpc_memory::{MemoryForgetResultView, MemoryScope, MemorySearchEntryView};
use crate::text::trimmed;
use crate::text_laws::{law_lower_case_compares_letters, reads_as};
use crate::tool_error::ToolCallErrorView;

verus! {

// ---------------------------------------------------------------------------
// The words.
// ---------------------------------------------------------------------------
/// Whether words ask to forget the entry whose ID follows them.
pub open spec fn asks_to_forget(words: Seq<char>) -> bool {
    reads_as(words, "forget memory entry "@) || words
        == "\u{5220}\u{9664}\u{8bb0}\u{5fc6}\u{6761}\u{76ee} "@
}

/// Whether words confirm to forget the entry whose ID follows them.
pub open spec fn confirms_to_forget(words: Seq<char>) -> bool {
    reads_as(words, "confirm forget memory entry "@) || words
        == "\u{786e}\u{8ba4}\u{5220}\u{9664}\u{8bb0}\u{5fc6}\u{6761}\u{76ee} "@
}

/// A text names an entry if, without the whitespace round it, it is the words of the
/// command and then the ID, letter by letter. The case of the ASCII letters of the words
/// does not count, that of the ID does.
pub proof fn law_command_is_words_and_id(
    user_text: Seq<char>,
    words: Seq<char>,
    entry_id: Seq<char>,
)
    ensures
        trimmed(user_text) == words + entry_id ==> {
            &&& names_entry(ForgetCommandGrammar::Direct, user_text, entry_id) <==> asks_to_forget(
                words,
            )
            &&& names_entry(ForgetCommandGrammar::Confirmation, user_text, entry_id)
                <==> confirms_to_forget(words)
        },
        (forall|words: Seq<char>| trimmed(user_text) != #[trigger] (words + entry_id)) ==> {
            &&& !names_entry(ForgetCommandGrammar::Direct, user_text, entry_id)
            &&& !names_entry(ForgetCommandGrammar::Confirmation, user_text, entry_id)
        },
{
    let text = trimmed(user_text);
    law_lower_case_compares_letters(words, "forget memory entry "@);
    law_lower_case_compares_letters(words, "confirm forget memory entry "@);
    let cut = text.len() - entry_id.len();
    let ask = "\u{5220}\u{9664}\u{8bb0}\u{5fc6}\u{6761}\u{76ee} "@;
    let confirm = "\u{786e}\u{8ba4}\u{5220}\u{9664}\u{8bb0}\u{5fc6}\u{6761}\u{76ee} "@;
    if text == words + entry_id {
        assert(text.skip(cut) =~= entry_id);
        assert(text.take(cut) =~= words);
        if text == ask + entry_id {
            assert((ask + entry_id).take(cut) =~= ask);
        }
        if text == confirm + entry_id {
            assert((confirm + entry_id).take(cut) =~= confirm);
        }
    }
    if forall|words: Seq<char>| text != #[trigger] (words + entry_id) {
        assert(text != ask + entry_id);
        assert(text != confirm + entry_id);
        if cut >= 0 && text.skip(cut) == entry_id {
            assert(text =~= text.take(cut) + entry_id);
            assert(false);
        }
    }
}

// ---------------------------------------------------------------------------
// The permission.
// ---------------------------------------------------------------------------
/// Whether a selection still stands at an instant: it has not expired, or a deletion
/// that the user confirmed out of it is running.
pub open spec fn still_stands(state: ForgetStateView, session_id: SessionId, now: u64) -> bool {
    &&& state.pending.contains_key(session_id)
    &&& state.pending[session_id].expires_at > now || (state.active matches Some(active)
        && active.session_id == session_id && active.kind == (ActiveForgetKind::AgentConfirmed {
        selection_id: state.pending[session_id].selection_id,
    }))
}

/// Whether the selections of a state at an instant are those of an earlier one that
/// still stand, for the sessions that a condition admits.
pub open spec fn keeps_selections(
    before: ForgetStateView,
    after: ForgetStateView,
    now: u64,
    session_id: SessionId,
) -> bool {
    &&& after.pending.contains_key(session_id) <==> still_stands(before, session_id, now)
    &&& after.pending.contains_key(session_id) ==> after.pending[session_id]
        == before.pending[session_id]
}

/// Whether a candidate is the first with an ID among those of a selection.
pub open spec fn is_candidate(
    selection: PendingForgetSelectionView,
    entry_id: Seq<char>,
    i: int,
) -> bool {
    &&& 0 <= i < selection.candidates.len()
    &&& selection.candidates[i].entry_id == entry_id
    &&& forall|j: int| 0 <= j < i ==> (#[trigger] selection.candidates[j]).entry_id != entry_id
}

/// An agent may forget an entry if and only if the user asked for it by the words and
/// the ID, or confirmed it so out of a selection that still stands, that offers the
/// entry, and that came of another turn and another message. What was asked for outright
/// is forgotten in the scope that the agent names; what was confirmed, in the scope that
/// was offered. The permission is for that entry alone.
pub proof fn law_agent_needs_the_words_and_the_id(
    state: ForgetStateView,
    invocation: MemoryToolInvocationView,
    user_text: Seq<char>,
    words: Seq<char>,
    entry_id: Seq<char>,
    scope: MemoryScope,
    now: u64,
)
    requires
        state.active is None,
        state.next_reservation_id < u64::MAX,
        trimmed(user_text) == words + entry_id,
    ensures
        ({
            let step = agent_step(state, invocation, user_text, entry_id, scope, now);
            let selection = state.pending[invocation.session_id];
            let offered = state.pending.contains_key(invocation.session_id)
                && selection.expires_at > now && selection.source_turn_id != invocation.turn_id
                && selection.source_user_item_id != invocation.user_item_id;
            &&& forall|s: SessionId| #[trigger]
                state.pending.contains_key(s) ==> keeps_selections(state, step.state, now, s)
            &&& step.result is Ok <==> asks_to_forget(words) || (confirms_to_forget(words)
                && offered && exists|i: int| is_candidate(selection, entry_id, i))
            &&& step.result is Err ==> step.state.active is None
            &&& step.result matches Ok(given) ==> {
                &&& given.reservation.reservation_id == state.next_reservation_id
                &&& step.state.next_reservation_id == state.next_reservation_id + 1
                &&& step.state.next_selection_id == state.next_selection_id
                &&& step.state.active matches Some(active) && active.reservation_id
                    == state.next_reservation_id && active.session_id == invocation.session_id
                    && active.entry_id == Some(entry_id) && (if asks_to_forget(words) {
                    active.kind == ActiveForgetKind::AgentDirect
                } else {
                    active.kind == (ActiveForgetKind::AgentConfirmed {
                        selection_id: selection.selection_id,
                    })
                })
                &&& asks_to_forget(words) ==> given.scope == scope
                &&& !asks_to_forget(words) ==> forall|i: int| #[trigger]
                    is_candidate(selection, entry_id, i) ==> given.scope
                        == selection.candidates[i].scope
            }
        }),
{
    law_command_is_words_and_id(user_text, words, entry_id);
    let selection = state.pending[invocation.session_id];
    let accepts = candidate_is(entry_id);
    lemma_first_match(selection.candidates, accepts);
    match first_match(selection.candidates, accepts) {
        Some(k) => {
            assert(is_candidate(selection, entry_id, k));
            assert forall|i: int| #[trigger] is_candidate(selection, entry_id, i) implies i
                == k by {
                if i < k {
                    assert(!accepts(selection.candidates[i]));
                }
            }
        },
        None => {
            assert forall|i: int| !#[trigger] is_candidate(selection, entry_id, i) by {
                if is_candidate(selection, entry_id, i) {
                    assert(!accepts(selection.candidates[i]));
                }
            }
        },
    }
}

/// A text that does not end in the ID gives no permission for it.
pub proof fn law_agent_needs_the_id(
    state: ForgetStateView,
    invocation: MemoryToolInvocationView,
    user_text: Seq<char>,
    entry_id: Seq<char>,
    scope: MemoryScope,
    now: u64,
)
    requires
        forall|words: Seq<char>| trimmed(user_text) != #[trigger] (words + entry_id),
    ensures
        agent_step(state, invocation, user_text, entry_id, scope, now).result is Err,
        agent_step(state, invocation, user_text, entry_id, scope, now).state.active
            == state.active,
{
    law_command_is_words_and_id(user_text, Seq::empty(), entry_id);
}

/// The user may forget at once where nothing else is being forgotten, and nothing is
/// pruned by that.
pub proof fn law_user_forgets_at_once(
    state: ForgetStateView,
    session_id: SessionId,
    entry_id: Option<Seq<char>>,
)
    ensures
        ({
            let step = native_step(state, session_id, entry_id);
            &&& step.result is Ok <==> state.active is None && state.next_reservation_id < u64::MAX
            &&& step.result is Err ==> step.state == state
            &&& step.state.pending == state.pending
            &&& step.state.next_selection_id == state.next_selection_id
            &&& step.result matches Ok(reservation) ==> {
                &&& reservation.reservation_id == state.next_reservation_id
                &&& step.state.next_reservation_id == state.next_reservation_id + 1
                &&& step.state.active matches Some(active) && active.reservation_id
                    == state.next_reservation_id && active.session_id == session_id
                    && active.entry_id == entry_id && active.kind == ActiveForgetKind::Native
            }
            &&& state.active is Some ==> (step.result matches Err(
                ToolCallErrorView::InvalidInput(message),
            ) && message == "memory forget mutation is already in flight"@)
        }),
{
}

/// A search offers what it found, for ten minutes, in the session, the turn and the
/// message that it belongs to, under a new ID; one that found nothing takes back what
/// the session was offered. Other sessions keep the offers that still stand. While a
/// confirmed deletion of the session runs, the search is refused and changes nothing.
pub proof fn law_search_offers_what_it_found(
    state: ForgetStateView,
    invocation: MemoryToolInvocationView,
    entries: Seq<MemorySearchEntryView>,
    now: u64,
)
    requires
        now + 600_000_000_000 <= u64::MAX,
    ensures
        ({
            let step = search_step(state, invocation, entries, now);
            let session_id = invocation.session_id;
            let busy = state.active is Some && state.active->Some_0.kind is AgentConfirmed
                && state.active->Some_0.session_id == session_id;
            &&& busy ==> step.state == state && (step.result matches Err(
                ToolCallErrorView::InvalidInput(message),
            ) && message == "memory_forget selection mutation is already in flight"@)
            &&& !busy ==> {
                &&& step.state.active == state.active
                &&& step.state.next_reservation_id == state.next_reservation_id
                &&& forall|s: SessionId|
                    s != session_id && #[trigger] state.pending.contains_key(s)
                        ==> keeps_selections(state, step.state, now, s)
                &&& forall|s: SessionId|
                    s != session_id && #[trigger] step.state.pending.contains_key(s)
                        ==> state.pending.contains_key(s)
                &&& entries.len() == 0 ==> step.result is Ok && !step.state.pending.contains_key(
                    session_id,
                ) && step.state.next_selection_id == state.next_selection_id
                &&& entries.len() > 0 ==> (step.result is Ok <==> state.next_selection_id
                    < u64::MAX)
                &&& entries.len() > 0 && step.result is Ok ==> {
                    let offer = step.state.pending[session_id];
                    &&& step.state.pending.contains_key(session_id)
                    &&& step.state.next_selection_id == state.next_selection_id + 1
                    &&& offer.selection_id == state.next_selection_id
                    &&& offer.source_turn_id == invocation.turn_id
                    &&& offer.source_user_item_id == invocation.user_item_id
                    &&& offer.expires_at == now + 600_000_000_000
                    &&& offer.candidates.len() == entries.len()
                    &&& forall|i: int|
                        0 <= i < entries.len() ==> (#[trigger] offer.candidates[i]).entry_id
                            == entries[i].entry_id && offer.candidates[i].scope == entries[i].scope
                }
            }
        }),
{
}

// ---------------------------------------------------------------------------
// The end.
// ---------------------------------------------------------------------------
/// Whether an offer is another one without an entry: it has the other's candidates but
/// for those with the ID, and is otherwise the same.
pub open spec fn is_offer_without(
    after: PendingForgetSelectionView,
    before: PendingForgetSelectionView,
    entry_id: Seq<char>,
) -> bool {
    &&& after.selection_id == before.selection_id
    &&& after.source_turn_id == before.source_turn_id
    &&& after.source_user_item_id == before.source_user_item_id
    &&& after.expires_at == before.expires_at
    &&& forall|candidate: PendingForgetCandidateView| #[trigger]
        after.candidates.contains(candidate) <==> before.candidates.contains(candidate)
            && candidate.entry_id != entry_id
}

/// Completing takes the reservation that holds the permission, and the entry that the
/// permission is for. The permission is then free, the selection that was confirmed is
/// used up, and the entry is offered nowhere any more, while all other offers stay.
/// Anything else is refused and changes nothing.
pub proof fn law_completing_needs_the_entry(
    state: ForgetStateView,
    reservation_id: u64,
    forgotten: Option<Seq<char>>,
)
    ensures
        ({
            let step = complete_step(state, reservation_id, forgotten);
            let held = state.active is Some && state.active->Some_0.reservation_id
                == reservation_id;
            let meant = state.active is Some && (state.active->Some_0.entry_id is Some
                ==> state.active->Some_0.entry_id == forgotten);
            &&& step.result is Ok <==> held && meant
            &&& step.result is Err ==> step.state == state
            &&& !held ==> (step.result matches Err(ToolCallErrorView::InternalError(message))
                && message == "memory forget reservation is no longer current"@)
            &&& held && !meant ==> (step.result matches Err(
                ToolCallErrorView::InternalError(message),
            ) && message == "memory forget returned an unexpected entry"@)
            &&& step.result is Ok ==> {
                let active = state.active->Some_0;
                &&& step.state.active is None
                &&& step.state.next_reservation_id == state.next_reservation_id
                &&& step.state.next_selection_id == state.next_selection_id
                &&& forall|s: SessionId| #[trigger]
                    step.state.pending.contains_key(s) ==> state.pending.contains_key(s)
                &&& forall|s: SessionId| #[trigger]
                    state.pending.contains_key(s) ==> {
                        let used = s == active.session_id && active.kind == (
                        ActiveForgetKind::AgentConfirmed {
                            selection_id: state.pending[s].selection_id,
                        });
                        &&& used ==> !step.state.pending.contains_key(s)
                        &&& !used && forgotten is None ==> step.state.pending.contains_key(s)
                            && step.state.pending[s] == state.pending[s]
                        &&& !used && step.state.pending.contains_key(s) ==> (
                        forgotten matches Some(entry_id) ==> is_offer_without(
                            step.state.pending[s],
                            state.pending[s],
                            entry_id,
                        ) && step.state.pending[s].candidates.len() > 0)
                        &&& !used && !step.state.pending.contains_key(s) ==> (
                        forgotten matches Some(entry_id) && forall|i: int|
                            0 <= i < state.pending[s].candidates.len() ==> (
                            #[trigger] state.pending[s].candidates[i]).entry_id == entry_id)
                    }
            }
        }),
{
    let step = complete_step(state, reservation_id, forgotten);
    if step.result is Ok {
        let active = state.active->Some_0;
        if let Some(entry_id) = forgotten {
            assert forall|s: SessionId| #[trigger] state.pending.contains_key(s) implies {
                let kept = state.pending[s].candidates.filter(other_candidate(entry_id));
                &&& forall|candidate: PendingForgetCandidateView| #[trigger]
                    kept.contains(candidate) <==> state.pending[s].candidates.contains(candidate)
                        && candidate.entry_id != entry_id
                &&& kept.len() == 0 ==> forall|i: int|
                    0 <= i < state.pending[s].candidates.len() ==> (
                    #[trigger] state.pending[s].candidates[i]).entry_id == entry_id
            } by {
                let all = state.pending[s].candidates;
                let kept = all.filter(other_candidate(entry_id));
                lemma_filter_holds(all, other_candidate(entry_id));
                assert forall|candidate: PendingForgetCandidateView| #[trigger]
                    kept.contains(candidate) <==> all.contains(candidate) && candidate.entry_id
                        != entry_id by {
                    assert(other_candidate(entry_id)(candidate) == (candidate.entry_id
                        != entry_id));
                }
                if kept.len() == 0 {
                    assert forall|i: int|
                        0 <= i < all.len() implies (#[trigger] all[i]).entry_id == entry_id by {
                        if all[i].entry_id != entry_id {
                            assert(all.contains(all[i]));
                            assert(kept.contains(all[i]));
                        }
                    }
                }
            }
        }
    }
}

/// Releasing a reservation frees the permission that it holds and leaves all else.
pub proof fn law_releasing_frees_the_permission(state: ForgetStateView, reservation_id: u64)
    ensures
        ({
            let after = released(state, reservation_id);
            &&& after.pending == state.pending
            &&& after.next_reservation_id == state.next_reservation_id
            &&& after.next_selection_id == state.next_selection_id
            &&& state.active is Some && state.active->Some_0.reservation_id == reservation_id
                ==> after.active is None
            &&& state.active is Some && state.active->Some_0.reservation_id != reservation_id
                ==> after.active == state.active
            &&& state.active is None ==> after.active is None
        }),
{
}

/// What the store performed completes the permission, whether or not the page was
/// written, and is told as it came; what it did not perform releases the permission,
/// leaves every offer, and is told as it came.
pub proof fn law_deletion_ends_as_it_went(
    state: ForgetStateView,
    reservation_id: u64,
    executed: Result<MemoryCommandResult, MemoryError>,
)
    requires
        state.active matches Some(active) && active.reservation_id == reservation_id,
    ensures
        ({
            let end = forget_end(state, reservation_id, executed);
            let wanted = state.active->Some_0.entry_id;
            &&& end.state.active is None
            &&& executed matches Ok(MemoryCommandResult::Forget(told)) ==> {
                let id = match told@.forgotten {
                    Some(entry) => Some(entry.entry_id),
                    None => None,
                };
                &&& wanted is None || wanted == id ==> end.result == Ok::<
                    MemoryForgetResultView,
                    MemoryForgetExecutionErrorView,
                >(told@) && end.state == complete_step(state, reservation_id, id).state
                &&& wanted is Some && wanted != id ==> end.state.pending == state.pending && (
                end.result matches Err(MemoryForgetExecutionErrorView::Coordinator(error))
                    && error == ToolCallErrorView::InternalError(
                    "memory forget returned an unexpected entry"@,
                ))
            }
            &&& executed matches Err(
                MemoryError::ForgetCommitted { result: told, projection_error },
            ) ==> {
                let id = match (*told)@.forgotten {
                    Some(entry) => Some(entry.entry_id),
                    None => None,
                };
                wanted is None || wanted == id ==> (end.result matches Err(
                    MemoryForgetExecutionErrorView::Projection(error),
                ) && error == (*projection_error)@) && end.state == complete_step(
                    state,
                    reservation_id,
                    id,
                ).state
            }
            &&& executed is Ok && !(executed->Ok_0 is Forget) ==> end.state.pending
                == state.pending && (end.result matches Err(
                MemoryForgetExecutionErrorView::UnexpectedResult,
            ))
            &&& executed is Err && !(executed->Err_0 is ForgetCommitted) ==> end.state.pending
                == state.pending && (end.result matches Err(
                MemoryForgetExecutionErrorView::Storage(told),
            ) && told == executed->Err_0@)
        }),
{
}

} // verus!
