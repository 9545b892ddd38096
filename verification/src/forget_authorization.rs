//! Who may forget: every deletion goes through one lease that fails fast.
//!
//! A search leaves candidates for a later turn; a mutation takes the lease. Both
//! live in one state, so that checking and taking the lease are one step for
//! agents and native callers alike.

use vstd::prelude::*;

use crate::core_ids::{SessionId, TurnId};
use crate::ids::{ItemId, MemoryEntryId};
use crate::rows::{
    all_pairs, first_match, lemma_filter_holds, lemma_filter_keeps_pairs, lemma_filter_take,
    lemma_first_match, lemma_is_first_match, lemma_no_match,
};
use crate::rpc_memory::{MemoryEntry, MemoryScope, MemorySearchEntry, MemorySearchEntryView};
use crate::text::{
    ascii_lower, char_range, chars_of, concat, opt_view, same_text, text_of, to_ascii_lower, trim,
    trimmed, views,
};
use crate::tool_error::{
    internal_error, invalid_input, tool_result, ToolCallError, ToolCallErrorView,
};

verus! {

/// How long the candidates of a search can be selected, in nanoseconds.
pub const PENDING_SELECTION_TTL: u64 = 600_000_000_000;

/// The session, turn and user message out of which a tool is called.
#[derive(Debug, PartialEq, Eq)]
pub struct MemoryToolInvocation {
    pub session_id: SessionId,
    pub turn_id: TurnId,
    pub user_item_id: ItemId,
}

/// The view of [`MemoryToolInvocation`].
#[verifier::ext_equal]
pub struct MemoryToolInvocationView {
    pub session_id: SessionId,
    pub turn_id: TurnId,
    pub user_item_id: Seq<char>,
}

impl View for MemoryToolInvocation {
    type V = MemoryToolInvocationView;

    open spec fn view(&self) -> MemoryToolInvocationView {
        MemoryToolInvocationView {
            session_id: self.session_id,
            turn_id: self.turn_id,
            user_item_id: self.user_item_id@,
        }
    }
}

impl Clone for MemoryToolInvocation {
    fn clone(&self) -> (result: Self)
        ensures
            result@ == self@,
    {
        let result = MemoryToolInvocation {
            session_id: self.session_id,
            turn_id: self.turn_id,
            user_item_id: self.user_item_id.clone(),
        };
        result
    }
}

/// An entry that a search offered.
#[derive(Debug, PartialEq, Eq)]
pub struct PendingForgetCandidate {
    pub entry_id: MemoryEntryId,
    pub scope: MemoryScope,
}

/// The view of [`PendingForgetCandidate`].
#[verifier::ext_equal]
pub struct PendingForgetCandidateView {
    pub entry_id: Seq<char>,
    pub scope: MemoryScope,
}

impl View for PendingForgetCandidate {
    type V = PendingForgetCandidateView;

    open spec fn view(&self) -> PendingForgetCandidateView {
        PendingForgetCandidateView {
            entry_id: self.entry_id@,
            scope: self.scope,
        }
    }
}

impl Clone for PendingForgetCandidate {
    fn clone(&self) -> (result: Self)
        ensures
            result@ == self@,
    {
        let result = PendingForgetCandidate {
            entry_id: self.entry_id.clone(),
            scope: self.scope,
        };
        result
    }
}

/// The candidates of the last search of a session.
#[derive(Debug, PartialEq, Eq)]
pub struct PendingForgetSelection {
    pub selection_id: u64,
    pub source_turn_id: TurnId,
    pub source_user_item_id: ItemId,
    pub candidates: Vec<PendingForgetCandidate>,
    pub expires_at: u64,
}

/// The view of [`PendingForgetSelection`].
#[verifier::ext_equal]
pub struct PendingForgetSelectionView {
    pub selection_id: u64,
    pub source_turn_id: TurnId,
    pub source_user_item_id: Seq<char>,
    pub candidates: Seq<PendingForgetCandidateView>,
    pub expires_at: u64,
}

impl View for PendingForgetSelection {
    type V = PendingForgetSelectionView;

    open spec fn view(&self) -> PendingForgetSelectionView {
        PendingForgetSelectionView {
            selection_id: self.selection_id,
            source_turn_id: self.source_turn_id,
            source_user_item_id: self.source_user_item_id@,
            candidates: views(self.candidates@),
            expires_at: self.expires_at,
        }
    }
}

impl Clone for PendingForgetSelection {
    fn clone(&self) -> (result: Self)
        ensures
            result@ == self@,
    {
        let result = PendingForgetSelection {
            selection_id: self.selection_id,
            source_turn_id: self.source_turn_id,
            source_user_item_id: self.source_user_item_id.clone(),
            candidates: self.candidates.clone(),
            expires_at: self.expires_at,
        };
        assert(views(result.candidates@) =~= views(self.candidates@));
        result
    }
}

/// A session and its pending selection.
#[derive(Debug, PartialEq, Eq)]
pub struct PendingItem {
    pub session_id: SessionId,
    pub selection: PendingForgetSelection,
}

/// The view of [`PendingItem`].
#[verifier::ext_equal]
pub struct PendingItemView {
    pub session_id: SessionId,
    pub selection: PendingForgetSelectionView,
}

impl View for PendingItem {
    type V = PendingItemView;

    open spec fn view(&self) -> PendingItemView {
        PendingItemView {
            session_id: self.session_id,
            selection: self.selection@,
        }
    }
}

impl Clone for PendingItem {
    fn clone(&self) -> (result: Self)
        ensures
            result@ == self@,
    {
        let result = PendingItem {
            session_id: self.session_id,
            selection: self.selection.clone(),
        };
        result
    }
}

/// Why a mutation holds the lease.
#[derive(Debug, Clone, Copy, PartialEq, Eq, Structural)]
pub enum ActiveForgetKind {
    /// An agent was told to forget an entry by its ID.
    AgentDirect,
    /// An agent had a pending selection confirmed.
    AgentConfirmed { selection_id: u64 },
    /// A native client asked.
    Native,
}

/// The mutation that holds the lease.
#[derive(Debug, PartialEq, Eq)]
pub struct ActiveForgetMutation {
    pub reservation_id: u64,
    pub session_id: SessionId,
    pub kind: ActiveForgetKind,
    pub entry_id: Option<MemoryEntryId>,
}

/// The view of [`ActiveForgetMutation`].
#[verifier::ext_equal]
pub struct ActiveForgetMutationView {
    pub reservation_id: u64,
    pub session_id: SessionId,
    pub kind: ActiveForgetKind,
    pub entry_id: Option<Seq<char>>,
}

impl View for ActiveForgetMutation {
    type V = ActiveForgetMutationView;

    open spec fn view(&self) -> ActiveForgetMutationView {
        ActiveForgetMutationView {
            reservation_id: self.reservation_id,
            session_id: self.session_id,
            kind: self.kind,
            entry_id: opt_view(self.entry_id),
        }
    }
}

impl Clone for ActiveForgetMutation {
    fn clone(&self) -> (result: Self)
        ensures
            result@ == self@,
    {
        let result = ActiveForgetMutation {
            reservation_id: self.reservation_id,
            session_id: self.session_id,
            kind: self.kind,
            entry_id: self.entry_id.clone(),
        };
        result
    }
}

/// Which command a text is tested for.
#[derive(Debug, Clone, Copy, PartialEq, Eq, Structural)]
pub enum ForgetCommandGrammar {
    Direct,
    Confirmation,
}

// ---------------------------------------------------------------------------
// Pending selections by session.
// ---------------------------------------------------------------------------
/// The pending selections, at most one for each session.
#[derive(Debug, PartialEq, Eq, Default)]
pub struct PendingSelections {
    pub items: Vec<PendingItem>,
}

/// Accepts the item of a session.
pub open spec fn item_of(session_id: SessionId) -> spec_fn(PendingItemView) -> bool {
    |item: PendingItemView| item.session_id == session_id
}

/// Whether no session occurs twice.
pub open spec fn sessions_differ(items: Seq<PendingItemView>) -> bool {
    forall|i: int, j: int|
        0 <= i < j < items.len() ==> (#[trigger] items[i]).session_id != (
        #[trigger] items[j]).session_id
}

/// The selections that items hold, by session.
pub open spec fn selections_of(items: Seq<PendingItemView>) -> Map<
    SessionId,
    PendingForgetSelectionView,
> {
    Map::new(
        |session_id: SessionId| first_match(items, item_of(session_id)) is Some,
        |session_id: SessionId|
            items[first_match(items, item_of(session_id))->Some_0].selection,
    )
}

impl View for PendingSelections {
    type V = Map<SessionId, PendingForgetSelectionView>;

    open spec fn view(&self) -> Map<SessionId, PendingForgetSelectionView> {
        selections_of(views(self.items@))
    }
}

proof fn lemma_item_found(items: Seq<PendingItemView>, i: int)
    requires
        sessions_differ(items),
        0 <= i < items.len(),
    ensures
        first_match(items, item_of(items[i].session_id)) == Some(i),
        selections_of(items).contains_key(items[i].session_id),
        selections_of(items)[items[i].session_id] == items[i].selection,
{
    let accepts = item_of(items[i].session_id);
    assert forall|j: int| 0 <= j < i implies !accepts(#[trigger] items[j]) by {}
    lemma_is_first_match(items, accepts, i);
}

proof fn lemma_item_exists(items: Seq<PendingItemView>, session_id: SessionId) -> (i: int)
    requires
        selections_of(items).contains_key(session_id),
    ensures
        0 <= i < items.len(),
        items[i].session_id == session_id,
        selections_of(items)[session_id] == items[i].selection,
{
    lemma_first_match(items, item_of(session_id));
    first_match(items, item_of(session_id))->Some_0
}

/// Whether selections hold what an item says.
spec fn holds_item(
    selections: Map<SessionId, PendingForgetSelectionView>,
    item: PendingItemView,
) -> bool {
    selections.contains_key(item.session_id) && selections[item.session_id] == item.selection
}

/// Whether some item is about a session.
spec fn has_item(items: Seq<PendingItemView>, session_id: SessionId) -> bool {
    exists|i: int| 0 <= i < items.len() && (#[trigger] items[i]).session_id == session_id
}

proof fn lemma_selections_are(
    items: Seq<PendingItemView>,
    selections: Map<SessionId, PendingForgetSelectionView>,
)
    requires
        sessions_differ(items),
        forall|i: int| 0 <= i < items.len() ==> holds_item(selections, #[trigger] items[i]),
        forall|s: SessionId| #[trigger] selections.contains_key(s) ==> has_item(items, s),
    ensures
        selections_of(items) == selections,
{
    let own = selections_of(items);
    assert forall|s: SessionId| #[trigger] own.dom().contains(s) <==> selections.dom().contains(
        s,
    ) by {
        if own.contains_key(s) {
            let i = lemma_item_exists(items, s);
            assert(holds_item(selections, items[i]));
        }
        if selections.contains_key(s) {
            assert(has_item(items, s));
            let i = choose|i: int|
                0 <= i < items.len() && (#[trigger] items[i]).session_id == s;
            lemma_item_found(items, i);
        }
    }
    assert forall|s: SessionId| #[trigger] own.dom().contains(s) implies own[s]
        == selections[s] by {
        let i = lemma_item_exists(items, s);
        assert(holds_item(selections, items[i]));
    }
    assert(own =~= selections);
}

impl PendingSelections {
    /// Whether no session occurs twice.
    pub open spec fn well_formed(&self) -> bool {
        sessions_differ(views(self.items@))
    }

    fn find(&self, session_id: SessionId) -> (result: Option<usize>)
        ensures
            match result {
                Some(i) => i < self.items.len() && first_match(
                    views(self.items@),
                    item_of(session_id),
                ) == Some(i as int),
                None => first_match(views(self.items@), item_of(session_id)) is None,
            },
    {
        let ghost all = views(self.items@);
        let ghost accepts = item_of(session_id);
        let mut i: usize = 0;
        while i < self.items.len()
            invariant
                i <= self.items.len(),
                all == views(self.items@),
                accepts == item_of(session_id),
                forall|j: int| 0 <= j < i ==> !accepts(#[trigger] all[j]),
            decreases self.items.len() - i,
        {
            assert(all[i as int] == self.items@[i as int]@);
            if self.items[i].session_id == session_id {
                proof {
                    lemma_is_first_match(all, accepts, i as int);
                }
                return Some(i);
            }
            i = i + 1;
        }
        proof {
            lemma_no_match(all, accepts);
        }
        None
    }

    /// The selection of a session, if it has one.
    pub fn get(&self, session_id: SessionId) -> (result: Option<&PendingForgetSelection>)
        ensures
            match result {
                Some(selection) => self@.contains_key(session_id) && selection@
                    == self@[session_id],
                None => !self@.contains_key(session_id),
            },
    {
        match self.find(session_id) {
            Some(i) => {
                assert(views(self.items@)[i as int] == self.items@[i as int]@);
                Some(&self.items[i].selection)
            },
            None => None,
        }
    }

    /// Gives a session a selection in place of the one that it had.
    pub fn insert(&mut self, session_id: SessionId, selection: PendingForgetSelection)
        requires
            old(self).well_formed(),
        ensures
            final(self).well_formed(),
            final(self)@ == old(self)@.insert(session_id, selection@),
    {
        let ghost before = views(self.items@);
        let ghost item = PendingItemView { session_id, selection: selection@ };
        let ghost wanted = selections_of(before).insert(session_id, selection@);
        let found = self.find(session_id);
        match found {
            Some(i) => {
                self.items.set(i, PendingItem { session_id, selection });
            },
            None => {
                self.items.push(PendingItem { session_id, selection });
            },
        }
        proof {
            let after = views(self.items@);
            lemma_first_match(before, item_of(session_id));
            let at = match found {
                Some(i) => i as int,
                None => before.len() as int,
            };
            assert(after =~= if found is Some {
                before.update(at, item)
            } else {
                before.push(item)
            });
            assert forall|a: int, b: int| 0 <= a < b < after.len() implies (
            #[trigger] after[a]).session_id != (#[trigger] after[b]).session_id by {
                if a < before.len() {
                    assert(a != at ==> after[a] == before[a]);
                    if found is None {
                        assert(!item_of(session_id)(before[a]));
                    }
                }
                if b < before.len() {
                    assert(before[a].session_id != before[b].session_id);
                }
            }
            assert forall|i: int| 0 <= i < after.len() implies holds_item(
                wanted,
                #[trigger] after[i],
            ) by {
                if i != at {
                    assert(after[i] == before[i]);
                    lemma_item_found(before, i);
                    if found is Some {
                        assert(before[at].session_id == session_id);
                    } else {
                        assert(!item_of(session_id)(before[i]));
                    }
                }
            }
            assert forall|s: SessionId| #[trigger] wanted.contains_key(s) implies has_item(
                after,
                s,
            ) by {
                if s == session_id {
                    assert(after[at].session_id == s);
                } else {
                    let k = lemma_item_exists(before, s);
                    assert(after[k] == before[k]);
                }
            }
            lemma_selections_are(after, wanted);
        }
    }

    /// Takes the selection of a session away.
    pub fn remove(&mut self, session_id: SessionId)
        requires
            old(self).well_formed(),
        ensures
            final(self).well_formed(),
            final(self)@ == old(self)@.remove(session_id),
    {
        let ghost before = views(self.items@);
        let ghost wanted = selections_of(before).remove(session_id);
        match self.find(session_id) {
            Some(i) => {
                let _ = self.items.remove(i);
                proof {
                    let after = views(self.items@);
                    lemma_first_match(before, item_of(session_id));
                    assert(after =~= before.remove(i as int));
                    assert forall|a: int, b: int| 0 <= a < b < after.len() implies (
                    #[trigger] after[a]).session_id != (#[trigger] after[b]).session_id by {
                        let x = if a < i { a } else { a + 1 };
                        let y = if b < i { b } else { b + 1 };
                        assert(after[a] == before[x] && after[b] == before[y]);
                    }
                    assert forall|k: int| 0 <= k < after.len() implies holds_item(
                        wanted,
                        #[trigger] after[k],
                    ) by {
                        let x = if k < i { k } else { k + 1 };
                        assert(after[k] == before[x]);
                        assert(before[i as int].session_id == session_id);
                        lemma_item_found(before, x);
                    }
                    assert forall|s: SessionId| #[trigger] wanted.contains_key(s) implies has_item(
                        after,
                        s,
                    ) by {
                        let k = lemma_item_exists(before, s);
                        let x = if k < i { k } else { k - 1 };
                        assert(after[x] == before[k]);
                    }
                    lemma_selections_are(after, wanted);
                }
            },
            None => {
                assert(selections_of(before) =~= wanted);
            },
        }
    }
}

/// Whether a selection outlives a cleanup: it has not expired, or a mutation that
/// confirmed it holds the lease.
pub open spec fn outlives_cleanup(
    session_id: SessionId,
    selection: PendingForgetSelectionView,
    now: u64,
    protected: Option<(SessionId, u64)>,
) -> bool {
    selection.expires_at > now || protected == Some((session_id, selection.selection_id))
}

/// The selections that outlive a cleanup.
pub open spec fn current_selections(
    selections: Map<SessionId, PendingForgetSelectionView>,
    now: u64,
    protected: Option<(SessionId, u64)>,
) -> Map<SessionId, PendingForgetSelectionView> {
    Map::new(
        |s: SessionId|
            selections.contains_key(s) && outlives_cleanup(s, selections[s], now, protected),
        |s: SessionId| selections[s],
    )
}

spec fn item_outlives(now: u64, protected: Option<(SessionId, u64)>) -> spec_fn(
    PendingItemView,
) -> bool {
    |item: PendingItemView| outlives_cleanup(item.session_id, item.selection, now, protected)
}

/// Accepts the candidates other than an entry.
pub open spec fn other_candidate(entry_id: Seq<char>) -> spec_fn(
    PendingForgetCandidateView,
) -> bool {
    |candidate: PendingForgetCandidateView| candidate.entry_id != entry_id
}

/// A selection without an entry among its candidates.
pub open spec fn without_candidate(
    selection: PendingForgetSelectionView,
    entry_id: Seq<char>,
) -> PendingForgetSelectionView {
    PendingForgetSelectionView {
        candidates: selection.candidates.filter(other_candidate(entry_id)),
        ..selection
    }
}

/// The selections without an entry among their candidates; a selection that has no
/// other candidate is gone.
pub open spec fn selections_without(
    selections: Map<SessionId, PendingForgetSelectionView>,
    entry_id: Seq<char>,
) -> Map<SessionId, PendingForgetSelectionView> {
    Map::new(
        |s: SessionId|
            selections.contains_key(s) && without_candidate(
                selections[s],
                entry_id,
            ).candidates.len() > 0,
        |s: SessionId| without_candidate(selections[s], entry_id),
    )
}

spec fn item_without(entry_id: Seq<char>) -> spec_fn(PendingItemView) -> PendingItemView {
    |item: PendingItemView|
        PendingItemView {
            session_id: item.session_id,
            selection: without_candidate(item.selection, entry_id),
        }
}

spec fn item_offers_some() -> spec_fn(PendingItemView) -> bool {
    |item: PendingItemView| item.selection.candidates.len() > 0
}

spec fn different_sessions() -> spec_fn(PendingItemView, PendingItemView) -> bool {
    |a: PendingItemView, b: PendingItemView| a.session_id != b.session_id
}

proof fn lemma_filtered_selections(
    items: Seq<PendingItemView>,
    accepts: spec_fn(PendingItemView) -> bool,
)
    requires
        sessions_differ(items),
    ensures
        sessions_differ(items.filter(accepts)),
        forall|s: SessionId| #[trigger]
            selections_of(items.filter(accepts)).contains_key(s) <==> selections_of(
                items,
            ).contains_key(s) && accepts(
                PendingItemView { session_id: s, selection: selections_of(items)[s] },
            ),
        forall|s: SessionId| #[trigger]
            selections_of(items.filter(accepts)).contains_key(s) ==> selections_of(
                items.filter(accepts),
            )[s] == selections_of(items)[s],
{
    let kept = items.filter(accepts);
    assert(all_pairs(items, different_sessions()));
    lemma_filter_keeps_pairs(items, accepts, different_sessions());
    assert forall|i: int, j: int| 0 <= i < j < kept.len() implies (
    #[trigger] kept[i]).session_id != (#[trigger] kept[j]).session_id by {
        assert(different_sessions()(kept[i], kept[j]));
    }
    lemma_filter_holds(items, accepts);
    assert forall|s: SessionId| #[trigger]
        selections_of(kept).contains_key(s) <==> selections_of(items).contains_key(s) && accepts(
            PendingItemView { session_id: s, selection: selections_of(items)[s] },
        ) by {
        if selections_of(kept).contains_key(s) {
            let i = lemma_item_exists(kept, s);
            assert(kept.contains(kept[i]));
            assert(items.contains(kept[i]));
            let k = choose|k: int| 0 <= k < items.len() && items[k] == kept[i];
            lemma_item_found(items, k);
        }
        if selections_of(items).contains_key(s) {
            let k = lemma_item_exists(items, s);
            let item = PendingItemView { session_id: s, selection: selections_of(items)[s] };
            assert(items[k] == item);
            if accepts(item) {
                assert(items.contains(item));
                assert(kept.contains(item));
                let i = choose|i: int| 0 <= i < kept.len() && kept[i] == item;
                lemma_item_found(kept, i);
            }
        }
    }
    assert forall|s: SessionId| #[trigger] selections_of(kept).contains_key(s) implies selections_of(
        kept,
    )[s] == selections_of(items)[s] by {
        let i = lemma_item_exists(kept, s);
        assert(kept.contains(kept[i]));
        assert(items.contains(kept[i]));
        let k = choose|k: int| 0 <= k < items.len() && items[k] == kept[i];
        lemma_item_found(items, k);
    }
}

impl PendingSelections {
    /// Drops the selections that do not outlive a cleanup.
    pub fn retain_current(&mut self, now: u64, protected: Option<(SessionId, u64)>)
        requires
            old(self).well_formed(),
        ensures
            final(self).well_formed(),
            final(self)@ == current_selections(old(self)@, now, protected),
    {
        let ghost all = views(self.items@);
        let ghost accepts = item_outlives(now, protected);
        let mut kept: Vec<PendingItem> = Vec::new();
        let mut i: usize = 0;
        assert(all.take(0).filter(accepts) =~= Seq::<PendingItemView>::empty()) by {
            reveal(Seq::filter);
        }
        assert(views(kept@) =~= Seq::<PendingItemView>::empty());
        while i < self.items.len()
            invariant
                i <= self.items.len(),
                all == views(self.items@),
                accepts == item_outlives(now, protected),
                views(kept@) == all.take(i as int).filter(accepts),
            decreases self.items.len() - i,
        {
            assert(all[i as int] == self.items@[i as int]@);
            proof {
                lemma_filter_take(all, i as int, accepts);
            }
            let shielded = match protected {
                Some((session_id, selection_id)) => session_id == self.items[i].session_id
                    && selection_id == self.items[i].selection.selection_id,
                None => false,
            };
            if self.items[i].selection.expires_at > now || shielded {
                let ghost before = views(kept@);
                kept.push(self.items[i].clone());
                assert(views(kept@) =~= before.push(all[i as int]));
            }
            i = i + 1;
        }
        assert(all.take(self.items.len() as int) =~= all);
        self.items = kept;
        proof {
            lemma_filtered_selections(all, accepts);
            let after = selections_of(all.filter(accepts));
            let wanted = current_selections(selections_of(all), now, protected);
            assert forall|s: SessionId| #[trigger] after.dom().contains(s) <==> wanted.dom().contains(
                s,
            ) by {
                assert(after.contains_key(s) <==> selections_of(all).contains_key(s) && accepts(
                    PendingItemView { session_id: s, selection: selections_of(all)[s] },
                ));
            }
            assert forall|s: SessionId| #[trigger] after.dom().contains(s) implies after[s]
                == wanted[s] by {
                assert(after.contains_key(s));
            }
            assert(after =~= wanted);
        }
    }

    /// Drops an entry from the candidates of every session, and the selections that
    /// it leaves without candidates.
    pub fn drop_candidate(&mut self, entry_id: &MemoryEntryId)
        requires
            old(self).well_formed(),
        ensures
            final(self).well_formed(),
            final(self)@ == selections_without(old(self)@, entry_id@),
    {
        let ghost all = views(self.items@);
        let ghost stripped = all.map_values(item_without(entry_id@));
        let ghost accepts = item_offers_some();
        let mut kept: Vec<PendingItem> = Vec::new();
        let mut i: usize = 0;
        assert(stripped.take(0).filter(accepts) =~= Seq::<PendingItemView>::empty()) by {
            reveal(Seq::filter);
        }
        assert(views(kept@) =~= Seq::<PendingItemView>::empty());
        while i < self.items.len()
            invariant
                i <= self.items.len(),
                all == views(self.items@),
                stripped == all.map_values(item_without(entry_id@)),
                accepts == item_offers_some(),
                views(kept@) == stripped.take(i as int).filter(accepts),
            decreases self.items.len() - i,
        {
            assert(all[i as int] == self.items@[i as int]@);
            assert(stripped[i as int] == item_without(entry_id@)(all[i as int]));
            proof {
                lemma_filter_take(stripped, i as int, accepts);
            }
            let candidates = other_candidates(&self.items[i].selection.candidates, entry_id);
            assert(views(candidates@).len() == candidates.len());
            if candidates.len() > 0 {
                let ghost before = views(kept@);
                let selection = PendingForgetSelection {
                    selection_id: self.items[i].selection.selection_id,
                    source_turn_id: self.items[i].selection.source_turn_id,
                    source_user_item_id: self.items[i].selection.source_user_item_id.clone(),
                    candidates,
                    expires_at: self.items[i].selection.expires_at,
                };
                assert(selection@ == without_candidate(all[i as int].selection, entry_id@));
                kept.push(PendingItem { session_id: self.items[i].session_id, selection });
                assert(views(kept@) =~= before.push(stripped[i as int]));
            }
            i = i + 1;
        }
        assert(stripped.take(self.items.len() as int) =~= stripped);
        self.items = kept;
        proof {
            assert(sessions_differ(stripped)) by {
                assert forall|a: int, b: int| 0 <= a < b < stripped.len() implies (
                #[trigger] stripped[a]).session_id != (#[trigger] stripped[b]).session_id by {
                    assert(all[a].session_id != all[b].session_id);
                }
            }
            lemma_filtered_selections(stripped, accepts);
            let after = selections_of(stripped.filter(accepts));
            let wanted = selections_without(selections_of(all), entry_id@);
            assert forall|s: SessionId|
                (#[trigger] selections_of(stripped).contains_key(s) <==> selections_of(
                    all,
                ).contains_key(s)) && (selections_of(all).contains_key(s) ==> selections_of(
                    stripped,
                )[s] == without_candidate(selections_of(all)[s], entry_id@)) by {
                if selections_of(all).contains_key(s) {
                    let k = lemma_item_exists(all, s);
                    assert(stripped[k].session_id == s);
                    lemma_item_found(stripped, k);
                }
                if selections_of(stripped).contains_key(s) {
                    let k = lemma_item_exists(stripped, s);
                    assert(all[k].session_id == s);
                    lemma_item_found(all, k);
                }
            }
            assert forall|s: SessionId| #[trigger] after.dom().contains(s) <==> wanted.dom().contains(
                s,
            ) by {
                assert(selections_of(stripped).contains_key(s) <==> selections_of(
                    all,
                ).contains_key(s));
                assert(after.contains_key(s) <==> selections_of(stripped).contains_key(s)
                    && accepts(
                    PendingItemView { session_id: s, selection: selections_of(stripped)[s] },
                ));
            }
            assert forall|s: SessionId| #[trigger] after.dom().contains(s) implies after[s]
                == wanted[s] by {
                assert(after.contains_key(s));
                assert(selections_of(stripped).contains_key(s));
            }
            assert(after =~= wanted);
        }
    }
}

fn other_candidates(candidates: &Vec<PendingForgetCandidate>, entry_id: &MemoryEntryId) -> (result:
    Vec<PendingForgetCandidate>)
    ensures
        views(result@) == views(candidates@).filter(other_candidate(entry_id@)),
{
    let ghost all = views(candidates@);
    let ghost accepts = other_candidate(entry_id@);
    let mut kept: Vec<PendingForgetCandidate> = Vec::new();
    let mut i: usize = 0;
    assert(all.take(0).filter(accepts) =~= Seq::<PendingForgetCandidateView>::empty()) by {
        reveal(Seq::filter);
    }
    assert(views(kept@) =~= Seq::<PendingForgetCandidateView>::empty());
    while i < candidates.len()
        invariant
            i <= candidates.len(),
            all == views(candidates@),
            accepts == other_candidate(entry_id@),
            views(kept@) == all.take(i as int).filter(accepts),
        decreases candidates.len() - i,
    {
        assert(all[i as int] == candidates@[i as int]@);
        proof {
            lemma_filter_take(all, i as int, accepts);
        }
        if !candidates[i].entry_id.same(entry_id) {
            let ghost before = views(kept@);
            kept.push(candidates[i].clone());
            assert(views(kept@) =~= before.push(all[i as int]));
        }
        i = i + 1;
    }
    assert(all.take(candidates.len() as int) =~= all);
    kept
}

// ---------------------------------------------------------------------------
// Commands.
// ---------------------------------------------------------------------------
/// Whether a text is a command word for word, in any ASCII case, and then an ID.
pub open spec fn is_command_for(text: Seq<char>, command: Seq<char>, entry_id: Seq<char>) -> bool {
    &&& text.len() >= entry_id.len()
    &&& text.skip(text.len() - entry_id.len()) == entry_id
    &&& ascii_lower(text.take(text.len() - entry_id.len())) == ascii_lower(command)
}

/// Whether a text commands, and does nothing else, that an entry be forgotten. The
/// ID has to be written exactly.
pub open spec fn names_entry(
    grammar: ForgetCommandGrammar,
    user_text: Seq<char>,
    entry_id: Seq<char>,
) -> bool {
    let text = trimmed(user_text);
    match grammar {
        ForgetCommandGrammar::Direct => is_command_for(text, "forget memory entry "@, entry_id)
            || text == "\u{5220}\u{9664}\u{8bb0}\u{5fc6}\u{6761}\u{76ee} "@ + entry_id,
        ForgetCommandGrammar::Confirmation => is_command_for(
            text,
            "confirm forget memory entry "@,
            entry_id,
        ) || text
            == "\u{786e}\u{8ba4}\u{5220}\u{9664}\u{8bb0}\u{5fc6}\u{6761}\u{76ee} "@ + entry_id,
    }
}

fn commands_entry(text: &Vec<char>, command: &str, entry_id: &Vec<char>) -> (result: bool)
    ensures
        result == is_command_for(text@, command@, entry_id@),
{
    if text.len() < entry_id.len() {
        return false;
    }
    let at: usize = text.len() - entry_id.len();
    let end = char_range(text, at, text.len());
    assert(end@ =~= text@.skip(at as int));
    let end_text = text_of(&end);
    let id_text = text_of(entry_id);
    if !same_text(end_text.as_str(), id_text.as_str()) {
        return false;
    }
    let start = char_range(text, 0, at);
    assert(start@ =~= text@.take(at as int));
    let lower_start = to_ascii_lower(&start);
    let start_text = text_of(&lower_start);
    let command_chars = chars_of(command);
    let lower_command = to_ascii_lower(&command_chars);
    let command_text = text_of(&lower_command);
    same_text(start_text.as_str(), command_text.as_str())
}

/// Tests whether a text commands that an entry be forgotten.
pub fn strict_forget_names(
    grammar: ForgetCommandGrammar,
    user_text: &str,
    entry_id: &MemoryEntryId,
) -> (result: bool)
    ensures
        result == names_entry(grammar, user_text@, entry_id@),
{
    let chars = chars_of(user_text);
    let text = trim(&chars);
    let id = chars_of(entry_id.as_str());
    let whole = text_of(&text);
    match grammar {
        ForgetCommandGrammar::Direct => {
            let other = concat(
                "\u{5220}\u{9664}\u{8bb0}\u{5fc6}\u{6761}\u{76ee} ",
                entry_id.as_str(),
            );
            commands_entry(&text, "forget memory entry ", &id) || same_text(
                whole.as_str(),
                other.as_str(),
            )
        },
        ForgetCommandGrammar::Confirmation => {
            let other = concat(
                "\u{786e}\u{8ba4}\u{5220}\u{9664}\u{8bb0}\u{5fc6}\u{6761}\u{76ee} ",
                entry_id.as_str(),
            );
            commands_entry(&text, "confirm forget memory entry ", &id) || same_text(
                whole.as_str(),
                other.as_str(),
            )
        },
    }
}

// ---------------------------------------------------------------------------
// The coordinator.
// ---------------------------------------------------------------------------
/// Pending selections, the lease, and the next IDs.
#[derive(Debug, PartialEq, Eq, Default)]
pub struct ForgetState {
    pub pending_by_session: PendingSelections,
    pub active: Option<ActiveForgetMutation>,
    pub next_reservation_id: u64,
    pub next_selection_id: u64,
}

/// The view of [`ForgetState`].
#[verifier::ext_equal]
pub struct ForgetStateView {
    pub pending: Map<SessionId, PendingForgetSelectionView>,
    pub active: Option<ActiveForgetMutationView>,
    pub next_reservation_id: u64,
    pub next_selection_id: u64,
}

impl View for ForgetState {
    type V = ForgetStateView;

    open spec fn view(&self) -> ForgetStateView {
        ForgetStateView {
            pending: self.pending_by_session@,
            active: opt_view(self.active),
            next_reservation_id: self.next_reservation_id,
            next_selection_id: self.next_selection_id,
        }
    }
}

/// The right to perform one mutation.
#[derive(Debug, Clone, Copy, PartialEq, Eq, Structural)]
pub struct MemoryForgetReservation {
    pub reservation_id: u64,
}

/// A mutation that was authorized, and the scope that it is for.
#[derive(Debug, Clone, Copy, PartialEq, Eq, Structural)]
pub struct AuthorizedForget {
    pub scope: MemoryScope,
    pub reservation: MemoryForgetReservation,
}

/// Coordinates every memory deletion of a server through one lease.
#[derive(Debug, PartialEq, Eq, Default)]
pub struct MemoryForgetCoordinator {
    pub state: ForgetState,
}

impl View for MemoryForgetCoordinator {
    type V = ForgetStateView;

    open spec fn view(&self) -> ForgetStateView {
        self.state@
    }
}

/// A step of the coordinator: the state that it leaves, and what it returns.
pub struct CoordinatorStep<T> {
    pub state: ForgetStateView,
    pub result: Result<T, ToolCallErrorView>,
}

/// The selection that a mutation confirmed, while it holds the lease.
pub open spec fn protected_selection(state: ForgetStateView) -> Option<(SessionId, u64)> {
    match state.active {
        Some(active) => match active.kind {
            ActiveForgetKind::AgentConfirmed { selection_id } => Some(
                (active.session_id, selection_id),
            ),
            _ => None,
        },
        None => None,
    }
}

/// The state without expired selections.
pub open spec fn pruned(state: ForgetStateView, now: u64) -> ForgetStateView {
    ForgetStateView {
        pending: current_selections(state.pending, now, protected_selection(state)),
        ..state
    }
}

/// The candidates of a search result.
pub open spec fn candidates_of(entries: Seq<MemorySearchEntryView>) -> Seq<
    PendingForgetCandidateView,
> {
    entries.map_values(
        |entry: MemorySearchEntryView|
            PendingForgetCandidateView { entry_id: entry.entry_id, scope: entry.scope },
    )
}

/// A search replaces the pending selection of its session, unless a mutation that
/// confirmed a selection of the session holds the lease.
pub open spec fn search_step(
    state: ForgetStateView,
    invocation: MemoryToolInvocationView,
    entries: Seq<MemorySearchEntryView>,
    now: u64,
) -> CoordinatorStep<()> {
    if protected_selection(state) matches Some((session_id, _)) && session_id
        == invocation.session_id {
        CoordinatorStep {
            state,
            result: Err(
                ToolCallErrorView::InvalidInput(
                    "memory_forget selection mutation is already in flight"@,
                ),
            ),
        }
    } else {
        let cleaned = pruned(state, now);
        if entries.len() == 0 {
            CoordinatorStep {
                state: ForgetStateView {
                    pending: cleaned.pending.remove(invocation.session_id),
                    ..cleaned
                },
                result: Ok(()),
            }
        } else if state.next_selection_id == u64::MAX {
            CoordinatorStep {
                state: cleaned,
                result: Err(
                    ToolCallErrorView::InternalError("memory forget selection ID overflow"@),
                ),
            }
        } else {
            CoordinatorStep {
                state: ForgetStateView {
                    pending: cleaned.pending.insert(
                        invocation.session_id,
                        PendingForgetSelectionView {
                            selection_id: state.next_selection_id,
                            source_turn_id: invocation.turn_id,
                            source_user_item_id: invocation.user_item_id,
                            candidates: candidates_of(entries),
                            expires_at: (now + PENDING_SELECTION_TTL) as u64,
                        },
                    ),
                    next_selection_id: (state.next_selection_id + 1) as u64,
                    ..cleaned
                },
                result: Ok(()),
            }
        }
    }
}

/// A mutation takes the lease, under the next reservation ID.
pub open spec fn reserve_step(
    state: ForgetStateView,
    session_id: SessionId,
    kind: ActiveForgetKind,
    entry_id: Option<Seq<char>>,
) -> CoordinatorStep<MemoryForgetReservation> {
    if state.next_reservation_id == u64::MAX {
        CoordinatorStep {
            state,
            result: Err(
                ToolCallErrorView::InternalError("memory forget reservation ID overflow"@),
            ),
        }
    } else {
        CoordinatorStep {
            state: ForgetStateView {
                active: Some(
                    ActiveForgetMutationView {
                        reservation_id: state.next_reservation_id,
                        session_id,
                        kind,
                        entry_id,
                    },
                ),
                next_reservation_id: (state.next_reservation_id + 1) as u64,
                ..state
            },
            result: Ok(MemoryForgetReservation { reservation_id: state.next_reservation_id }),
        }
    }
}

/// Accepts the candidate for an entry.
pub open spec fn candidate_is(entry_id: Seq<char>) -> spec_fn(PendingForgetCandidateView) -> bool {
    |candidate: PendingForgetCandidateView| candidate.entry_id == entry_id
}

/// What an agent may forget: an entry that the user's text names outright, or a
/// pending candidate of the session that the text confirms in a later turn.
pub open spec fn agent_grant(
    state: ForgetStateView,
    invocation: MemoryToolInvocationView,
    user_text: Seq<char>,
    entry_id: Seq<char>,
    requested_scope: MemoryScope,
) -> Result<(MemoryScope, ActiveForgetKind), ToolCallErrorView> {
    if names_entry(ForgetCommandGrammar::Direct, user_text, entry_id) {
        Ok((requested_scope, ActiveForgetKind::AgentDirect))
    } else if !state.pending.contains_key(invocation.session_id) {
        Err(
            ToolCallErrorView::InvalidInput(
                "memory_forget requires a strict exact stable-ID command or a pending selection"@,
            ),
        )
    } else {
        let selection = state.pending[invocation.session_id];
        if selection.source_turn_id == invocation.turn_id || selection.source_user_item_id
            == invocation.user_item_id {
            Err(
                ToolCallErrorView::InvalidInput(
                    "memory_forget requires a subsequent user selection after memory_search"@,
                ),
            )
        } else {
            match first_match(selection.candidates, candidate_is(entry_id)) {
                None => Err(
                    ToolCallErrorView::InvalidInput(
                        "memory_forget target is not one of the pending candidates"@,
                    ),
                ),
                Some(i) => if !names_entry(
                    ForgetCommandGrammar::Confirmation,
                    user_text,
                    entry_id,
                ) {
                    Err(
                        ToolCallErrorView::InvalidInput(
                            "memory_forget pending selection must explicitly confirm the selected stable ID"@,
                        ),
                    )
                } else {
                    Ok(
                        (
                            selection.candidates[i].scope,
                            ActiveForgetKind::AgentConfirmed {
                                selection_id: selection.selection_id,
                            },
                        ),
                    )
                },
            }
        }
    }
}

/// The refusal while another mutation holds the lease.
pub open spec fn lease_taken() -> ToolCallErrorView {
    ToolCallErrorView::InvalidInput("memory forget mutation is already in flight"@)
}

/// An agent asks for the lease.
pub open spec fn agent_step(
    state: ForgetStateView,
    invocation: MemoryToolInvocationView,
    user_text: Seq<char>,
    entry_id: Seq<char>,
    requested_scope: MemoryScope,
    now: u64,
) -> CoordinatorStep<AuthorizedForget> {
    if state.active is Some {
        CoordinatorStep { state, result: Err(lease_taken()) }
    } else {
        let cleaned = pruned(state, now);
        match agent_grant(cleaned, invocation, user_text, entry_id, requested_scope) {
            Err(error) => CoordinatorStep { state: cleaned, result: Err(error) },
            Ok((scope, kind)) => {
                let reserved = reserve_step(cleaned, invocation.session_id, kind, Some(entry_id));
                CoordinatorStep {
                    state: reserved.state,
                    result: match reserved.result {
                        Ok(reservation) => Ok(AuthorizedForget { scope, reservation }),
                        Err(error) => Err(error),
                    },
                }
            },
        }
    }
}

/// A native client asks for the lease.
pub open spec fn native_step(
    state: ForgetStateView,
    session_id: SessionId,
    entry_id: Option<Seq<char>>,
) -> CoordinatorStep<MemoryForgetReservation> {
    if state.active is Some {
        CoordinatorStep { state, result: Err(lease_taken()) }
    } else {
        reserve_step(state, session_id, ActiveForgetKind::Native, entry_id)
    }
}

/// A mutation is done: it must still hold the lease, and must have forgotten the
/// entry that it was for. The selection that it confirmed is used up, and the
/// forgotten entry is no candidate any more.
pub open spec fn complete_step(
    state: ForgetStateView,
    reservation_id: u64,
    forgotten: Option<Seq<char>>,
) -> CoordinatorStep<()> {
    match state.active {
        Some(active) if active.reservation_id == reservation_id => {
            if active.entry_id is Some && forgotten != active.entry_id {
                CoordinatorStep {
                    state,
                    result: Err(
                        ToolCallErrorView::InternalError(
                            "memory forget returned an unexpected entry"@,
                        ),
                    ),
                }
            } else {
                let used = match active.kind {
                    ActiveForgetKind::AgentConfirmed {
                        selection_id,
                    } => if state.pending.contains_key(
                        active.session_id,
                    ) && state.pending[active.session_id].selection_id == selection_id {
                        state.pending.remove(active.session_id)
                    } else {
                        state.pending
                    },
                    _ => state.pending,
                };
                CoordinatorStep {
                    state: ForgetStateView {
                        pending: match forgotten {
                            Some(entry_id) => selections_without(used, entry_id),
                            None => used,
                        },
                        active: None,
                        ..state
                    },
                    result: Ok(()),
                }
            }
        },
        _ => CoordinatorStep {
            state,
            result: Err(
                ToolCallErrorView::InternalError("memory forget reservation is no longer current"@),
            ),
        },
    }
}

/// A mutation is given up: the lease is free, if the mutation held it.
pub open spec fn released(state: ForgetStateView, reservation_id: u64) -> ForgetStateView {
    match state.active {
        Some(active) if active.reservation_id == reservation_id => ForgetStateView {
            active: None,
            ..state
        },
        _ => state,
    }
}

fn find_candidate(candidates: &Vec<PendingForgetCandidate>, entry_id: &MemoryEntryId) -> (result:
    Option<usize>)
    ensures
        match result {
            Some(i) => i < candidates.len() && first_match(
                views(candidates@),
                candidate_is(entry_id@),
            ) == Some(i as int),
            None => first_match(views(candidates@), candidate_is(entry_id@)) is None,
        },
{
    let ghost all = views(candidates@);
    let ghost accepts = candidate_is(entry_id@);
    let mut i: usize = 0;
    while i < candidates.len()
        invariant
            i <= candidates.len(),
            all == views(candidates@),
            accepts == candidate_is(entry_id@),
            forall|j: int| 0 <= j < i ==> !accepts(#[trigger] all[j]),
        decreases candidates.len() - i,
    {
        assert(all[i as int] == candidates@[i as int]@);
        if candidates[i].entry_id.same(entry_id) {
            proof {
                lemma_is_first_match(all, accepts, i as int);
            }
            return Some(i);
        }
        i = i + 1;
    }
    proof {
        lemma_no_match(all, accepts);
    }
    None
}

fn collect_candidates(entries: &Vec<MemorySearchEntry>) -> (result: Vec<PendingForgetCandidate>)
    ensures
        views(result@) == candidates_of(views(entries@)),
{
    let mut candidates: Vec<PendingForgetCandidate> = Vec::new();
    let mut i: usize = 0;
    while i < entries.len()
        invariant
            i <= entries.len(),
            candidates.len() == i,
            forall|j: int|
                0 <= j < i ==> (#[trigger] candidates@[j])@ == (PendingForgetCandidateView {
                    entry_id: entries@[j]@.entry_id,
                    scope: entries@[j]@.scope,
                }),
        decreases entries.len() - i,
    {
        candidates.push(
            PendingForgetCandidate {
                entry_id: entries[i].entry_id.clone(),
                scope: entries[i].scope,
            },
        );
        i = i + 1;
    }
    assert(views(candidates@) =~= candidates_of(views(entries@)));
    candidates
}

impl MemoryForgetCoordinator {
    /// Whether the pending selections are by session.
    pub open spec fn well_formed(&self) -> bool {
        self.state.pending_by_session.well_formed()
    }

    /// A coordinator without pending selections, whose lease is free.
    pub fn new() -> (result: Self)
        ensures
            result.well_formed(),
            result@ == (ForgetStateView {
                pending: Map::empty(),
                active: None,
                next_reservation_id: 0,
                next_selection_id: 0,
            }),
    {
        let pending_by_session = PendingSelections { items: Vec::new() };
        assert(pending_by_session@ =~= Map::<SessionId, PendingForgetSelectionView>::empty());
        MemoryForgetCoordinator {
            state: ForgetState {
                pending_by_session,
                active: None,
                next_reservation_id: 0,
                next_selection_id: 0,
            },
        }
    }

    fn prune_expired(&mut self, now: u64)
        requires
            old(self).well_formed(),
        ensures
            final(self).well_formed(),
            final(self)@ == pruned(old(self)@, now),
    {
        let protected = match &self.state.active {
            Some(active) => match active.kind {
                ActiveForgetKind::AgentConfirmed { selection_id } => Some(
                    (active.session_id, selection_id),
                ),
                _ => None,
            },
            None => None,
        };
        self.state.pending_by_session.retain_current(now, protected);
    }

    /// Records the result of a search, from which a later turn may select.
    pub fn record_search_at(
        &mut self,
        invocation: &MemoryToolInvocation,
        candidates: &Vec<MemorySearchEntry>,
        now: u64,
    ) -> (result: Result<(), ToolCallError>)
        requires
            old(self).well_formed(),
            now + PENDING_SELECTION_TTL <= u64::MAX,
        ensures
            final(self).well_formed(),
            search_step(old(self)@, invocation@, views(candidates@), now) == (CoordinatorStep {
                state: final(self)@,
                result: tool_result(result),
            }),
    {
        let in_flight = match &self.state.active {
            Some(active) => match active.kind {
                ActiveForgetKind::AgentConfirmed { .. } => active.session_id
                    == invocation.session_id,
                _ => false,
            },
            None => false,
        };
        if in_flight {
            return Err(invalid_input("memory_forget selection mutation is already in flight"));
        }
        self.prune_expired(now);
        assert(views(candidates@).len() == candidates.len());
        if candidates.len() == 0 {
            self.state.pending_by_session.remove(invocation.session_id);
            return Ok(());
        }
        let selection_id = self.state.next_selection_id;
        if selection_id == u64::MAX {
            return Err(internal_error("memory forget selection ID overflow"));
        }
        self.state.next_selection_id = selection_id + 1;
        let selection = PendingForgetSelection {
            selection_id,
            source_turn_id: invocation.turn_id,
            source_user_item_id: invocation.user_item_id.clone(),
            candidates: collect_candidates(candidates),
            expires_at: now + PENDING_SELECTION_TTL,
        };
        self.state.pending_by_session.insert(invocation.session_id, selection);
        Ok(())
    }

    /// Drops what is pending for a session.
    pub fn remove_session(&mut self, session_id: SessionId)
        requires
            old(self).well_formed(),
        ensures
            final(self).well_formed(),
            final(self)@ == (ForgetStateView {
                pending: old(self)@.pending.remove(session_id),
                ..old(self)@
            }),
    {
        self.state.pending_by_session.remove(session_id);
    }

    fn reserve(
        &mut self,
        session_id: SessionId,
        kind: ActiveForgetKind,
        entry_id: Option<MemoryEntryId>,
    ) -> (result: Result<MemoryForgetReservation, ToolCallError>)
        requires
            old(self).well_formed(),
        ensures
            final(self).well_formed(),
            reserve_step(old(self)@, session_id, kind, opt_view(entry_id)) == (CoordinatorStep {
                state: final(self)@,
                result: tool_result(result),
            }),
    {
        let reservation_id = self.state.next_reservation_id;
        if reservation_id == u64::MAX {
            return Err(internal_error("memory forget reservation ID overflow"));
        }
        self.state.next_reservation_id = reservation_id + 1;
        self.state.active = Some(
            ActiveForgetMutation { reservation_id, session_id, kind, entry_id },
        );
        Ok(MemoryForgetReservation { reservation_id })
    }

    fn grant(
        &self,
        invocation: &MemoryToolInvocation,
        user_text: &str,
        entry_id: &MemoryEntryId,
        requested_scope: MemoryScope,
    ) -> (result: Result<(MemoryScope, ActiveForgetKind), ToolCallError>)
        ensures
            tool_result(result) == agent_grant(
                self@,
                invocation@,
                user_text@,
                entry_id@,
                requested_scope,
            ),
    {
        if strict_forget_names(ForgetCommandGrammar::Direct, user_text, entry_id) {
            return Ok((requested_scope, ActiveForgetKind::AgentDirect));
        }
        let selection = match self.state.pending_by_session.get(invocation.session_id) {
            Some(selection) => selection,
            None => return Err(
                invalid_input(
                    "memory_forget requires a strict exact stable-ID command or a pending selection",
                ),
            ),
        };
        if selection.source_turn_id == invocation.turn_id || selection.source_user_item_id.same(
            &invocation.user_item_id,
        ) {
            return Err(
                invalid_input(
                    "memory_forget requires a subsequent user selection after memory_search",
                ),
            );
        }
        let i = match find_candidate(&selection.candidates, entry_id) {
            Some(i) => i,
            None => return Err(
                invalid_input("memory_forget target is not one of the pending candidates"),
            ),
        };
        assert(views(selection.candidates@)[i as int] == selection.candidates@[i as int]@);
        if !strict_forget_names(ForgetCommandGrammar::Confirmation, user_text, entry_id) {
            return Err(
                invalid_input(
                    "memory_forget pending selection must explicitly confirm the selected stable ID",
                ),
            );
        }
        Ok(
            (
                selection.candidates[i].scope,
                ActiveForgetKind::AgentConfirmed { selection_id: selection.selection_id },
            ),
        )
    }

    /// Authorizes an agent to forget an entry, and gives it the lease.
    pub fn authorize_agent_at(
        &mut self,
        invocation: &MemoryToolInvocation,
        user_text: &str,
        entry_id: &MemoryEntryId,
        requested_scope: MemoryScope,
        now: u64,
    ) -> (result: Result<AuthorizedForget, ToolCallError>)
        requires
            old(self).well_formed(),
        ensures
            final(self).well_formed(),
            agent_step(
                old(self)@,
                invocation@,
                user_text@,
                entry_id@,
                requested_scope,
                now,
            ) == (CoordinatorStep { state: final(self)@, result: tool_result(result) }),
    {
        match self.reject_active() {
            Ok(_) => {},
            Err(error) => return Err(error),
        }
        self.prune_expired(now);
        let (scope, kind) = match self.grant(invocation, user_text, entry_id, requested_scope) {
            Ok(granted) => granted,
            Err(error) => return Err(error),
        };
        match self.reserve(invocation.session_id, kind, Some(entry_id.clone())) {
            Ok(reservation) => Ok(AuthorizedForget { scope, reservation }),
            Err(error) => Err(error),
        }
    }

    /// Authorizes a native client to forget, and gives it the lease.
    pub fn authorize_native(
        &mut self,
        session_id: SessionId,
        entry_id: Option<&MemoryEntryId>,
    ) -> (result:
        Result<MemoryForgetReservation, ToolCallError>)
        requires
            old(self).well_formed(),
        ensures
            final(self).well_formed(),
            native_step(
                old(self)@,
                session_id,
                match entry_id {
                    Some(entry_id) => Some(entry_id@),
                    None => None,
                },
            ) == (CoordinatorStep { state: final(self)@, result: tool_result(result) }),
    {
        match self.reject_active() {
            Ok(_) => {},
            Err(error) => return Err(error),
        }
        let entry_id = match entry_id {
            Some(entry_id) => Some(entry_id.clone()),
            None => None,
        };
        self.reserve(session_id, ActiveForgetKind::Native, entry_id)
    }

    /// Ends a mutation that was performed.
    pub fn complete(
        &mut self,
        reservation: MemoryForgetReservation,
        forgotten: Option<&MemoryEntry>,
    ) -> (result: Result<(), ToolCallError>)
        requires
            old(self).well_formed(),
        ensures
            final(self).well_formed(),
            complete_step(
                old(self)@,
                reservation.reservation_id,
                match forgotten {
                    Some(entry) => Some(entry@.entry_id),
                    None => None,
                },
            ) == (CoordinatorStep { state: final(self)@, result: tool_result(result) }),
    {
        let (session_id, kind) = match &self.state.active {
            Some(active) => {
                if active.reservation_id != reservation.reservation_id {
                    return Err(internal_error("memory forget reservation is no longer current"));
                }
                let unexpected = match (&active.entry_id, forgotten) {
                    (Some(expected), Some(entry)) => !entry.entry_id.same(expected),
                    (Some(_), None) => true,
                    (None, _) => false,
                };
                if unexpected {
                    return Err(internal_error("memory forget returned an unexpected entry"));
                }
                (active.session_id, active.kind)
            },
            None => return Err(internal_error("memory forget reservation is no longer current")),
        };
        if let ActiveForgetKind::AgentConfirmed { selection_id } = kind {
            let used = match self.state.pending_by_session.get(session_id) {
                Some(selection) => selection.selection_id == selection_id,
                None => false,
            };
            if used {
                self.state.pending_by_session.remove(session_id);
            }
        }
        if let Some(entry) = forgotten {
            self.state.pending_by_session.drop_candidate(&entry.entry_id);
        }
        self.state.active = None;
        Ok(())
    }

    /// Gives a mutation up that was not performed.
    pub fn release(&mut self, reservation: MemoryForgetReservation)
        requires
            old(self).well_formed(),
        ensures
            final(self).well_formed(),
            final(self)@ == released(old(self)@, reservation.reservation_id),
    {
        let current = match &self.state.active {
            Some(active) => active.reservation_id == reservation.reservation_id,
            None => false,
        };
        if current {
            self.state.active = None;
        }
    }

    fn reject_active(&self) -> (result: Result<(), ToolCallError>)
        ensures
            tool_result(result) == if self@.active is Some {
                Err(lease_taken())
            } else {
                Ok(())
            },
    {
        if self.state.active.is_some() {
            return Err(invalid_input("memory forget mutation is already in flight"));
        }
        Ok(())
    }
}

// ---------------------------------------------------------------------------
// Laws.
// ---------------------------------------------------------------------------
/// What every state of a coordinator keeps: the lease has a reservation ID that was
/// given out, every selection has a selection ID that was given out, and every
/// selection offers something.
pub open spec fn is_sound(state: ForgetStateView) -> bool {
    &&& state.active matches Some(active) ==> active.reservation_id < state.next_reservation_id
    &&& forall|s: SessionId| #[trigger]
        state.pending.contains_key(s) ==> state.pending[s].selection_id < state.next_selection_id
            && state.pending[s].candidates.len() > 0
}

/// Every step of a coordinator keeps its state sound.
pub proof fn law_steps_stay_sound(
    state: ForgetStateView,
    invocation: MemoryToolInvocationView,
    entries: Seq<MemorySearchEntryView>,
    user_text: Seq<char>,
    entry_id: Seq<char>,
    scope: MemoryScope,
    session_id: SessionId,
    target: Option<Seq<char>>,
    reservation_id: u64,
    now: u64,
)
    requires
        is_sound(state),
    ensures
        is_sound(search_step(state, invocation, entries, now).state),
        is_sound(agent_step(state, invocation, user_text, entry_id, scope, now).state),
        is_sound(native_step(state, session_id, target).state),
        is_sound(complete_step(state, reservation_id, target).state),
        is_sound(released(state, reservation_id)),
{
}

/// The lease is exclusive: while a mutation holds it, nobody else gets it, and the
/// state stays as it is.
pub proof fn law_lease_is_exclusive(
    state: ForgetStateView,
    invocation: MemoryToolInvocationView,
    user_text: Seq<char>,
    entry_id: Seq<char>,
    scope: MemoryScope,
    session_id: SessionId,
    target: Option<Seq<char>>,
    now: u64,
)
    requires
        state.active is Some,
    ensures
        agent_step(state, invocation, user_text, entry_id, scope, now) == (CoordinatorStep {
            state,
            result: Err::<AuthorizedForget, ToolCallErrorView>(lease_taken()),
        }),
        native_step(state, session_id, target) == (CoordinatorStep {
            state,
            result: Err::<MemoryForgetReservation, ToolCallErrorView>(lease_taken()),
        }),
{
}

/// A stale reservation is powerless: neither completing nor releasing it touches
/// the lease of another mutation, or anything else.
pub proof fn law_stale_reservation_is_powerless(
    state: ForgetStateView,
    reservation_id: u64,
    forgotten: Option<Seq<char>>,
)
    requires
        !(state.active matches Some(active) && active.reservation_id == reservation_id),
    ensures
        complete_step(state, reservation_id, forgotten).state == state,
        complete_step(state, reservation_id, forgotten).result is Err,
        released(state, reservation_id) == state,
{
}

/// Reservations are never given out twice: in a sound state a new reservation
/// differs from the one that holds the lease, and from all before it.
pub proof fn law_reservations_are_fresh(
    state: ForgetStateView,
    session_id: SessionId,
    kind: ActiveForgetKind,
    target: Option<Seq<char>>,
)
    requires
        is_sound(state),
    ensures
        reserve_step(state, session_id, kind, target).result matches Ok(reservation) ==> {
            &&& reservation.reservation_id == state.next_reservation_id
            &&& reserve_step(state, session_id, kind, target).state.next_reservation_id
                > state.next_reservation_id
            &&& state.active matches Some(active) ==> active.reservation_id
                != reservation.reservation_id
        },
{
}

/// Releasing undoes a reservation, but for the ID that it used up.
pub proof fn law_release_undoes_reservation(
    state: ForgetStateView,
    session_id: SessionId,
    target: Option<Seq<char>>,
)
    requires
        state.active is None,
    ensures
        native_step(state, session_id, target).result matches Ok(reservation) ==> released(
            native_step(state, session_id, target).state,
            reservation.reservation_id,
        ) == (ForgetStateView {
            next_reservation_id: (state.next_reservation_id + 1) as u64,
            ..state
        }),
{
}

/// An agent gets the lease only for what the user said: the text names the entry
/// outright, or confirms a candidate of an earlier turn that has not expired.
pub proof fn law_agents_need_the_users_word(
    state: ForgetStateView,
    invocation: MemoryToolInvocationView,
    user_text: Seq<char>,
    entry_id: Seq<char>,
    scope: MemoryScope,
    now: u64,
)
    ensures
        agent_step(state, invocation, user_text, entry_id, scope, now).result is Ok ==> {
            ||| names_entry(ForgetCommandGrammar::Direct, user_text, entry_id)
            ||| {
                let selection = state.pending[invocation.session_id];
                &&& state.pending.contains_key(invocation.session_id)
                &&& selection.expires_at > now
                &&& selection.source_turn_id != invocation.turn_id
                &&& selection.source_user_item_id != invocation.user_item_id
                &&& first_match(selection.candidates, candidate_is(entry_id)) is Some
                &&& names_entry(ForgetCommandGrammar::Confirmation, user_text, entry_id)
            }
        },
{
}

/// A confirmed selection is used up once: after the mutation is completed, the
/// session has no pending selection.
pub proof fn law_selection_is_single_use(
    state: ForgetStateView,
    active: ActiveForgetMutationView,
    selection_id: u64,
    forgotten: Option<Seq<char>>,
)
    requires
        state.active == Some(active),
        active.kind == (ActiveForgetKind::AgentConfirmed { selection_id }),
        state.pending.contains_key(active.session_id),
        state.pending[active.session_id].selection_id == selection_id,
    ensures
        complete_step(state, active.reservation_id, forgotten).result is Ok ==> !complete_step(
            state,
            active.reservation_id,
            forgotten,
        ).state.pending.contains_key(active.session_id),
{
}

/// A forgotten entry is no candidate any more, in any session.
pub proof fn law_forgotten_entry_is_no_candidate(
    state: ForgetStateView,
    reservation_id: u64,
    entry_id: Seq<char>,
    s: SessionId,
)
    ensures
        ({
            let step = complete_step(state, reservation_id, Some(entry_id));
            step.result is Ok && step.state.pending.contains_key(s) ==> first_match(
                step.state.pending[s].candidates,
                candidate_is(entry_id),
            ) is None
        }),
{
    let step = complete_step(state, reservation_id, Some(entry_id));
    if step.result is Ok && step.state.pending.contains_key(s) {
        let kept = step.state.pending[s].candidates;
        let all = state.pending[s].candidates;
        lemma_filter_holds(all, other_candidate(entry_id));
        assert forall|j: int| 0 <= j < kept.len() implies !candidate_is(entry_id)(
            #[trigger] kept[j],
        ) by {
            assert(kept.contains(kept[j]));
            assert(all.filter(other_candidate(entry_id)).contains(kept[j]));
            assert(other_candidate(entry_id)(kept[j]));
        }
        lemma_no_match(kept, candidate_is(entry_id));
    }
}

/// A search neither replaces nor drops the selection that a running mutation
/// confirmed, however late it comes.
pub proof fn law_running_confirmation_is_protected(
    state: ForgetStateView,
    invocation: MemoryToolInvocationView,
    entries: Seq<MemorySearchEntryView>,
    now: u64,
    session_id: SessionId,
    selection_id: u64,
)
    requires
        protected_selection(state) == Some((session_id, selection_id)),
        state.pending.contains_key(session_id),
        state.pending[session_id].selection_id == selection_id,
    ensures
        ({
            let after = search_step(state, invocation, entries, now).state;
            after.pending.contains_key(session_id) && after.pending[session_id]
                == state.pending[session_id]
        }),
{
}

} // verus!
