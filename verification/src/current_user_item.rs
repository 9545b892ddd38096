//! The message that a user sent to the running turn of a session.
//!
//! A tool that changes memory has to name that message: memory changes on the
//! user's word alone.

use vstd::prelude::*;

use crate::core_ids::{ItemId, TurnId};
use crate::ids::uuid_text;
use crate::rows::{first_match, lemma_is_first_match, lemma_no_match};
use crate::text::{opt_view, same_text, views};

verus! {

/// Why a message is not the current one.
#[derive(Debug, Clone, Copy, PartialEq, Eq, Structural)]
pub enum CurrentUserItemError {
    ActiveTurnUnavailable,
    TurnMismatch,
    ItemMismatch,
}

/// What an error says to a reader.
pub open spec fn current_item_message(error: CurrentUserItemError) -> Seq<char> {
    match error {
        CurrentUserItemError::ActiveTurnUnavailable => {
            "memory tool requires an active turn with a current user message"@
        },
        CurrentUserItemError::TurnMismatch => {
            "memory tool turn context does not match the active turn"@
        },
        CurrentUserItemError::ItemMismatch => {
            "memory tool source must be the current user message"@
        },
    }
}

impl CurrentUserItemError {
    /// What the error says to a reader.
    pub fn message(&self) -> (result: String)
        ensures
            result@ == current_item_message(*self),
    {
        match self {
            CurrentUserItemError::ActiveTurnUnavailable => {
                "memory tool requires an active turn with a current user message".to_string()
            },
            CurrentUserItemError::TurnMismatch => {
                "memory tool turn context does not match the active turn".to_string()
            },
            CurrentUserItemError::ItemMismatch => {
                "memory tool source must be the current user message".to_string()
            },
        }
    }
}

/// An item of a running turn.
#[derive(Debug, PartialEq, Eq)]
pub struct StreamItem {
    pub turn_id: TurnId,
    pub item_id: ItemId,
    /// What the user said, if the item is a message of the user.
    pub user_message: Option<String>,
}

/// The view of [`StreamItem`].
#[verifier::ext_equal]
pub struct StreamItemView {
    pub turn_id: TurnId,
    pub item_id: ItemId,
    pub user_message: Option<Seq<char>>,
}

impl View for StreamItem {
    type V = StreamItemView;

    open spec fn view(&self) -> StreamItemView {
        StreamItemView {
            turn_id: self.turn_id,
            item_id: self.item_id,
            user_message: opt_view(self.user_message),
        }
    }
}

impl Clone for StreamItem {
    fn clone(&self) -> (result: Self)
        ensures
            result@ == self@,
    {
        let result = StreamItem {
            turn_id: self.turn_id,
            item_id: self.item_id,
            user_message: self.user_message.clone(),
        };
        result
    }
}

/// A running turn.
#[derive(Debug, PartialEq, Eq)]
pub struct InlineTurn {
    pub turn_id: TurnId,
    pub items: Vec<StreamItem>,
}

/// The view of [`InlineTurn`].
#[verifier::ext_equal]
pub struct InlineTurnView {
    pub turn_id: TurnId,
    pub items: Seq<StreamItemView>,
}

impl View for InlineTurn {
    type V = InlineTurnView;

    open spec fn view(&self) -> InlineTurnView {
        InlineTurnView {
            turn_id: self.turn_id,
            items: views(self.items@),
        }
    }
}

impl Clone for InlineTurn {
    fn clone(&self) -> (result: Self)
        ensures
            result@ == self@,
    {
        let result = InlineTurn {
            turn_id: self.turn_id,
            items: self.items.clone(),
        };
        assert(views(result.items@) =~= views(self.items@));
        result
    }
}

/// Accepts the message of a user under an ID in a turn.
pub open spec fn message_is(turn_id: TurnId, user_item_id: Seq<char>) -> spec_fn(
    StreamItemView,
) -> bool {
    |item: StreamItemView|
        item.turn_id == turn_id && uuid_text(item.item_id.value) == user_item_id
            && item.user_message is Some
}

/// What the user said to the running turn under an ID.
pub open spec fn current_message(
    running: Option<InlineTurnView>,
    turn_id: TurnId,
    user_item_id: Seq<char>,
) -> Result<Seq<char>, CurrentUserItemError> {
    match running {
        None => Err(CurrentUserItemError::ActiveTurnUnavailable),
        Some(turn) => if turn.turn_id != turn_id {
            Err(CurrentUserItemError::TurnMismatch)
        } else {
            match first_match(turn.items, message_is(turn_id, user_item_id)) {
                Some(i) => Ok(turn.items[i].user_message->Some_0),
                None => Err(CurrentUserItemError::ItemMismatch),
            }
        },
    }
}

/// The view of a message that was looked for.
pub open spec fn message_result(result: Result<String, CurrentUserItemError>) -> Result<
    Seq<char>,
    CurrentUserItemError,
> {
    match result {
        Ok(text) => Ok(text@),
        Err(error) => Err(error),
    }
}

/// What the user said to the running turn of a session under an ID. A session
/// without a running turn has none.
pub fn current_user_item_text(
    running: &Option<InlineTurn>,
    turn_id: TurnId,
    user_item_id: &str,
) -> (result: Result<String, CurrentUserItemError>)
    ensures
        message_result(result) == current_message(opt_view(*running), turn_id, user_item_id@),
{
    let turn = match running {
        Some(turn) => turn,
        None => return Err(CurrentUserItemError::ActiveTurnUnavailable),
    };
    if turn.turn_id != turn_id {
        return Err(CurrentUserItemError::TurnMismatch);
    }
    let ghost all = views(turn.items@);
    let ghost wanted = message_is(turn_id, user_item_id@);
    let mut i: usize = 0;
    while i < turn.items.len()
        invariant
            i <= turn.items.len(),
            opt_view(*running) == Some(turn@),
            turn.turn_id == turn_id,
            all == views(turn.items@),
            wanted == message_is(turn_id, user_item_id@),
            forall|j: int| 0 <= j < i ==> !wanted(#[trigger] all[j]),
        decreases turn.items.len() - i,
    {
        let item = &turn.items[i];
        assert(all[i as int] == item@);
        let id_text = item.item_id.to_text();
        if item.turn_id == turn_id && same_text(id_text.as_str(), user_item_id) {
            if let Some(text) = &item.user_message {
                proof {
                    lemma_is_first_match(all, wanted, i as int);
                }
                return Ok(text.clone());
            }
        }
        i = i + 1;
    }
    proof {
        lemma_no_match(all, wanted);
    }
    Err(CurrentUserItemError::ItemMismatch)
}

} // verus!
