//! Inputs that wait for a turn: what their metadata says, and what a turn needs of
//! them.

use vstd::prelude::*;

use crate::core_ids::{SessionId, TurnId};
use crate::ids::uuid_value;
use crate::rows::{first_match, lemma_is_first_match, lemma_no_match};
use crate::session::{NamedChoice, NamedChoiceView};
use crate::session_state::{
    MetadataField, MetadataFieldView, PendingInputItem, PendingInputItemView, PendingInputKind,
    PendingInputKindView, PendingMetadata, PendingMetadataView, QueuedTurnInputData,
    QueuedTurnInputDataView, SubagentUsageOwner,
};
use crate::text::{chars_of, opt_view, same_text, text_of, trim, trimmed, views};

verus! {

/// Accepts the field with a key.
pub open spec fn key_is(key: Seq<char>) -> spec_fn(MetadataFieldView) -> bool {
    |field: MetadataFieldView| field.key == key
}

/// The field with a key.
pub open spec fn field_of(metadata: Option<PendingMetadataView>, key: Seq<char>) -> Option<
    MetadataFieldView,
> {
    match metadata {
        None => None,
        Some(metadata) => match first_match(metadata.fields, key_is(key)) {
            Some(i) => Some(metadata.fields[i]),
            None => None,
        },
    }
}

/// A text under a key, without the whitespace around it. Blank texts do not count.
pub open spec fn text_field(metadata: Option<PendingMetadataView>, key: Seq<char>) -> Option<
    Seq<char>,
> {
    match field_of(metadata, key) {
        Some(field) => match field.text {
            Some(text) => if trimmed(text).len() > 0 {
                Some(trimmed(text))
            } else {
                None
            },
            None => None,
        },
        None => None,
    }
}

/// The collaboration mode that metadata names, under its key or, where that is
/// missing, under its older key. What does not read as a mode is the default.
pub open spec fn mode_of(metadata: Option<PendingMetadataView>) -> NamedChoiceView {
    let field = match field_of(metadata, "collaboration_mode"@) {
        Some(field) => Some(field),
        None => field_of(metadata, "interaction_mode"@),
    };
    match field {
        Some(field) => match field.mode {
            Some(mode) => mode,
            None => NamedChoiceView::Default,
        },
        None => NamedChoiceView::Default,
    }
}

/// The model that metadata selects: a binding, or else a model.
pub open spec fn model_of(metadata: Option<PendingMetadataView>) -> Option<Seq<char>> {
    match text_field(metadata, "model_binding_id"@) {
        Some(binding) => Some(binding),
        None => text_field(metadata, "model"@),
    }
}

/// Who pays for the usage of a subagent, as metadata says it. A turn that cannot be
/// read is left out.
pub open spec fn usage_owner_of(metadata: Option<PendingMetadataView>) -> Option<
    SubagentUsageOwner,
> {
    match text_field(metadata, "devo_subagent_usage_parent_session_id"@) {
        None => None,
        Some(session) => match uuid_value(session) {
            None => None,
            Some(value) => Some(
                SubagentUsageOwner {
                    session_id: SessionId { value },
                    turn_id: match text_field(metadata, "devo_subagent_usage_parent_turn_id"@) {
                        None => None,
                        Some(turn) => match uuid_value(turn) {
                            None => None,
                            Some(value) => Some(TurnId { value }),
                        },
                    },
                },
            ),
        },
    }
}

/// What a turn needs of an input, if the input starts one.
pub open spec fn queued_input(item: PendingInputItemView) -> Option<QueuedTurnInputDataView> {
    match item.kind {
        PendingInputKindView::UserText { text } => Some(
            QueuedTurnInputDataView {
                queued_input_id: item.id,
                display_input: text,
                input_text: text,
                input_messages: Seq::empty(),
                collaboration_mode: mode_of(item.metadata),
                model_selection: model_of(item.metadata),
                subagent_usage_owner: usage_owner_of(item.metadata),
            },
        ),
        PendingInputKindView::UserInput { display_text, prompt_text, prompt_messages } => Some(
            QueuedTurnInputDataView {
                queued_input_id: item.id,
                display_input: display_text,
                input_text: prompt_text,
                input_messages: prompt_messages,
                collaboration_mode: mode_of(item.metadata),
                model_selection: model_of(item.metadata),
                subagent_usage_owner: usage_owner_of(item.metadata),
            },
        ),
        PendingInputKindView::Other => None,
    }
}

fn find_field<'a>(metadata: &'a Option<PendingMetadata>, key: &str) -> (result: Option<
    &'a MetadataField,
>)
    ensures
        match result {
            Some(field) => field_of(opt_view(*metadata), key@) == Some(field@),
            None => field_of(opt_view(*metadata), key@) is None,
        },
{
    let known = match metadata {
        Some(known) => known,
        None => return None,
    };
    let ghost all = views(known.fields@);
    let ghost wanted = key_is(key@);
    let mut i: usize = 0;
    while i < known.fields.len()
        invariant
            i <= known.fields.len(),
            opt_view(*metadata) == Some(known@),
            all == views(known.fields@),
            wanted == key_is(key@),
            forall|j: int| 0 <= j < i ==> !wanted(#[trigger] all[j]),
        decreases known.fields.len() - i,
    {
        assert(all[i as int] == known.fields@[i as int]@);
        if same_text(known.fields[i].key.as_str(), key) {
            proof {
                lemma_is_first_match(all, wanted, i as int);
            }
            return Some(&known.fields[i]);
        }
        i = i + 1;
    }
    proof {
        lemma_no_match(all, wanted);
    }
    None
}

fn string_field_from_pending_metadata(metadata: &Option<PendingMetadata>, key: &str) -> (result:
    Option<String>)
    ensures
        opt_view(result) == text_field(opt_view(*metadata), key@),
{
    let field = match find_field(metadata, key) {
        Some(field) => field,
        None => return None,
    };
    match &field.text {
        Some(text) => {
            let chars = chars_of(text.as_str());
            let inner = trim(&chars);
            if inner.len() > 0 {
                Some(text_of(&inner))
            } else {
                None
            }
        },
        None => None,
    }
}

/// The collaboration mode that metadata names.
pub fn collaboration_mode_from_pending_metadata(metadata: &Option<PendingMetadata>) -> (result:
    NamedChoice)
    ensures
        result@ == mode_of(opt_view(*metadata)),
{
    let field = match find_field(metadata, "collaboration_mode") {
        Some(field) => Some(field),
        None => find_field(metadata, "interaction_mode"),
    };
    match field {
        Some(field) => match &field.mode {
            Some(mode) => mode.clone(),
            None => NamedChoice::Default,
        },
        None => NamedChoice::Default,
    }
}

/// The model that metadata selects.
pub fn model_selection_from_pending_metadata(metadata: &Option<PendingMetadata>) -> (result: Option<
    String,
>)
    ensures
        opt_view(result) == model_of(opt_view(*metadata)),
{
    match string_field_from_pending_metadata(metadata, "model_binding_id") {
        Some(binding) => Some(binding),
        None => string_field_from_pending_metadata(metadata, "model"),
    }
}

/// Who pays for the usage of a subagent, as metadata says it.
pub fn subagent_usage_owner_from_pending_metadata(metadata: &Option<PendingMetadata>) -> (result:
    Option<SubagentUsageOwner>)
    ensures
        result == usage_owner_of(opt_view(*metadata)),
{
    let session = match string_field_from_pending_metadata(
        metadata,
        "devo_subagent_usage_parent_session_id",
    ) {
        Some(session) => session,
        None => return None,
    };
    let session_id = match SessionId::parse(session.as_str()) {
        Some(session_id) => session_id,
        None => return None,
    };
    let turn_id = match string_field_from_pending_metadata(
        metadata,
        "devo_subagent_usage_parent_turn_id",
    ) {
        Some(turn) => TurnId::parse(turn.as_str()),
        None => None,
    };
    Some(SubagentUsageOwner { session_id, turn_id })
}

/// What a turn needs of an input, if the input starts one.
pub fn pop_queued_turn_input_data(item: PendingInputItem) -> (result: Option<QueuedTurnInputData>)
    ensures
        opt_view(result) == queued_input(item@),
{
    let collaboration_mode = collaboration_mode_from_pending_metadata(&item.metadata);
    let model_selection = model_selection_from_pending_metadata(&item.metadata);
    let subagent_usage_owner = subagent_usage_owner_from_pending_metadata(&item.metadata);
    match item.kind {
        PendingInputKind::UserText { text } => {
            let input_messages: Vec<String> = Vec::new();
            assert(views(input_messages@) =~= Seq::<Seq<char>>::empty());
            Some(
                QueuedTurnInputData {
                    queued_input_id: item.id,
                    display_input: text.clone(),
                    input_text: text,
                    input_messages,
                    collaboration_mode,
                    model_selection,
                    subagent_usage_owner,
                },
            )
        },
        PendingInputKind::UserInput { display_text, prompt_text, prompt_messages } => Some(
            QueuedTurnInputData {
                queued_input_id: item.id,
                display_input: display_text,
                input_text: prompt_text,
                input_messages: prompt_messages,
                collaboration_mode,
                model_selection,
                subagent_usage_owner,
            },
        ),
        PendingInputKind::Other => None,
    }
}

/// An input keeps its ID on its way to a turn, and its text, where it is one.
pub proof fn law_queued_input_keeps_its_id(item: PendingInputItemView)
    ensures
        queued_input(item) matches Some(queued) ==> queued.queued_input_id == item.id,
        item.kind matches PendingInputKindView::UserText { text } ==> (
        queued_input(item) matches Some(queued) && queued.input_text == text && queued.display_input
            == text),
{
}

} // verus!
