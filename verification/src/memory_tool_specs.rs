//! The memory tools that an agent is offered: how they are described to a model, and
//! how a model's input is read.

use vstd::prelude::*;

use crate::core_ids::{SessionId, TurnId};
use crate::current_user_item::{current_item_message, CurrentUserItemError};
use crate::forget_authorization::{MemoryToolInvocation, MemoryToolInvocationView};
use crate::ids::{ItemId, MemoryEntryId};
use crate::item::{clone_opt_texts, opt_texts};
use crate::memory_tools::checked;
use crate::rpc_memory::{
    MemoryForgetParams, MemoryForgetParamsView, MemoryKind, MemoryRememberParams,
    MemoryRememberParamsView, MemoryScope, MemorySearchParams, MemorySearchParamsView,
};
use crate::text::{chars_of, concat, opt_view, same_text, text_of, trim, trimmed, views};
use crate::tool_error::{invalid_input, ToolCallError, ToolCallErrorView};
use crate::tool_input::{as_text, value_of, value_of_either, ToolInput, ToolInputView};

verus! {

// ---------------------------------------------------------------------------
// Descriptions of tools.
// ---------------------------------------------------------------------------
/// What a tool puts out.
#[derive(Debug, Clone, Copy, PartialEq, Eq, Structural)]
pub enum ToolOutputMode {
    Text,
    StructuredJson,
}

/// Whether a tool changes anything.
#[derive(Debug, Clone, Copy, PartialEq, Eq, Structural)]
pub enum ToolExecutionMode {
    ReadOnly,
    Mutating,
}

/// What is shown while a call of a tool is prepared.
#[derive(Debug, Clone, Copy, PartialEq, Eq, Structural)]
pub enum ToolPreparationFeedback {
    /// Nothing.
    Silent,
    /// A call that is shown while it lasts.
    LiveOnly,
}

/// A text that a tool takes.
#[derive(Debug, PartialEq, Eq)]
pub struct PropertySchema {
    pub description: Option<String>,
    /// The texts that it may be, if not any.
    pub enum_values: Option<Vec<String>>,
}

/// The view of [`PropertySchema`].
#[verifier::ext_equal]
pub struct PropertySchemaView {
    pub description: Option<Seq<char>>,
    pub enum_values: Option<Seq<Seq<char>>>,
}

impl View for PropertySchema {
    type V = PropertySchemaView;

    open spec fn view(&self) -> PropertySchemaView {
        PropertySchemaView {
            description: opt_view(self.description),
            enum_values: opt_texts(self.enum_values),
        }
    }
}

impl Clone for PropertySchema {
    fn clone(&self) -> (result: Self)
        ensures
            result@ == self@,
    {
        let result = PropertySchema {
            description: self.description.clone(),
            enum_values: clone_opt_texts(&self.enum_values),
        };
        result
    }
}

/// A property of an input.
#[derive(Debug, PartialEq, Eq)]
pub struct SchemaProperty {
    pub name: String,
    pub schema: PropertySchema,
}

/// The view of [`SchemaProperty`].
#[verifier::ext_equal]
pub struct SchemaPropertyView {
    pub name: Seq<char>,
    pub schema: PropertySchemaView,
}

impl View for SchemaProperty {
    type V = SchemaPropertyView;

    open spec fn view(&self) -> SchemaPropertyView {
        SchemaPropertyView {
            name: self.name@,
            schema: self.schema@,
        }
    }
}

impl Clone for SchemaProperty {
    fn clone(&self) -> (result: Self)
        ensures
            result@ == self@,
    {
        let result = SchemaProperty {
            name: self.name.clone(),
            schema: self.schema.clone(),
        };
        result
    }
}

/// An input, as an object with properties in the order of their names.
#[derive(Debug, PartialEq, Eq)]
pub struct JsonSchema {
    pub properties: Vec<SchemaProperty>,
    pub required: Option<Vec<String>>,
    pub additional_properties: Option<bool>,
}

/// The view of [`JsonSchema`].
#[verifier::ext_equal]
pub struct JsonSchemaView {
    pub properties: Seq<SchemaPropertyView>,
    pub required: Option<Seq<Seq<char>>>,
    pub additional_properties: Option<bool>,
}

impl View for JsonSchema {
    type V = JsonSchemaView;

    open spec fn view(&self) -> JsonSchemaView {
        JsonSchemaView {
            properties: views(self.properties@),
            required: opt_texts(self.required),
            additional_properties: self.additional_properties,
        }
    }
}

impl Clone for JsonSchema {
    fn clone(&self) -> (result: Self)
        ensures
            result@ == self@,
    {
        let result = JsonSchema {
            properties: self.properties.clone(),
            required: clone_opt_texts(&self.required),
            additional_properties: self.additional_properties,
        };
        assert(views(result.properties@) =~= views(self.properties@));
        result
    }
}

/// A tool, as it is described to a model.
#[derive(Debug, PartialEq, Eq)]
pub struct ToolSpec {
    pub name: String,
    pub description: String,
    pub input_schema: JsonSchema,
    pub output_mode: ToolOutputMode,
    pub execution_mode: ToolExecutionMode,
    pub capability_tags: Vec<String>,
    pub supports_parallel: bool,
    pub preparation_feedback: ToolPreparationFeedback,
    pub display_name: Option<String>,
    pub supports_cancellation: Option<bool>,
    pub supports_streaming: Option<bool>,
}

/// The view of [`ToolSpec`].
#[verifier::ext_equal]
pub struct ToolSpecView {
    pub name: Seq<char>,
    pub description: Seq<char>,
    pub input_schema: JsonSchemaView,
    pub output_mode: ToolOutputMode,
    pub execution_mode: ToolExecutionMode,
    pub capability_tags: Seq<Seq<char>>,
    pub supports_parallel: bool,
    pub preparation_feedback: ToolPreparationFeedback,
    pub display_name: Option<Seq<char>>,
    pub supports_cancellation: Option<bool>,
    pub supports_streaming: Option<bool>,
}

impl View for ToolSpec {
    type V = ToolSpecView;

    open spec fn view(&self) -> ToolSpecView {
        ToolSpecView {
            name: self.name@,
            description: self.description@,
            input_schema: self.input_schema@,
            output_mode: self.output_mode,
            execution_mode: self.execution_mode,
            capability_tags: views(self.capability_tags@),
            supports_parallel: self.supports_parallel,
            preparation_feedback: self.preparation_feedback,
            display_name: opt_view(self.display_name),
            supports_cancellation: self.supports_cancellation,
            supports_streaming: self.supports_streaming,
        }
    }
}

impl Clone for ToolSpec {
    fn clone(&self) -> (result: Self)
        ensures
            result@ == self@,
    {
        let result = ToolSpec {
            name: self.name.clone(),
            description: self.description.clone(),
            input_schema: self.input_schema.clone(),
            output_mode: self.output_mode,
            execution_mode: self.execution_mode,
            capability_tags: self.capability_tags.clone(),
            supports_parallel: self.supports_parallel,
            preparation_feedback: self.preparation_feedback,
            display_name: self.display_name.clone(),
            supports_cancellation: self.supports_cancellation,
            supports_streaming: self.supports_streaming,
        };
        assert(views(result.capability_tags@) =~= views(self.capability_tags@));
        result
    }
}

/// A tool of memory.
pub open spec fn memory_tool(
    name: Seq<char>,
    description: Seq<char>,
    properties: Seq<SchemaPropertyView>,
    required: Seq<Seq<char>>,
    execution_mode: ToolExecutionMode,
) -> ToolSpecView {
    ToolSpecView {
        name,
        description,
        input_schema: JsonSchemaView {
            properties,
            required: Some(required),
            additional_properties: Some(false),
        },
        output_mode: ToolOutputMode::StructuredJson,
        execution_mode,
        capability_tags: Seq::empty(),
        supports_parallel: false,
        preparation_feedback: ToolPreparationFeedback::Silent,
        display_name: None,
        supports_cancellation: None,
        supports_streaming: None,
    }
}

fn text_property(name: &str, description: &str) -> (result: SchemaProperty)
    ensures
        result@ == (SchemaPropertyView {
            name: name@,
            schema: PropertySchemaView { description: Some(description@), enum_values: None },
        }),
{
    SchemaProperty {
        name: name.to_string(),
        schema: PropertySchema { description: Some(description.to_string()), enum_values: None },
    }
}

fn choice_property(name: &str, description: &str, choices: Vec<String>) -> (result: SchemaProperty)
    ensures
        result@ == (SchemaPropertyView {
            name: name@,
            schema: PropertySchemaView {
                description: Some(description@),
                enum_values: Some(views(choices@)),
            },
        }),
{
    SchemaProperty {
        name: name.to_string(),
        schema: PropertySchema {
            description: Some(description.to_string()),
            enum_values: Some(choices),
        },
    }
}

fn scope_choices() -> (result: Vec<String>)
    ensures
        views(result@) == seq!["user"@, "project"@],
{
    let choices = vec!["user".to_string(), "project".to_string()];
    assert(views(choices@) =~= seq!["user"@, "project"@]);
    choices
}

fn kind_choices() -> (result: Vec<String>)
    ensures
        views(result@) == seq!["preference"@, "feedback"@, "fact"@, "reference"@],
{
    let choices = vec![
        "preference".to_string(),
        "feedback".to_string(),
        "fact".to_string(),
        "reference".to_string(),
    ];
    assert(views(choices@) =~= seq!["preference"@, "feedback"@, "fact"@, "reference"@]);
    choices
}

fn state_choices() -> (result: Vec<String>)
    ensures
        views(result@) == seq!["active"@, "stale"@, "conflicted"@, "retired"@, "restored"@],
{
    let choices = vec![
        "active".to_string(),
        "stale".to_string(),
        "conflicted".to_string(),
        "retired".to_string(),
        "restored".to_string(),
    ];
    assert(views(choices@) =~= seq!["active"@, "stale"@, "conflicted"@, "retired"@, "restored"@]);
    choices
}

fn memory_tool_spec(
    name: &str,
    description: &str,
    properties: Vec<SchemaProperty>,
    required: Vec<String>,
    execution_mode: ToolExecutionMode,
) -> (result: ToolSpec)
    ensures
        result@ == memory_tool(
            name@,
            description@,
            views(properties@),
            views(required@),
            execution_mode,
        ),
{
    let capability_tags: Vec<String> = Vec::new();
    assert(views(capability_tags@) =~= Seq::<Seq<char>>::empty());
    ToolSpec {
        name: name.to_string(),
        description: description.to_string(),
        input_schema: JsonSchema {
            properties,
            required: Some(required),
            additional_properties: Some(false),
        },
        output_mode: ToolOutputMode::StructuredJson,
        execution_mode,
        capability_tags,
        supports_parallel: false,
        preparation_feedback: ToolPreparationFeedback::Silent,
        display_name: None,
        supports_cancellation: None,
        supports_streaming: None,
    }
}

/// The tool that remembers something for the user.
pub open spec fn remember_tool() -> ToolSpecView {
    memory_tool(
        "memory_remember"@,
        "Remember an explicit user or project preference, fact, feedback, or reference. Only call this when the current user message clearly asks you to remember something; the server binds it to that message."@,
        seq![
            SchemaPropertyView {
                name: "kind"@,
                schema: PropertySchemaView {
                    description: Some("Optional semantic kind; inferred when omitted."@),
                    enum_values: Some(seq!["preference"@, "feedback"@, "fact"@, "reference"@]),
                },
            },
            SchemaPropertyView {
                name: "scope"@,
                schema: PropertySchemaView {
                    description: Some("Memory scope: user or project."@),
                    enum_values: Some(seq!["user"@, "project"@]),
                },
            },
            SchemaPropertyView {
                name: "source_user_item_id"@,
                schema: PropertySchemaView {
                    description: Some(
                        "The item id of the current user message that explicitly requested this memory."@,
                    ),
                    enum_values: None,
                },
            },
            SchemaPropertyView {
                name: "text"@,
                schema: PropertySchemaView {
                    description: Some("The concise memory text to store."@),
                    enum_values: None,
                },
            },
        ],
        seq!["text"@],
        ToolExecutionMode::Mutating,
    )
}

/// The tool that remembers something for the user.
pub fn memory_remember_spec() -> (result: ToolSpec)
    ensures
        result@ == remember_tool(),
{
    let properties = vec![
        choice_property("kind", "Optional semantic kind; inferred when omitted.", kind_choices()),
        choice_property("scope", "Memory scope: user or project.", scope_choices()),
        text_property(
            "source_user_item_id",
            "The item id of the current user message that explicitly requested this memory.",
        ),
        text_property("text", "The concise memory text to store."),
    ];
    let required: Vec<String> = vec!["text".to_string()];
    let spec = memory_tool_spec(
        "memory_remember",
        "Remember an explicit user or project preference, fact, feedback, or reference. Only call this when the current user message clearly asks you to remember something; the server binds it to that message.",
        properties,
        required,
        ToolExecutionMode::Mutating,
    );
    assert(spec@.input_schema.properties =~= remember_tool().input_schema.properties);
    assert(spec@.input_schema.required->Some_0 =~= remember_tool().input_schema.required->Some_0);
    spec
}

/// The tool that forgets an entry of memory.
pub open spec fn forget_tool() -> ToolSpecView {
    memory_tool(
        "memory_forget"@,
        "Forget one user or project memory by its exact entry_id. Use memory_search first for natural-language requests, then pass the selected stable ID. Only call this when the current user explicitly asks to forget or remove the memory."@,
        seq![
            SchemaPropertyView {
                name: "entry_id"@,
                schema: PropertySchemaView {
                    description: Some("Stable memory entry id to retire exactly."@),
                    enum_values: None,
                },
            },
            SchemaPropertyView {
                name: "source_user_item_id"@,
                schema: PropertySchemaView {
                    description: Some(
                        "The item id of the current user message that explicitly requested forgetting."@,
                    ),
                    enum_values: None,
                },
            },
        ],
        Seq::empty(),
        ToolExecutionMode::Mutating,
    )
}

/// The tool that forgets an entry of memory.
pub fn memory_forget_spec() -> (result: ToolSpec)
    ensures
        result@ == forget_tool(),
{
    let properties = vec![
        text_property("entry_id", "Stable memory entry id to retire exactly."),
        text_property(
            "source_user_item_id",
            "The item id of the current user message that explicitly requested forgetting.",
        ),
    ];
    let required: Vec<String> = Vec::new();
    let spec = memory_tool_spec(
        "memory_forget",
        "Forget one user or project memory by its exact entry_id. Use memory_search first for natural-language requests, then pass the selected stable ID. Only call this when the current user explicitly asks to forget or remove the memory.",
        properties,
        required,
        ToolExecutionMode::Mutating,
    );
    assert(spec@.input_schema.properties =~= forget_tool().input_schema.properties);
    assert(spec@.input_schema.required->Some_0 =~= forget_tool().input_schema.required->Some_0);
    spec
}

/// The tool that finds entries of memory.
pub open spec fn search_tool() -> ToolSpecView {
    memory_tool(
        "memory_search"@,
        "Search bounded user or project memory summaries and stable entry IDs. For natural-language forget requests, show the results and ask the user to reply in a later turn with exactly 'Confirm forget memory entry <entry_id>' or '确认删除记忆条目 <entry_id>'; memory_forget cannot run in this same user turn."@,
        seq![
            SchemaPropertyView {
                name: "kind"@,
                schema: PropertySchemaView {
                    description: Some("Optional semantic kind."@),
                    enum_values: Some(seq!["preference"@, "feedback"@, "fact"@, "reference"@]),
                },
            },
            SchemaPropertyView {
                name: "query"@,
                schema: PropertySchemaView {
                    description: Some("Text to search for in memory summaries."@),
                    enum_values: None,
                },
            },
            SchemaPropertyView {
                name: "scope"@,
                schema: PropertySchemaView {
                    description: Some("Optional memory scope."@),
                    enum_values: Some(seq!["user"@, "project"@]),
                },
            },
            SchemaPropertyView {
                name: "state"@,
                schema: PropertySchemaView {
                    description: Some(
                        "Optional lifecycle state; active and restored entries by default."@,
                    ),
                    enum_values: Some(
                        seq!["active"@, "stale"@, "conflicted"@, "retired"@, "restored"@],
                    ),
                },
            },
        ],
        seq!["query"@],
        ToolExecutionMode::ReadOnly,
    )
}

/// The tool that finds entries of memory.
pub fn memory_search_spec() -> (result: ToolSpec)
    ensures
        result@ == search_tool(),
{
    let properties = vec![
        choice_property("kind", "Optional semantic kind.", kind_choices()),
        text_property("query", "Text to search for in memory summaries."),
        choice_property("scope", "Optional memory scope.", scope_choices()),
        choice_property(
            "state",
            "Optional lifecycle state; active and restored entries by default.",
            state_choices(),
        ),
    ];
    let required: Vec<String> = vec!["query".to_string()];
    let spec = memory_tool_spec(
        "memory_search",
        "Search bounded user or project memory summaries and stable entry IDs. For natural-language forget requests, show the results and ask the user to reply in a later turn with exactly 'Confirm forget memory entry <entry_id>' or '确认删除记忆条目 <entry_id>'; memory_forget cannot run in this same user turn.",
        properties,
        required,
        ToolExecutionMode::ReadOnly,
    );
    assert(spec@.input_schema.properties =~= search_tool().input_schema.properties);
    assert(spec@.input_schema.required->Some_0 =~= search_tool().input_schema.required->Some_0);
    spec
}

impl JsonSchema {
    /// The names of the properties, in order.
    pub fn property_names(&self) -> (result: Vec<String>)
        ensures
            result@.len() == self@.properties.len(),
            forall|i: int|
                0 <= i < result@.len() ==> (#[trigger] result@[i])@ == self@.properties[i].name,
    {
        let mut names: Vec<String> = Vec::new();
        let mut i: usize = 0;
        while i < self.properties.len()
            invariant
                i <= self.properties.len(),
                names.len() == i,
                forall|j: int|
                    0 <= j < i ==> (#[trigger] names@[j])@ == self@.properties[j].name,
            decreases self.properties.len() - i,
        {
            assert(self@.properties[i as int] == self.properties@[i as int]@);
            names.push(self.properties[i].name.clone());
            i = i + 1;
        }
        names
    }

    /// The property with a name.
    pub fn property(&self, name: &str) -> (result: Option<&PropertySchema>)
        ensures
            match result {
                Some(schema) => exists|i: int|
                    0 <= i < self@.properties.len() && (
                        #[trigger] self@.properties[i]
                    ).name == name@
                        && self@.properties[i].schema == schema@,
                None => forall|i: int|
                    0 <= i < self@.properties.len() ==> (#[trigger] self@.properties[i]).name
                        != name@,
            },
    {
        let mut i: usize = 0;
        while i < self.properties.len()
            invariant
                i <= self.properties.len(),
                forall|j: int|
                    0 <= j < i ==> (#[trigger] self@.properties[j]).name != name@,
            decreases self.properties.len() - i,
        {
            assert(self@.properties[i as int] == self.properties@[i as int]@);
            if same_text(self.properties[i].name.as_str(), name) {
                return Some(&self.properties[i].schema);
            }
            i = i + 1;
        }
        None
    }
}

// ---------------------------------------------------------------------------
// Inputs of tools.
// ---------------------------------------------------------------------------
/// The message that a tool call is bound to: the current one, which the model may
/// name but not replace.
pub open spec fn bound_source(
    named: Option<Seq<char>>,
    current: Option<Seq<char>>,
    missing: Seq<char>,
    mismatch: Seq<char>,
) -> Result<Seq<char>, ToolCallErrorView> {
    match current {
        None => Err(ToolCallErrorView::InvalidInput(missing)),
        Some(current) => if named is Some && named != Some(current) {
            Err(ToolCallErrorView::InvalidInput(mismatch))
        } else {
            Ok(current)
        },
    }
}

/// The scope that an input names: the user's, unless it says otherwise.
pub open spec fn scope_of(input: ToolInputView) -> Option<MemoryScope> {
    match as_text(value_of(input, "scope"@)) {
        None => Some(MemoryScope::User),
        Some(text) => if text == "user"@ {
            Some(MemoryScope::User)
        } else if text == "project"@ {
            Some(MemoryScope::Project)
        } else {
            None
        },
    }
}

/// The kind that an input names, if any; what is no kind is refused.
pub open spec fn kind_of(input: ToolInputView) -> Result<Option<MemoryKind>, ()> {
    match as_text(value_of(input, "kind"@)) {
        None => Ok(None),
        Some(text) => if text == "preference"@ {
            Ok(Some(MemoryKind::Preference))
        } else if text == "feedback"@ {
            Ok(Some(MemoryKind::Feedback))
        } else if text == "fact"@ {
            Ok(Some(MemoryKind::Fact))
        } else if text == "reference"@ {
            Ok(Some(MemoryKind::Reference))
        } else {
            Err(())
        },
    }
}

/// What the input of the remember tool asks for.
pub open spec fn remember_input(input: ToolInputView, current: Option<Seq<char>>) -> Result<
    MemoryRememberParamsView,
    ToolCallErrorView,
> {
    match as_text(value_of(input, "text"@)) {
        None => Err(ToolCallErrorView::InvalidInput("missing 'text' field"@)),
        Some(text) => match bound_source(
            as_text(value_of_either(input, "source_user_item_id"@, "sourceUserItemId"@)),
            current,
            "memory_remember requires the current user message context"@,
            "memory_remember source must match the current user message context"@,
        ) {
            Err(error) => Err(error),
            Ok(source) => match scope_of(input) {
                None => Err(
                    ToolCallErrorView::InvalidInput(
                        "memory_remember received an unsupported scope"@,
                    ),
                ),
                Some(scope) => match kind_of(input) {
                    Err(_) => Err(
                        ToolCallErrorView::InvalidInput(
                            "memory_remember received an unsupported kind"@,
                        ),
                    ),
                    Ok(kind) => Ok(
                        MemoryRememberParamsView {
                            text,
                            scope,
                            kind,
                            source_user_item_id: Some(source),
                        },
                    ),
                },
            },
        },
    }
}

/// What the input of the forget tool asks for.
pub open spec fn forget_input(input: ToolInputView, current: Option<Seq<char>>) -> Result<
    MemoryForgetParamsView,
    ToolCallErrorView,
> {
    if value_of(input, "text"@) is Some || value_of(input, "scope"@) is Some {
        Err(
            ToolCallErrorView::InvalidInput(
                "memory_forget accepts only 'entry_id' and server-bound source context"@,
            ),
        )
    } else {
        match as_text(value_of_either(input, "entry_id"@, "entryId"@)) {
            None => Err(
                ToolCallErrorView::InvalidInput(
                    "memory_forget requires a stable 'entry_id'; use memory_search for text selectors"@,
                ),
            ),
            Some(entry_id) => match bound_source(
                as_text(value_of_either(input, "source_user_item_id"@, "sourceUserItemId"@)),
                current,
                "memory_forget requires the current user message context"@,
                "memory_forget source must match the current user message context"@,
            ) {
                Err(error) => Err(error),
                Ok(source) => Ok(
                    MemoryForgetParamsView {
                        entry_id: Some(entry_id),
                        text: None,
                        scope: MemoryScope::User,
                        source_user_item_id: Some(source),
                    },
                ),
            },
        }
    }
}

/// What the input of the search tool asks for, once it was read as parameters.
pub open spec fn search_input(params: Result<MemorySearchParamsView, Seq<char>>) -> Result<
    MemorySearchParamsView,
    ToolCallErrorView,
> {
    match params {
        Err(reason) => Err(
            ToolCallErrorView::InvalidInput("invalid memory_search input: "@ + reason),
        ),
        Ok(params) => if trimmed(params.query).len() == 0 {
            Err(ToolCallErrorView::InvalidInput("memory_search requires 'query'"@))
        } else {
            Ok(MemorySearchParamsView { query: trimmed(params.query), ..params })
        },
    }
}

fn bind_source(
    input: &ToolInput,
    current: &Option<String>,
    missing: &str,
    mismatch: &str,
) -> (result: Result<String, ToolCallError>)
    ensures
        checked(result) == bound_source(
            as_text(value_of_either(input@, "source_user_item_id"@, "sourceUserItemId"@)),
            opt_view(*current),
            missing@,
            mismatch@,
        ),
{
    let named = input.text_of_either("source_user_item_id", "sourceUserItemId");
    let source = match current {
        Some(source) => source,
        None => return Err(invalid_input(missing)),
    };
    if let Some(named) = named {
        if !same_text(named.as_str(), source.as_str()) {
            return Err(invalid_input(mismatch));
        }
    }
    Ok(source.clone())
}

/// Reads the input of the remember tool.
pub fn parse_memory_remember_input(
    input: &ToolInput,
    fallback_source_user_item_id: &Option<String>,
) -> (result: Result<MemoryRememberParams, ToolCallError>)
    ensures
        checked(result) == remember_input(input@, opt_view(*fallback_source_user_item_id)),
{
    let text = match input.text("text") {
        Some(text) => text.clone(),
        None => return Err(invalid_input("missing 'text' field")),
    };
    let source = match bind_source(
        input,
        fallback_source_user_item_id,
        "memory_remember requires the current user message context",
        "memory_remember source must match the current user message context",
    ) {
        Ok(source) => source,
        Err(error) => return Err(error),
    };
    let scope = match input.text("scope") {
        None => MemoryScope::User,
        Some(name) => {
            if same_text(name.as_str(), "user") {
                MemoryScope::User
            } else if same_text(name.as_str(), "project") {
                MemoryScope::Project
            } else {
                return Err(invalid_input("memory_remember received an unsupported scope"));
            }
        },
    };
    let kind = match input.text("kind") {
        None => None,
        Some(name) => {
            if same_text(name.as_str(), "preference") {
                Some(MemoryKind::Preference)
            } else if same_text(name.as_str(), "feedback") {
                Some(MemoryKind::Feedback)
            } else if same_text(name.as_str(), "fact") {
                Some(MemoryKind::Fact)
            } else if same_text(name.as_str(), "reference") {
                Some(MemoryKind::Reference)
            } else {
                return Err(invalid_input("memory_remember received an unsupported kind"));
            }
        },
    };
    Ok(
        MemoryRememberParams {
            text,
            scope,
            kind,
            source_user_item_id: Some(ItemId::from_string(source)),
        },
    )
}

/// Reads the input of the forget tool.
pub fn parse_memory_forget_input(
    input: &ToolInput,
    fallback_source_user_item_id: &Option<String>,
) -> (result: Result<MemoryForgetParams, ToolCallError>)
    ensures
        checked(result) == forget_input(input@, opt_view(*fallback_source_user_item_id)),
{
    if input.get("text").is_some() || input.get("scope").is_some() {
        return Err(
            invalid_input("memory_forget accepts only 'entry_id' and server-bound source context"),
        );
    }
    let entry_id = match input.text_of_either("entry_id", "entryId") {
        Some(entry_id) => MemoryEntryId::from_string(entry_id.clone()),
        None => return Err(
            invalid_input(
                "memory_forget requires a stable 'entry_id'; use memory_search for text selectors",
            ),
        ),
    };
    let source = match bind_source(
        input,
        fallback_source_user_item_id,
        "memory_forget requires the current user message context",
        "memory_forget source must match the current user message context",
    ) {
        Ok(source) => source,
        Err(error) => return Err(error),
    };
    Ok(
        MemoryForgetParams {
            entry_id: Some(entry_id),
            text: None,
            scope: MemoryScope::User,
            source_user_item_id: Some(ItemId::from_string(source)),
        },
    )
}

/// The view of parameters that were read, or why they were not.
pub open spec fn search_params(params: Result<MemorySearchParams, String>) -> Result<
    MemorySearchParamsView,
    Seq<char>,
> {
    match params {
        Ok(params) => Ok(params@),
        Err(reason) => Err(reason@),
    }
}

/// Reads the input of the search tool, once it was read as parameters.
pub fn parse_memory_search_input(params: Result<MemorySearchParams, String>) -> (result: Result<
    MemorySearchParams,
    ToolCallError,
>)
    ensures
        checked(result) == search_input(search_params(params)),
{
    let mut params = match params {
        Ok(params) => params,
        Err(reason) => return Err(
            ToolCallError::InvalidInput(concat("invalid memory_search input: ", reason.as_str())),
        ),
    };
    let chars = chars_of(params.query.as_str());
    let query = trim(&chars);
    if query.len() == 0 {
        return Err(invalid_input("memory_search requires 'query'"));
    }
    params.query = text_of(&query);
    Ok(params)
}

// ---------------------------------------------------------------------------
// Handlers.
// ---------------------------------------------------------------------------
/// Which agent calls a tool.
#[derive(Debug, Clone, Copy, PartialEq, Eq, Structural)]
pub enum ToolAgentScope {
    Root,
    Subagent,
}

/// What a handler knows of a call.
#[derive(Debug, PartialEq, Eq)]
pub struct ToolContext {
    pub agent_scope: ToolAgentScope,
    pub session_id: SessionId,
    pub turn_id: Option<TurnId>,
    pub current_user_item_id: Option<String>,
    /// Whether a server runtime coordinates the tools.
    pub has_coordinator: bool,
}

/// The view of [`ToolContext`].
#[verifier::ext_equal]
pub struct ToolContextView {
    pub agent_scope: ToolAgentScope,
    pub session_id: SessionId,
    pub turn_id: Option<TurnId>,
    pub current_user_item_id: Option<Seq<char>>,
    pub has_coordinator: bool,
}

impl View for ToolContext {
    type V = ToolContextView;

    open spec fn view(&self) -> ToolContextView {
        ToolContextView {
            agent_scope: self.agent_scope,
            session_id: self.session_id,
            turn_id: self.turn_id,
            current_user_item_id: opt_view(self.current_user_item_id),
            has_coordinator: self.has_coordinator,
        }
    }
}

impl Clone for ToolContext {
    fn clone(&self) -> (result: Self)
        ensures
            result@ == self@,
    {
        let result = ToolContext {
            agent_scope: self.agent_scope,
            session_id: self.session_id,
            turn_id: self.turn_id,
            current_user_item_id: self.current_user_item_id.clone(),
            has_coordinator: self.has_coordinator,
        };
        result
    }
}

/// A call of the remember tool, ready for the coordinator.
#[derive(Debug, PartialEq, Eq)]
pub struct RememberCall {
    pub session_id: SessionId,
    pub turn_id: TurnId,
    pub params: MemoryRememberParams,
}

/// The view of [`RememberCall`].
#[verifier::ext_equal]
pub struct RememberCallView {
    pub session_id: SessionId,
    pub turn_id: TurnId,
    pub params: MemoryRememberParamsView,
}

impl View for RememberCall {
    type V = RememberCallView;

    open spec fn view(&self) -> RememberCallView {
        RememberCallView {
            session_id: self.session_id,
            turn_id: self.turn_id,
            params: self.params@,
        }
    }
}

impl Clone for RememberCall {
    fn clone(&self) -> (result: Self)
        ensures
            result@ == self@,
    {
        let result = RememberCall {
            session_id: self.session_id,
            turn_id: self.turn_id,
            params: self.params.clone(),
        };
        result
    }
}

/// A call of the forget tool, ready for the coordinator.
#[derive(Debug, PartialEq, Eq)]
pub struct ForgetCall {
    pub session_id: SessionId,
    pub turn_id: TurnId,
    pub params: MemoryForgetParams,
}

/// The view of [`ForgetCall`].
#[verifier::ext_equal]
pub struct ForgetCallView {
    pub session_id: SessionId,
    pub turn_id: TurnId,
    pub params: MemoryForgetParamsView,
}

impl View for ForgetCall {
    type V = ForgetCallView;

    open spec fn view(&self) -> ForgetCallView {
        ForgetCallView {
            session_id: self.session_id,
            turn_id: self.turn_id,
            params: self.params@,
        }
    }
}

impl Clone for ForgetCall {
    fn clone(&self) -> (result: Self)
        ensures
            result@ == self@,
    {
        let result = ForgetCall {
            session_id: self.session_id,
            turn_id: self.turn_id,
            params: self.params.clone(),
        };
        result
    }
}

/// A call of the search tool, ready for the coordinator.
#[derive(Debug, PartialEq, Eq)]
pub struct SearchCall {
    pub invocation: MemoryToolInvocation,
    pub params: MemorySearchParams,
}

/// The view of [`SearchCall`].
#[verifier::ext_equal]
pub struct SearchCallView {
    pub invocation: MemoryToolInvocationView,
    pub params: MemorySearchParamsView,
}

impl View for SearchCall {
    type V = SearchCallView;

    open spec fn view(&self) -> SearchCallView {
        SearchCallView {
            invocation: self.invocation@,
            params: self.params@,
        }
    }
}

impl Clone for SearchCall {
    fn clone(&self) -> (result: Self)
        ensures
            result@ == self@,
    {
        let result = SearchCall {
            invocation: self.invocation.clone(),
            params: self.params.clone(),
        };
        result
    }
}

/// The invocation that a call makes: it needs the message of the user that the call
/// is bound to.
pub open spec fn bound_invocation(
    session_id: SessionId,
    turn_id: TurnId,
    user_item_id: Option<Seq<char>>,
) -> Result<MemoryToolInvocationView, ToolCallErrorView> {
    match user_item_id {
        Some(user_item_id) => Ok(
            MemoryToolInvocationView { session_id, turn_id, user_item_id },
        ),
        None => Err(
            ToolCallErrorView::InvalidInput(
                current_item_message(CurrentUserItemError::ActiveTurnUnavailable),
            ),
        ),
    }
}

fn bind_invocation(session_id: SessionId, turn_id: TurnId, user_item_id: &Option<ItemId>) -> (
    result: Result<MemoryToolInvocation, ToolCallError>)
    ensures
        checked(result) == bound_invocation(session_id, turn_id, opt_view(*user_item_id)),
{
    match user_item_id {
        Some(user_item_id) => Ok(
            MemoryToolInvocation { session_id, turn_id, user_item_id: user_item_id.clone() },
        ),
        None => Err(
            ToolCallError::InvalidInput(CurrentUserItemError::ActiveTurnUnavailable.message()),
        ),
    }
}

impl RememberCall {
    /// The invocation that the call makes.
    pub fn invocation(&self) -> (result: Result<MemoryToolInvocation, ToolCallError>)
        ensures
            checked(result) == bound_invocation(
                self@.session_id,
                self@.turn_id,
                self@.params.source_user_item_id,
            ),
    {
        bind_invocation(self.session_id, self.turn_id, &self.params.source_user_item_id)
    }
}

impl ForgetCall {
    /// The invocation that the call makes.
    pub fn invocation(&self) -> (result: Result<MemoryToolInvocation, ToolCallError>)
        ensures
            checked(result) == bound_invocation(
                self@.session_id,
                self@.turn_id,
                self@.params.source_user_item_id,
            ),
    {
        bind_invocation(self.session_id, self.turn_id, &self.params.source_user_item_id)
    }
}

/// Subagents neither read nor change memory.
pub open spec fn denied() -> ToolCallErrorView {
    ToolCallErrorView::Denied("sub-agents cannot read or mutate user memory"@)
}

/// The turn of a call whose tool is named.
pub open spec fn calling_turn(ctx: ToolContextView, tool: Seq<char>) -> Result<
    TurnId,
    ToolCallErrorView,
> {
    match ctx.turn_id {
        None => Err(
            ToolCallErrorView::InvalidInput(
                tool + " requires an active turn with a current user message"@,
            ),
        ),
        Some(turn_id) => if !ctx.has_coordinator {
            Err(
                ToolCallErrorView::NeedsConfiguration(
                    tool + " requires a server runtime coordinator"@,
                ),
            )
        } else {
            Ok(turn_id)
        },
    }
}

/// What a call of the remember tool comes to.
pub open spec fn remember_call(ctx: ToolContextView, input: ToolInputView) -> Result<
    RememberCallView,
    ToolCallErrorView,
> {
    if ctx.agent_scope == ToolAgentScope::Subagent {
        Err(denied())
    } else {
        match remember_input(input, ctx.current_user_item_id) {
            Err(error) => Err(error),
            Ok(params) => match calling_turn(ctx, "memory_remember"@) {
                Err(error) => Err(error),
                Ok(turn_id) => Ok(
                    RememberCallView { session_id: ctx.session_id, turn_id, params },
                ),
            },
        }
    }
}

/// What a call of the forget tool comes to.
pub open spec fn forget_call(ctx: ToolContextView, input: ToolInputView) -> Result<
    ForgetCallView,
    ToolCallErrorView,
> {
    if ctx.agent_scope == ToolAgentScope::Subagent {
        Err(denied())
    } else {
        match forget_input(input, ctx.current_user_item_id) {
            Err(error) => Err(error),
            Ok(params) => match calling_turn(ctx, "memory_forget"@) {
                Err(error) => Err(error),
                Ok(turn_id) => Ok(ForgetCallView { session_id: ctx.session_id, turn_id, params }),
            },
        }
    }
}

/// The invocation of a tool: it needs a turn and a current message of the user.
pub open spec fn invocation_of(ctx: ToolContextView, tool: Seq<char>) -> Result<
    MemoryToolInvocationView,
    ToolCallErrorView,
> {
    match (ctx.turn_id, ctx.current_user_item_id) {
        (Some(turn_id), Some(user_item_id)) => Ok(
            MemoryToolInvocationView { session_id: ctx.session_id, turn_id, user_item_id },
        ),
        _ => Err(
            ToolCallErrorView::InvalidInput(
                tool + " requires an active turn with a current user message"@,
            ),
        ),
    }
}

/// What a call of the search tool comes to, once its input was read as parameters.
pub open spec fn search_call(
    ctx: ToolContextView,
    params: Result<MemorySearchParamsView, Seq<char>>,
) -> Result<SearchCallView, ToolCallErrorView> {
    if ctx.agent_scope == ToolAgentScope::Subagent {
        Err(denied())
    } else {
        match search_input(params) {
            Err(error) => Err(error),
            Ok(params) => match invocation_of(ctx, "memory_search"@) {
                Err(error) => Err(error),
                Ok(invocation) => if !ctx.has_coordinator {
                    Err(
                        ToolCallErrorView::NeedsConfiguration(
                            "memory_search requires a server runtime coordinator"@,
                        ),
                    )
                } else {
                    Ok(SearchCallView { invocation, params })
                },
            },
        }
    }
}

fn refuse_subagent() -> (result: ToolCallError)
    ensures
        result@ == denied(),
{
    ToolCallError::Denied("sub-agents cannot read or mutate user memory".to_string())
}

fn turn_of_call(ctx: &ToolContext, tool: &str) -> (result: Result<TurnId, ToolCallError>)
    ensures
        match result {
            Ok(turn_id) => calling_turn(ctx@, tool@) == Ok::<TurnId, ToolCallErrorView>(turn_id),
            Err(error) => calling_turn(ctx@, tool@) == Err::<TurnId, ToolCallErrorView>(error@),
        },
{
    let turn_id = match ctx.turn_id {
        Some(turn_id) => turn_id,
        None => return Err(
            ToolCallError::InvalidInput(
                concat(tool, " requires an active turn with a current user message"),
            ),
        ),
    };
    if !ctx.has_coordinator {
        return Err(
            ToolCallError::NeedsConfiguration(
                concat(tool, " requires a server runtime coordinator"),
            ),
        );
    }
    Ok(turn_id)
}

/// The invocation of a tool.
pub fn memory_tool_invocation(ctx: &ToolContext, tool: &str) -> (result: Result<
    MemoryToolInvocation,
    ToolCallError,
>)
    ensures
        checked(result) == invocation_of(ctx@, tool@),
{
    match (ctx.turn_id, &ctx.current_user_item_id) {
        (Some(turn_id), Some(user_item_id)) => Ok(
            MemoryToolInvocation {
                session_id: ctx.session_id,
                turn_id,
                user_item_id: ItemId::from_string(user_item_id.clone()),
            },
        ),
        _ => Err(
            ToolCallError::InvalidInput(
                concat(tool, " requires an active turn with a current user message"),
            ),
        ),
    }
}

/// The root agent's action that remembers something for the user or a project.
#[derive(Debug, PartialEq, Eq)]
pub struct MemoryRememberHandler {
    pub spec: ToolSpec,
}

impl Default for MemoryRememberHandler {
    fn default() -> (result: Self)
        ensures
            result.spec@ == remember_tool(),
    {
        MemoryRememberHandler::new()
    }
}

impl MemoryRememberHandler {
    /// The handler of the remember tool.
    pub fn new() -> (result: Self)
        ensures
            result.spec@ == remember_tool(),
    {
        MemoryRememberHandler { spec: memory_remember_spec() }
    }

    /// How the tool is described to a model.
    pub fn spec(&self) -> (result: &ToolSpec)
        ensures
            result@ == self.spec@,
    {
        &self.spec
    }

    /// Checks a call, up to the coordinator.
    pub fn call(&self, ctx: &ToolContext, input: &ToolInput) -> (result: Result<
        RememberCall,
        ToolCallError,
    >)
        ensures
            checked(result) == remember_call(ctx@, input@),
    {
        if ctx.agent_scope == ToolAgentScope::Subagent {
            return Err(refuse_subagent());
        }
        let params = match parse_memory_remember_input(input, &ctx.current_user_item_id) {
            Ok(params) => params,
            Err(error) => return Err(error),
        };
        match turn_of_call(ctx, "memory_remember") {
            Ok(turn_id) => Ok(RememberCall { session_id: ctx.session_id, turn_id, params }),
            Err(error) => Err(error),
        }
    }
}

/// The root agent's action that retires an entry of the user or a project.
#[derive(Debug, PartialEq, Eq)]
pub struct MemoryForgetHandler {
    pub spec: ToolSpec,
}

impl Default for MemoryForgetHandler {
    fn default() -> (result: Self)
        ensures
            result.spec@ == forget_tool(),
    {
        MemoryForgetHandler::new()
    }
}

impl MemoryForgetHandler {
    /// The handler of the forget tool.
    pub fn new() -> (result: Self)
        ensures
            result.spec@ == forget_tool(),
    {
        MemoryForgetHandler { spec: memory_forget_spec() }
    }

    /// How the tool is described to a model.
    pub fn spec(&self) -> (result: &ToolSpec)
        ensures
            result@ == self.spec@,
    {
        &self.spec
    }

    /// Checks a call, up to the coordinator.
    pub fn call(&self, ctx: &ToolContext, input: &ToolInput) -> (result: Result<
        ForgetCall,
        ToolCallError,
    >)
        ensures
            checked(result) == forget_call(ctx@, input@),
    {
        if ctx.agent_scope == ToolAgentScope::Subagent {
            return Err(refuse_subagent());
        }
        let params = match parse_memory_forget_input(input, &ctx.current_user_item_id) {
            Ok(params) => params,
            Err(error) => return Err(error),
        };
        match turn_of_call(ctx, "memory_forget") {
            Ok(turn_id) => Ok(ForgetCall { session_id: ctx.session_id, turn_id, params }),
            Err(error) => Err(error),
        }
    }
}

/// The root agent's action that finds the IDs of entries.
#[derive(Debug, PartialEq, Eq)]
pub struct MemorySearchHandler {
    pub spec: ToolSpec,
}

impl Default for MemorySearchHandler {
    fn default() -> (result: Self)
        ensures
            result.spec@ == search_tool(),
    {
        MemorySearchHandler::new()
    }
}

impl MemorySearchHandler {
    /// The handler of the search tool.
    pub fn new() -> (result: Self)
        ensures
            result.spec@ == search_tool(),
    {
        MemorySearchHandler { spec: memory_search_spec() }
    }

    /// How the tool is described to a model.
    pub fn spec(&self) -> (result: &ToolSpec)
        ensures
            result@ == self.spec@,
    {
        &self.spec
    }

    /// Checks a call, up to the coordinator. The input was read as parameters, or
    /// could not be.
    pub fn call(&self, ctx: &ToolContext, params: Result<MemorySearchParams, String>) -> (result:
        Result<SearchCall, ToolCallError>)
        ensures
            checked(result) == search_call(ctx@, search_params(params)),
    {
        if ctx.agent_scope == ToolAgentScope::Subagent {
            return Err(refuse_subagent());
        }
        let params = match parse_memory_search_input(params) {
            Ok(params) => params,
            Err(error) => return Err(error),
        };
        let invocation = match memory_tool_invocation(ctx, "memory_search") {
            Ok(invocation) => invocation,
            Err(error) => return Err(error),
        };
        if !ctx.has_coordinator {
            return Err(
                ToolCallError::NeedsConfiguration(
                    "memory_search requires a server runtime coordinator".to_string(),
                ),
            );
        }
        Ok(SearchCall { invocation, params })
    }
}

// ---------------------------------------------------------------------------
// Laws.
// ---------------------------------------------------------------------------
/// A subagent gets nowhere with a memory tool, whatever it puts in.
pub proof fn law_subagents_use_no_memory_tool(
    ctx: ToolContextView,
    input: ToolInputView,
    params: Result<MemorySearchParamsView, Seq<char>>,
)
    requires
        ctx.agent_scope == ToolAgentScope::Subagent,
    ensures
        remember_call(ctx, input) == Err::<RememberCallView, ToolCallErrorView>(denied()),
        forget_call(ctx, input) == Err::<ForgetCallView, ToolCallErrorView>(denied()),
        search_call(ctx, params) == Err::<SearchCallView, ToolCallErrorView>(denied()),
{
}

/// What a model puts in cannot bind a change to another message than the current
/// one of the user.
pub proof fn law_model_cannot_replace_the_source(
    input: ToolInputView,
    current: Option<Seq<char>>,
)
    ensures
        remember_input(input, current) matches Ok(params) ==> params.source_user_item_id == current
            && current is Some,
        forget_input(input, current) matches Ok(params) ==> params.source_user_item_id == current
            && current is Some,
{
}

/// An agent forgets by stable ID alone: an input with a text or a scope is refused.
pub proof fn law_agent_forgets_by_stable_id(input: ToolInputView, current: Option<Seq<char>>)
    ensures
        forget_input(input, current) matches Ok(params) ==> params.entry_id is Some && params.text
            is None && value_of(input, "text"@) is None && value_of(input, "scope"@) is None,
{
}

} // verus!
