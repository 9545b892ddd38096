//! The memory tools as an agent is offered them, and how their input is read.

use devo_memory::core_ids::{SessionId, TurnId};
use devo_memory::ids::{ItemId, MemoryEntryId};
use devo_memory::memory_tool_specs::{
    memory_forget_spec, memory_remember_spec, memory_search_spec, memory_tool_invocation,
    parse_memory_forget_input, parse_memory_remember_input, parse_memory_search_input,
    MemoryForgetHandler, MemoryRememberHandler, MemorySearchHandler, ToolAgentScope, ToolContext,
    ToolExecutionMode,
};
use devo_memory::rpc_memory::{
    MemoryForgetParams, MemoryKind, MemoryScope, MemorySearchParams, MemoryState,
};
use devo_memory::tool_input::{InputField, InputValue, ToolInput};
use devo_memory::tool_registry::{
    create_default_tool_registry, is_subagent_agent_coordination_tool,
};

fn input(fields: &[(&str, &str)]) -> ToolInput {
    ToolInput {
        fields: fields
            .iter()
            .map(|(key, text)| InputField {
                key: key.to_string(),
                value: InputValue::Text(text.to_string()),
            })
            .collect(),
    }
}

fn current() -> Option<String> {
    Some("item-current".to_string())
}

/// The root-agent schema lets the server supply the current user item binding.
#[test]
fn schema_binds_to_current_user_item_id_without_model_required_field() {
    let schema = memory_remember_spec().input_schema;
    assert_eq!(schema.required, Some(vec!["text".to_string()]));
    let parsed = parse_memory_remember_input(&input(&[("text", "I prefer tabs")]), &current())
        .expect("server context supplies source item");
    assert_eq!(
        parsed.source_user_item_id.as_ref().map(ItemId::to_text),
        Some("item-current".to_string())
    );
    assert_eq!(parsed.scope, MemoryScope::User);
    assert_eq!(parsed.kind, None);
    let error = parse_memory_remember_input(
        &input(&[("text", "I prefer tabs"), ("sourceUserItemId", "item-other")]),
        &current(),
    )
    .expect_err("the model cannot override the server-bound source item");
    assert_eq!(
        error.message(),
        "invalid input: memory_remember source must match the current user message context"
    );
}

/// The root-agent memory tool exposes and preserves Project scope.
#[test]
fn project_memory_tool_input_preserves_project_scope() {
    let schema = memory_remember_spec().input_schema;
    assert_eq!(
        schema.property("scope").and_then(|scope| scope.enum_values.clone()),
        Some(vec!["user".to_string(), "project".to_string()])
    );

    let parsed = parse_memory_remember_input(
        &input(&[("text", "the repository uses Rust"), ("scope", "project")]),
        &current(),
    )
    .expect("project scope is valid for explicit memory");
    assert_eq!(parsed.scope, MemoryScope::Project);
}

/// Forgetting accepts one stable ID and preserves the server binding.
#[test]
fn forget_tool_parses_exact_selector() {
    let exact = parse_memory_forget_input(&input(&[("entryId", "mem-existing")]), &current())
        .expect("exact entry selector is valid");
    assert_eq!(
        exact,
        MemoryForgetParams {
            entry_id: Some(MemoryEntryId::from_string("mem-existing".to_string())),
            text: None,
            scope: MemoryScope::User,
            source_user_item_id: Some(ItemId::from_string("item-current".to_string())),
        }
    );
}

/// The agent mutation tool rejects text selectors and caller-selected scopes.
#[test]
fn forget_tool_rejects_non_contract_selectors() {
    let missing_entry_id = parse_memory_forget_input(&input(&[]), &current())
        .expect_err("agent forget requires a stable entry ID");
    assert_eq!(
        missing_entry_id.message(),
        "invalid input: memory_forget requires a stable 'entry_id'; use memory_search for text selectors"
    );

    for refused in [
        input(&[("text", "old timezone")]),
        input(&[("entry_id", "mem-existing"), ("scope", "project")]),
    ] {
        let error = parse_memory_forget_input(&refused, &current())
            .expect_err("agent forget rejects non-contract selectors");
        assert_eq!(
            error.message(),
            "invalid input: memory_forget accepts only 'entry_id' and server-bound source context"
        );
    }
}

/// The root-agent forget schema exposes only the approved stable-ID mutation surface.
#[test]
fn forget_tool_schema_exposes_only_stable_id_selector() {
    let schema = memory_forget_spec().input_schema;
    assert_eq!(schema.property_names(), vec!["entry_id", "source_user_item_id"]);
    assert_eq!(schema.required, Some(Vec::new()));
}

/// Memory search requires a non-empty query and parses optional filters.
#[test]
fn memory_search_parses_query_and_filters() {
    let parsed = parse_memory_search_input(Ok(MemorySearchParams {
        query: " old timezone ".to_string(),
        scope: Some(MemoryScope::User),
        kind: Some(MemoryKind::Preference),
        state: Some(MemoryState::Active),
    }))
    .expect("valid memory search input");

    assert_eq!(
        parsed,
        MemorySearchParams {
            query: "old timezone".to_string(),
            scope: Some(MemoryScope::User),
            kind: Some(MemoryKind::Preference),
            state: Some(MemoryState::Active),
        }
    );
}

/// The memory search schema requires only the model's query and serializes pending-state writes.
#[test]
fn memory_search_schema_requires_query() {
    let spec = memory_search_spec();

    assert_eq!(spec.supports_parallel, false);
    assert_eq!(spec.input_schema.required, Some(vec!["query".to_string()]));
    assert_eq!(spec.input_schema.property_names(), vec!["kind", "query", "scope", "state"]);
}

/// The default registry exposes the root memory remember action.
#[test]
fn default_registry_exposes_the_root_memory_remember_tool() {
    let registry = create_default_tool_registry();

    assert!(registry.get("memory_remember").is_some());
}

/// The default registry exposes the root memory forget action.
#[test]
fn default_registry_exposes_the_root_memory_forget_tool() {
    let registry = create_default_tool_registry();

    assert!(registry.get("memory_forget").is_some());
}

/// The root agent can search memory before selecting a stable ID.
#[test]
fn default_registry_exposes_the_root_memory_search_tool() {
    let registry = create_default_tool_registry();

    assert!(registry.get("memory_search").is_some());
}

/// Subagents cannot receive the mutating memory remember action.
#[test]
fn memory_remember_is_not_available_to_subagents() {
    assert!(is_subagent_agent_coordination_tool("memory_remember"));
}

/// Subagents cannot receive the mutating memory forget action.
#[test]
fn memory_forget_is_not_available_to_subagents() {
    assert!(is_subagent_agent_coordination_tool("memory_forget"));
}

/// Subagents cannot independently search user memory.
#[test]
fn memory_search_is_not_available_to_subagents() {
    assert!(is_subagent_agent_coordination_tool("memory_search"));
}

#[test]
fn subagents_are_left_without_coordination_tools() {
    let mut registry = create_default_tool_registry();
    assert!(registry.without_agent_coordination_tools().tools.is_empty());
    registry.tools[1].name = "read".to_string();
    let offered = registry.without_agent_coordination_tools();
    assert_eq!(offered.tools.len(), 1);
    assert!(offered.get("read").is_some());
    assert!(!is_subagent_agent_coordination_tool("read"));
}

#[test]
fn remember_input_is_checked() {
    let refused = |fields: &[(&str, &str)], item: &Option<String>| {
        parse_memory_remember_input(&input(fields), item).expect_err("refused").message()
    };
    assert_eq!(refused(&[], &current()), "invalid input: missing 'text' field");
    assert_eq!(
        refused(&[("text", "a")], &None),
        "invalid input: memory_remember requires the current user message context"
    );
    assert_eq!(
        refused(&[("text", "a"), ("scope", "team")], &current()),
        "invalid input: memory_remember received an unsupported scope"
    );
    assert_eq!(
        refused(&[("text", "a"), ("kind", "rumour")], &current()),
        "invalid input: memory_remember received an unsupported kind"
    );
    let kinds = [
        ("preference", MemoryKind::Preference),
        ("feedback", MemoryKind::Feedback),
        ("fact", MemoryKind::Fact),
        ("reference", MemoryKind::Reference),
    ];
    for (name, kind) in kinds {
        let parsed =
            parse_memory_remember_input(&input(&[("text", "a"), ("kind", name)]), &current())
                .expect("a kind");
        assert_eq!(parsed.kind, Some(kind));
    }
}

#[test]
fn search_input_is_checked() {
    assert_eq!(
        parse_memory_search_input(Err("missing field `query`".to_string()))
            .expect_err("unreadable")
            .message(),
        "invalid input: invalid memory_search input: missing field `query`"
    );
    let blank = MemorySearchParams { query: " \t".to_string(), scope: None, kind: None, state: None };
    assert_eq!(
        parse_memory_search_input(Ok(blank)).expect_err("blank query").message(),
        "invalid input: memory_search requires 'query'"
    );
}

fn context() -> ToolContext {
    ToolContext {
        agent_scope: ToolAgentScope::Root,
        session_id: SessionId { value: 1 },
        turn_id: Some(TurnId { value: 2 }),
        current_user_item_id: current(),
        has_coordinator: true,
    }
}

#[test]
fn handlers_describe_their_tools() {
    assert_eq!(MemoryRememberHandler::new().spec(), &memory_remember_spec());
    assert_eq!(MemoryForgetHandler::default().spec(), &memory_forget_spec());
    assert_eq!(MemorySearchHandler::new().spec(), &memory_search_spec());
    assert_eq!(memory_search_spec().execution_mode, ToolExecutionMode::ReadOnly);
    assert_eq!(memory_forget_spec().execution_mode, ToolExecutionMode::Mutating);
    assert_eq!(memory_remember_spec().input_schema.additional_properties, Some(false));
}

#[test]
fn handlers_check_who_calls() {
    let remember = MemoryRememberHandler::new();
    let forget = MemoryForgetHandler::new();
    let search = MemorySearchHandler::new();
    let text = input(&[("text", "Use tabs")]);
    let entry = input(&[("entry_id", "mem_1")]);
    let query = || {
        Ok(MemorySearchParams { query: "tabs".to_string(), scope: None, kind: None, state: None })
    };

    let subagent = ToolContext { agent_scope: ToolAgentScope::Subagent, ..context() };
    let denied = "denied: sub-agents cannot read or mutate user memory";
    assert_eq!(remember.call(&subagent, &text).expect_err("denied").message(), denied);
    assert_eq!(forget.call(&subagent, &entry).expect_err("denied").message(), denied);
    assert_eq!(search.call(&subagent, query()).expect_err("denied").message(), denied);

    let idle = ToolContext { turn_id: None, ..context() };
    assert_eq!(
        remember.call(&idle, &text).expect_err("no turn").message(),
        "invalid input: memory_remember requires an active turn with a current user message"
    );
    assert_eq!(
        forget.call(&idle, &entry).expect_err("no turn").message(),
        "invalid input: memory_forget requires an active turn with a current user message"
    );
    assert_eq!(
        memory_tool_invocation(&idle, "memory_search").expect_err("no turn").message(),
        "invalid input: memory_search requires an active turn with a current user message"
    );

    let alone = ToolContext { has_coordinator: false, ..context() };
    assert_eq!(
        forget.call(&alone, &entry).expect_err("no coordinator").message(),
        "needs configuration: memory_forget requires a server runtime coordinator"
    );
    assert_eq!(
        search.call(&alone, query()).expect_err("no coordinator").message(),
        "needs configuration: memory_search requires a server runtime coordinator"
    );

    let call = remember.call(&context(), &text).expect("a call");
    assert_eq!(call.turn_id, TurnId { value: 2 });
    assert_eq!(call.params.text, "Use tabs");
    let call = search.call(&context(), query()).expect("a call");
    assert_eq!(call.invocation.user_item_id, ItemId::from("item-current"));
}
