//! How calls of tools are shown.

use devo_memory::core_ids::ItemId;
use devo_memory::memory_tool_specs::ToolPreparationFeedback;
use devo_memory::tool_display::{
    command_actions_from_tool_result, command_display_from_input,
    command_execution_item_id_for_progress, is_file_change_tool, is_plan_tool,
    is_unified_exec_tool, tool_start_item, tool_start_item_from_input,
    tool_start_item_from_result, tool_start_item_kind, ExecCommandSource, PendingToolCall,
    ToolItemKind, ToolStartItem,
};
use devo_memory::tool_input::{InputField, InputValue, ToolInput};

fn field(key: &str, value: InputValue) -> InputField {
    InputField { key: key.to_string(), value }
}

fn text(text: &str) -> InputValue {
    InputValue::Text(text.to_string())
}

fn shown(tool: &str, fields: Vec<InputField>) -> String {
    command_display_from_input(tool, &ToolInput { fields })
}

#[test]
fn write_stdin_display_prefers_process_id_and_reads_legacy_session_id() {
    assert_eq!(
        shown(
            "write_stdin",
            vec![
                field("process_id", InputValue::Integer(42)),
                field("session_id", InputValue::Integer(99)),
                field("chars", text("hello")),
            ],
        ),
        "write_stdin process 42"
    );
    assert_eq!(
        shown(
            "write_stdin",
            vec![field("session_id", InputValue::Integer(99)), field("chars", text(""))],
        ),
        "poll process 99"
    );
}

#[test]
fn unreadable_processes_are_unknown() {
    assert_eq!(shown("write_stdin", vec![]), "poll process ?");
    assert_eq!(
        shown("write_stdin", vec![field("process_id", text("7"))]),
        "poll process ?"
    );
    assert_eq!(
        shown("write_stdin", vec![field("process_id", InputValue::Integer(-7))]),
        "poll process -7"
    );
    let large = InputValue::Integer(i64::MAX as i128 + 1);
    assert_eq!(shown("write_stdin", vec![field("process_id", large)]), "poll process ?");
}

#[test]
fn commands_are_shown_by_their_tool() {
    assert_eq!(shown("exec_command", vec![field("command", text("ls"))]), "ls");
    assert_eq!(
        shown("exec_command", vec![field("command", text("ls")), field("cmd", text("pwd"))]),
        "pwd"
    );
    assert_eq!(shown("read", vec![field("filePath", text("a.rs"))]), "read a.rs");
    assert_eq!(
        shown("glob", vec![field("pattern", text("*.rs")), field("path", text("src"))]),
        "glob *.rs in src"
    );
    assert_eq!(shown("find", vec![field("pattern", text("a"))]), "find a");
    assert_eq!(
        shown("grep", vec![field("pattern", text("x")), field("path", text("src"))]),
        "grep x in src"
    );
    assert_eq!(shown("unknown", vec![field("cmd", text("ls"))]), "");
}

#[test]
fn code_searches_are_shown_by_their_operation() {
    assert_eq!(
        shown(
            "code_search",
            vec![
                field("operation", text("search")),
                field("query", text("restored exploration metadata")),
                field("path", text("crates/server/src")),
            ],
        ),
        "code_search restored exploration metadata in crates/server/src"
    );
    assert_eq!(
        shown(
            "mcp__code_search__code_search",
            vec![
                field("operation", text("find_related")),
                field("file_path", text("src/projection.rs")),
                field("line", InputValue::Integer(214)),
            ],
        ),
        "code_search related src/projection.rs:214"
    );
    assert_eq!(
        shown(
            "code_search",
            vec![field("operation", text("find_related")), field("file_path", text("a.rs"))],
        ),
        "code_search related a.rs"
    );
    assert_eq!(
        shown("code_search", vec![field("operation", text("find_related"))]),
        "code_search related"
    );
    assert_eq!(shown("code_search", vec![field("path", text("src"))]), "code_search in src");
    assert_eq!(shown("code_search", vec![field("query", text("x"))]), "code_search x");
    assert_eq!(shown("code_search", vec![]), "code_search");
}

#[test]
fn tools_fall_into_kinds() {
    assert!(is_unified_exec_tool("write_stdin"));
    assert!(!is_unified_exec_tool("write"));
    assert!(is_file_change_tool("apply_patch"));
    assert!(is_plan_tool("update_plan"));
    let silent = ToolPreparationFeedback::Silent;
    assert_eq!(tool_start_item_kind("edit", true, silent), ToolItemKind::FileChange);
    assert_eq!(
        tool_start_item_kind("edit", true, ToolPreparationFeedback::LiveOnly),
        ToolItemKind::ToolCall
    );
    assert_eq!(tool_start_item_kind("exec_command", true, silent), ToolItemKind::CommandExecution);
    assert_eq!(tool_start_item_kind("update_plan", false, silent), ToolItemKind::Plan);
    assert_eq!(tool_start_item_kind("memory_search", false, silent), ToolItemKind::ToolCall);
}

#[test]
fn started_calls_have_items() {
    assert_eq!(
        tool_start_item(
            "call-1",
            "update_plan",
            "",
            "{}",
            false,
            ToolPreparationFeedback::Silent,
            Vec::new(),
        ),
        ToolStartItem::Plan { title: "Plan".to_string(), text: String::new() }
    );
    assert_eq!(
        tool_start_item(
            "call-2",
            "exec_command",
            "ls",
            "{}",
            true,
            ToolPreparationFeedback::Silent,
            vec!["list".to_string()],
        ),
        ToolStartItem::CommandExecution {
            tool_call_id: "call-2".to_string(),
            tool_name: "exec_command".to_string(),
            command: "ls".to_string(),
            input: "{}".to_string(),
            source: ExecCommandSource::Agent,
            command_actions: vec!["list".to_string()],
            output: None,
            is_error: false,
        }
    );
    assert_eq!(
        tool_start_item(
            "call-3",
            "edit",
            "",
            "{}",
            false,
            ToolPreparationFeedback::Silent,
            Vec::new(),
        ),
        ToolStartItem::FileChange {
            tool_call_id: "call-3".to_string(),
            tool_name: "edit".to_string(),
            input: "{}".to_string(),
            changes: Vec::new(),
            is_error: false,
        }
    );
}

#[test]
fn summaries_tell_what_was_read() {
    let action = || Some("read a.rs".to_string());
    assert_eq!(
        command_actions_from_tool_result("read", Vec::new(), action()),
        vec!["read a.rs".to_string()]
    );
    assert!(command_actions_from_tool_result("grep", Vec::new(), action()).is_empty());
    let own = vec!["search".to_string()];
    assert_eq!(command_actions_from_tool_result("read", own.clone(), action()), own);
}

#[test]
fn items_show_the_actions_of_their_call() {
    let actions = |item| match item {
        ToolStartItem::ToolCall { command_actions, .. } => command_actions,
        other => panic!("expected a tool call, got {other:?}"),
    };
    let silent = ToolPreparationFeedback::Silent;
    let own = vec!["read b.rs".to_string()];
    let started =
        tool_start_item_from_input("c", "read", "read b.rs", "{}", false, silent, own.clone());
    assert_eq!(actions(started), own);
    let summary = Some("read a.rs".to_string());
    let finished = tool_start_item_from_result(
        "c",
        "read",
        "read",
        "{}",
        false,
        silent,
        Vec::new(),
        summary,
    );
    assert_eq!(actions(finished), vec!["read a.rs".to_string()]);
}

#[test]
fn progress_belongs_to_the_item_of_its_call() {
    let pending = vec![
        PendingToolCall { tool_use_id: "a".to_string(), item_id: None },
        PendingToolCall { tool_use_id: "b".to_string(), item_id: Some(ItemId { value: 7 }) },
    ];
    assert_eq!(command_execution_item_id_for_progress(&pending, "b"), Some(ItemId { value: 7 }));
    assert_eq!(command_execution_item_id_for_progress(&pending, "a"), None);
    assert_eq!(command_execution_item_id_for_progress(&pending, "c"), None);
}
