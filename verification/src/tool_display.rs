//! How calls of tools are shown: under which kind of item, and as which command.

use vstd::prelude::*;

use crate::core_ids::ItemId;
use crate::memory_error::{signed_decimal, signed_text};
use crate::memory_tool_specs::ToolPreparationFeedback;
use crate::rows::{first_match, lemma_is_first_match, lemma_no_match};
use crate::text::{concat, decimal, decimal_text, opt_view, same_text, views};
use crate::tool_input::{
    as_text, text_or_none, value_of, value_of_either, InputValue, InputValueView, ToolInput,
    ToolInputView,
};

verus! {

// ---------------------------------------------------------------------------
// Kinds of tools.
// ---------------------------------------------------------------------------
/// Whether a tool runs commands.
pub open spec fn names_exec_tool(name: Seq<char>) -> bool {
    name == "exec_command"@ || name == "write_stdin"@
}

/// Whether a tool changes files.
pub open spec fn names_file_change_tool(name: Seq<char>) -> bool {
    name == "apply_patch"@ || name == "write"@ || name == "edit"@
}

/// Whether a tool keeps the plan.
pub open spec fn names_plan_tool(name: Seq<char>) -> bool {
    name == "update_plan"@
}

/// Whether a tool runs commands.
pub fn is_unified_exec_tool(name: &str) -> (result: bool)
    ensures
        result == names_exec_tool(name@),
{
    same_text(name, "exec_command") || same_text(name, "write_stdin")
}

/// Whether a tool changes files.
pub fn is_file_change_tool(name: &str) -> (result: bool)
    ensures
        result == names_file_change_tool(name@),
{
    same_text(name, "apply_patch") || same_text(name, "write") || same_text(name, "edit")
}

/// Whether a tool keeps the plan.
pub fn is_plan_tool(name: &str) -> (result: bool)
    ensures
        result == names_plan_tool(name@),
{
    same_text(name, "update_plan")
}

/// Under which kind of item a call is shown.
#[derive(Debug, Clone, Copy, PartialEq, Eq, Structural)]
pub enum ToolItemKind {
    ToolCall,
    FileChange,
    CommandExecution,
    Plan,
}

/// Under which kind of item a call is shown, when it starts. A call that is shown
/// only while it lasts is always a plain one.
pub open spec fn start_kind(
    tool_name: Seq<char>,
    runs_command: bool,
    feedback: ToolPreparationFeedback,
) -> ToolItemKind {
    if feedback == ToolPreparationFeedback::LiveOnly {
        ToolItemKind::ToolCall
    } else if names_file_change_tool(tool_name) {
        ToolItemKind::FileChange
    } else if runs_command {
        ToolItemKind::CommandExecution
    } else if names_plan_tool(tool_name) {
        ToolItemKind::Plan
    } else {
        ToolItemKind::ToolCall
    }
}

/// Under which kind of item a call is shown, when it starts.
pub fn tool_start_item_kind(
    tool_name: &str,
    runs_command: bool,
    preparation_feedback: ToolPreparationFeedback,
) -> (result: ToolItemKind)
    ensures
        result == start_kind(tool_name@, runs_command, preparation_feedback),
{
    if preparation_feedback == ToolPreparationFeedback::LiveOnly {
        ToolItemKind::ToolCall
    } else if is_file_change_tool(tool_name) {
        ToolItemKind::FileChange
    } else if runs_command {
        ToolItemKind::CommandExecution
    } else if is_plan_tool(tool_name) {
        ToolItemKind::Plan
    } else {
        ToolItemKind::ToolCall
    }
}

// ---------------------------------------------------------------------------
// Items of calls that start.
// ---------------------------------------------------------------------------
/// On whose behalf a command is executed.
#[derive(Debug, Clone, Copy, PartialEq, Eq, Structural)]
pub enum ExecCommandSource {
    Agent,
}

/// The item of a call that starts. Inputs, actions, changes and outputs are JSON
/// texts.
#[derive(Debug, PartialEq, Eq)]
#[allow(inconsistent_fields)]
pub enum ToolStartItem {
    ToolCall {
        tool_call_id: String,
        tool_name: String,
        parameters: String,
        command_actions: Vec<String>,
    },
    /// No file has changed yet.
    FileChange {
        tool_call_id: String,
        tool_name: String,
        input: String,
        changes: Vec<String>,
        is_error: bool,
    },
    /// Nothing was put out yet.
    CommandExecution {
        tool_call_id: String,
        tool_name: String,
        command: String,
        input: String,
        source: ExecCommandSource,
        command_actions: Vec<String>,
        output: Option<String>,
        is_error: bool,
    },
    /// The plan follows.
    Plan { title: String, text: String },
}

/// The view of [`ToolStartItem`].
#[verifier::ext_equal]
#[allow(inconsistent_fields)]
pub enum ToolStartItemView {
    ToolCall {
        tool_call_id: Seq<char>,
        tool_name: Seq<char>,
        parameters: Seq<char>,
        command_actions: Seq<Seq<char>>,
    },
    FileChange {
        tool_call_id: Seq<char>,
        tool_name: Seq<char>,
        input: Seq<char>,
        changes: Seq<Seq<char>>,
        is_error: bool,
    },
    CommandExecution {
        tool_call_id: Seq<char>,
        tool_name: Seq<char>,
        command: Seq<char>,
        input: Seq<char>,
        source: ExecCommandSource,
        command_actions: Seq<Seq<char>>,
        output: Option<Seq<char>>,
        is_error: bool,
    },
    Plan { title: Seq<char>, text: Seq<char> },
}

impl View for ToolStartItem {
    type V = ToolStartItemView;

    open spec fn view(&self) -> ToolStartItemView {
        match self {
            ToolStartItem::ToolCall {
                tool_call_id,
                tool_name,
                parameters,
                command_actions,
            } => ToolStartItemView::ToolCall {
                tool_call_id: tool_call_id@,
                tool_name: tool_name@,
                parameters: parameters@,
                command_actions: views(command_actions@),
            },
            ToolStartItem::FileChange {
                tool_call_id,
                tool_name,
                input,
                changes,
                is_error,
            } => ToolStartItemView::FileChange {
                tool_call_id: tool_call_id@,
                tool_name: tool_name@,
                input: input@,
                changes: views(changes@),
                is_error: *is_error,
            },
            ToolStartItem::CommandExecution {
                tool_call_id,
                tool_name,
                command,
                input,
                source,
                command_actions,
                output,
                is_error,
            } => ToolStartItemView::CommandExecution {
                tool_call_id: tool_call_id@,
                tool_name: tool_name@,
                command: command@,
                input: input@,
                source: *source,
                command_actions: views(command_actions@),
                output: opt_view(*output),
                is_error: *is_error,
            },
            ToolStartItem::Plan { title, text } => ToolStartItemView::Plan {
                title: title@,
                text: text@,
            },
        }
    }
}

impl Clone for ToolStartItem {
    fn clone(&self) -> (result: Self)
        ensures
            result@ == self@,
    {
        match self {
            ToolStartItem::ToolCall { tool_call_id, tool_name, parameters, command_actions } => {
                let command_actions_copy = command_actions.clone();
                assert(views(command_actions_copy@) =~= views(command_actions@));
                ToolStartItem::ToolCall {
                    tool_call_id: tool_call_id.clone(),
                    tool_name: tool_name.clone(),
                    parameters: parameters.clone(),
                    command_actions: command_actions_copy,
                }
            },
            ToolStartItem::FileChange { tool_call_id, tool_name, input, changes, is_error } => {
                let changes_copy = changes.clone();
                assert(views(changes_copy@) =~= views(changes@));
                ToolStartItem::FileChange {
                    tool_call_id: tool_call_id.clone(),
                    tool_name: tool_name.clone(),
                    input: input.clone(),
                    changes: changes_copy,
                    is_error: *is_error,
                }
            },
            ToolStartItem::CommandExecution {
                tool_call_id,
                tool_name,
                command,
                input,
                source,
                command_actions,
                output,
                is_error,
            } => {
                let command_actions_copy = command_actions.clone();
                assert(views(command_actions_copy@) =~= views(command_actions@));
                ToolStartItem::CommandExecution {
                    tool_call_id: tool_call_id.clone(),
                    tool_name: tool_name.clone(),
                    command: command.clone(),
                    input: input.clone(),
                    source: *source,
                    command_actions: command_actions_copy,
                    output: match output {
                        Some(output) => Some(output.clone()),
                        None => None,
                    },
                    is_error: *is_error,
                }
            },
            ToolStartItem::Plan { title, text } => {
                ToolStartItem::Plan {
                    title: title.clone(),
                    text: text.clone(),
                }
            },
        }
    }
}

/// The item of a call that starts.
pub open spec fn start_item(
    tool_call_id: Seq<char>,
    tool_name: Seq<char>,
    command: Seq<char>,
    input: Seq<char>,
    runs_command: bool,
    feedback: ToolPreparationFeedback,
    command_actions: Seq<Seq<char>>,
) -> ToolStartItemView {
    match start_kind(tool_name, runs_command, feedback) {
        ToolItemKind::ToolCall => ToolStartItemView::ToolCall {
            tool_call_id,
            tool_name,
            parameters: input,
            command_actions,
        },
        ToolItemKind::FileChange => ToolStartItemView::FileChange {
            tool_call_id,
            tool_name,
            input,
            changes: Seq::empty(),
            is_error: false,
        },
        ToolItemKind::CommandExecution => ToolStartItemView::CommandExecution {
            tool_call_id,
            tool_name,
            command,
            input,
            source: ExecCommandSource::Agent,
            command_actions,
            output: None,
            is_error: false,
        },
        ToolItemKind::Plan => ToolStartItemView::Plan { title: "Plan"@, text: Seq::empty() },
    }
}

/// Makes the item of a call that starts.
pub fn tool_start_item(
    tool_call_id: &str,
    tool_name: &str,
    command: &str,
    input: &str,
    runs_command: bool,
    preparation_feedback: ToolPreparationFeedback,
    command_actions: Vec<String>,
) -> (result: ToolStartItem)
    ensures
        result@ == start_item(
            tool_call_id@,
            tool_name@,
            command@,
            input@,
            runs_command,
            preparation_feedback,
            views(command_actions@),
        ),
{
    let changes: Vec<String> = Vec::new();
    assert(views(changes@) =~= Seq::<Seq<char>>::empty());
    match tool_start_item_kind(tool_name, runs_command, preparation_feedback) {
        ToolItemKind::ToolCall => ToolStartItem::ToolCall {
            tool_call_id: tool_call_id.to_string(),
            tool_name: tool_name.to_string(),
            parameters: input.to_string(),
            command_actions,
        },
        ToolItemKind::FileChange => ToolStartItem::FileChange {
            tool_call_id: tool_call_id.to_string(),
            tool_name: tool_name.to_string(),
            input: input.to_string(),
            changes,
            is_error: false,
        },
        ToolItemKind::CommandExecution => ToolStartItem::CommandExecution {
            tool_call_id: tool_call_id.to_string(),
            tool_name: tool_name.to_string(),
            command: command.to_string(),
            input: input.to_string(),
            source: ExecCommandSource::Agent,
            command_actions,
            output: None,
            is_error: false,
        },
        ToolItemKind::Plan => ToolStartItem::Plan {
            title: "Plan".to_string(),
            text: String::new(),
        },
    }
}

/// The actions of a call that ended: those of its input or, for a call that read a
/// file and has none, what its summary says was read.
pub open spec fn result_actions(
    tool_name: Seq<char>,
    input_actions: Seq<Seq<char>>,
    summary_action: Option<Seq<char>>,
) -> Seq<Seq<char>> {
    if input_actions.len() == 0 && tool_name == "read"@ && summary_action is Some {
        seq![summary_action->Some_0]
    } else {
        input_actions
    }
}

/// The actions of a call that ended.
pub fn command_actions_from_tool_result(
    tool_name: &str,
    input_actions: Vec<String>,
    summary_action: Option<String>,
) -> (result: Vec<String>)
    ensures
        views(result@) == result_actions(
            tool_name@,
            views(input_actions@),
            opt_view(summary_action),
        ),
{
    if input_actions.len() == 0 && same_text(tool_name, "read") {
        if let Some(action) = summary_action {
            let ghost read = action@;
            let mut actions: Vec<String> = Vec::new();
            actions.push(action);
            assert(views(actions@) =~= seq![read]);
            return actions;
        }
    }
    input_actions
}

/// The item of a call that starts: its actions are those that its input shows.
pub fn tool_start_item_from_input(
    tool_call_id: &str,
    tool_name: &str,
    command: &str,
    input: &str,
    runs_command: bool,
    preparation_feedback: ToolPreparationFeedback,
    input_actions: Vec<String>,
) -> (result: ToolStartItem)
    ensures
        result@ == start_item(
            tool_call_id@,
            tool_name@,
            command@,
            input@,
            runs_command,
            preparation_feedback,
            views(input_actions@),
        ),
{
    tool_start_item(
        tool_call_id,
        tool_name,
        command,
        input,
        runs_command,
        preparation_feedback,
        input_actions,
    )
}

/// The item of a call that has a result: a read file that the input does not show is
/// told from the summary.
pub fn tool_start_item_from_result(
    tool_call_id: &str,
    tool_name: &str,
    command: &str,
    input: &str,
    runs_command: bool,
    preparation_feedback: ToolPreparationFeedback,
    input_actions: Vec<String>,
    summary_action: Option<String>,
) -> (result: ToolStartItem)
    ensures
        result@ == start_item(
            tool_call_id@,
            tool_name@,
            command@,
            input@,
            runs_command,
            preparation_feedback,
            result_actions(tool_name@, views(input_actions@), opt_view(summary_action)),
        ),
{
    tool_start_item(
        tool_call_id,
        tool_name,
        command,
        input,
        runs_command,
        preparation_feedback,
        command_actions_from_tool_result(tool_name, input_actions, summary_action),
    )
}

/// A call that runs.
#[derive(Debug, PartialEq, Eq)]
pub struct PendingToolCall {
    pub tool_use_id: String,
    pub item_id: Option<ItemId>,
}

/// The view of [`PendingToolCall`].
#[verifier::ext_equal]
pub struct PendingToolCallView {
    pub tool_use_id: Seq<char>,
    pub item_id: Option<ItemId>,
}

impl View for PendingToolCall {
    type V = PendingToolCallView;

    open spec fn view(&self) -> PendingToolCallView {
        PendingToolCallView {
            tool_use_id: self.tool_use_id@,
            item_id: self.item_id,
        }
    }
}

impl Clone for PendingToolCall {
    fn clone(&self) -> (result: Self)
        ensures
            result@ == self@,
    {
        let result = PendingToolCall {
            tool_use_id: self.tool_use_id.clone(),
            item_id: self.item_id,
        };
        result
    }
}

/// Accepts the call with an ID.
pub open spec fn call_is(tool_use_id: Seq<char>) -> spec_fn(PendingToolCallView) -> bool {
    |call: PendingToolCallView| call.tool_use_id == tool_use_id
}

/// The item under which the progress of a call is shown.
pub fn command_execution_item_id_for_progress(
    pending: &Vec<PendingToolCall>,
    tool_use_id: &str,
) -> (result: Option<ItemId>)
    ensures
        result == match first_match(views(pending@), call_is(tool_use_id@)) {
            Some(i) => views(pending@)[i].item_id,
            None => None,
        },
{
    let ghost all = views(pending@);
    let ghost wanted = call_is(tool_use_id@);
    let mut i: usize = 0;
    while i < pending.len()
        invariant
            i <= pending.len(),
            all == views(pending@),
            wanted == call_is(tool_use_id@),
            forall|j: int| 0 <= j < i ==> !wanted(#[trigger] all[j]),
        decreases pending.len() - i,
    {
        assert(all[i as int] == pending@[i as int]@);
        if same_text(pending[i].tool_use_id.as_str(), tool_use_id) {
            proof {
                lemma_is_first_match(all, wanted, i as int);
            }
            return pending[i].item_id;
        }
        i = i + 1;
    }
    proof {
        lemma_no_match(all, wanted);
    }
    None
}

// ---------------------------------------------------------------------------
// Commands.
// ---------------------------------------------------------------------------
/// The number of a process that an input names, if it names one.
pub open spec fn process_text(input: ToolInputView) -> Seq<char> {
    match value_of_either(input, "process_id"@, "session_id"@) {
        Some(InputValueView::Integer(number)) => if i64::MIN <= number <= i64::MAX {
            signed_decimal(number as int)
        } else {
            "?"@
        },
        _ => "?"@,
    }
}

/// The line that an input names, if it names one.
pub open spec fn line_of(input: ToolInputView) -> Option<nat> {
    match value_of(input, "line"@) {
        Some(InputValueView::Integer(number)) => if 0 <= number <= u64::MAX {
            Some(number as nat)
        } else {
            None
        },
        _ => None,
    }
}

/// A command about a pattern, and perhaps a path.
pub open spec fn pattern_display(name: Seq<char>, input: ToolInputView) -> Seq<char> {
    let pattern = text_or_none(value_of(input, "pattern"@));
    let path = text_or_none(value_of(input, "path"@));
    if path.len() == 0 {
        name + " "@ + pattern
    } else {
        name + " "@ + pattern + " in "@ + path
    }
}

/// A search in code.
pub open spec fn code_search_display(input: ToolInputView) -> Seq<char> {
    if as_text(value_of(input, "operation"@)) == Some("find_related"@) {
        let path = text_or_none(value_of(input, "file_path"@));
        match (path.len() == 0, line_of(input)) {
            (false, Some(line)) => "code_search related "@ + path + ":"@ + decimal(line),
            (false, None) => "code_search related "@ + path,
            (true, _) => "code_search related"@,
        }
    } else {
        let query = text_or_none(value_of(input, "query"@));
        let path = text_or_none(value_of(input, "path"@));
        match (query.len() == 0, path.len() == 0) {
            (false, false) => "code_search "@ + query + " in "@ + path,
            (false, true) => "code_search "@ + query,
            (true, false) => "code_search in "@ + path,
            (true, true) => "code_search"@,
        }
    }
}

/// The command as which a call is shown; a tool that is not known shows none.
pub open spec fn command_display(tool_name: Seq<char>, input: ToolInputView) -> Seq<char> {
    if tool_name == "exec_command"@ {
        text_or_none(value_of_either(input, "cmd"@, "command"@))
    } else if tool_name == "write_stdin"@ {
        if text_or_none(value_of(input, "chars"@)).len() == 0 {
            "poll process "@ + process_text(input)
        } else {
            "write_stdin process "@ + process_text(input)
        }
    } else if tool_name == "read"@ {
        "read "@ + text_or_none(value_of_either(input, "filePath"@, "path"@))
    } else if tool_name == "find"@ || tool_name == "glob"@ || tool_name == "grep"@ {
        pattern_display(tool_name, input)
    } else if tool_name == "code_search"@ || tool_name == "mcp__code_search__code_search"@ {
        code_search_display(input)
    } else {
        Seq::empty()
    }
}

fn text_or_empty(value: Option<&InputValue>) -> (result: String)
    ensures
        match value {
            Some(value) => result@ == text_or_none(Some(value@)),
            None => result@ == text_or_none(None),
        },
{
    match value {
        Some(InputValue::Text(text)) => text.clone(),
        _ => String::new(),
    }
}

fn process_of(input: &ToolInput) -> (result: String)
    ensures
        result@ == process_text(input@),
{
    match input.get_either("process_id", "session_id") {
        Some(InputValue::Integer(number)) => {
            if (i64::MIN as i128) <= *number && *number <= (i64::MAX as i128) {
                signed_text(*number as i64)
            } else {
                "?".to_string()
            }
        },
        _ => "?".to_string(),
    }
}

fn with_pattern(name: &str, input: &ToolInput) -> (result: String)
    ensures
        result@ == pattern_display(name@, input@),
{
    let pattern = text_or_empty(input.get("pattern"));
    let path = text_or_empty(input.get("path"));
    let mut text = concat(name, " ");
    text.append(pattern.as_str());
    if !path.as_str().is_empty() {
        text.append(" in ");
        text.append(path.as_str());
    }
    text
}

fn code_search_display_from_input(input: &ToolInput) -> (result: String)
    ensures
        result@ == code_search_display(input@),
{
    let related = match input.text("operation") {
        Some(operation) => same_text(operation.as_str(), "find_related"),
        None => false,
    };
    if related {
        let path = text_or_empty(input.get("file_path"));
        if path.as_str().is_empty() {
            return "code_search related".to_string();
        }
        let mut text = concat("code_search related ", path.as_str());
        if let Some(InputValue::Integer(number)) = input.get("line") {
            if 0 <= *number && *number <= (u64::MAX as i128) {
                let line = decimal_text(*number as u64);
                text.append(":");
                text.append(line.as_str());
            }
        }
        return text;
    }
    let query = text_or_empty(input.get("query"));
    let path = text_or_empty(input.get("path"));
    if query.as_str().is_empty() {
        if path.as_str().is_empty() {
            "code_search".to_string()
        } else {
            concat("code_search in ", path.as_str())
        }
    } else {
        let mut text = concat("code_search ", query.as_str());
        if !path.as_str().is_empty() {
            text.append(" in ");
            text.append(path.as_str());
        }
        text
    }
}

/// The command as which a call is shown.
pub fn command_display_from_input(tool_name: &str, input: &ToolInput) -> (result: String)
    ensures
        result@ == command_display(tool_name@, input@),
{
    if same_text(tool_name, "exec_command") {
        text_or_empty(input.get_either("cmd", "command"))
    } else if same_text(tool_name, "write_stdin") {
        let process = process_of(input);
        let chars = text_or_empty(input.get("chars"));
        if chars.as_str().is_empty() {
            concat("poll process ", process.as_str())
        } else {
            concat("write_stdin process ", process.as_str())
        }
    } else if same_text(tool_name, "read") {
        let path = text_or_empty(input.get_either("filePath", "path"));
        concat("read ", path.as_str())
    } else if same_text(tool_name, "find") || same_text(tool_name, "glob") || same_text(
        tool_name,
        "grep",
    ) {
        with_pattern(tool_name, input)
    } else if same_text(tool_name, "code_search") || same_text(
        tool_name,
        "mcp__code_search__code_search",
    ) {
        code_search_display_from_input(input)
    } else {
        String::new()
    }
}

} // verus!
