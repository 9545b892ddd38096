//! Which tools an agent is offered.

use vstd::prelude::*;

use crate::memory_tool_specs::{
    forget_tool, memory_forget_spec, memory_remember_spec, memory_search_spec, remember_tool,
    search_tool, ToolSpec, ToolSpecView,
};
use crate::rows::{
    first_match, lemma_filter_holds, lemma_filter_take, lemma_is_first_match, lemma_no_match,
};
use crate::text::{same_text, views};

verus! {

/// Whether a tool is kept from subagents: tools that coordinate agents, and tools
/// of memory.
pub open spec fn coordinates_agents(name: Seq<char>) -> bool {
    ||| name == "spawn_agent"@
    ||| name == "send_message"@
    ||| name == "await_task"@
    ||| name == "list_tasks"@
    ||| name == "cancel_task"@
    ||| name == "wait_agent"@
    ||| name == "list_agents"@
    ||| name == "close_agent"@
    ||| name == "memory_remember"@
    ||| name == "memory_forget"@
    ||| name == "memory_search"@
}

/// Whether a tool is kept from subagents.
pub fn is_subagent_agent_coordination_tool(name: &str) -> (result: bool)
    ensures
        result == coordinates_agents(name@),
{
    same_text(name, "spawn_agent")
        || same_text(name, "send_message")
        || same_text(name, "await_task")
        || same_text(name, "list_tasks")
        || same_text(name, "cancel_task")
        || same_text(name, "wait_agent")
        || same_text(name, "list_agents")
        || same_text(name, "close_agent")
        || same_text(name, "memory_remember")
        || same_text(name, "memory_forget")
        || same_text(name, "memory_search")
}

/// The tools that an agent is offered.
#[derive(Debug, PartialEq, Eq)]
pub struct ToolRegistry {
    pub tools: Vec<ToolSpec>,
}

impl View for ToolRegistry {
    type V = Seq<ToolSpecView>;

    open spec fn view(&self) -> Seq<ToolSpecView> {
        views(self.tools@)
    }
}

/// Accepts the tool with a name.
pub open spec fn tool_named(name: Seq<char>) -> spec_fn(ToolSpecView) -> bool {
    |tool: ToolSpecView| tool.name == name
}

/// Accepts the tools that subagents are offered.
pub open spec fn is_open_to_subagents() -> spec_fn(ToolSpecView) -> bool {
    |tool: ToolSpecView| !coordinates_agents(tool.name)
}

impl ToolRegistry {
    /// The tool with a name.
    pub fn get(&self, name: &str) -> (result: Option<&ToolSpec>)
        ensures
            match first_match(self@, tool_named(name@)) {
                Some(i) => result matches Some(tool) && tool@ == self@[i],
                None => result is None,
            },
    {
        let ghost all = self@;
        let ghost wanted = tool_named(name@);
        let mut i: usize = 0;
        while i < self.tools.len()
            invariant
                i <= self.tools.len(),
                all == views(self.tools@),
                all == self@,
                wanted == tool_named(name@),
                forall|j: int| 0 <= j < i ==> !wanted(#[trigger] all[j]),
            decreases self.tools.len() - i,
        {
            assert(all[i as int] == self.tools@[i as int]@);
            if same_text(self.tools[i].name.as_str(), name) {
                proof {
                    lemma_is_first_match(all, wanted, i as int);
                }
                return Some(&self.tools[i]);
            }
            i = i + 1;
        }
        proof {
            lemma_no_match(all, wanted);
        }
        None
    }

    /// The tools that subagents are offered, in order.
    pub fn without_agent_coordination_tools(&self) -> (result: ToolRegistry)
        ensures
            result@ == self@.filter(is_open_to_subagents()),
    {
        let ghost all = self@;
        let ghost keep = is_open_to_subagents();
        let mut tools: Vec<ToolSpec> = Vec::new();
        let mut i: usize = 0;
        proof {
            assert(all.take(0) =~= Seq::<ToolSpecView>::empty());
            reveal(Seq::filter);
        }
        assert(views(tools@) =~= all.take(0).filter(keep));
        while i < self.tools.len()
            invariant
                i <= self.tools.len(),
                all == self@,
                all == views(self.tools@),
                keep == is_open_to_subagents(),
                views(tools@) == all.take(i as int).filter(keep),
            decreases self.tools.len() - i,
        {
            let ghost before = views(tools@);
            assert(all[i as int] == self.tools@[i as int]@);
            proof {
                lemma_filter_take(all, i as int, keep);
            }
            if !is_subagent_agent_coordination_tool(self.tools[i].name.as_str()) {
                let tool = self.tools[i].clone();
                let ghost added = tool@;
                tools.push(tool);
                assert(views(tools@) =~= before.push(added));
            }
            i = i + 1;
        }
        assert(all.take(i as int) =~= all);
        ToolRegistry { tools }
    }
}

/// The memory tools that the root agent is offered.
pub fn create_default_tool_registry() -> (result: ToolRegistry)
    ensures
        result@ == seq![remember_tool(), forget_tool(), search_tool()],
{
    let mut tools: Vec<ToolSpec> = Vec::new();
    tools.push(memory_remember_spec());
    tools.push(memory_forget_spec());
    tools.push(memory_search_spec());
    let registry = ToolRegistry { tools };
    assert(registry@ =~= seq![remember_tool(), forget_tool(), search_tool()]);
    registry
}

/// What a subagent is offered keeps nothing from it that it may use, and holds
/// nothing that it may not.
pub proof fn law_subagents_are_offered_no_coordination(tools: Seq<ToolSpecView>)
    ensures
        forall|i: int|
            0 <= i < tools.filter(is_open_to_subagents()).len() ==> !coordinates_agents(
                (#[trigger] tools.filter(is_open_to_subagents())[i]).name,
            ),
        forall|tool: ToolSpecView|
            tools.contains(tool) && !coordinates_agents(tool.name)
                ==> #[trigger] tools.filter(is_open_to_subagents()).contains(tool),
{
    let kept = tools.filter(is_open_to_subagents());
    lemma_filter_holds(tools, is_open_to_subagents());
    assert forall|i: int| 0 <= i < kept.len() implies !coordinates_agents(
        (#[trigger] kept[i]).name,
    ) by {
        assert(kept.contains(kept[i]));
    }
}

/// No memory tool is offered to a subagent.
pub proof fn law_memory_tools_are_the_roots_alone()
    ensures
        coordinates_agents(remember_tool().name),
        coordinates_agents(forget_tool().name),
        coordinates_agents(search_tool().name),
{
}

} // verus!
