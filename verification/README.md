# devo_memory

Persistent memory for a coding agent: what a user asks to remember, what sessions
let it infer, and how both are listed, recalled and forgotten again. The library in
`src/` is verified with Verus; `app/` puts it on a database, a file system and an
asynchronous runtime.

## Layout

`src/`

- Values: `text`, `ids`, `core_ids`, `time`, `config`, `rpc_memory`, `command_types`,
  `memory_error`, `tool_error`.
- The store: `tables` (rows), `rows` (facts on sequences of rows), `store` (looking
  rows up), `stored_values`, `equivalence` and `entry_identity` (when two claims are
  one), `entries` (writing), `forget` (deleting), `queries` (listing), `projection`
  (the readable page), `status`, `schema` and `migration`, `lifecycle` and `remembering`
  (laws that span operations), `runtime` (the commands behind the memory switch).
- Projects: `identity` decides which project a workspace belongs to by asking
  questions that a caller answers from the file system and the path rules of its
  platform.
- Deletion on the user's word: `forget_authorization`, `forget_execution`.
- Sessions: `session`, `item`, `rollout`, `legacy_projector` (lines of the first file
  format to lines of the second), `session_memory`, `session_state`, `pending_input`,
  `session_actor`, `session_laws`, `after_turn`, `current_user_item`, `connections`.
- Requests and tools: `native_memory`, `memory_tools`, `tool_input`,
  `memory_tool_specs`, `tool_registry`, `tool_display`, `sandbox_overlay`.

`app/` holds the SQLite store, the page writer, the file system answers, the actor
loop, the wire formats and the tool glue. `tests/` runs the library.

## How it is stated

Every type has a mathematical view, and operations are stated as steps: a `*_step`
specification gives the new state and the result for every input, and the function's
contract says that it performs that step. Operations that need the clock or a fresh
identifier come in two forms: one takes them as arguments and is stated exactly, the
other takes them from the outside and is stated for some value of them.

Public proof functions whose names begin with `law_` state what holds across
operations, for instance that a forgotten claim does not come back from old evidence
(`lifecycle`), that the pages of a list put together are the list (`queries`), that a
second run of the migration changes nothing (`migration`), that an agent deletes only
what the user named (`memory_tools`), or that a converted session keeps its numbering
(`legacy_projector`).

What the standard library and the crates `chrono`, `uuid` and `sha2` compute is taken
on trust, through a few small functions in `text`, `time`, `ids` and `identity`.
