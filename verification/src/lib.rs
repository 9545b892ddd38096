//! General Persistent Memory: what a server remembers for its users, how it
//! authorizes forgetting, and the session state around it.

pub mod actor_laws;
pub mod after_turn;
pub mod claim_laws;
pub mod command_laws;
pub mod command_types;
pub mod config;
pub mod connections;
pub mod core_ids;
pub mod current_user_item;
pub mod deletion_laws;
pub mod entries;
pub mod entry_identity;
pub mod equivalence;
pub mod forget;
pub mod forget_authorization;
pub mod forget_execution;
pub mod forget_laws;
pub mod identity;
pub mod ids;
pub mod item;
pub mod key_laws;
pub mod legacy_laws;
pub mod legacy_projector;
pub mod lifecycle;
pub mod memory_error;
pub mod memory_tool_specs;
pub mod memory_tools;
pub mod migration;
pub mod native_memory;
pub mod page_laws;
pub mod pending_input;
pub mod project_laws;
pub mod projection;
pub mod queries;
pub mod remembering;
pub mod rollout;
pub mod rows;
pub mod rpc_memory;
pub mod runtime;
pub mod sandbox_overlay;
pub mod schema;
pub mod search_laws;
pub mod session;
pub mod session_actor;
pub mod session_laws;
pub mod session_memory;
pub mod session_state;
pub mod status;
pub mod store;
pub mod stored_values;
pub mod tables;
pub mod text;
pub mod text_laws;
pub mod time;
pub mod tool_display;
pub mod tool_error;
pub mod tool_input;
pub mod tool_laws;
pub mod tool_registry;
pub mod write_laws;
