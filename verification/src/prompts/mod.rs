//! The prompts sent to the language models. Each is built from a fixed
//! template, every section always present, so that requests share a prefix.

pub mod auto_naming;
pub mod document_editing;
pub mod intent_router;
pub mod rag;
pub mod state_manager;
pub mod todo_agent;
