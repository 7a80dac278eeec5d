//! Voice-driven live-document engine: the verified core.
//!
//! A user speaks; recognised speech arrives in fragments; the engine gathers
//! them into turns, reads from the answers of language models what each
//! turn asks for, and changes a markdown document accordingly. Everything
//! that decides is here and is proved against its contract; what talks to
//! the outside world (models, disk, microphone, window) lives in the program
//! around this library and hands it plain values.
//!
//! From the leaves up:
//! - `text`, `lines`, `rewrite`, `bytes`, `numfmt`, `truncate`, `concise`:
//!   texts as sequences of characters;
//! - `diff`, `matcher`, `roundtrip`: the diff engine;
//! - `document`, `state`, `history`, `chat`: the stores;
//! - `speech`, `pipeline`, `commands`: the turn aggregator and the scheduler;
//! - `intent`, `turn`, `agents`, `todo`, `updater`, `naming`: one turn, from
//!   routing to the state update;
//! - `prompts`, `sse`, `asr`, `llm`, `rag`, `workspace`, `recordings`,
//!   `events`: what is said to and read from the collaborators;
//! - `unicode`, `patterns`, `json`, `identity`: the calls into outside code,
//!   each behind a contract that is believed, not proved;
//! - `laws`: what holds of the engine as a whole.

pub mod agents;
pub mod asr;
pub mod bytes;
pub mod chat;
pub mod commands;
pub mod concise;
pub mod diff;
pub mod document;
pub mod events;
pub mod history;
pub mod identity;
pub mod intent;
pub mod json;
pub mod laws;
pub mod lines;
pub mod llm;
pub mod matcher;
pub mod naming;
pub mod numfmt;
pub mod patterns;
pub mod pipeline;
pub mod prompts;
pub mod rag;
pub mod recordings;
pub mod rewrite;
pub mod roundtrip;
pub mod sentences;
pub mod speech;
pub mod sse;
pub mod state;
pub mod text;
pub mod todo;
pub mod truncate;
pub mod turn;
pub mod unicode;
pub mod updater;
pub mod workspace;
