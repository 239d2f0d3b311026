//! Core logic of an AI desktop assistant: model routing, conversation
//! bookkeeping, tool planning, blog request building and shell helpers.
pub mod blog;
pub mod conversation;
pub mod daemon;
pub mod ipc;
pub mod memory;
pub mod model;
pub mod router;
pub mod text;
pub mod tool_defs;
pub mod tools;
pub mod shell;
