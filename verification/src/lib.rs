//! A small persistent terminal companion: its mood, its conversation state,
//! the prompts it sends to a text-generation backend, the replies it falls
//! back to, and the bounded scrollback that shows the conversation.

pub mod mood;
pub mod text;
pub mod ui;
pub mod scroll;
pub mod pet;
pub mod fallback;
pub mod json;
pub mod llm;
pub mod ollama;
pub mod clock;
pub mod config;
pub mod config_path;
pub mod command;
pub mod backend;
pub mod app;
