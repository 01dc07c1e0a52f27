//! Verified core of the OpenCode terminal client.
//!
//! The crate holds the client's decision logic: the application model and its
//! update function, message bookkeeping, text layout helpers, selector widgets'
//! state, server discovery parsing, error classification and identifier
//! generation. Terminal drawing, networking and the event loop live outside.

pub mod text;
pub mod json;
pub mod models;
pub mod message_state;
pub mod ids;
pub mod error;
pub mod discovery;
pub mod persistence;
pub mod events;
pub mod text_wrapper;
pub mod popover_selector;
pub mod tool_text;
pub mod tool_summary;
pub mod renderer;
pub mod message_log;
pub mod keys;
pub mod text_input;
pub mod modal_selector;
pub mod selectors;
pub mod client;
pub mod model;
pub mod messages;
pub mod update;
pub mod input;
pub mod inline_renderer;
pub mod widgets;
pub mod components;
pub mod terminal;
pub mod diagnostics;
pub mod message_builder;
