//! The engine of a coding assistant for the terminal: the conversation with
//! the model, the tools the model may invoke and their dispatch, the safety
//! gates around them, and the loop that ties them together.
//!
//! The engine decides and never acts. Whatever touches the world (a request
//! to the service, a file, a process, a question to the person at the
//! screen) is named as an effect and left to the program around it, which
//! hands back what came of it.

pub mod chat;
pub mod cli;
pub mod compaction;
pub mod dispatch;
pub mod guard;
pub mod history;
pub mod json;
pub mod minerve;
pub mod pattern;
pub mod text;
pub mod token_counter;
pub mod tools;
pub mod transcript;
