//! The state of a terminal chat session: the conversation between a user and a model,
//! the commands that the user types into it, the replies that stream in, and the bubbles
//! and scroll that show it.
//!
//! [`app_state::AppState`] is the session. Every operation on it is stated over
//! [`model::AppStateView`], its mathematical content, and what follows from those
//! statements is proved in [`laws`].

pub mod action;
pub mod app_state;
pub mod bubble_list;
pub mod code_blocks;
pub mod editor_context;
pub mod error;
pub mod events;
pub mod laws;
pub mod message;
pub mod model;
pub mod notices;
pub mod scroll;
pub mod session;
pub mod slash_command;
pub mod text;
