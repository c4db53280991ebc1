//! Interaction core of a terminal command manager: selectable lists, a text
//! cursor for free-text input, the interaction state and the key handler that
//! drives them.

pub mod list;
pub mod cursor;
pub mod event_state;
pub mod config;
pub mod protocol;
pub mod session;
pub mod rules;
pub mod parser;
pub mod laws;
pub mod add;
pub mod cmd;
