//! Verified core of the FreeSynergy AI assistant: conversation history,
//! engine controller state, chat request/response handling and the
//! chat component's layout.

pub mod clock;
pub mod component;
pub mod controller;
pub mod conversation;
pub mod json;
pub mod keys;
pub mod model;
pub mod rest;
