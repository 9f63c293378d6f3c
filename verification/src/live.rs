//! The live feed: raw documents, typed events and the session around them.

pub mod credential;
pub mod error;
pub mod interact;
pub mod json;
pub mod message;
pub mod rules;
pub mod session;
pub mod text;
pub mod wire;
