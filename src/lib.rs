//! A bot for a collaborative listening room: the chat command grammar, media
//! identities, the decoding of socket events, the handler chain and the
//! auto-skip policy.
pub mod command;
pub mod media;
pub mod json;
pub mod event;
pub mod api;
pub mod history_skip;
pub mod chain;
pub mod link;
pub mod handlers;
pub mod session;
pub mod store;
