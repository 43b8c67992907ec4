//! Chat backend logic: the real-time chat core (connection registry, session
//! state machine, broadcast and persistence ordering) together with the
//! decisions that the request handlers of the other services make.

pub mod admission;
pub mod auth;
pub mod bank;
pub mod chat_request_component;
pub mod common;
pub mod common_chat;
pub mod common_requests;
pub mod data;
pub mod guarantees;
pub mod news;
pub mod persistence;
pub mod protocol;
pub mod registry;
pub mod server_configurator;
pub mod session;
pub mod text;
