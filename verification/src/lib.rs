//! Core of a login greeter: the catalog of desktop sessions a user may start
//! and the handshake that authenticates a user with the session daemon and
//! starts the chosen session, with the state of the greeter's smaller parts.
pub mod bus;
pub mod conf;
pub mod contest_api;
pub mod dbus_service;
pub mod greeter;
pub mod ipc;
pub mod messages;
pub mod subscriptions;
pub mod text;
pub mod ui;
