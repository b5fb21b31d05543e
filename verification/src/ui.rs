//! The state behind what the greeter shows.
pub mod background;
pub mod chain_listener;
pub mod config;
pub mod countdown;
pub mod form;
pub mod ip_label;
pub mod router;
