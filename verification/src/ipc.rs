//! Talking to the session daemon: which sessions exist, and the login
//! handshake.
pub mod desktop_file;
pub mod greeter_client;
pub mod login;
pub mod protocol;
pub mod sessions;
