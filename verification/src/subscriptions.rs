//! What the greeter listens to besides its form.
pub mod api_poller;
pub mod dbus;
pub mod key_listener;
