//! The greeter's dealings with a display manager that reports by signals:
//! what each signal means for the rest of the greeter.
pub mod lightdm;

use crate::greeter::lightdm::MessageType;
use crate::text::clone_text;
use crate::messages::{
    Addressed, AddressedView, GreeterMessage, GreeterMessageView, UiMessage, UiMessageView,
};
use vstd::prelude::*;

verus! {

/// Settings of the part that talks to the display manager.
#[derive(Debug)]
pub struct GreeterConfig {
    session: Option<String>,
}

impl View for GreeterConfig {
    type V = Option<Seq<char>>;

    /// The session to start after a login, where one is set.
    closed spec fn view(&self) -> Option<Seq<char>> {
        self.session.deep_view()
    }
}

impl Default for GreeterConfig {
    fn default() -> (r: Self)
        ensures
            r@ is None,
    {
        Self { session: None }
    }
}

impl Clone for GreeterConfig {
    fn clone(&self) -> (r: Self)
        ensures
            r@ == self@,
    {
        Self { session: clone_text(&self.session) }
    }
}

impl GreeterConfig {
    /// Settings that name the session to start.
    pub fn new(session: Option<String>) -> (r: Self)
        ensures
            r@ == session.deep_view(),
    {
        Self { session }
    }

    /// The session to start after a login, where one is set.
    pub fn session(&self) -> (r: Option<String>)
        ensures
            r.deep_view() == self@,
    {
        clone_text(&self.session)
    }
}

/// What the user is told when the display manager does not accept the
/// credentials.
pub open spec fn authentication_failed() -> Seq<char> {
    "Authentication failed"@
}

/// What a message of the display manager means for the screen: an error is
/// shown to the user, a notice is not.
pub fn on_show_message(message: &str, message_type: MessageType) -> (r: Option<UiMessage>)
    ensures
        match message_type {
            MessageType::Error => r is Some && r->0@ == UiMessageView::SetError(message@),
            MessageType::Info => r is None,
        },
{
    match message_type {
        MessageType::Error => Some(UiMessage::SetError(message.to_owned())),
        MessageType::Info => None,
    }
}

/// What the end of an authentication means: after a success the configured
/// session is to be started, after a failure the user is told.
pub fn on_authentication_complete(success: bool, conf: &GreeterConfig) -> (r: Addressed)
    ensures
        r@ == if success {
            AddressedView::ToGreeter(GreeterMessageView::StartSession(conf@))
        } else {
            AddressedView::ToUi(UiMessageView::SetError(authentication_failed()))
        },
{
    if success {
        Addressed::ToGreeter(GreeterMessage::StartSession(conf.session()))
    } else {
        Addressed::ToUi(UiMessage::SetError(String::from_str("Authentication failed")))
    }
}

} // verus!
