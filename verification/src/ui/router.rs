//! How a message finds its way among the parts of the greeter: most go to
//! the part they name, some are turned into a message for another part.
use crate::ipc::greeter_client::{GreeterClientMessage, GreeterClientMessageView};
use crate::text::clone_text;
use crate::subscriptions::api_poller::{ApiPollerMessage, ApiPollerMessageView};
use crate::subscriptions::dbus::{DbusMessage, DbusMessageView};
use crate::subscriptions::key_listener::KeyListenerMessage;
use crate::ui::form::{FormMessage, FormMessageView};
use vstd::prelude::*;

verus! {

/// What the background is told.
#[derive(Debug, PartialEq, Eq)]
pub enum BackgroundMessage {
    /// Show the image found at this place, or none.
    SetSource(Option<String>),
}

/// What the countdown is told. A time is a number of milliseconds since the
/// Unix epoch.
#[derive(Debug, Clone, Copy, PartialEq, Eq)]
pub enum CountdownMessage {
    /// The contest starts at this time.
    SetStartTime(i64),
    /// The start is reached.
    Start,
}

/// A message with the part of the greeter that it is for.
#[derive(Debug, PartialEq, Eq)]
pub enum Message {
    Background(BackgroundMessage),
    Form(FormMessage),
    KeyListener(KeyListenerMessage),
    GreeterClient(GreeterClientMessage),
    ApiPoller(ApiPollerMessage),
    Countdown(CountdownMessage),
    Dbus(DbusMessage),
}

/// What a [`Message`] holds, as texts.
pub enum MessageView {
    Background(Option<Seq<char>>),
    Form(FormMessageView),
    KeyListener(KeyListenerMessage),
    GreeterClient(GreeterClientMessageView),
    ApiPoller(ApiPollerMessageView),
    Countdown(CountdownMessage),
    Dbus(DbusMessageView),
}

impl View for Message {
    type V = MessageView;

    open spec fn view(&self) -> MessageView {
        match self {
            Message::Background(BackgroundMessage::SetSource(source)) => MessageView::Background(
                source.deep_view(),
            ),
            Message::Form(message) => MessageView::Form(message@),
            Message::KeyListener(message) => MessageView::KeyListener(*message),
            Message::GreeterClient(message) => MessageView::GreeterClient(message@),
            Message::ApiPoller(message) => MessageView::ApiPoller(message@),
            Message::Countdown(message) => MessageView::Countdown(*message),
            Message::Dbus(message) => MessageView::Dbus(message@),
        }
    }
}

/// Where a message goes.
#[derive(Debug, PartialEq, Eq)]
pub enum Route {
    /// To the part it names.
    Deliver(Message),
    /// Back to the router, as this message for another part.
    Forward(Message),
}

/// What a [`Route`] holds, as texts.
pub enum RouteView {
    Deliver(MessageView),
    Forward(MessageView),
}

impl View for Route {
    type V = RouteView;

    open spec fn view(&self) -> RouteView {
        match self {
            Route::Deliver(message) => RouteView::Deliver(message@),
            Route::Forward(message) => RouteView::Forward(message@),
        }
    }
}

/// Where a message goes. Credentials from the form start a login; the key
/// chain shows or hides the form; a failed login is shown in the form; a
/// start time that was fetched sets the countdown, whose end logs in; and a
/// call of the control service becomes the message of the part it concerns.
/// Any other message goes to the part it names.
pub open spec fn routed(message: MessageView) -> RouteView {
    match message {
        MessageView::Form(FormMessageView::LoginWithCredentials(username, password)) => {
            RouteView::Forward(
                MessageView::GreeterClient(
                    GreeterClientMessageView::LoginWithCredentials(username, password),
                ),
            )
        },
        MessageView::KeyListener(KeyListenerMessage::ChainTriggered) => RouteView::Forward(
            MessageView::Form(FormMessageView::ToggleVisible),
        ),
        MessageView::GreeterClient(GreeterClientMessageView::LoginError(text)) => {
            RouteView::Forward(MessageView::Form(FormMessageView::SetError(text)))
        },
        MessageView::ApiPoller(ApiPollerMessageView::SetStartime(time)) => RouteView::Forward(
            MessageView::Countdown(CountdownMessage::SetStartTime(time)),
        ),
        MessageView::Countdown(CountdownMessage::Start) => RouteView::Forward(
            MessageView::GreeterClient(GreeterClientMessageView::Login),
        ),
        MessageView::Dbus(DbusMessageView::SetWallpaper(source)) => RouteView::Forward(
            MessageView::Background(Some(source)),
        ),
        MessageView::Dbus(DbusMessageView::Login) => RouteView::Forward(
            MessageView::GreeterClient(GreeterClientMessageView::Login),
        ),
        MessageView::Dbus(DbusMessageView::SetApiUrl(url)) => RouteView::Forward(
            MessageView::ApiPoller(ApiPollerMessageView::SetUrl(Some(url))),
        ),
        _ => RouteView::Deliver(message),
    }
}

/// Says where a message goes.
pub fn route(message: Message) -> (r: Route)
    ensures
        r@ == routed(message@),
{
    match message {
        Message::Form(FormMessage::LoginWithCredentials(username, password)) => Route::Forward(
            Message::GreeterClient(GreeterClientMessage::LoginWithCredentials(username, password)),
        ),
        Message::KeyListener(KeyListenerMessage::ChainTriggered) => Route::Forward(
            Message::Form(FormMessage::ToggleVisible),
        ),
        Message::GreeterClient(GreeterClientMessage::LoginError(text)) => Route::Forward(
            Message::Form(FormMessage::SetError(text)),
        ),
        Message::ApiPoller(ApiPollerMessage::SetStartime(time)) => Route::Forward(
            Message::Countdown(CountdownMessage::SetStartTime(time)),
        ),
        Message::Countdown(CountdownMessage::Start) => Route::Forward(
            Message::GreeterClient(GreeterClientMessage::Login),
        ),
        Message::Dbus(DbusMessage::SetWallpaper(source)) => Route::Forward(
            Message::Background(BackgroundMessage::SetSource(Some(source))),
        ),
        Message::Dbus(DbusMessage::Login) => Route::Forward(
            Message::GreeterClient(GreeterClientMessage::Login),
        ),
        Message::Dbus(DbusMessage::SetApiUrl(url)) => Route::Forward(
            Message::ApiPoller(ApiPollerMessage::SetUrl(Some(url))),
        ),
        other => Route::Deliver(other),
    }
}

impl Clone for Message {
    fn clone(&self) -> (r: Self)
        ensures
            r@ == self@,
    {
        match self {
            Message::Background(BackgroundMessage::SetSource(source)) => Message::Background(
                BackgroundMessage::SetSource(clone_text(source)),
            ),
            Message::Form(message) => Message::Form(message.clone()),
            Message::KeyListener(message) => Message::KeyListener(*message),
            Message::GreeterClient(message) => Message::GreeterClient(message.clone()),
            Message::ApiPoller(message) => Message::ApiPoller(message.clone()),
            Message::Countdown(message) => Message::Countdown(*message),
            Message::Dbus(message) => Message::Dbus(message.clone()),
        }
    }
}

} // verus!
