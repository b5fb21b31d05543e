//! The messages that the parts of the greeter send each other.
use crate::bus::CoreName;
use vstd::prelude::*;

verus! {

/// A message to the part that draws the screen.
#[derive(Debug, PartialEq, Eq)]
pub enum UiMessage {
    /// Show the wallpaper found at this place, or none.
    SetWallpaper(Option<String>),
    /// Show this error to the user.
    SetError(String),
    /// Count down to this time, in milliseconds since the Unix epoch; none
    /// leaves the countdown as it is.
    SetCountdownEndtime { end_time: Option<i64> },
}

/// What a [`UiMessage`] holds, as texts.
pub enum UiMessageView {
    SetWallpaper(Option<Seq<char>>),
    SetError(Seq<char>),
    SetCountdownEndtime { end_time: Option<i64> },
}

impl View for UiMessage {
    type V = UiMessageView;

    open spec fn view(&self) -> UiMessageView {
        match self {
            UiMessage::SetWallpaper(source) => UiMessageView::SetWallpaper(source.deep_view()),
            UiMessage::SetError(text) => UiMessageView::SetError(text@),
            UiMessage::SetCountdownEndtime { end_time } => UiMessageView::SetCountdownEndtime {
                end_time: *end_time,
            },
        }
    }
}

/// A message to the part that talks to the display manager.
#[derive(Debug, PartialEq, Eq)]
pub enum GreeterMessage {
    /// Authenticate this user: name, password.
    Login(String, String),
    /// Start this session, or the default one.
    StartSession(Option<String>),
}

/// What a [`GreeterMessage`] holds, as texts.
pub enum GreeterMessageView {
    Login(Seq<char>, Seq<char>),
    StartSession(Option<Seq<char>>),
}

impl View for GreeterMessage {
    type V = GreeterMessageView;

    open spec fn view(&self) -> GreeterMessageView {
        match self {
            GreeterMessage::Login(username, password) => GreeterMessageView::Login(
                username@,
                password@,
            ),
            GreeterMessage::StartSession(session) => GreeterMessageView::StartSession(
                session.deep_view(),
            ),
        }
    }
}

/// A message with the part it is for.
#[derive(Debug, PartialEq, Eq)]
pub enum Addressed {
    ToGreeter(GreeterMessage),
    ToUi(UiMessage),
}

/// What an [`Addressed`] message holds, as texts.
pub enum AddressedView {
    ToGreeter(GreeterMessageView),
    ToUi(UiMessageView),
}

impl View for Addressed {
    type V = AddressedView;

    open spec fn view(&self) -> AddressedView {
        match self {
            Addressed::ToGreeter(message) => AddressedView::ToGreeter(message@),
            Addressed::ToUi(message) => AddressedView::ToUi(message@),
        }
    }
}

impl Addressed {
    /// The part that the message is for.
    pub fn target(&self) -> (r: CoreName)
        ensures
            r == match self {
                Addressed::ToGreeter(_) => CoreName::Greeter,
                Addressed::ToUi(_) => CoreName::UI,
            },
    {
        match self {
            Addressed::ToGreeter(_) => CoreName::Greeter,
            Addressed::ToUi(_) => CoreName::UI,
        }
    }
}

} // verus!
