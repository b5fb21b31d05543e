//! What the greeter's control service passes on to the greeter.
use vstd::prelude::*;

verus! {

/// A call that came in over the control service.
#[derive(Debug, PartialEq, Eq)]
pub enum DbusMessage {
    /// Show the wallpaper found at this place.
    SetWallpaper(String),
    /// Log in with the configured credentials.
    Login,
    /// Ask this address for the start time from now on.
    SetApiUrl(String),
}

/// What a [`DbusMessage`] holds, as texts.
pub enum DbusMessageView {
    SetWallpaper(Seq<char>),
    Login,
    SetApiUrl(Seq<char>),
}

impl View for DbusMessage {
    type V = DbusMessageView;

    open spec fn view(&self) -> DbusMessageView {
        match self {
            DbusMessage::SetWallpaper(source) => DbusMessageView::SetWallpaper(source@),
            DbusMessage::Login => DbusMessageView::Login,
            DbusMessage::SetApiUrl(url) => DbusMessageView::SetApiUrl(url@),
        }
    }
}

impl Clone for DbusMessage {
    fn clone(&self) -> (r: Self)
        ensures
            r@ == self@,
    {
        match self {
            DbusMessage::SetWallpaper(source) => DbusMessage::SetWallpaper(source.clone()),
            DbusMessage::Login => DbusMessage::Login,
            DbusMessage::SetApiUrl(url) => DbusMessage::SetApiUrl(url.clone()),
        }
    }
}

} // verus!
