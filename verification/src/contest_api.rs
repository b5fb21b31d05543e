//! Settings for asking the contest's service, and what an answer means.
use crate::text::clone_text;
use crate::messages::{
    Addressed, AddressedView, GreeterMessage, GreeterMessageView, UiMessage, UiMessageView,
};
use vstd::prelude::*;

verus! {

/// Settings for asking the contest's service.
#[derive(Debug)]
pub struct ApiPollerConfig {
    /// Seconds between two askings.
    interval: i64,
    /// Address of the service, which answers with the start time.
    url: Option<String>,
}

/// What an [`ApiPollerConfig`] holds, as texts.
pub struct ApiPollerConfigView {
    pub interval: i64,
    pub url: Option<Seq<char>>,
}

impl View for ApiPollerConfig {
    type V = ApiPollerConfigView;

    closed spec fn view(&self) -> ApiPollerConfigView {
        ApiPollerConfigView { interval: self.interval, url: self.url.deep_view() }
    }
}

/// Seconds between two askings where the settings name none.
pub fn default_interval() -> (r: i64)
    ensures
        r == 3,
{
    3
}

impl Default for ApiPollerConfig {
    fn default() -> (r: Self)
        ensures
            r@ == (ApiPollerConfigView { interval: 3, url: None }),
    {
        Self { interval: default_interval(), url: None }
    }
}

impl Clone for ApiPollerConfig {
    fn clone(&self) -> (r: Self)
        ensures
            r@ == self@,
    {
        Self { interval: self.interval, url: clone_text(&self.url) }
    }
}

impl ApiPollerConfig {
    /// Settings with this interval and address.
    pub fn new(interval: i64, url: Option<String>) -> (r: Self)
        ensures
            r@ == (ApiPollerConfigView { interval, url: url.deep_view() }),
    {
        Self { interval, url }
    }

    /// Address of the service, where one is set. Without one nothing is
    /// asked.
    pub fn url(&self) -> (r: Option<String>)
        ensures
            r.deep_view() == self@.url,
    {
        clone_text(&self.url)
    }

    /// Seconds to wait between two askings: the interval of the settings,
    /// a negative one counting as none.
    pub fn poll_seconds(&self) -> (r: u64)
        ensures
            r == if self@.interval < 0 {
                0
            } else {
                self@.interval as int
            },
    {
        if self.interval < 0 {
            0
        } else {
            self.interval as u64
        }
    }
}

/// What a start time means at the time `now`, for a greeter that logs in
/// with the given credentials: a start that lies in the past is the signal
/// to log in, any other is counted down to. Times are in milliseconds since
/// the Unix epoch.
pub fn start_signal(start_time: i64, now: i64, username: &str, password: &str) -> (r: Addressed)
    ensures
        r@ == if start_time < now {
            AddressedView::ToGreeter(GreeterMessageView::Login(username@, password@))
        } else {
            AddressedView::ToUi(UiMessageView::SetCountdownEndtime { end_time: Some(start_time) })
        },
{
    if start_time < now {
        Addressed::ToGreeter(GreeterMessage::Login(username.to_owned(), password.to_owned()))
    } else {
        Addressed::ToUi(UiMessage::SetCountdownEndtime { end_time: Some(start_time) })
    }
}

} // verus!
