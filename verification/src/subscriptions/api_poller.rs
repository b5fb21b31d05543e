//! Asking the contest's service when the contest starts.
use crate::text::clone_text;
use vstd::prelude::*;

verus! {

/// Asks the contest's service for the start time, where it knows the
/// service's address.
#[derive(Debug)]
pub struct ApiPoller {
    url: Option<String>,
}

impl View for ApiPoller {
    type V = Option<Seq<char>>;

    /// The address that is asked, where one is set.
    closed spec fn view(&self) -> Option<Seq<char>> {
        self.url.deep_view()
    }
}

/// What the poller is told. A time is a number of milliseconds since the
/// Unix epoch.
#[derive(Debug, PartialEq, Eq)]
pub enum ApiPollerMessage {
    /// It is time to ask.
    FetchStartTime,
    /// The service answered with a start time, or asking failed for the
    /// reason given.
    StartTimeFetched(Result<i64, String>),
    /// Ask this address from now on, or none.
    SetUrl(Option<String>),
    /// The contest starts at this time.
    SetStartime(i64),
}

/// What an [`ApiPollerMessage`] holds, as texts.
pub enum ApiPollerMessageView {
    FetchStartTime,
    StartTimeFetched(Result<i64, Seq<char>>),
    SetUrl(Option<Seq<char>>),
    SetStartime(i64),
}

impl View for ApiPollerMessage {
    type V = ApiPollerMessageView;

    open spec fn view(&self) -> ApiPollerMessageView {
        match self {
            ApiPollerMessage::FetchStartTime => ApiPollerMessageView::FetchStartTime,
            ApiPollerMessage::StartTimeFetched(Ok(time)) => ApiPollerMessageView::StartTimeFetched(
                Ok(*time),
            ),
            ApiPollerMessage::StartTimeFetched(Err(cause)) => {
                ApiPollerMessageView::StartTimeFetched(Err(cause@))
            },
            ApiPollerMessage::SetUrl(url) => ApiPollerMessageView::SetUrl(url.deep_view()),
            ApiPollerMessage::SetStartime(time) => ApiPollerMessageView::SetStartime(*time),
        }
    }
}

/// What the poller wants done after a message.
#[derive(Debug, PartialEq, Eq)]
pub enum ApiPollerTask {
    /// Nothing.
    Idle,
    /// Hand the poller's surroundings this message at once.
    Done(ApiPollerMessage),
    /// Ask the service at this address, off the interactive thread, and hand
    /// the answer back as a `StartTimeFetched` message.
    Fetch(String),
}

/// What an [`ApiPollerTask`] holds, as texts.
pub enum ApiPollerTaskView {
    Idle,
    Done(ApiPollerMessageView),
    Fetch(Seq<char>),
}

impl View for ApiPollerTask {
    type V = ApiPollerTaskView;

    open spec fn view(&self) -> ApiPollerTaskView {
        match self {
            ApiPollerTask::Idle => ApiPollerTaskView::Idle,
            ApiPollerTask::Done(message) => ApiPollerTaskView::Done(message@),
            ApiPollerTask::Fetch(url) => ApiPollerTaskView::Fetch(url@),
        }
    }
}

/// How many seconds pass between two askings.
pub const POLL_SECONDS: u64 = 60;

/// What the poller wants done after a message: asked to fetch, it asks the
/// service if it knows the address; a start time that was fetched is made
/// known; a failed fetch is let go.
pub open spec fn poller_task(url: Option<Seq<char>>, message: ApiPollerMessageView) -> ApiPollerTaskView {
    match message {
        ApiPollerMessageView::FetchStartTime => match url {
            Some(url) => ApiPollerTaskView::Fetch(url),
            None => ApiPollerTaskView::Idle,
        },
        ApiPollerMessageView::StartTimeFetched(Ok(time)) => ApiPollerTaskView::Done(
            ApiPollerMessageView::SetStartime(time),
        ),
        _ => ApiPollerTaskView::Idle,
    }
}

/// The address that is asked after a message: a new one where the message
/// sets one, else the old.
pub open spec fn poller_url(url: Option<Seq<char>>, message: ApiPollerMessageView) -> Option<
    Seq<char>,
> {
    match message {
        ApiPollerMessageView::SetUrl(new_url) => new_url,
        _ => url,
    }
}

impl ApiPoller {
    /// A poller for the service at `url`, and its first task: to ask at
    /// once.
    pub fn new(url: Option<String>) -> (r: (Self, ApiPollerTask))
        ensures
            r.0@ == url.deep_view(),
            r.1@ == ApiPollerTaskView::Done(ApiPollerMessageView::FetchStartTime),
    {
        (Self { url }, ApiPollerTask::Done(ApiPollerMessage::FetchStartTime))
    }

    /// Takes a message and says what is to be done.
    pub fn update(&mut self, msg: ApiPollerMessage) -> (r: ApiPollerTask)
        ensures
            final(self)@ == poller_url(old(self)@, msg@),
            r@ == poller_task(old(self)@, msg@),
    {
        match msg {
            ApiPollerMessage::FetchStartTime => match clone_text(&self.url) {
                Some(url) => ApiPollerTask::Fetch(url),
                None => ApiPollerTask::Idle,
            },
            ApiPollerMessage::SetUrl(url) => {
                self.url = url;
                ApiPollerTask::Idle
            },
            ApiPollerMessage::StartTimeFetched(Ok(time)) => ApiPollerTask::Done(
                ApiPollerMessage::SetStartime(time),
            ),
            ApiPollerMessage::StartTimeFetched(Err(_)) => ApiPollerTask::Idle,
            ApiPollerMessage::SetStartime(_) => ApiPollerTask::Idle,
        }
    }
}

impl Clone for ApiPollerMessage {
    fn clone(&self) -> (r: Self)
        ensures
            r@ == self@,
    {
        match self {
            ApiPollerMessage::FetchStartTime => ApiPollerMessage::FetchStartTime,
            ApiPollerMessage::StartTimeFetched(Ok(time)) => ApiPollerMessage::StartTimeFetched(
                Ok(*time),
            ),
            ApiPollerMessage::StartTimeFetched(Err(cause)) => ApiPollerMessage::StartTimeFetched(
                Err(cause.clone()),
            ),
            ApiPollerMessage::SetUrl(url) => ApiPollerMessage::SetUrl(clone_text(url)),
            ApiPollerMessage::SetStartime(time) => ApiPollerMessage::SetStartime(*time),
        }
    }
}

} // verus!
