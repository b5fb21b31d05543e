//! The messages of the session daemon's protocol.
use crate::text::{clone_text, clone_texts};
use vstd::prelude::*;

verus! {

/// What kind of answer an authentication message asks for.
#[derive(Debug, Clone, Copy, PartialEq, Eq)]
pub enum AuthMessageType {
    /// A question whose answer may be shown while it is typed.
    Visible,
    /// A question whose answer is kept secret.
    Secret,
    /// A notice.
    Info,
    /// A notice of something gone wrong.
    Error,
}

/// Why the daemon refused.
#[derive(Debug, Clone, Copy, PartialEq, Eq)]
pub enum ErrorType {
    /// The credentials were not accepted.
    AuthError,
    /// Anything else.
    Error,
}

/// A message from the greeter to the daemon.
#[derive(Debug, PartialEq, Eq)]
pub enum Request {
    CreateSession { username: String },
    PostAuthMessageResponse { response: Option<String> },
    StartSession { cmd: Vec<String>, env: Vec<String> },
    CancelSession,
}

/// What a [`Request`] holds, as texts.
pub enum RequestView {
    CreateSession { username: Seq<char> },
    PostAuthMessageResponse { response: Option<Seq<char>> },
    StartSession { cmd: Seq<Seq<char>>, env: Seq<Seq<char>> },
    CancelSession,
}

impl View for Request {
    type V = RequestView;

    open spec fn view(&self) -> RequestView {
        match self {
            Request::CreateSession { username } => RequestView::CreateSession {
                username: username@,
            },
            Request::PostAuthMessageResponse { response } => RequestView::PostAuthMessageResponse {
                response: response.deep_view(),
            },
            Request::StartSession { cmd, env } => RequestView::StartSession {
                cmd: cmd.deep_view(),
                env: env.deep_view(),
            },
            Request::CancelSession => RequestView::CancelSession,
        }
    }
}

impl DeepView for Request {
    type V = RequestView;

    open spec fn deep_view(&self) -> RequestView {
        self@
    }
}

/// A message from the daemon to the greeter.
#[derive(Debug, PartialEq, Eq)]
pub enum Response {
    AuthMessage { auth_message_type: AuthMessageType, auth_message: String },
    Success,
    Error { error_type: ErrorType, description: String },
}

/// What a [`Response`] holds, as texts.
pub enum ResponseView {
    AuthMessage { auth_message_type: AuthMessageType, auth_message: Seq<char> },
    Success,
    Error { error_type: ErrorType, description: Seq<char> },
}

impl View for Response {
    type V = ResponseView;

    open spec fn view(&self) -> ResponseView {
        match self {
            Response::AuthMessage { auth_message_type, auth_message } => ResponseView::AuthMessage {
                auth_message_type: *auth_message_type,
                auth_message: auth_message@,
            },
            Response::Success => ResponseView::Success,
            Response::Error { error_type, description } => ResponseView::Error {
                error_type: *error_type,
                description: description@,
            },
        }
    }
}

impl DeepView for Response {
    type V = ResponseView;

    open spec fn deep_view(&self) -> ResponseView {
        self@
    }
}

impl Clone for Response {
    fn clone(&self) -> (r: Response)
        ensures
            r@ == self@,
    {
        match self {
            Response::AuthMessage { auth_message_type, auth_message } => Response::AuthMessage {
                auth_message_type: *auth_message_type,
                auth_message: auth_message.clone(),
            },
            Response::Success => Response::Success,
            Response::Error { error_type, description } => Response::Error {
                error_type: *error_type,
                description: description.clone(),
            },
        }
    }
}

impl Clone for Request {
    fn clone(&self) -> (r: Request)
        ensures
            r@ == self@,
    {
        match self {
            Request::CreateSession { username } => Request::CreateSession {
                username: username.clone(),
            },
            Request::PostAuthMessageResponse { response } => Request::PostAuthMessageResponse {
                response: clone_text(response),
            },
            Request::StartSession { cmd, env } => Request::StartSession {
                cmd: clone_texts(cmd),
                env: clone_texts(env),
            },
            Request::CancelSession => Request::CancelSession,
        }
    }
}

} // verus!
