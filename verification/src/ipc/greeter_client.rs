//! The greeter's side of a login: the credentials it is configured with,
//! when it starts an attempt, and what it makes of the attempt's end.
use crate::text::clone_text;
use vstd::prelude::*;

verus! {

/// How a login attempt ended, where it ended in a verdict.
#[derive(Debug, PartialEq, Eq)]
pub enum LoginResult {
    /// The user is authenticated and the session is started.
    Success,
    /// The attempt was turned down, for the reason given, which is fit to
    /// show to the user.
    Failure(String),
}

/// What a [`LoginResult`] holds, as texts.
pub enum LoginResultView {
    Success,
    Failure(Seq<char>),
}

impl View for LoginResult {
    type V = LoginResultView;

    open spec fn view(&self) -> LoginResultView {
        match self {
            LoginResult::Success => LoginResultView::Success,
            LoginResult::Failure(reason) => LoginResultView::Failure(reason@),
        }
    }
}

impl DeepView for LoginResult {
    type V = LoginResultView;

    open spec fn deep_view(&self) -> LoginResultView {
        self@
    }
}

impl Clone for LoginResult {
    fn clone(&self) -> (r: LoginResult)
        ensures
            r@ == self@,
    {
        match self {
            LoginResult::Success => LoginResult::Success,
            LoginResult::Failure(reason) => LoginResult::Failure(reason.clone()),
        }
    }
}

/// What the user is told when an attempt breaks off: the cause, whatever it
/// was, is not for the login screen.
pub open spec fn unexpected_error() -> Seq<char> {
    "Unexpected error"@
}

/// The greeter's login client: the session it prefers and the credentials it
/// logs in with when asked to log in by itself.
#[derive(Debug)]
pub struct GreeterClient {
    session: Option<String>,
    username: String,
    password: String,
}

/// What a [`GreeterClient`] holds, as texts.
pub struct GreeterClientView {
    pub session: Option<Seq<char>>,
    pub username: Seq<char>,
    pub password: Seq<char>,
}

impl View for GreeterClient {
    type V = GreeterClientView;

    closed spec fn view(&self) -> GreeterClientView {
        GreeterClientView {
            session: self.session.deep_view(),
            username: self.username@,
            password: self.password@,
        }
    }
}

/// What the client is told.
#[derive(Debug, PartialEq, Eq)]
pub enum GreeterClientMessage {
    /// Log in with the configured credentials.
    Login,
    /// Log in with these credentials: user name, password.
    LoginWithCredentials(String, String),
    /// A login attempt ended: in a verdict, or broken off for the reason
    /// given.
    LoginResult(Result<LoginResult, String>),
    /// A login attempt failed; the text is for the user.
    LoginError(String),
}

/// What a [`GreeterClientMessage`] holds, as texts.
pub enum GreeterClientMessageView {
    Login,
    LoginWithCredentials(Seq<char>, Seq<char>),
    LoginResult(Result<LoginResultView, Seq<char>>),
    LoginError(Seq<char>),
}

impl View for GreeterClientMessage {
    type V = GreeterClientMessageView;

    open spec fn view(&self) -> GreeterClientMessageView {
        match self {
            GreeterClientMessage::Login => GreeterClientMessageView::Login,
            GreeterClientMessage::LoginWithCredentials(username, password) => {
                GreeterClientMessageView::LoginWithCredentials(username@, password@)
            },
            GreeterClientMessage::LoginResult(Ok(result)) => GreeterClientMessageView::LoginResult(
                Ok(result@),
            ),
            GreeterClientMessage::LoginResult(Err(cause)) => GreeterClientMessageView::LoginResult(
                Err(cause@),
            ),
            GreeterClientMessage::LoginError(text) => GreeterClientMessageView::LoginError(text@),
        }
    }
}

/// What the client wants done after a message.
#[derive(Debug, PartialEq, Eq)]
pub enum ClientTask {
    /// Nothing.
    Idle,
    /// Hand the client's surroundings this message at once.
    Done(GreeterClientMessage),
    /// Run a login attempt, off the interactive thread, and hand its end back
    /// as a `LoginResult` message.
    Attempt { username: String, password: String, session: Option<String> },
}

/// What a [`ClientTask`] holds, as texts.
pub enum ClientTaskView {
    Idle,
    Done(GreeterClientMessageView),
    Attempt { username: Seq<char>, password: Seq<char>, session: Option<Seq<char>> },
}

impl View for ClientTask {
    type V = ClientTaskView;

    open spec fn view(&self) -> ClientTaskView {
        match self {
            ClientTask::Idle => ClientTaskView::Idle,
            ClientTask::Done(message) => ClientTaskView::Done(message@),
            ClientTask::Attempt { username, password, session } => ClientTaskView::Attempt {
                username: username@,
                password: password@,
                session: session.deep_view(),
            },
        }
    }
}

/// What a client wants done after a message. Asked to log in, it does so
/// with its own credentials unless both are empty. Given credentials, it runs
/// an attempt for its preferred session. Of the end of an attempt only
/// failure is passed on: a verdict with its own reason, anything else as an
/// unexpected error.
pub open spec fn reaction(client: GreeterClientView, message: GreeterClientMessageView) -> ClientTaskView {
    match message {
        GreeterClientMessageView::Login => if client.username.len() == 0 && client.password.len()
            == 0 {
            ClientTaskView::Idle
        } else {
            ClientTaskView::Done(
                GreeterClientMessageView::LoginWithCredentials(client.username, client.password),
            )
        },
        GreeterClientMessageView::LoginWithCredentials(username, password) => ClientTaskView::Attempt {
            username,
            password,
            session: client.session,
        },
        GreeterClientMessageView::LoginResult(Ok(LoginResultView::Success)) => ClientTaskView::Idle,
        GreeterClientMessageView::LoginResult(Ok(LoginResultView::Failure(reason))) => {
            ClientTaskView::Done(GreeterClientMessageView::LoginError(reason))
        },
        GreeterClientMessageView::LoginResult(Err(_)) => ClientTaskView::Done(
            GreeterClientMessageView::LoginError(unexpected_error()),
        ),
        GreeterClientMessageView::LoginError(_) => ClientTaskView::Idle,
    }
}

impl GreeterClient {
    /// A client that prefers `session` and logs in with the given
    /// credentials.
    pub fn new(session: Option<String>, username: String, password: String) -> (r: Self)
        ensures
            r@ == (GreeterClientView {
                session: session.deep_view(),
                username: username@,
                password: password@,
            }),
    {
        Self { session, username, password }
    }

    /// Takes a message and says what is to be done. The client itself stays
    /// as it is.
    pub fn update(&mut self, msg: GreeterClientMessage) -> (r: ClientTask)
        ensures
            r@ == reaction(old(self)@, msg@),
            final(self)@ == old(self)@,
    {
        match msg {
            GreeterClientMessage::Login => {
                if self.username.as_str().is_empty() && self.password.as_str().is_empty() {
                    ClientTask::Idle
                } else {
                    ClientTask::Done(
                        GreeterClientMessage::LoginWithCredentials(
                            self.username.clone(),
                            self.password.clone(),
                        ),
                    )
                }
            },
            GreeterClientMessage::LoginWithCredentials(username, password) => ClientTask::Attempt {
                username,
                password,
                session: clone_text(&self.session),
            },
            GreeterClientMessage::LoginResult(Ok(LoginResult::Success)) => ClientTask::Idle,
            GreeterClientMessage::LoginResult(Ok(LoginResult::Failure(reason))) => ClientTask::Done(
                GreeterClientMessage::LoginError(reason),
            ),
            GreeterClientMessage::LoginResult(Err(_)) => ClientTask::Done(
                GreeterClientMessage::LoginError(String::from_str("Unexpected error")),
            ),
            GreeterClientMessage::LoginError(_) => ClientTask::Idle,
        }
    }
}

impl Clone for GreeterClientMessage {
    fn clone(&self) -> (r: Self)
        ensures
            r@ == self@,
    {
        match self {
            GreeterClientMessage::Login => GreeterClientMessage::Login,
            GreeterClientMessage::LoginWithCredentials(username, password) => {
                GreeterClientMessage::LoginWithCredentials(username.clone(), password.clone())
            },
            GreeterClientMessage::LoginResult(Ok(result)) => GreeterClientMessage::LoginResult(
                Ok(result.clone()),
            ),
            GreeterClientMessage::LoginResult(Err(cause)) => GreeterClientMessage::LoginResult(
                Err(cause.clone()),
            ),
            GreeterClientMessage::LoginError(text) => GreeterClientMessage::LoginError(
                text.clone(),
            ),
        }
    }
}

} // verus!
