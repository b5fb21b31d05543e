//! The login handshake with the session daemon, as a state machine that is
//! advanced by one event at a time.
use crate::ipc::greeter_client::{LoginResult, LoginResultView};
use crate::ipc::protocol::{
    AuthMessageType, ErrorType, Request, RequestView, Response, ResponseView,
};
use crate::ipc::sessions::{
    clone_sessions, select_session, selected, session_env, Session, SessionView,
};
use vstd::prelude::*;

verus! {

/// Why a login attempt broke off without a verdict.
#[derive(Debug, PartialEq, Eq)]
pub enum LoginError {
    /// The daemon reported an error other than rejected credentials.
    Daemon { description: String },
    /// The catalog offers no session to start.
    NoSessions,
    /// An event came that the handshake did not await.
    Protocol,
}

/// What a [`LoginError`] holds, as texts.
pub enum LoginErrorView {
    Daemon { description: Seq<char> },
    NoSessions,
    Protocol,
}

impl View for LoginError {
    type V = LoginErrorView;

    open spec fn view(&self) -> LoginErrorView {
        match self {
            LoginError::Daemon { description } => LoginErrorView::Daemon {
                description: description@,
            },
            LoginError::NoSessions => LoginErrorView::NoSessions,
            LoginError::Protocol => LoginErrorView::Protocol,
        }
    }
}

/// How an attempt ends: in a verdict, or broken off.
pub type Outcome = Result<LoginResult, LoginError>;

/// What an [`Outcome`] holds, as texts.
pub type OutcomeView = Result<LoginResultView, LoginErrorView>;

/// An outcome as texts.
pub open spec fn outcome_view(outcome: Outcome) -> OutcomeView {
    match outcome {
        Ok(result) => Ok(result@),
        Err(error) => Err(error@),
    }
}

/// Where a login attempt stands.
#[derive(Debug, PartialEq, Eq)]
pub enum LoginState {
    /// The attempt is announced to the daemon, whose verdict on the
    /// credentials is awaited.
    SessionCreated { password: String, session: Option<String> },
    /// The daemon accepted the credentials; the catalog of sessions is
    /// awaited.
    Authenticated { password: String, session: Option<String> },
    /// The daemon was told which session to start; its word on that is
    /// awaited.
    Starting { password: String },
    /// The attempt is over.
    Finished,
}

/// What a [`LoginState`] holds, as texts.
pub enum LoginStateView {
    SessionCreated { password: Seq<char>, session: Option<Seq<char>> },
    Authenticated { password: Seq<char>, session: Option<Seq<char>> },
    Starting { password: Seq<char> },
    Finished,
}

impl View for LoginState {
    type V = LoginStateView;

    open spec fn view(&self) -> LoginStateView {
        match self {
            LoginState::SessionCreated { password, session } => LoginStateView::SessionCreated {
                password: password@,
                session: session.deep_view(),
            },
            LoginState::Authenticated { password, session } => LoginStateView::Authenticated {
                password: password@,
                session: session.deep_view(),
            },
            LoginState::Starting { password } => LoginStateView::Starting { password: password@ },
            LoginState::Finished => LoginStateView::Finished,
        }
    }
}

/// What happened since the last action.
#[derive(Debug, PartialEq, Eq)]
pub enum LoginEvent {
    /// The daemon replied to the request sent last.
    Reply(Response),
    /// The catalog of sessions was built.
    Sessions(Vec<Session>),
}

/// What a [`LoginEvent`] holds, as texts.
pub enum LoginEventView {
    Reply(ResponseView),
    Sessions(Seq<SessionView>),
}

impl View for LoginEvent {
    type V = LoginEventView;

    open spec fn view(&self) -> LoginEventView {
        match self {
            LoginEvent::Reply(reply) => LoginEventView::Reply(reply@),
            LoginEvent::Sessions(catalog) => LoginEventView::Sessions(catalog.deep_view()),
        }
    }
}

/// What is to be done next.
#[derive(Debug, PartialEq, Eq)]
pub enum LoginAction {
    /// Send the request and hand back the daemon's reply.
    Send(Request),
    /// Build the catalog of sessions and hand it back.
    ListSessions,
    /// Send `last`, if there is one, without waiting for a reply, and end the
    /// attempt with `outcome`.
    Finish { last: Option<Request>, outcome: Outcome },
}

/// What a [`LoginAction`] holds, as texts.
pub enum LoginActionView {
    Send(RequestView),
    ListSessions,
    Finish { last: Option<RequestView>, outcome: OutcomeView },
}

impl View for LoginAction {
    type V = LoginActionView;

    open spec fn view(&self) -> LoginActionView {
        match self {
            LoginAction::Send(request) => LoginActionView::Send(request@),
            LoginAction::ListSessions => LoginActionView::ListSessions,
            LoginAction::Finish { last, outcome } => LoginActionView::Finish {
                last: last.deep_view(),
                outcome: outcome_view(*outcome),
            },
        }
    }
}

/// What the user is told when the daemon rejects the credentials.
pub open spec fn wrong_credentials() -> Seq<char> {
    "wrong username or password"@
}

/// The answer to an authentication message: the password to a question,
/// nothing to a notice.
pub open spec fn answer(kind: AuthMessageType, password: Seq<char>) -> RequestView {
    RequestView::PostAuthMessageResponse {
        response: match kind {
            AuthMessageType::Visible | AuthMessageType::Secret => Some(password),
            AuthMessageType::Info | AuthMessageType::Error => None,
        },
    }
}

/// How an attempt ends on an error reply: the session is cancelled, and
/// rejected credentials are a verdict where any other error breaks the
/// attempt off.
pub open spec fn refusal(error_type: ErrorType, description: Seq<char>) -> LoginActionView {
    LoginActionView::Finish {
        last: Some(RequestView::CancelSession),
        outcome: match error_type {
            ErrorType::AuthError => Ok(LoginResultView::Failure(wrong_credentials())),
            ErrorType::Error => Err(LoginErrorView::Daemon { description }),
        },
    }
}

/// The request that starts a session.
pub open spec fn start_request(session: SessionView) -> RequestView {
    RequestView::StartSession { cmd: seq![session.command], env: session_env(session) }
}

/// The attempt that ends at once, broken off for `error`, with nothing more
/// sent.
pub open spec fn broken_off(error: LoginErrorView) -> (LoginStateView, LoginActionView) {
    (LoginStateView::Finished, LoginActionView::Finish { last: None, outcome: Err(error) })
}

/// The state after an event, and what is to be done next.
pub open spec fn next(state: LoginStateView, event: LoginEventView) -> (
    LoginStateView,
    LoginActionView,
) {
    match (state, event) {
        (
            LoginStateView::SessionCreated { password, session },
            LoginEventView::Reply(reply),
        ) => match reply {
            ResponseView::AuthMessage { auth_message_type, auth_message } => (
                state,
                LoginActionView::Send(answer(auth_message_type, password)),
            ),
            ResponseView::Success => (
                LoginStateView::Authenticated { password, session },
                LoginActionView::ListSessions,
            ),
            ResponseView::Error { error_type, description } => (
                LoginStateView::Finished,
                refusal(error_type, description),
            ),
        },
        (
            LoginStateView::Authenticated { password, session },
            LoginEventView::Sessions(catalog),
        ) => match selected(catalog, session) {
            Some(chosen) => (
                LoginStateView::Starting { password },
                LoginActionView::Send(start_request(chosen)),
            ),
            None => broken_off(LoginErrorView::NoSessions),
        },
        (LoginStateView::Starting { password }, LoginEventView::Reply(reply)) => match reply {
            ResponseView::AuthMessage { auth_message_type, auth_message } => (
                state,
                LoginActionView::Send(answer(auth_message_type, password)),
            ),
            ResponseView::Success => (
                LoginStateView::Finished,
                LoginActionView::Finish { last: None, outcome: Ok(LoginResultView::Success) },
            ),
            ResponseView::Error { error_type, description } => (
                LoginStateView::Finished,
                refusal(error_type, description),
            ),
        },
        _ => broken_off(LoginErrorView::Protocol),
    }
}

/// What of a reply is to be brought to notice: the text of a notice of the
/// daemon's. A question is answered, not noticed, and the daemon's verdict
/// speaks through the outcome.
pub open spec fn notice_of(reply: ResponseView) -> Option<Seq<char>> {
    match reply {
        ResponseView::AuthMessage { auth_message_type, auth_message } => match auth_message_type {
            AuthMessageType::Info | AuthMessageType::Error => Some(auth_message),
            AuthMessageType::Visible | AuthMessageType::Secret => None,
        },
        _ => None,
    }
}

/// What of `reply` is to be brought to notice.
pub fn notice(reply: &Response) -> (r: Option<String>)
    ensures
        r.deep_view() == notice_of(reply@),
{
    match reply {
        Response::AuthMessage { auth_message_type, auth_message } => match auth_message_type {
            AuthMessageType::Info | AuthMessageType::Error => Some(auth_message.clone()),
            AuthMessageType::Visible | AuthMessageType::Secret => None,
        },
        _ => None,
    }
}

/// The answer to an authentication message.
fn answer_to(kind: AuthMessageType, password: &String) -> (r: Request)
    ensures
        r@ == answer(kind, password@),
{
    Request::PostAuthMessageResponse {
        response: match kind {
            AuthMessageType::Visible | AuthMessageType::Secret => Some(password.clone()),
            AuthMessageType::Info | AuthMessageType::Error => None,
        },
    }
}

/// The end of an attempt on an error reply.
fn refuse(error_type: ErrorType, description: String) -> (r: LoginAction)
    ensures
        r@ == refusal(error_type, description@),
{
    LoginAction::Finish {
        last: Some(Request::CancelSession),
        outcome: match error_type {
            ErrorType::AuthError => Ok(
                LoginResult::Failure(String::from_str("wrong username or password")),
            ),
            ErrorType::Error => Err(LoginError::Daemon { description }),
        },
    }
}

/// The end of an attempt that is broken off with nothing more sent.
fn break_off(error: LoginError) -> (r: (LoginState, LoginAction))
    ensures
        (r.0@, r.1@) == broken_off(error@),
{
    (LoginState::Finished, LoginAction::Finish { last: None, outcome: Err(error) })
}

/// The request that starts `session`.
fn start_of(session: &Session) -> (r: Request)
    ensures
        r@ == start_request(session@),
{
    let (command, env) = session.get_session_command();
    let mut cmd: Vec<String> = Vec::new();
    cmd.push(command);
    assert(cmd.deep_view() =~= seq![session@.command]);
    Request::StartSession { cmd, env }
}

impl LoginState {
    /// Begins an attempt: the state to start from, and the request that
    /// announces the user to the daemon.
    pub fn start(username: String, password: String, session: Option<String>) -> (r: (
        LoginState,
        LoginAction,
    ))
        ensures
            r.0@ == (LoginStateView::SessionCreated {
                password: password@,
                session: session.deep_view(),
            }),
            r.1@ == LoginActionView::Send(RequestView::CreateSession { username: username@ }),
    {
        (
            LoginState::SessionCreated { password, session },
            LoginAction::Send(Request::CreateSession { username }),
        )
    }

    /// Advances the attempt by one event.
    pub fn step(self, event: LoginEvent) -> (r: (LoginState, LoginAction))
        ensures
            (r.0@, r.1@) == next(self@, event@),
    {
        match (self, event) {
            (LoginState::SessionCreated { password, session }, LoginEvent::Reply(reply)) => {
                match reply {
                    Response::AuthMessage { auth_message_type, auth_message } => {
                        let request = answer_to(auth_message_type, &password);
                        (LoginState::SessionCreated { password, session }, LoginAction::Send(request))
                    },
                    Response::Success => (
                        LoginState::Authenticated { password, session },
                        LoginAction::ListSessions,
                    ),
                    Response::Error { error_type, description } => (
                        LoginState::Finished,
                        refuse(error_type, description),
                    ),
                }
            },
            (LoginState::Authenticated { password, session }, LoginEvent::Sessions(catalog)) => {
                match select_session(&catalog, &session) {
                    Some(chosen) => (
                        LoginState::Starting { password },
                        LoginAction::Send(start_of(chosen)),
                    ),
                    None => break_off(LoginError::NoSessions),
                }
            },
            (LoginState::Starting { password }, LoginEvent::Reply(reply)) => {
                match reply {
                    Response::AuthMessage { auth_message_type, auth_message } => {
                        let request = answer_to(auth_message_type, &password);
                        (LoginState::Starting { password }, LoginAction::Send(request))
                    },
                    Response::Success => (
                        LoginState::Finished,
                        LoginAction::Finish { last: None, outcome: Ok(LoginResult::Success) },
                    ),
                    Response::Error { error_type, description } => (
                        LoginState::Finished,
                        refuse(error_type, description),
                    ),
                }
            },
            _ => break_off(LoginError::Protocol),
        }
    }
}

/// What an attempt did: the requests it sent, in order, and how it ended.
/// It has no outcome while the daemon's next reply is still awaited.
pub struct Transcript {
    pub sent: Seq<RequestView>,
    pub outcome: Option<OutcomeView>,
}

/// What an attempt does from `state` on, with `action` to be done next, when
/// the daemon replies with `replies`, in order, and the catalog of sessions
/// is `catalog`.
pub open spec fn carry_on(
    state: LoginStateView,
    action: LoginActionView,
    catalog: Seq<SessionView>,
    replies: Seq<ResponseView>,
) -> Transcript
    decreases replies.len(), (if action is ListSessions { 1nat } else { 0nat }),
{
    match action {
        LoginActionView::Send(request) => {
            if replies.len() == 0 {
                Transcript { sent: seq![request], outcome: None }
            } else {
                let after = next(state, LoginEventView::Reply(replies[0]));
                let rest = carry_on(after.0, after.1, catalog, replies.drop_first());
                Transcript { sent: seq![request] + rest.sent, outcome: rest.outcome }
            }
        },
        LoginActionView::ListSessions => {
            let after = next(state, LoginEventView::Sessions(catalog));
            if after.1 is ListSessions {
                Transcript { sent: Seq::empty(), outcome: None }
            } else {
                carry_on(after.0, after.1, catalog, replies)
            }
        },
        LoginActionView::Finish { last, outcome } => Transcript {
            sent: match last {
                Some(request) => seq![request],
                None => Seq::empty(),
            },
            outcome: Some(outcome),
        },
    }
}

/// What a login attempt with these credentials and this preferred session
/// does when the daemon replies with `replies`, in order, and the catalog of
/// sessions is `catalog`.
pub open spec fn transcript(
    username: Seq<char>,
    password: Seq<char>,
    session: Option<Seq<char>>,
    catalog: Seq<SessionView>,
    replies: Seq<ResponseView>,
) -> Transcript {
    carry_on(
        LoginStateView::SessionCreated { password, session },
        LoginActionView::Send(RequestView::CreateSession { username }),
        catalog,
        replies,
    )
}

/// Runs a login attempt against a daemon whose replies are written down
/// beforehand: the requests the attempt sends, and how it ends if the replies
/// suffice to end it.
pub fn run_script(
    username: String,
    password: String,
    session: Option<String>,
    catalog: &Vec<Session>,
    replies: &Vec<Response>,
) -> (r: (Vec<Request>, Option<Outcome>))
    ensures
        r.0.deep_view() == transcript(
            username@,
            password@,
            session.deep_view(),
            catalog.deep_view(),
            replies.deep_view(),
        ).sent,
        match r.1 {
            Some(outcome) => transcript(
                username@,
                password@,
                session.deep_view(),
                catalog.deep_view(),
                replies.deep_view(),
            ).outcome == Some(outcome_view(outcome)),
            None => transcript(
                username@,
                password@,
                session.deep_view(),
                catalog.deep_view(),
                replies.deep_view(),
            ).outcome is None,
        },
{
    let ghost whole = transcript(
        username@,
        password@,
        session.deep_view(),
        catalog.deep_view(),
        replies.deep_view(),
    );
    let (mut state, mut action) = LoginState::start(username, password, session);
    let mut sent: Vec<Request> = Vec::new();
    let mut k: usize = 0;
    assert(replies.deep_view().skip(0) =~= replies.deep_view());
    assert(sent.deep_view() + whole.sent =~= whole.sent);
    loop
        invariant
            k <= replies.len(),
            whole == transcript(
                username@,
                password@,
                session.deep_view(),
                catalog.deep_view(),
                replies.deep_view(),
            ),
            whole.sent == sent.deep_view() + carry_on(
                state@,
                action@,
                catalog.deep_view(),
                replies.deep_view().skip(k as int),
            ).sent,
            whole.outcome == carry_on(
                state@,
                action@,
                catalog.deep_view(),
                replies.deep_view().skip(k as int),
            ).outcome,
        decreases replies.len() - k, (if action is ListSessions { 1nat } else { 0nat }),
    {
        let ghost rest = replies.deep_view().skip(k as int);
        let ghost before = sent.deep_view();
        match action {
            LoginAction::Send(request) => {
                let ghost asked = request@;
                sent.push(request);
                assert(sent.deep_view() =~= before.push(asked));
                if k == replies.len() {
                    assert(whole.sent =~= sent.deep_view());
                    return (sent, None);
                }
                assert(rest[0] == replies.deep_view()[k as int]);
                assert(rest.drop_first() =~= replies.deep_view().skip(k + 1));
                let after = state.step(LoginEvent::Reply(replies[k].clone()));
                state = after.0;
                action = after.1;
                k = k + 1;
                assert(whole.sent =~= sent.deep_view() + carry_on(
                    state@,
                    action@,
                    catalog.deep_view(),
                    replies.deep_view().skip(k as int),
                ).sent);
            },
            LoginAction::ListSessions => {
                let after = state.step(LoginEvent::Sessions(clone_sessions(catalog)));
                state = after.0;
                action = after.1;
            },
            LoginAction::Finish { last, outcome } => {
                match last {
                    Some(request) => {
                        let ghost asked = request@;
                        sent.push(request);
                        assert(sent.deep_view() =~= before.push(asked));
                    },
                    None => {},
                }
                assert(whole.sent =~= sent.deep_view());
                return (sent, Some(outcome));
            },
        }
    }
}

/// How many of the requests cancel the session.
pub open spec fn cancellations(sent: Seq<RequestView>) -> nat {
    sent.filter(|request: RequestView| request is CancelSession).len()
}

/// How many of the requests start a session.
pub open spec fn starts(sent: Seq<RequestView>) -> nat {
    sent.filter(|request: RequestView| request is StartSession).len()
}

/// Whether the attempt ended with the session started.
pub open spec fn succeeded(outcome: Option<OutcomeView>) -> bool {
    outcome == Some(Ok::<LoginResultView, LoginErrorView>(LoginResultView::Success))
}

/// Whether the attempt ended on an error that the daemon reported.
pub open spec fn refused(outcome: Option<OutcomeView>) -> bool {
    match outcome {
        Some(Ok(LoginResultView::Failure(_))) => true,
        Some(Err(LoginErrorView::Daemon { .. })) => true,
        _ => false,
    }
}

/// What `next` can ask for: no request it has sent and awaits a reply to is a
/// cancellation, and an attempt ends with a cancellation exactly where the
/// daemon refused.
pub open spec fn orderly(action: LoginActionView) -> bool {
    match action {
        LoginActionView::Send(request) => !(request is CancelSession),
        LoginActionView::ListSessions => true,
        LoginActionView::Finish { last, outcome } => if refused(Some(outcome)) {
            last == Some(RequestView::CancelSession)
        } else {
            last is None
        },
    }
}

/// The requests of `carry_on` from an action on: those of the action itself,
/// counted by `count`.
proof fn lemma_count_one(request: RequestView, rest: Seq<RequestView>, pred: spec_fn(RequestView) -> bool)
    ensures
        (seq![request] + rest).filter(pred).len() == rest.filter(pred).len() + (if pred(request) {
            1nat
        } else {
            0nat
        }),
        Seq::<RequestView>::empty().filter(pred).len() == 0,
        seq![request].filter(pred).len() == (if pred(request) {
            1nat
        } else {
            0nat
        }),
{
    reveal(Seq::filter);
    let none = Seq::<RequestView>::empty();
    assert(none.filter(pred) =~= none);
    assert(seq![request] =~= none.push(request));
    none.lemma_filter_push(request, pred);
    Seq::filter_distributes_over_add(seq![request], rest, pred);
}

/// From an orderly action on, an attempt cancels at most once; it cancels
/// exactly where it ends on an error that the daemon reported.
proof fn lemma_carry_on_cancels(
    state: LoginStateView,
    action: LoginActionView,
    catalog: Seq<SessionView>,
    replies: Seq<ResponseView>,
)
    requires
        orderly(action),
    ensures
        cancellations(carry_on(state, action, catalog, replies).sent) == (if refused(
            carry_on(state, action, catalog, replies).outcome,
        ) {
            1nat
        } else {
            0nat
        }),
    decreases replies.len(), (if action is ListSessions { 1nat } else { 0nat }),
{
    let pred = |request: RequestView| request is CancelSession;
    match action {
        LoginActionView::Send(request) => {
            if replies.len() == 0 {
                lemma_count_one(request, Seq::empty(), pred);
            } else {
                let after = next(state, LoginEventView::Reply(replies[0]));
                lemma_carry_on_cancels(after.0, after.1, catalog, replies.drop_first());
                lemma_count_one(
                    request,
                    carry_on(after.0, after.1, catalog, replies.drop_first()).sent,
                    pred,
                );
            }
        },
        LoginActionView::ListSessions => {
            let after = next(state, LoginEventView::Sessions(catalog));
            if after.1 is ListSessions {
                lemma_count_one(RequestView::CancelSession, Seq::empty(), pred);
            } else {
                lemma_carry_on_cancels(after.0, after.1, catalog, replies);
            }
        },
        LoginActionView::Finish { last, outcome } => {
            lemma_count_one(RequestView::CancelSession, Seq::empty(), pred);
        },
    }
}

/// Cancellation happens at most once in an attempt, and never in one that
/// ends with the session started: an attempt cancels once where it ends on an
/// error that the daemon reported, and not at all otherwise.
pub proof fn lemma_cancels_at_most_once(
    username: Seq<char>,
    password: Seq<char>,
    session: Option<Seq<char>>,
    catalog: Seq<SessionView>,
    replies: Seq<ResponseView>,
)
    ensures
        cancellations(transcript(username, password, session, catalog, replies).sent) <= 1,
        cancellations(transcript(username, password, session, catalog, replies).sent) == 1
            <==> refused(transcript(username, password, session, catalog, replies).outcome),
        succeeded(transcript(username, password, session, catalog, replies).outcome)
            ==> cancellations(transcript(username, password, session, catalog, replies).sent)
            == 0,
{
    lemma_carry_on_cancels(
        LoginStateView::SessionCreated { password, session },
        LoginActionView::Send(RequestView::CreateSession { username }),
        catalog,
        replies,
    );
}

/// Rejected credentials: where the daemon's first reply is an error of type
/// `AuthError`, the attempt sends the announcement and one cancellation, and
/// ends in the verdict that user name or password are wrong.
pub proof fn lemma_rejected_credentials(
    username: Seq<char>,
    password: Seq<char>,
    session: Option<Seq<char>>,
    catalog: Seq<SessionView>,
    replies: Seq<ResponseView>,
)
    requires
        replies.len() > 0,
        replies[0] is Error,
        replies[0]->error_type == ErrorType::AuthError,
    ensures
        transcript(username, password, session, catalog, replies).sent == seq![
            RequestView::CreateSession { username },
            RequestView::CancelSession,
        ],
        transcript(username, password, session, catalog, replies).outcome == Some(
            Ok::<LoginResultView, LoginErrorView>(LoginResultView::Failure(wrong_credentials())),
        ),
        cancellations(transcript(username, password, session, catalog, replies).sent) == 1,
{
    reveal_with_fuel(carry_on, 3);
    let whole = transcript(username, password, session, catalog, replies);
    assert(whole.sent =~= seq![
        RequestView::CreateSession { username },
        RequestView::CancelSession,
    ]);
    lemma_cancels_at_most_once(username, password, session, catalog, replies);
}

/// Whether an attempt has not yet come to starting a session: it is still
/// before the daemon's verdict, or waits for the catalog, or is over without
/// the session started.
pub open spec fn unstarted(state: LoginStateView, action: LoginActionView) -> bool {
    match action {
        LoginActionView::Send(request) => state is SessionCreated && !(request is StartSession),
        LoginActionView::ListSessions => state is Authenticated,
        LoginActionView::Finish { last, outcome } => !succeeded(Some(outcome)) && !(last is Some
            && last->0 is StartSession),
    }
}

/// With an empty catalog an attempt that has not come to starting a session
/// never does.
proof fn lemma_carry_on_without_sessions(
    state: LoginStateView,
    action: LoginActionView,
    replies: Seq<ResponseView>,
)
    requires
        unstarted(state, action),
    ensures
        starts(carry_on(state, action, Seq::empty(), replies).sent) == 0,
        !succeeded(carry_on(state, action, Seq::empty(), replies).outcome),
    decreases replies.len(), (if action is ListSessions { 1nat } else { 0nat }),
{
    let pred = |request: RequestView| request is StartSession;
    let catalog = Seq::<SessionView>::empty();
    match action {
        LoginActionView::Send(request) => {
            if replies.len() == 0 {
                lemma_count_one(request, Seq::empty(), pred);
            } else {
                let after = next(state, LoginEventView::Reply(replies[0]));
                lemma_carry_on_without_sessions(after.0, after.1, replies.drop_first());
                lemma_count_one(
                    request,
                    carry_on(after.0, after.1, catalog, replies.drop_first()).sent,
                    pred,
                );
            }
        },
        LoginActionView::ListSessions => {
            let after = next(state, LoginEventView::Sessions(catalog));
            lemma_carry_on_without_sessions(after.0, after.1, replies);
        },
        LoginActionView::Finish { last, outcome } => {
            lemma_count_one(RequestView::CancelSession, Seq::empty(), pred);
            if last is Some {
                lemma_count_one(last->0, Seq::empty(), pred);
            }
        },
    }
}

/// With an empty catalog no attempt asks the daemon to start a session, and
/// none ends with the session started.
pub proof fn lemma_no_start_without_sessions(
    username: Seq<char>,
    password: Seq<char>,
    session: Option<Seq<char>>,
    replies: Seq<ResponseView>,
)
    ensures
        starts(transcript(username, password, session, Seq::empty(), replies).sent) == 0,
        !succeeded(transcript(username, password, session, Seq::empty(), replies).outcome),
{
    lemma_carry_on_without_sessions(
        LoginStateView::SessionCreated { password, session },
        LoginActionView::Send(RequestView::CreateSession { username }),
        replies,
    );
}

/// While the daemon sends nothing but authentication messages, an attempt
/// that waits for its word on the credentials replies to each and waits on.
proof fn lemma_carry_on_questions(
    password: Seq<char>,
    session: Option<Seq<char>>,
    request: RequestView,
    catalog: Seq<SessionView>,
    replies: Seq<ResponseView>,
)
    requires
        forall|j: int| 0 <= j < replies.len() ==> replies[j] is AuthMessage,
    ensures
        carry_on(
            LoginStateView::SessionCreated { password, session },
            LoginActionView::Send(request),
            catalog,
            replies,
        ).outcome is None,
        carry_on(
            LoginStateView::SessionCreated { password, session },
            LoginActionView::Send(request),
            catalog,
            replies,
        ).sent.len() == replies.len() + 1,
    decreases replies.len(),
{
    if replies.len() > 0 {
        let rest = replies.drop_first();
        assert(replies[0] is AuthMessage);
        assert forall|j: int| 0 <= j < rest.len() implies rest[j] is AuthMessage by {
            assert(rest[j] == replies[j + 1]);
        }
        lemma_carry_on_questions(
            password,
            session,
            answer(replies[0]->auth_message_type, password),
            catalog,
            rest,
        );
    }
}

/// No end but the daemon's: however many authentication messages the daemon
/// sends, the attempt answers each and goes on; it has no outcome until the
/// daemon says `Success` or `Error`.
pub proof fn lemma_questions_never_end_an_attempt(
    username: Seq<char>,
    password: Seq<char>,
    session: Option<Seq<char>>,
    catalog: Seq<SessionView>,
    replies: Seq<ResponseView>,
)
    requires
        forall|j: int| 0 <= j < replies.len() ==> replies[j] is AuthMessage,
    ensures
        transcript(username, password, session, catalog, replies).outcome is None,
        transcript(username, password, session, catalog, replies).sent.len() == replies.len() + 1,
{
    lemma_carry_on_questions(
        password,
        session,
        RequestView::CreateSession { username },
        catalog,
        replies,
    );
}

/// Whether the daemon accepts the credentials with its reply number `at`:
/// that reply is `Success`, and all before it are authentication messages.
pub open spec fn accepted_at(replies: Seq<ResponseView>, at: int) -> bool {
    &&& 0 <= at < replies.len()
    &&& replies[at] is Success
    &&& forall|j: int| 0 <= j < at ==> replies[j] is AuthMessage
}

/// With an empty catalog, an attempt whose credentials the daemon accepts is
/// broken off for want of sessions from the state before the verdict on.
proof fn lemma_carry_on_accepted_without_sessions(
    password: Seq<char>,
    session: Option<Seq<char>>,
    request: RequestView,
    replies: Seq<ResponseView>,
    at: int,
)
    requires
        accepted_at(replies, at),
    ensures
        carry_on(
            LoginStateView::SessionCreated { password, session },
            LoginActionView::Send(request),
            Seq::empty(),
            replies,
        ).outcome == Some(Err::<LoginResultView, LoginErrorView>(LoginErrorView::NoSessions)),
    decreases at,
{
    reveal_with_fuel(carry_on, 3);
    if at > 0 {
        let rest = replies.drop_first();
        assert(accepted_at(rest, at - 1)) by {
            assert forall|j: int| 0 <= j < at - 1 implies rest[j] is AuthMessage by {
                assert(rest[j] == replies[j + 1]);
            }
        }
        assert(replies[0] is AuthMessage);
        lemma_carry_on_accepted_without_sessions(
            password,
            session,
            answer(replies[0]->auth_message_type, password),
            rest,
            at - 1,
        );
    }
}

/// An empty catalog: where the daemon accepts the credentials and the
/// catalog holds no session, the attempt is broken off for want of sessions.
/// That is no verdict, so it cannot be taken for rejected credentials; no
/// request to start a session is sent, and nothing is cancelled.
pub proof fn lemma_accepted_without_sessions(
    username: Seq<char>,
    password: Seq<char>,
    session: Option<Seq<char>>,
    replies: Seq<ResponseView>,
    at: int,
)
    requires
        accepted_at(replies, at),
    ensures
        transcript(username, password, session, Seq::empty(), replies).outcome == Some(
            Err::<LoginResultView, LoginErrorView>(LoginErrorView::NoSessions),
        ),
        starts(transcript(username, password, session, Seq::empty(), replies).sent) == 0,
        cancellations(transcript(username, password, session, Seq::empty(), replies).sent) == 0,
{
    lemma_carry_on_accepted_without_sessions(
        password,
        session,
        RequestView::CreateSession { username },
        replies,
        at,
    );
    lemma_no_start_without_sessions(username, password, session, replies);
    lemma_cancels_at_most_once(username, password, session, Seq::empty(), replies);
}

/// A login that goes through: where the daemon asks one question, accepts
/// the answer and confirms the start, and the catalog is not empty, the
/// attempt announces the user, answers with the password, asks for the
/// selected session with its command and environment, and ends with the
/// session started.
pub proof fn lemma_accepted_login(
    username: Seq<char>,
    password: Seq<char>,
    session: Option<Seq<char>>,
    catalog: Seq<SessionView>,
    question: Seq<char>,
)
    requires
        catalog.len() > 0,
    ensures
        selected(catalog, session) is Some,
        transcript(
            username,
            password,
            session,
            catalog,
            seq![
                ResponseView::AuthMessage {
                    auth_message_type: AuthMessageType::Secret,
                    auth_message: question,
                },
                ResponseView::Success,
                ResponseView::Success,
            ],
        ) == (Transcript {
            sent: seq![
                RequestView::CreateSession { username },
                RequestView::PostAuthMessageResponse { response: Some(password) },
                start_request(selected(catalog, session)->0),
            ],
            outcome: Some(Ok(LoginResultView::Success)),
        }),
{
    reveal_with_fuel(carry_on, 6);
    let replies = seq![
        ResponseView::AuthMessage {
            auth_message_type: AuthMessageType::Secret,
            auth_message: question,
        },
        ResponseView::Success,
        ResponseView::Success,
    ];
    let whole = transcript(username, password, session, catalog, replies);
    let rest1 = replies.drop_first();
    let rest2 = rest1.drop_first();
    let rest3 = rest2.drop_first();
    assert(rest1[0] is Success);
    assert(rest2[0] is Success);
    assert(rest3.len() == 0);
    assert(whole.sent =~= seq![
        RequestView::CreateSession { username },
        RequestView::PostAuthMessageResponse { response: Some(password) },
        start_request(selected(catalog, session)->0),
    ]);
}

} // verus!
