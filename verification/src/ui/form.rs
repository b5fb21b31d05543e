//! The login form: what the user has typed, whether the form shows, and
//! what a message does to it.
use vstd::prelude::*;

verus! {

/// What the form is told.
#[derive(Debug, PartialEq, Eq)]
pub enum FormMessage {
    /// The user name field now reads this.
    UsernameChanged(String),
    /// The password field now reads this.
    PasswordChanged(String),
    /// The user asks to log in with what the fields read.
    Login,
    /// Log in with these credentials: user name, password.
    LoginWithCredentials(String, String),
    /// Show the form if it is hidden, hide it if it shows.
    ToggleVisible,
    /// Put the cursor into the user name field.
    FocusUsername,
    /// Put the cursor into the password field.
    FocusPassword,
    /// A login failed; show why.
    SetError(String),
}

/// What a [`FormMessage`] holds, as texts.
pub enum FormMessageView {
    UsernameChanged(Seq<char>),
    PasswordChanged(Seq<char>),
    Login,
    LoginWithCredentials(Seq<char>, Seq<char>),
    ToggleVisible,
    FocusUsername,
    FocusPassword,
    SetError(Seq<char>),
}

impl View for FormMessage {
    type V = FormMessageView;

    open spec fn view(&self) -> FormMessageView {
        match self {
            FormMessage::UsernameChanged(text) => FormMessageView::UsernameChanged(text@),
            FormMessage::PasswordChanged(text) => FormMessageView::PasswordChanged(text@),
            FormMessage::Login => FormMessageView::Login,
            FormMessage::LoginWithCredentials(username, password) => {
                FormMessageView::LoginWithCredentials(username@, password@)
            },
            FormMessage::ToggleVisible => FormMessageView::ToggleVisible,
            FormMessage::FocusUsername => FormMessageView::FocusUsername,
            FormMessage::FocusPassword => FormMessageView::FocusPassword,
            FormMessage::SetError(text) => FormMessageView::SetError(text@),
        }
    }
}

/// A field of the form.
#[derive(Debug, Clone, Copy, PartialEq, Eq)]
pub enum Field {
    Username,
    Password,
}

/// What the form wants done after a message.
#[derive(Debug, PartialEq, Eq)]
pub enum FormTask {
    /// Nothing.
    Idle,
    /// Hand the form's surroundings this message at once.
    Done(FormMessage),
    /// Put the cursor into this field.
    Focus(Field),
}

/// What a [`FormTask`] holds, as texts.
pub enum FormTaskView {
    Idle,
    Done(FormMessageView),
    Focus(Field),
}

impl View for FormTask {
    type V = FormTaskView;

    open spec fn view(&self) -> FormTaskView {
        match self {
            FormTask::Idle => FormTaskView::Idle,
            FormTask::Done(message) => FormTaskView::Done(message@),
            FormTask::Focus(field) => FormTaskView::Focus(*field),
        }
    }
}

/// The login form.
#[derive(Debug)]
pub struct Form {
    username: String,
    password: String,
    error: Option<String>,
    visible: bool,
    is_logging_in: bool,
}

/// What a [`Form`] holds, as texts.
pub struct FormView {
    pub username: Seq<char>,
    pub password: Seq<char>,
    pub error: Option<Seq<char>>,
    pub visible: bool,
    pub is_logging_in: bool,
}

impl View for Form {
    type V = FormView;

    closed spec fn view(&self) -> FormView {
        FormView {
            username: self.username@,
            password: self.password@,
            error: self.error.deep_view(),
            visible: self.visible,
            is_logging_in: self.is_logging_in,
        }
    }
}

/// What the user is told who asks to log in without a user name.
pub open spec fn username_missing() -> Seq<char> {
    "Username can not be empty"@
}

/// What the user is told who asks to log in without a password.
pub open spec fn password_missing() -> Seq<char> {
    "Password can not be empty"@
}

/// The form after a message. An empty field turns a login down with a
/// word on which; a login that goes ahead clears the error and marks the
/// form busy until an error comes back.
pub open spec fn form_after(form: FormView, message: FormMessageView) -> FormView {
    match message {
        FormMessageView::UsernameChanged(text) => FormView { username: text, ..form },
        FormMessageView::PasswordChanged(text) => FormView { password: text, ..form },
        FormMessageView::Login => if form.username.len() == 0 {
            FormView { error: Some(username_missing()), ..form }
        } else if form.password.len() == 0 {
            FormView { error: Some(password_missing()), ..form }
        } else {
            FormView { error: None, is_logging_in: true, ..form }
        },
        FormMessageView::ToggleVisible => FormView { visible: !form.visible, ..form },
        FormMessageView::SetError(text) => FormView {
            error: Some(text),
            is_logging_in: false,
            ..form
        },
        FormMessageView::LoginWithCredentials(_, _) => form,
        FormMessageView::FocusUsername => form,
        FormMessageView::FocusPassword => form,
    }
}

/// What the form wants done after a message: a login that goes ahead hands
/// on the credentials, a form that comes into view takes the cursor into
/// its first field, and a wish for the cursor is passed on.
pub open spec fn form_task(form: FormView, message: FormMessageView) -> FormTaskView {
    match message {
        FormMessageView::Login => if form.username.len() > 0 && form.password.len() > 0 {
            FormTaskView::Done(
                FormMessageView::LoginWithCredentials(form.username, form.password),
            )
        } else {
            FormTaskView::Idle
        },
        FormMessageView::ToggleVisible => if !form.visible {
            FormTaskView::Focus(Field::Username)
        } else {
            FormTaskView::Idle
        },
        FormMessageView::FocusUsername => FormTaskView::Focus(Field::Username),
        FormMessageView::FocusPassword => FormTaskView::Focus(Field::Password),
        _ => FormTaskView::Idle,
    }
}

/// A key that means something to the form.
#[derive(Debug, Clone, Copy, PartialEq, Eq)]
pub enum FormKey {
    Tab,
    Enter,
}

/// What a key pressed outside the fields tells the form: Enter asks to log
/// in, Tab moves the cursor to the password, with Shift to the user name.
pub fn key_message(key: FormKey, shift: bool) -> (r: FormMessage)
    ensures
        r@ == match key {
            FormKey::Enter => FormMessageView::Login,
            FormKey::Tab => if shift {
                FormMessageView::FocusUsername
            } else {
                FormMessageView::FocusPassword
            },
        },
{
    match key {
        FormKey::Enter => FormMessage::Login,
        FormKey::Tab => if shift {
            FormMessage::FocusUsername
        } else {
            FormMessage::FocusPassword
        },
    }
}

impl Form {
    /// An empty, hidden form.
    pub fn new() -> (r: Self)
        ensures
            r@ == (FormView {
                username: Seq::empty(),
                password: Seq::empty(),
                error: None,
                visible: false,
                is_logging_in: false,
            }),
    {
        Self {
            username: String::new(),
            password: String::new(),
            error: None,
            visible: false,
            is_logging_in: false,
        }
    }

    /// Takes a message and says what is to be done.
    pub fn update(&mut self, msg: FormMessage) -> (r: FormTask)
        ensures
            final(self)@ == form_after(old(self)@, msg@),
            r@ == form_task(old(self)@, msg@),
    {
        match msg {
            FormMessage::UsernameChanged(username) => {
                self.username = username;
                FormTask::Idle
            },
            FormMessage::PasswordChanged(password) => {
                self.password = password;
                FormTask::Idle
            },
            FormMessage::Login => {
                if self.username.as_str().is_empty() {
                    self.error = Some(String::from_str("Username can not be empty"));
                    return FormTask::Idle;
                }
                if self.password.as_str().is_empty() {
                    self.error = Some(String::from_str("Password can not be empty"));
                    return FormTask::Idle;
                }
                self.error = None;
                self.is_logging_in = true;
                FormTask::Done(
                    FormMessage::LoginWithCredentials(self.username.clone(), self.password.clone()),
                )
            },
            FormMessage::ToggleVisible => {
                self.visible = !self.visible;
                if self.visible {
                    FormTask::Focus(Field::Username)
                } else {
                    FormTask::Idle
                }
            },
            FormMessage::FocusPassword => FormTask::Focus(Field::Password),
            FormMessage::FocusUsername => FormTask::Focus(Field::Username),
            FormMessage::SetError(error) => {
                self.error = Some(error);
                self.is_logging_in = false;
                FormTask::Idle
            },
            FormMessage::LoginWithCredentials(_, _) => FormTask::Idle,
        }
    }

    /// Whether the form shows.
    pub fn is_visible(&self) -> (r: bool)
        ensures
            r == self@.visible,
    {
        self.visible
    }

    /// Whether a login may be asked for: not while one is under way.
    pub fn can_submit(&self) -> (r: bool)
        ensures
            r == !self@.is_logging_in,
    {
        !self.is_logging_in
    }

    /// The label of the login button.
    pub fn button_label(&self) -> (r: &'static str)
        ensures
            r@ == if self@.is_logging_in {
                "Logging in..."@
            } else {
                "Login"@
            },
    {
        if !self.is_logging_in {
            "Login"
        } else {
            "Logging in..."
        }
    }

    /// What the user name field reads.
    pub fn username(&self) -> (r: &str)
        ensures
            r@ == self@.username,
    {
        self.username.as_str()
    }

    /// What the password field reads.
    pub fn password(&self) -> (r: &str)
        ensures
            r@ == self@.password,
    {
        self.password.as_str()
    }

    /// The error to show, if there is one.
    pub fn error(&self) -> (r: Option<&str>)
        ensures
            r.deep_view() == self@.error,
    {
        match &self.error {
            Some(text) => Some(text.as_str()),
            None => None,
        }
    }
}

impl Clone for FormMessage {
    fn clone(&self) -> (r: Self)
        ensures
            r@ == self@,
    {
        match self {
            FormMessage::UsernameChanged(text) => FormMessage::UsernameChanged(text.clone()),
            FormMessage::PasswordChanged(text) => FormMessage::PasswordChanged(text.clone()),
            FormMessage::Login => FormMessage::Login,
            FormMessage::LoginWithCredentials(username, password) => {
                FormMessage::LoginWithCredentials(username.clone(), password.clone())
            },
            FormMessage::ToggleVisible => FormMessage::ToggleVisible,
            FormMessage::FocusUsername => FormMessage::FocusUsername,
            FormMessage::FocusPassword => FormMessage::FocusPassword,
            FormMessage::SetError(text) => FormMessage::SetError(text.clone()),
        }
    }
}

} // verus!
