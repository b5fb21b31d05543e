//! What a signalling display manager hands over, in the greeter's own terms.
use vstd::prelude::*;

verus! {

/// An operation of the display manager that failed, with what is known of
/// the failure.
#[derive(Debug, PartialEq, Eq)]
pub struct GreeterError(pub String);

impl View for GreeterError {
    type V = Seq<char>;

    open spec fn view(&self) -> Seq<char> {
        self.0@
    }
}

impl GreeterError {
    /// The error as a line of text.
    pub fn to_text(&self) -> (r: String)
        ensures
            r@ == "GreeterError: "@ + self@,
    {
        String::from_str("GreeterError: ").concat(self.0.as_str())
    }
}

/// What kind of answer a prompt asks for.
#[derive(Debug, Clone, Copy, PartialEq, Eq)]
pub enum PromptType {
    Question,
    Secret,
}

/// What kind of message the display manager shows.
#[derive(Debug, Clone, Copy, PartialEq, Eq)]
pub enum MessageType {
    Info,
    Error,
}

/// Whether a prompt is answered with the password: a secret prompt is, any
/// other is left alone.
pub fn answers_prompt(prompt_type: PromptType) -> (r: bool)
    ensures
        r == (prompt_type == PromptType::Secret),
{
    match prompt_type {
        PromptType::Secret => true,
        PromptType::Question => false,
    }
}

/// The text of the error for an operation that failed.
pub open spec fn failure_text(context: Seq<char>, reason: Option<Seq<char>>) -> Seq<char> {
    match reason {
        Some(reason) => context + " failed: "@ + reason,
        None => context + " failed (no GError)"@,
    }
}

/// What the status of an operation means: zero is failure, with the reason
/// the display manager gave, if it gave one; anything else is success.
pub fn handle_status(ok: i32, reason: Option<&str>, context: &str) -> (r: Result<(), GreeterError>)
    ensures
        match r {
            Ok(_) => ok != 0,
            Err(e) => ok == 0 && e@ == failure_text(context@, reason.deep_view()),
        },
{
    if ok == 0 {
        match reason {
            Some(reason) => Err(
                GreeterError(String::from_str(context).concat(" failed: ").concat(reason)),
            ),
            None => Err(GreeterError(String::from_str(context).concat(" failed (no GError)"))),
        }
    } else {
        Ok(())
    }
}

/// Makes sure that a text can be handed to the display manager, which takes
/// texts that end at the first NUL character: a text that holds one is
/// refused, and the error says what the text was meant to be.
pub fn check_text(text: &str, what: &str) -> (r: Result<(), GreeterError>)
    ensures
        match r {
            Ok(_) => !text@.contains('\0'),
            Err(e) => text@.contains('\0') && e@ == what@ + " contained a NUL byte"@,
        },
{
    let chars = crate::text::chars_of(text);
    let mut k: usize = 0;
    while k < chars.len()
        invariant
            k <= chars.len(),
            chars@ == text@,
            forall|j: int| 0 <= j < k ==> chars@[j] != '\0',
        decreases chars.len() - k,
    {
        if chars[k] == '\0' {
            assert(text@[k as int] == '\0');
            return Err(GreeterError(String::from_str(what).concat(" contained a NUL byte")));
        }
        k = k + 1;
    }
    Ok(())
}

} // verus!
