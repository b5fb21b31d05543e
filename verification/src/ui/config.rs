//! Settings of what the greeter shows.
use crate::text::clone_text;
use vstd::prelude::*;

verus! {

/// Settings of what the greeter shows. A time is a number of milliseconds
/// since the Unix epoch.
#[derive(Debug)]
pub struct UiConfig {
    /// Key sequence that shows or hides the login form.
    pub chain: String,
    /// File or address of the background image.
    pub background_source: Option<String>,
    /// When the contest starts.
    pub countdown_end_time: Option<i64>,
    /// The countdown shows once this many seconds remain, or always where
    /// none is set.
    pub countdown_from: Option<u64>,
    /// Whether to log in when the countdown ends.
    pub countdown_end_login: bool,
    /// Colour of the countdown, as a style sheet writes it.
    pub countdown_label_color: String,
}

/// What a [`UiConfig`] holds, as texts.
pub struct UiConfigView {
    pub chain: Seq<char>,
    pub background_source: Option<Seq<char>>,
    pub countdown_end_time: Option<i64>,
    pub countdown_from: Option<u64>,
    pub countdown_end_login: bool,
    pub countdown_label_color: Seq<char>,
}

impl View for UiConfig {
    type V = UiConfigView;

    open spec fn view(&self) -> UiConfigView {
        UiConfigView {
            chain: self.chain@,
            background_source: self.background_source.deep_view(),
            countdown_end_time: self.countdown_end_time,
            countdown_from: self.countdown_from,
            countdown_end_login: self.countdown_end_login,
            countdown_label_color: self.countdown_label_color@,
        }
    }
}

/// The key sequence where the settings name none.
pub fn default_chain() -> (r: String)
    ensures
        r@ == "chain"@,
{
    String::from_str("chain")
}

/// Whether the end of the countdown logs in where the settings do not say.
pub fn default_count_end_login() -> (r: bool)
    ensures
        r,
{
    true
}

/// From how many seconds on the countdown shows where the settings do not
/// say.
pub fn default_count_from() -> (r: Option<u64>)
    ensures
        r == Some(10u64),
{
    Some(10)
}

/// The colour of the countdown where the settings name none.
pub fn default_countdown_label_color() -> (r: String)
    ensures
        r@ == "white"@,
{
    String::from_str("white")
}

impl Default for UiConfig {
    fn default() -> (r: Self)
        ensures
            r@ == (UiConfigView {
                chain: "chain"@,
                background_source: None,
                countdown_end_time: None,
                countdown_from: Some(10u64),
                countdown_end_login: true,
                countdown_label_color: "white"@,
            }),
    {
        Self {
            chain: default_chain(),
            background_source: None,
            countdown_end_time: None,
            countdown_from: default_count_from(),
            countdown_end_login: default_count_end_login(),
            countdown_label_color: default_countdown_label_color(),
        }
    }
}

impl Clone for UiConfig {
    fn clone(&self) -> (r: Self)
        ensures
            r@ == self@,
    {
        Self {
            chain: self.chain.clone(),
            background_source: clone_text(&self.background_source),
            countdown_end_time: self.countdown_end_time,
            countdown_from: self.countdown_from,
            countdown_end_login: self.countdown_end_login,
            countdown_label_color: self.countdown_label_color.clone(),
        }
    }
}

} // verus!
