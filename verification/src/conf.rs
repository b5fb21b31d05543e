//! The greeter's settings, all together.
use crate::contest_api::{ApiPollerConfig, ApiPollerConfigView};
use crate::greeter::GreeterConfig;
use crate::ui::config::{UiConfig, UiConfigView};
use vstd::prelude::*;

verus! {

/// The greeter's settings.
#[derive(Debug)]
pub struct Conf {
    /// How much is logged: `info`, `debug` and the like.
    pub log_level: String,
    /// Settings of what the greeter shows.
    pub ui: UiConfig,
    /// Settings of the part that talks to the display manager.
    pub greeter: GreeterConfig,
    /// Settings for asking the contest's service.
    pub api_poller: ApiPollerConfig,
}

/// What a [`Conf`] holds, as texts.
pub struct ConfView {
    pub log_level: Seq<char>,
    pub ui: UiConfigView,
    pub greeter: Option<Seq<char>>,
    pub api_poller: ApiPollerConfigView,
}

impl View for Conf {
    type V = ConfView;

    open spec fn view(&self) -> ConfView {
        ConfView {
            log_level: self.log_level@,
            ui: self.ui@,
            greeter: self.greeter@,
            api_poller: self.api_poller@,
        }
    }
}

/// How much is logged where the settings do not say.
pub fn default_log_level() -> (r: String)
    ensures
        r@ == "info"@,
{
    String::from_str("info")
}

impl Default for Conf {
    fn default() -> (r: Self)
        ensures
            r@ == (ConfView {
                log_level: "info"@,
                ui: UiConfigView {
                    chain: "chain"@,
                    background_source: None,
                    countdown_end_time: None,
                    countdown_from: Some(10u64),
                    countdown_end_login: true,
                    countdown_label_color: "white"@,
                },
                greeter: None,
                api_poller: ApiPollerConfigView { interval: 3, url: None },
            }),
    {
        Self {
            log_level: default_log_level(),
            ui: UiConfig::default(),
            greeter: GreeterConfig::default(),
            api_poller: ApiPollerConfig::default(),
        }
    }
}

impl Clone for Conf {
    fn clone(&self) -> (r: Self)
        ensures
            r@ == self@,
    {
        Self {
            log_level: self.log_level.clone(),
            ui: self.ui.clone(),
            greeter: self.greeter.clone(),
            api_poller: self.api_poller.clone(),
        }
    }
}

} // verus!
