use contest_greeter::bus::{CoreName, Registry};
use contest_greeter::conf::{default_log_level, Conf};
use contest_greeter::contest_api::{default_interval, start_signal, ApiPollerConfig};
use contest_greeter::dbus_service::{GreeterService, GreeterServiceBackend};
use contest_greeter::greeter::lightdm::{
    answers_prompt, check_text, handle_status, GreeterError, MessageType, PromptType,
};
use contest_greeter::greeter::{on_authentication_complete, on_show_message, GreeterConfig};
use contest_greeter::ipc::greeter_client::GreeterClientMessage;
use contest_greeter::messages::{Addressed, GreeterMessage, UiMessage};
use contest_greeter::subscriptions::api_poller::{
    ApiPoller, ApiPollerMessage, ApiPollerTask, POLL_SECONDS,
};
use contest_greeter::subscriptions::dbus::DbusMessage;
use contest_greeter::subscriptions::key_listener::KeyListenerMessage;
use contest_greeter::ui::background::{
    extension_of, has_image_name, image_extension, image_source, starts_with, ImageSource,
};
use contest_greeter::ui::config::{
    default_chain, default_count_end_login, default_count_from, default_countdown_label_color,
    UiConfig,
};
use contest_greeter::ui::countdown::{CountdownFace, CountdownLabel, CountdownState};
use contest_greeter::ui::form::FormMessage;
use contest_greeter::ui::router::{route, BackgroundMessage, CountdownMessage, Message, Route};
use std::sync::Mutex;

#[test]
fn the_poller_asks_at_once_and_then_every_minute() {
    let (_, first) = ApiPoller::new(Some("http://contest/api".to_string()));
    assert_eq!(first, ApiPollerTask::Done(ApiPollerMessage::FetchStartTime));
    assert_eq!(POLL_SECONDS, 60);
}

#[test]
fn the_poller_asks_only_where_it_knows_the_address() {
    let (mut with, _) = ApiPoller::new(Some("http://contest/api".to_string()));
    assert_eq!(
        with.update(ApiPollerMessage::FetchStartTime),
        ApiPollerTask::Fetch("http://contest/api".to_string())
    );
    let (mut without, _) = ApiPoller::new(None);
    assert_eq!(without.update(ApiPollerMessage::FetchStartTime), ApiPollerTask::Idle);
}

#[test]
fn the_poller_takes_a_new_address() {
    let (mut poller, _) = ApiPoller::new(None);
    assert_eq!(
        poller.update(ApiPollerMessage::SetUrl(Some("http://other".to_string()))),
        ApiPollerTask::Idle
    );
    assert_eq!(
        poller.update(ApiPollerMessage::FetchStartTime),
        ApiPollerTask::Fetch("http://other".to_string())
    );
    assert_eq!(poller.update(ApiPollerMessage::SetUrl(None)), ApiPollerTask::Idle);
    assert_eq!(poller.update(ApiPollerMessage::FetchStartTime), ApiPollerTask::Idle);
}

#[test]
fn a_fetched_start_time_is_made_known_and_a_failure_is_let_go() {
    let (mut poller, _) = ApiPoller::new(Some("http://contest/api".to_string()));
    assert_eq!(
        poller.update(ApiPollerMessage::StartTimeFetched(Ok(1_700_000_000_000))),
        ApiPollerTask::Done(ApiPollerMessage::SetStartime(1_700_000_000_000))
    );
    assert_eq!(
        poller.update(ApiPollerMessage::StartTimeFetched(Err("timeout".to_string()))),
        ApiPollerTask::Idle
    );
    assert_eq!(poller.update(ApiPollerMessage::SetStartime(5)), ApiPollerTask::Idle);
    assert_eq!(
        poller.update(ApiPollerMessage::FetchStartTime),
        ApiPollerTask::Fetch("http://contest/api".to_string())
    );
}

#[test]
fn poller_settings_by_default() {
    assert_eq!(default_interval(), 3);
    let conf = ApiPollerConfig::default();
    assert_eq!(conf.poll_seconds(), 3);
    assert_eq!(conf.url(), None);
    let copy = conf.clone();
    assert_eq!(copy.poll_seconds(), 3);
}

#[test]
fn a_negative_interval_counts_as_none() {
    assert_eq!(ApiPollerConfig::new(-5, None).poll_seconds(), 0);
    assert_eq!(ApiPollerConfig::new(0, None).poll_seconds(), 0);
    assert_eq!(ApiPollerConfig::new(i64::MIN, None).poll_seconds(), 0);
    assert_eq!(ApiPollerConfig::new(i64::MAX, None).poll_seconds(), i64::MAX as u64);
    assert_eq!(
        ApiPollerConfig::new(7, Some("http://x".to_string())).url(),
        Some("http://x".to_string())
    );
}

#[test]
fn a_start_in_the_past_logs_in_and_any_other_is_counted_down_to() {
    let login = start_signal(999, 1000, "team1", "hunter2");
    assert_eq!(
        login,
        Addressed::ToGreeter(GreeterMessage::Login("team1".to_string(), "hunter2".to_string()))
    );
    assert_eq!(login.target(), CoreName::Greeter);
    let wait = start_signal(1000, 1000, "team1", "hunter2");
    assert_eq!(wait, Addressed::ToUi(UiMessage::SetCountdownEndtime { end_time: Some(1000) }));
    assert_eq!(wait.target(), CoreName::UI);
    assert_eq!(
        start_signal(1001, 1000, "", ""),
        Addressed::ToUi(UiMessage::SetCountdownEndtime { end_time: Some(1001) })
    );
}

struct Recorder {
    calls: Mutex<Vec<String>>,
}

impl GreeterServiceBackend for Recorder {
    fn set_wallpaper_source(&self, url: String) {
        self.calls.lock().unwrap().push(format!("wallpaper {}", url));
    }

    fn set_api_poller_url(&self, url: String) {
        self.calls.lock().unwrap().push(format!("api {}", url));
    }

    fn login(&self) {
        self.calls.lock().unwrap().push("login".to_string());
    }
}

#[test]
fn the_control_service_keeps_its_backend_at_hand() {
    let service = GreeterService::new(Recorder { calls: Mutex::new(Vec::new()) });
    service.get_backend().set_wallpaper_source("/img/a.png".to_string());
    service.get_backend().login();
    service.get_backend().set_api_poller_url("http://contest".to_string());
    assert_eq!(
        *service.get_backend().calls.lock().unwrap(),
        vec![
            "wallpaper /img/a.png".to_string(),
            "login".to_string(),
            "api http://contest".to_string()
        ]
    );
}

#[test]
fn settings_by_default() {
    assert_eq!(default_log_level(), "info");
    assert_eq!(default_chain(), "chain");
    assert!(default_count_end_login());
    assert_eq!(default_count_from(), Some(10));
    assert_eq!(default_countdown_label_color(), "white");
    let ui = UiConfig::default();
    assert_eq!(ui.chain, "chain");
    assert_eq!(ui.background_source, None);
    assert_eq!(ui.countdown_end_time, None);
    assert_eq!(ui.countdown_from, Some(10));
    assert!(ui.countdown_end_login);
    assert_eq!(ui.countdown_label_color, "white");
    let conf = Conf::default();
    assert_eq!(conf.log_level, "info");
    assert_eq!(conf.ui.chain, "chain");
    assert_eq!(conf.greeter.session(), None);
    assert_eq!(conf.api_poller.poll_seconds(), 3);
    let copy = conf.clone();
    assert_eq!(copy.log_level, "info");
    assert_eq!(copy.ui.countdown_from, Some(10));
    assert_eq!(GreeterConfig::new(Some("Sway".to_string())).clone().session(), Some("Sway".to_string()));
}

fn face(connected: bool, label: CountdownLabel, login: bool) -> CountdownFace {
    CountdownFace { connected, label, login }
}

#[test]
fn a_countdown_without_start_time_shows_nothing() {
    let mut state = CountdownState::new(None, Some(10), true);
    assert_eq!(state.tick(0), face(false, CountdownLabel::Blank, false));
    assert_eq!(state.start_delay_ms(0), None);
}

#[test]
fn the_countdown_shows_once_few_enough_seconds_remain() {
    let mut state = CountdownState::new(Some(100_000), Some(10), true);
    assert_eq!(state.tick(0), face(true, CountdownLabel::Blank, false));
    assert_eq!(state.tick(89_000), face(true, CountdownLabel::Blank, false));
    assert_eq!(state.tick(89_001), face(true, CountdownLabel::Seconds(10), false));
    assert_eq!(state.tick(90_000), face(true, CountdownLabel::Seconds(10), false));
    assert_eq!(state.tick(98_999), face(true, CountdownLabel::Seconds(1), false));
    assert_eq!(state.tick(99_000), face(true, CountdownLabel::Seconds(1), false));
}

#[test]
fn the_end_of_the_countdown_logs_in_once() {
    let mut state = CountdownState::new(Some(100_000), Some(10), true);
    assert_eq!(state.tick(99_001), face(true, CountdownLabel::Starting, true));
    assert!(state.triggered);
    assert_eq!(state.tick(100_000), face(true, CountdownLabel::Starting, false));
    assert_eq!(state.tick(250_000), face(true, CountdownLabel::Starting, false));
}

#[test]
fn a_new_start_time_may_log_in_again_and_none_changes_nothing() {
    let mut state = CountdownState::new(Some(1000), None, true);
    assert!(state.tick(2000).login);
    state.update_endtime(None);
    assert!(state.triggered);
    assert_eq!(state.end_time, Some(1000));
    state.update_endtime(Some(5000));
    assert!(!state.triggered);
    assert_eq!(state.end_time, Some(5000));
    assert_eq!(state.tick(2500), face(true, CountdownLabel::Seconds(2), false));
    assert_eq!(state.tick(6000), face(true, CountdownLabel::Starting, true));
}

#[test]
fn a_countdown_that_is_not_to_log_in_never_says_so() {
    let mut state = CountdownState::new(Some(1000), None, false);
    assert_eq!(state.tick(2000), face(true, CountdownLabel::Starting, false));
    assert!(!state.triggered);
}

#[test]
fn a_countdown_without_threshold_always_shows() {
    let mut state = CountdownState::new(Some(3_600_000), None, true);
    assert_eq!(state.tick(0), face(true, CountdownLabel::Seconds(3600), false));
}

#[test]
fn the_countdown_at_the_ends_of_time() {
    let mut state = CountdownState::new(Some(i64::MAX), None, true);
    assert_eq!(
        state.tick(i64::MIN),
        face(true, CountdownLabel::Seconds(18_446_744_073_709_551), false)
    );
    let mut early = CountdownState::new(Some(i64::MIN), Some(0), true);
    assert_eq!(early.tick(i64::MAX), face(true, CountdownLabel::Starting, true));
    assert_eq!(
        CountdownState::new(Some(i64::MAX), None, true).start_delay_ms(i64::MIN),
        Some(u64::MAX)
    );
    assert_eq!(
        CountdownState::new(Some(i64::MAX), Some(u64::MAX), true).start_delay_ms(i64::MIN),
        Some(0)
    );
}

#[test]
fn the_countdown_begins_to_show_after_the_delay() {
    let state = CountdownState::new(Some(100_000), Some(10), true);
    assert_eq!(state.start_delay_ms(0), Some(90_000));
    assert_eq!(state.start_delay_ms(90_000), Some(0));
    assert_eq!(state.start_delay_ms(95_000), Some(0));
    assert_eq!(CountdownState::new(Some(100_000), None, true).start_delay_ms(40_000), Some(60_000));
}

#[test]
fn a_web_address_is_fetched_from_a_server() {
    assert_eq!(image_source("http://example.org/a.png"), ImageSource::Remote);
    assert_eq!(image_source("https://example.org/a.png"), ImageSource::Remote);
    assert_eq!(image_source("/usr/share/backgrounds/a.png"), ImageSource::Local);
    assert_eq!(image_source("ftp://example.org/a.png"), ImageSource::Local);
    assert_eq!(image_source("http:/"), ImageSource::Local);
    assert_eq!(image_source("HTTP://example.org"), ImageSource::Local);
    assert_eq!(image_source(""), ImageSource::Local);
    assert!(starts_with("abc", ""));
    assert!(starts_with("abc", "abc"));
    assert!(!starts_with("ab", "abc"));
}

#[test]
fn an_image_is_known_by_its_extension_whatever_its_case() {
    assert!(has_image_name("/img/a.png"));
    assert!(has_image_name("/img/a.PNG"));
    assert!(has_image_name("a.JpEg"));
    assert!(has_image_name("a.jpg"));
    assert!(has_image_name("dir.d/a.b.webp"));
    assert!(!has_image_name("a.gif"));
    assert!(!has_image_name("png"));
    assert!(!has_image_name(".png"));
    assert!(!has_image_name("a.png/"));
    assert!(!has_image_name("a.png.txt"));
    assert!(!has_image_name("a."));
    assert!(!has_image_name(""));
    assert!(image_extension("webp"));
    assert!(!image_extension("PNG"));
    assert!(!image_extension(""));
}

#[test]
fn the_extension_follows_the_last_dot() {
    assert_eq!(extension_of("/a/b.tar.gz"), Some("gz".to_string()));
    assert_eq!(extension_of("b."), Some("".to_string()));
    assert_eq!(extension_of(".hidden"), None);
    assert_eq!(extension_of(".."), None);
    assert_eq!(extension_of("a.d/b"), None);
    assert_eq!(extension_of(".a.b"), Some("b".to_string()));
}

#[test]
fn the_register_knows_who_registered() {
    let mut registry: Registry<&str> = Registry::new();
    assert_eq!(registry.route(CoreName::UI), None);
    assert!(!registry.register(CoreName::UI, "screen"));
    assert_eq!(registry.route(CoreName::UI), Some(&"screen"));
    assert_eq!(registry.route(CoreName::Greeter), None);
    assert!(registry.register(CoreName::UI, "other screen"));
    assert_eq!(registry.route(CoreName::UI), Some(&"other screen"));
    assert!(!registry.register(CoreName::Greeter, "daemon"));
    assert_eq!(registry.route(CoreName::Greeter), Some(&"daemon"));
    assert_eq!(registry.route(CoreName::UI), Some(&"other screen"));
}

#[test]
fn an_error_of_the_display_manager_is_shown_and_a_notice_is_not() {
    assert_eq!(
        on_show_message("account locked", MessageType::Error),
        Some(UiMessage::SetError("account locked".to_string()))
    );
    assert_eq!(on_show_message("welcome", MessageType::Info), None);
}

#[test]
fn the_end_of_an_authentication() {
    let conf = GreeterConfig::new(Some("Sway".to_string()));
    let started = on_authentication_complete(true, &conf);
    assert_eq!(
        started,
        Addressed::ToGreeter(GreeterMessage::StartSession(Some("Sway".to_string())))
    );
    assert_eq!(started.target(), CoreName::Greeter);
    let failed = on_authentication_complete(false, &conf);
    assert_eq!(failed, Addressed::ToUi(UiMessage::SetError("Authentication failed".to_string())));
    assert_eq!(failed.target(), CoreName::UI);
    assert_eq!(
        on_authentication_complete(true, &GreeterConfig::default()),
        Addressed::ToGreeter(GreeterMessage::StartSession(None))
    );
}

#[test]
fn only_a_secret_prompt_gets_the_password() {
    assert!(answers_prompt(PromptType::Secret));
    assert!(!answers_prompt(PromptType::Question));
}

#[test]
fn the_status_of_an_operation() {
    assert_eq!(handle_status(1, None, "authenticate"), Ok(()));
    assert_eq!(handle_status(-1, Some("ignored"), "authenticate"), Ok(()));
    assert_eq!(
        handle_status(0, Some("no such user"), "authenticate"),
        Err(GreeterError("authenticate failed: no such user".to_string()))
    );
    assert_eq!(
        handle_status(0, None, "start_session_sync"),
        Err(GreeterError("start_session_sync failed (no GError)".to_string()))
    );
    assert_eq!(
        GreeterError("respond failed (no GError)".to_string()).to_text(),
        "GreeterError: respond failed (no GError)"
    );
}

#[test]
fn a_text_with_a_nul_cannot_be_handed_over() {
    assert_eq!(check_text("alice", "username"), Ok(()));
    assert_eq!(check_text("", "session"), Ok(()));
    assert_eq!(
        check_text("al\0ice", "username"),
        Err(GreeterError("username contained a NUL byte".to_string()))
    );
    assert_eq!(
        check_text("\0", "response"),
        Err(GreeterError("response contained a NUL byte".to_string()))
    );
}

#[test]
fn messages_that_are_turned_into_others() {
    assert_eq!(
        route(Message::Form(FormMessage::LoginWithCredentials(
            "alice".to_string(),
            "secret".to_string()
        ))),
        Route::Forward(Message::GreeterClient(GreeterClientMessage::LoginWithCredentials(
            "alice".to_string(),
            "secret".to_string()
        )))
    );
    assert_eq!(
        route(Message::KeyListener(KeyListenerMessage::ChainTriggered)),
        Route::Forward(Message::Form(FormMessage::ToggleVisible))
    );
    assert_eq!(
        route(Message::GreeterClient(GreeterClientMessage::LoginError("no".to_string()))),
        Route::Forward(Message::Form(FormMessage::SetError("no".to_string())))
    );
    assert_eq!(
        route(Message::ApiPoller(ApiPollerMessage::SetStartime(42))),
        Route::Forward(Message::Countdown(CountdownMessage::SetStartTime(42)))
    );
    assert_eq!(
        route(Message::Countdown(CountdownMessage::Start)),
        Route::Forward(Message::GreeterClient(GreeterClientMessage::Login))
    );
    assert_eq!(
        route(Message::Dbus(DbusMessage::SetWallpaper("/a.png".to_string()))),
        Route::Forward(Message::Background(BackgroundMessage::SetSource(Some(
            "/a.png".to_string()
        ))))
    );
    assert_eq!(
        route(Message::Dbus(DbusMessage::Login)),
        Route::Forward(Message::GreeterClient(GreeterClientMessage::Login))
    );
    assert_eq!(
        route(Message::Dbus(DbusMessage::SetApiUrl("http://c".to_string()))),
        Route::Forward(Message::ApiPoller(ApiPollerMessage::SetUrl(Some("http://c".to_string()))))
    );
    assert_eq!(DbusMessage::SetApiUrl("u".to_string()).clone(), DbusMessage::SetApiUrl("u".to_string()));
}

#[test]
fn messages_that_go_to_the_part_they_name() {
    let plain = vec![
        Message::Form(FormMessage::Login),
        Message::Form(FormMessage::ToggleVisible),
        Message::KeyListener(KeyListenerMessage::Key('a')),
        Message::GreeterClient(GreeterClientMessage::Login),
        Message::ApiPoller(ApiPollerMessage::FetchStartTime),
        Message::Countdown(CountdownMessage::SetStartTime(1)),
        Message::Background(BackgroundMessage::SetSource(None)),
    ];
    for message in plain {
        let twin = match &message {
            Message::Form(FormMessage::Login) => Message::Form(FormMessage::Login),
            Message::Form(_) => Message::Form(FormMessage::ToggleVisible),
            Message::KeyListener(m) => Message::KeyListener(*m),
            Message::GreeterClient(_) => Message::GreeterClient(GreeterClientMessage::Login),
            Message::ApiPoller(_) => Message::ApiPoller(ApiPollerMessage::FetchStartTime),
            Message::Countdown(m) => Message::Countdown(*m),
            Message::Background(_) => Message::Background(BackgroundMessage::SetSource(None)),
            Message::Dbus(_) => unreachable!(),
        };
        assert_eq!(route(message), Route::Deliver(twin));
    }
}
