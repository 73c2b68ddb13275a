use esp32c3_embassy::boot_state::PersistedBootState;
use esp32c3_embassy::cycle::{
    Action, BootCycle, ClockError, Error, Event, Phase, WifiError, DEEP_SLEEP_SECONDS,
};
use esp32c3_embassy::telemetry::{Application, Host};

fn application() -> Application {
    Application::try_new("embedded-apm", Some("0.1.0"), None, "Rust", "1.75", "0.1.0", None, None, None)
        .unwrap()
}

fn host() -> Host {
    Host::try_new("esp32c3 - todo", None, None, None, None, None, None).unwrap()
}

fn start(p: PersistedBootState, ssid: &str) -> (BootCycle, Action) {
    BootCycle::start(p, ssid, "secret", "todo".to_string(), 1, application(), host())
}

fn is_sleep(a: &Action) -> bool {
    matches!(a, Action::Sleep(d) if *d == DEEP_SLEEP_SECONDS)
}

#[test]
fn cold_boot_state() {
    let p = PersistedBootState::cold();
    assert_eq!(p.load(), (0, None));
}

#[test]
fn boot_state_operations() {
    let mut p = PersistedBootState::cold();
    p.record_boot();
    p.update_clock(42);
    assert_eq!(p.load(), (1, Some(42)));
    let mut q = PersistedBootState { boot_count: u32::MAX, cached_time: None };
    q.record_boot();
    assert_eq!(q.boot_count, 0);
}

#[test]
fn network_path_full_cycle() {
    let (mut c, a) = start(PersistedBootState::cold(), "home");
    match a {
        Action::Connect(cred) => {
            assert_eq!(cred.ssid.as_str(), "home");
            assert_eq!(cred.password.as_str(), "secret");
        }
        _ => panic!("expected a connect"),
    }
    assert!(matches!(c.step(Event::Connected), Action::SyncClock));
    assert!(matches!(c.step(Event::Synced(1000)), Action::ReleaseNetwork));
    assert_eq!(c.state.persisted.cached_time, Some(1000));
    assert!(matches!(c.step(Event::Done), Action::ReadClock));
    match c.step(Event::Time(1005)) {
        Action::Transmit(json) => {
            assert!(json.contains("\"tracer_time\":1005"));
            assert!(json.contains("\"request_type\":\"app-started\""));
            assert!(json.ends_with("\"payload\":{\"configuration\":[]}}"));
        }
        _ => panic!("expected a transmit"),
    }
    assert!(is_sleep(&c.step(Event::Done)));
    assert!(matches!(c.step(Event::Done), Action::Wait));
    assert_eq!(c.state.phase, Phase::Asleep);
    assert_eq!(c.state.persisted.boot_count, 1);
    assert_eq!(c.state.error, None);
}

#[test]
fn cache_hit_never_touches_network() {
    let p = PersistedBootState { boot_count: 7, cached_time: Some(500) };
    let (mut c, a) = start(p, "home");
    assert!(matches!(a, Action::ReadClock));
    // Stray events do not bring the network up.
    assert!(matches!(c.step(Event::Connected), Action::Wait));
    assert!(matches!(c.step(Event::Synced(9)), Action::Wait));
    match c.step(Event::Time(600)) {
        Action::Transmit(json) => {
            assert!(json.contains("\"tracer_time\":600"));
            assert!(json.contains("\"request_type\":\"app-started\""));
            assert!(json.ends_with("\"payload\":{\"configuration\":[]}}"));
        }
        _ => panic!("expected a transmit"),
    }
    assert!(is_sleep(&c.step(Event::SendFailed)));
    assert_eq!(c.state.persisted.boot_count, 8);
    assert_eq!(c.state.persisted.cached_time, Some(500));
}

#[test]
fn boot_count_same_on_both_paths() {
    let (mut net, _) = start(PersistedBootState { boot_count: 3, cached_time: None }, "home");
    net.step(Event::Connected);
    net.step(Event::Synced(10));
    let (cached, _) = start(PersistedBootState { boot_count: 3, cached_time: Some(10) }, "home");
    assert_eq!(net.state.persisted.boot_count, 4);
    assert_eq!(cached.state.persisted.boot_count, 4);
}

#[test]
fn credentials_too_long() {
    let long = "s".repeat(33);
    let (c, a) = start(PersistedBootState::cold(), &long);
    assert!(is_sleep(&a));
    assert_eq!(c.state.error, Some(Error::ParseCredentials));
    assert_eq!(c.state.persisted.boot_count, 1);
    let (_, ok) = start(PersistedBootState::cold(), &"s".repeat(32));
    assert!(matches!(ok, Action::Connect(_)));
}

#[test]
fn wifi_failure_releases_then_sleeps() {
    let (mut c, _) = start(PersistedBootState::cold(), "home");
    assert!(matches!(c.step(Event::ConnectFailed(WifiError { code: 3 })), Action::ReleaseNetwork));
    assert!(is_sleep(&c.step(Event::Done)));
    assert_eq!(c.state.error, Some(Error::Wifi(WifiError { code: 3 })));
    assert_eq!(c.state.persisted.cached_time, None);
}

#[test]
fn sync_failure_keeps_old_cache() {
    let (mut c, _) = start(PersistedBootState::cold(), "home");
    c.step(Event::Connected);
    assert!(matches!(c.step(Event::SyncFailed(ClockError { code: 1 })), Action::ReleaseNetwork));
    assert!(is_sleep(&c.step(Event::Done)));
    assert_eq!(c.state.error, Some(Error::Clock(ClockError { code: 1 })));
    assert_eq!(c.state.persisted.cached_time, None);
}

#[test]
fn clock_read_failure_sleeps() {
    let (mut c, _) = start(PersistedBootState { boot_count: 0, cached_time: Some(1) }, "home");
    assert!(is_sleep(&c.step(Event::TimeFailed(ClockError { code: 2 }))));
    assert_eq!(c.state.error, Some(Error::Clock(ClockError { code: 2 })));
}

#[test]
fn error_conversions() {
    assert_eq!(Error::from(WifiError { code: 5 }), Error::Wifi(WifiError { code: 5 }));
    assert_eq!(Error::from(ClockError { code: 6 }), Error::Clock(ClockError { code: 6 }));
}

#[test]
fn cache_hit_start_event_exact_text() {
    let app = Application::try_new(
        "embedded-apm",
        Some("0.1.0"),
        Some("embedded"),
        "Rust",
        "1.75",
        "0.1.0",
        None,
        None,
        None,
    )
    .unwrap();
    let p = PersistedBootState { boot_count: 2, cached_time: Some(1699999000) };
    let (mut c, a) = BootCycle::start(p, "home", "secret", "todo".to_string(), 1, app, host());
    assert!(matches!(a, Action::ReadClock));
    match c.step(Event::Time(1700000000)) {
        Action::Transmit(json) => assert_eq!(
            json,
            "{\"api_version\":\"v2\",\"tracer_time\":1700000000,\"runtime_id\":\"todo\",\"seq_id\":1,\
             \"application\":{\"service_name\":\"embedded-apm\",\"service_version\":\"0.1.0\",\
             \"env\":\"embedded\",\"language_name\":\"Rust\",\"language_version\":\"1.75\",\
             \"tracer_version\":\"0.1.0\"},\"host\":{\"hostname\":\"esp32c3 - todo\"},\
             \"request_type\":\"app-started\",\"payload\":{\"configuration\":[]}}"
        ),
        _ => panic!("expected a transmit"),
    }
}
