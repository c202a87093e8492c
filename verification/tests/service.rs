use mouser::config::{
    default_check_interval, default_port, default_stale_threshold, default_state_file,
    default_user_agent, Config,
};
use mouser::health::{health_check, health_check_at, HealthProblem};
use mouser::mam::build_mam_response;
use mouser::models::{MamResponse, PersistentState, SeedboxResponse};
use mouser::state::{seeds_cookie, AppState};
use mouser::status::{is_success_status, status_starts_with_two};
use mouser::timestamp::Timestamp;

const SECOND: i128 = 1_000_000_000;

fn body() -> SeedboxResponse {
    SeedboxResponse {
        success: true,
        msg: "Completed".to_string(),
        ip: "10.0.0.1".to_string(),
        asn: 64500,
        as_name: "Example".to_string(),
    }
}

fn answered(status: u16, at_secs: i128, cookie: Option<&str>) -> PersistentState {
    PersistentState {
        cookie: cookie.map(|c| c.to_string()),
        last_mam_response: Some(MamResponse {
            at: Timestamp::from_unix_nanos(at_secs * SECOND),
            http_status: status,
            cookie_sent: "c".to_string(),
            cookie_received: None,
            body: Some(body()),
        }),
        last_update: None,
    }
}

fn config() -> Config {
    Config::from_values(None, None, None, None, None, None)
}

#[test]
fn defaults() {
    assert_eq!(default_port(), 7878);
    assert_eq!(default_state_file(), "/data/mouser/state.json");
    assert_eq!(default_check_interval(), 300);
    assert_eq!(default_stale_threshold(), 86400);
    assert_eq!(default_user_agent(), "mouser/0.1.0");
    let c = config();
    assert_eq!(c.port, 7878);
    assert_eq!(c.state_file, "/data/mouser/state.json");
    assert_eq!(c.mam_id, None);
    assert_eq!(c.check_interval, 300);
    assert_eq!(c.stale_threshold, 86400);
    assert_eq!(c.user_agent, "mouser/0.1.0");
}

#[test]
fn given_values_override_defaults() {
    let c = Config::from_values(
        Some(8080),
        Some("/tmp/s.json".to_string()),
        Some("id".to_string()),
        Some(60),
        Some(120),
        Some("ua".to_string()),
    );
    assert_eq!(c.port, 8080);
    assert_eq!(c.state_file, "/tmp/s.json");
    assert_eq!(c.mam_id, Some("id".to_string()));
    assert_eq!(c.check_interval, 60);
    assert_eq!(c.stale_threshold, 120);
    assert_eq!(c.user_agent, "ua");
}

#[test]
fn load_seeds_cookie_only_when_absent() {
    let seeded = Config::from_values(None, None, Some("from-env".to_string()), None, None, None);
    assert!(seeds_cookie(&seeded, &None));
    assert!(!seeds_cookie(&config(), &None));
    let fresh = AppState::load(seeded.clone(), None);
    assert_eq!(fresh.persistent.cookie, Some("from-env".to_string()));
    assert_eq!(fresh.persistent.last_mam_response, None);
    let stored = answered(200, 10, Some("from-file"));
    assert!(!seeds_cookie(&seeded, &Some(stored.clone())));
    let kept = AppState::load(seeded.clone(), Some(stored.clone()));
    assert_eq!(kept.persistent, stored);
    let mut no_cookie = stored.clone();
    no_cookie.cookie = None;
    let filled = AppState::load(seeded, Some(no_cookie));
    assert_eq!(filled.persistent.cookie, Some("from-env".to_string()));
    let none = AppState::load(config(), None);
    assert_eq!(none.persistent, PersistentState::default());
}

#[test]
fn set_cookie_replaces_only_the_cookie() {
    let mut s = answered(200, 10, Some("old"));
    let before = s.clone();
    s.set_cookie("new".to_string());
    assert_eq!(s.cookie, Some("new".to_string()));
    assert_eq!(s.last_mam_response, before.last_mam_response);
}

#[test]
fn health_reports_each_problem() {
    let now = Timestamp::from_unix_nanos(100 * SECOND);
    let no_cookie = answered(200, 90, None);
    assert_eq!(health_check_at(&no_cookie, 86400, now), Err(HealthProblem::NoCookie));
    let empty = PersistentState { cookie: Some("c".to_string()), ..PersistentState::default() };
    assert_eq!(health_check_at(&empty, 86400, now), Err(HealthProblem::NoSuccessfulUpdate));
    let failed = answered(403, 90, Some("c"));
    assert_eq!(health_check_at(&failed, 86400, now), Err(HealthProblem::LastResponseError));
    let stale = answered(200, 90, Some("c"));
    assert_eq!(health_check_at(&stale, 10, now), Err(HealthProblem::Stale));
    assert_eq!(health_check_at(&stale, 11, now), Ok(()));
    assert_eq!(health_check(&PersistentState::default(), 86400), Err(HealthProblem::NoCookie));
    assert_eq!(HealthProblem::NoCookie.status_code(), 503);
    assert_eq!(HealthProblem::Stale.status_code(), 503);
    assert_eq!(HealthProblem::LastResponseError.message(), "last MAM response was an error");
    assert_eq!(HealthProblem::NoSuccessfulUpdate.message(), "no successful update yet");
    assert_eq!(HealthProblem::NoCookie.message(), "no cookie configured");
    assert_eq!(HealthProblem::Stale.message(), "last MAM response is stale");
}

#[test]
fn status_checks() {
    assert!(status_starts_with_two(200));
    assert!(status_starts_with_two(2));
    assert!(status_starts_with_two(29999));
    assert!(!status_starts_with_two(403));
    assert!(!status_starts_with_two(0));
    assert!(!status_starts_with_two(199));
    assert!(is_success_status(200));
    assert!(is_success_status(299));
    assert!(!is_success_status(300));
    assert!(!is_success_status(2));
    for s in 200..300u16 {
        assert!(status_starts_with_two(s));
    }
}

#[test]
fn build_keeps_body_only_on_success() {
    let at = Timestamp::from_unix_nanos(5 * SECOND);
    let values = vec![Some("mam_id=rotated; Path=/".to_string())];
    let ok = build_mam_response(at, 200, "sent", &values, Some(body()));
    assert_eq!(ok.at, at);
    assert_eq!(ok.http_status, 200);
    assert_eq!(ok.cookie_sent, "sent");
    assert_eq!(ok.cookie_received, Some("rotated".to_string()));
    assert_eq!(ok.body, Some(body()));
    let denied = build_mam_response(at, 403, "sent", &Vec::new(), Some(body()));
    assert_eq!(denied.cookie_received, None);
    assert_eq!(denied.body, None);
}

#[test]
fn timestamps() {
    let a = Timestamp::from_unix_nanos(3 * SECOND + 7);
    let b = Timestamp::from_unix_nanos(-2 * SECOND);
    assert_eq!(a.seconds_between(&b), 5);
    assert_eq!(b.seconds_between(&a), 5);
    assert_eq!(mouser::timestamp::abs_diff_i128(i128::MIN, i128::MAX), u128::MAX);
    let now = Timestamp::now();
    assert!(now.unix_nanos > 1_600_000_000 * SECOND);
    assert!(mouser::timestamp::MIN_UNIX_NANOS <= now.unix_nanos);
    assert!(now.unix_nanos <= mouser::timestamp::MAX_UNIX_NANOS);
    assert_eq!(mouser::timestamp::MAX_UNIX_NANOS, 253_402_300_799 * SECOND + 999_999_999);
}
