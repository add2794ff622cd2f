use std::collections::hash_map::DefaultHasher;
use std::hash::{Hash, Hasher};
use wttrbar::cache::{cache_file_name, location_to_cache_name, weather_url};
use wttrbar::fetch::{is_cache_age_fresh, next_fetch_step, FetchAction, FetchEvent, CACHE_TTL_SECS};
use wttrbar::lang::Lang;
use wttrbar::model::AppError;

fn expected_name(text: &str) -> String {
    let mut h = DefaultHasher::new();
    text.hash(&mut h);
    format!("wttrbar-{:x}", h.finish())
}

#[test]
fn cache_name_is_the_hex_hash() {
    assert_eq!(location_to_cache_name("London"), expected_name("London"));
    assert_eq!(location_to_cache_name(""), expected_name(""));
    assert_ne!(location_to_cache_name("London"), location_to_cache_name("Paris"));
}

#[test]
fn cache_file_name_is_plain() {
    let name = cache_file_name("../../etc/passwd", "pt.wttr.in");
    assert_eq!(name, format!("{}.json", expected_name("../../etc/passwd-pt.wttr.in")));
    assert!(name.starts_with("wttrbar-") && name.ends_with(".json"));
    assert!(name
        .chars()
        .all(|c| c.is_ascii_lowercase() || c.is_ascii_digit() || c == '-' || c == '.'));
    assert!(!name.contains("..") && !name.contains('/'));
}

#[test]
fn weather_url_names_host_and_place() {
    assert_eq!(weather_url(Lang::PT, "Lisboa"), "https://pt.wttr.in/Lisboa?format=j1");
    assert_eq!(weather_url(Lang::EN, ""), "https://wttr.in/?format=j1");
}

#[test]
fn cache_is_fresh_for_ten_minutes() {
    assert_eq!(CACHE_TTL_SECS, 600);
    assert!(is_cache_age_fresh(0, CACHE_TTL_SECS));
    assert!(is_cache_age_fresh(599, CACHE_TTL_SECS));
    assert!(!is_cache_age_fresh(600, CACHE_TTL_SECS));
}

#[test]
fn received_report_is_kept() {
    let (n, action) = next_fetch_step(3, FetchEvent::Received);
    assert_eq!(n, 3);
    assert!(matches!(action, FetchAction::Keep));
}

#[test]
fn bad_status_fails_at_once() {
    let (n, action) = next_fetch_step(0, FetchEvent::BadStatus("503 Service Unavailable".to_string()));
    assert_eq!(n, 0);
    match action {
        FetchAction::Fail(AppError::NetworkError(m)) => {
            assert_eq!(m, "API retornou status 503 Service Unavailable")
        }
        _ => panic!("expected a network error"),
    }
}

#[test]
fn bad_body_fails_at_once() {
    let (_, action) = next_fetch_step(1, FetchEvent::BadBody("EOF".to_string()));
    match action {
        FetchAction::Fail(AppError::ParseError(m)) => assert_eq!(m, "Resposta inválida da API: EOF"),
        _ => panic!("expected a parse error"),
    }
}

#[test]
fn backoff_doubles_and_gives_up_at_twenty() {
    let mut failures = 0u32;
    let mut delays = Vec::new();
    loop {
        let (n, action) = next_fetch_step(failures, FetchEvent::Unreachable("timeout".to_string()));
        assert_eq!(n, failures + 1);
        failures = n;
        match action {
            FetchAction::RetryAfter(d) => delays.push(d),
            FetchAction::Fail(AppError::NetworkError(m)) => {
                assert_eq!(m, "Não foi possível acessar wttr.in após 20 tentativas: timeout");
                break;
            }
            _ => panic!("unexpected action"),
        }
    }
    assert_eq!(failures, 20);
    assert_eq!(delays.len(), 19);
    assert_eq!(delays[0], 500);
    assert_eq!(delays[1], 1000);
    assert_eq!(delays[2], 2000);
    assert_eq!(delays[18], 131_072_000);
    for w in delays.windows(2) {
        assert_eq!(w[1], 2 * w[0]);
    }
}
