use healthmonitor::checks::url_check::{UrlCheck, UrlProbe};
use healthmonitor::checks::{HealthCheck, ProbeStep};
use healthmonitor::config::Config;

/// Drives a run of the check, answering each request from `answer`, which
/// says what requesting the URL at an index gives.
fn run(check: &UrlCheck, answer: &dyn Fn(usize) -> UrlProbe) -> (Result<(), String>, usize) {
    let mut probes: Vec<UrlProbe> = Vec::new();
    loop {
        match check.next(&probes) {
            ProbeStep::Probe(i) => {
                assert_eq!(i, probes.len());
                probes.push(answer(i));
            }
            ProbeStep::Done(r) => return (r, probes.len()),
        }
    }
}

fn ok() -> UrlProbe {
    UrlProbe::Responded(200, "200 OK".to_string())
}

fn config_with_urls(urls: &[&str]) -> Config {
    let mut config = Config::new();
    config.checks.url_check.urls = urls.iter().map(|u| u.to_string()).collect();
    config
}

const SERVER: &str = "http://127.0.0.1:40123";

#[test]
fn url_check_test_name() {
    let check = UrlCheck::new(&Config::new());
    assert_eq!(check.name(), "UrlCheck");
}

#[test]
fn url_check_test_is_quick_check() {
    let check = UrlCheck::new(&Config::new());
    assert!(!check.is_quick_check());
}

#[test]
fn test_without_urls_is_disabled() {
    let mut config = Config::new();
    config.checks.url_check.urls = vec![];
    let check = UrlCheck::new(&config);
    assert!(!check.is_enabled());
}

#[test]
fn test_with_urls_is_enabled() {
    let mut config = Config::new();
    config.checks.url_check.urls = vec!["http://example.com".to_string()];
    let check = UrlCheck::new(&config);
    assert!(check.is_enabled());
}

#[test]
fn test_run_with_successful_response() {
    let check = UrlCheck::new(&config_with_urls(&[SERVER]));
    assert!(run(&check, &|_| ok()).0.is_ok());
}

#[test]
fn test_run_with_error_response() {
    let check = UrlCheck::new(&config_with_urls(&[SERVER]));
    let answer = |_| UrlProbe::Responded(500, "500 Internal Server Error".to_string());
    assert!(run(&check, &answer).0.is_err());
}

#[test]
fn test_run_with_timeout() {
    let mut config = config_with_urls(&[SERVER]);
    config.checks.url_check.timeout = 1;
    let check = UrlCheck::new(&config);
    assert_eq!(check.timeout(), 1);
    let answer = |_| UrlProbe::Failed("operation timed out".to_string());
    assert!(run(&check, &answer).0.is_err());
}

#[test]
fn test_run_with_multiple_urls() {
    let first = format!("{}/first", SERVER);
    let second = format!("{}/second", SERVER);
    let check = UrlCheck::new(&config_with_urls(&[&first, &second]));
    let (r, probed) = run(&check, &|_| ok());
    assert!(r.is_ok());
    assert_eq!(probed, 2);
}

#[test]
fn test_run_with_multiple_urls_second_url_returning_503() {
    let good = format!("{}/good", SERVER);
    let bad = format!("{}/bad", SERVER);
    let check = UrlCheck::new(&config_with_urls(&[&good, &bad]));
    let answer = |i| if i == 0 { ok() } else { UrlProbe::Responded(503, "503 Service Unavailable".to_string()) };
    assert!(run(&check, &answer).0.is_err());
}

#[test]
fn status_message_names_first_bad_url() {
    let check = UrlCheck::new(&config_with_urls(&["http://a/good", "http://a/bad", "http://a/worse"]));
    let answer = |i| if i == 0 { ok() } else { UrlProbe::Responded(503, "503 Service Unavailable".to_string()) };
    let (r, probed) = run(&check, &answer);
    assert_eq!(r, Err("URL http://a/bad returned status 503 Service Unavailable".to_string()));
    assert_eq!(probed, 2);
}

#[test]
fn timeout_message_names_the_url() {
    let check = UrlCheck::new(&config_with_urls(&["http://a/slow"]));
    let answer = |_| UrlProbe::Failed("operation timed out".to_string());
    let (r, _) = run(&check, &answer);
    assert_eq!(r, Err("Failed to access http://a/slow: operation timed out".to_string()));
}

#[test]
fn default_url_check_settings() {
    let check = UrlCheck::new(&Config::new());
    assert_eq!(check.interval(), 30);
    assert_eq!(check.timeout(), 10);
    assert_eq!(check.urls().len(), 0);
}
