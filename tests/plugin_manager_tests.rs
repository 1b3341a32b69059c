use healthmonitor::checks::file_check::FileCheck;
use healthmonitor::checks::plugin_manager::{create_plugins, Check, PluginManager, QuickStep};
use healthmonitor::checks::url_check::UrlCheck;
use healthmonitor::checks::HealthCheck;
use healthmonitor::cli::{check_report, state_exit_code, DeploymentPhase as CliPhase, HealthState as CliHealth};
use healthmonitor::config::Config;
use healthmonitor::status::HealthState;

/// Drives the one-shot diagnostic: `outcome(i)` is what running check `i`
/// gives. Returns the outcome and the indices of the checks that ran.
fn drive(manager: &PluginManager, outcome: &dyn Fn(usize) -> Result<(), String>) -> (Result<(), String>, Vec<usize>) {
    let mut results: Vec<Result<(), String>> = Vec::new();
    let mut ran: Vec<usize> = Vec::new();
    loop {
        match manager.quick_check(&results) {
            QuickStep::Run(i) => {
                ran.push(i);
                results.push(outcome(i));
            }
            QuickStep::Done(r) => return (r, ran),
        }
    }
}

fn file_check() -> Check {
    Check::File(FileCheck::new(&Config::new()))
}

#[test]
fn plugins_of_a_configuration() {
    let plugins = create_plugins(&Config::new());
    assert_eq!(plugins.len(), 2);
    assert_eq!(plugins[0].name(), "FileCheck");
    assert_eq!(plugins[1].name(), "UrlCheck");
    let manager = PluginManager::new(&Config::new());
    assert_eq!(manager.plugins().len(), 2);
    assert_eq!(manager.scheduled(), vec![0]);
}

#[test]
fn quick_check_stops_at_first_failure() {
    let manager = PluginManager::from_checks(vec![file_check(), file_check(), file_check()]);
    let outcome = |i| if i == 1 { Err("B failed".to_string()) } else { Ok(()) };
    let (r, ran) = drive(&manager, &outcome);
    assert_eq!(r, Err("B failed".to_string()));
    assert_eq!(ran, vec![0, 1]);
}

#[test]
fn quick_check_passes_when_all_pass() {
    let manager = PluginManager::from_checks(vec![file_check(), file_check()]);
    let (r, ran) = drive(&manager, &|_| Ok(()));
    assert_eq!(r, Ok(()));
    assert_eq!(ran, vec![0, 1]);
}

#[test]
fn quick_check_skips_slow_and_disabled_checks() {
    let mut config = Config::new();
    config.checks.url_check.urls = vec!["http://example.com".to_string()];
    let manager = PluginManager::from_checks(vec![
        Check::Url(UrlCheck::new(&config)),
        file_check(),
        Check::Url(UrlCheck::new(&Config::new())),
    ]);
    let (r, ran) = drive(&manager, &|_| Ok(()));
    assert_eq!(r, Ok(()));
    assert_eq!(ran, vec![1]);
    assert_eq!(manager.scheduled(), vec![0, 1]);
}

#[test]
fn quick_check_of_nothing_passes() {
    let manager = PluginManager::from_checks(vec![]);
    let (r, ran) = drive(&manager, &|_| Err("never".to_string()));
    assert_eq!(r, Ok(()));
    assert!(ran.is_empty());
}

#[test]
fn check_command_report() {
    assert_eq!(check_report(&Ok(())), ("ok".to_string(), 0));
    assert_eq!(check_report(&Err("FileCheck: File /x is empty".to_string())), ("error: FileCheck: File /x is empty".to_string(), 1));
    assert_eq!(state_exit_code(HealthState::Healthy), 0);
    assert_eq!(state_exit_code(HealthState::Unhealthy), 1);
}

#[test]
fn command_line_states_and_phases() {
    assert_eq!("Unhealthy".parse::<CliHealth>(), Ok(CliHealth::Unhealthy));
    assert_eq!("meh".parse::<CliHealth>(), Err("Invalid state: meh".to_string()));
    assert_eq!("ONLINE".parse::<CliPhase>(), Ok(CliPhase::Online));
    assert_eq!("x".parse::<CliPhase>(), Err("Invalid phase: x".to_string()));
    assert_eq!(HealthState::from(CliHealth::Healthy), HealthState::Healthy);
    assert_eq!(
        healthmonitor::status::DeploymentPhase::from(CliPhase::Deploying),
        healthmonitor::status::DeploymentPhase::Deploying
    );
}
