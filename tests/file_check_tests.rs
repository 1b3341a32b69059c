use healthmonitor::checks::file_check::{FileCheck, FileProbe};
use healthmonitor::checks::{HealthCheck, ProbeStep};
use healthmonitor::config::Config;

/// Drives a run of the check, answering each probe from `found`, which says
/// what probing the file at an index finds.
fn run(check: &FileCheck, found: &dyn Fn(usize) -> FileProbe) -> (Result<(), String>, usize) {
    let mut probes: Vec<FileProbe> = Vec::new();
    loop {
        match check.next(&probes) {
            ProbeStep::Probe(i) => {
                assert_eq!(i, probes.len());
                probes.push(found(i));
            }
            ProbeStep::Done(r) => return (r, probes.len()),
        }
    }
}

fn config_with_files(files: &[&str]) -> Config {
    let mut config = Config::new();
    config.checks.file_check.files = files.iter().map(|f| f.to_string()).collect();
    config
}

#[test]
fn file_check_test_name() {
    let check = FileCheck::new(&Config::new());
    assert_eq!(check.name(), "FileCheck");
}

#[test]
fn file_check_test_is_quick_check() {
    let check = FileCheck::new(&Config::new());
    assert!(check.is_quick_check());
}

#[test]
fn test_custom_interval() {
    let mut config = Config::new();
    config.checks.file_check.interval = 45;
    let check = FileCheck::new(&config);
    assert_eq!(check.interval(), 45);
}

#[test]
fn test_run_without_files() {
    let mut config = Config::new();
    config.checks.file_check.files = vec![];
    let check = FileCheck::new(&config);
    assert!(run(&check, &|_| FileProbe::Size(5)).0.is_ok());
}

#[test]
fn test_run_single_existing_non_empty_file() {
    let check = FileCheck::new(&config_with_files(&["/tmp/a.txt"]));
    assert!(run(&check, &|_| FileProbe::Size(5)).0.is_ok());
}

#[test]
fn test_run_single_existing_empty_file() {
    let check = FileCheck::new(&config_with_files(&["/tmp/a.txt"]));
    assert!(run(&check, &|_| FileProbe::Size(0)).0.is_err());
}

#[test]
fn test_run_single_non_existing_file() {
    let check = FileCheck::new(&config_with_files(&["non_existing_file.txt"]));
    let found = |_| FileProbe::Inaccessible("No such file or directory (os error 2)".to_string());
    assert!(run(&check, &found).0.is_err());
}

#[test]
fn test_run_two_existing_non_empty_files() {
    let check = FileCheck::new(&config_with_files(&["/tmp/a.txt", "/tmp/b.txt"]));
    let (r, probed) = run(&check, &|_| FileProbe::Size(5));
    assert!(r.is_ok());
    assert_eq!(probed, 2);
}

#[test]
fn test_run_two_files_first_empty() {
    let check = FileCheck::new(&config_with_files(&["/tmp/a.txt", "/tmp/b.txt"]));
    let found = |i| if i == 0 { FileProbe::Size(0) } else { FileProbe::Size(5) };
    assert!(run(&check, &found).0.is_err());
}

#[test]
fn test_run_two_files_second_non_existing() {
    let check = FileCheck::new(&config_with_files(&["/tmp/a.txt", "non_existing_file.txt"]));
    let found = |i| {
        if i == 0 {
            FileProbe::Size(5)
        } else {
            FileProbe::Inaccessible("No such file or directory (os error 2)".to_string())
        }
    };
    assert!(run(&check, &found).0.is_err());
}

#[test]
fn empty_file_message_names_the_file() {
    let check = FileCheck::new(&config_with_files(&["/tmp/a.txt", "/tmp/b.txt"]));
    let found = |i| if i == 0 { FileProbe::Size(0) } else { FileProbe::Size(5) };
    let (r, probed) = run(&check, &found);
    assert_eq!(r, Err("File /tmp/a.txt is empty".to_string()));
    assert_eq!(probed, 1);
}

#[test]
fn missing_file_message_names_the_file_and_reason() {
    let check = FileCheck::new(&config_with_files(&["/tmp/a.txt", "missing.txt", "/tmp/c.txt"]));
    let found = |i| {
        if i == 1 {
            FileProbe::Inaccessible("No such file or directory (os error 2)".to_string())
        } else {
            FileProbe::Size(0)
        }
    };
    let (r, _) = run(&check, &|i| if i == 0 { FileProbe::Size(3) } else { found(i) });
    assert_eq!(
        r,
        Err("Failed to access missing.txt: No such file or directory (os error 2)".to_string())
    );
}

#[test]
fn first_fault_wins_over_later_ones() {
    let check = FileCheck::new(&config_with_files(&["a", "b", "c"]));
    let probes = vec![FileProbe::Size(1), FileProbe::Size(0), FileProbe::Inaccessible("gone".to_string())];
    match check.next(&probes) {
        ProbeStep::Done(r) => assert_eq!(r, Err("File b is empty".to_string())),
        other => panic!("unexpected step {:?}", other),
    }
}

#[test]
fn next_asks_for_the_next_file() {
    let check = FileCheck::new(&config_with_files(&["a", "b", "c"]));
    let probes = vec![FileProbe::Size(1)];
    assert!(matches!(check.next(&probes), ProbeStep::Probe(1)));
}

#[test]
fn file_check_is_always_enabled() {
    let check = FileCheck::new(&Config::new());
    assert!(check.is_enabled());
    assert_eq!(check.files().len(), 0);
}
