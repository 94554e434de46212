//! Which properties are checked, and what a check says.

use crucible_test_context::{has_violation, is_stateful_chain_mode, take_violation};
use onreapp_fuzz::check::{Monitor, Settings};

fn settings(mode: &str, mute: &str, only: &str, run: &str) -> Settings {
    let value = |text: &str| if text.is_empty() { None } else { Some(text.to_string()) };
    Settings { mode: value(mode), mute: value(mute), only: value(only), run: value(run) }
}

fn recorded(monitor: &Monitor) -> Vec<&str> {
    monitor.violations.iter().map(|violation| violation.text()).collect()
}

#[test]
fn an_enforcing_run_records_what_fails() {
    let mut monitor = Monitor::new(settings("", "", "", ""));
    assert!(monitor.scout_check("P-0002", "site", "here:1", true, "fine".to_string()));
    assert!(monitor.violations.is_empty());
    assert!(!monitor.scout_check("P-0002", "site", "here:1", false, "short".to_string()));
    assert_eq!(recorded(&monitor), vec!["short"]);
    assert!(monitor.lines.is_empty());
}

#[test]
fn a_recorded_violation_reaches_the_fuzzer() {
    let mut monitor = Monitor::new(settings("", "P-0008", "", ""));
    assert!(monitor.scout_check("P-0002", "site", "here:1", true, "fine".to_string()));
    assert!(monitor.scout_check("P-0008", "site", "here:1", false, "muted".to_string()));
    assert!(!has_violation());
    assert!(!monitor.scout_check("P-0002", "site", "here:1", false, "first".to_string()));
    assert!(!monitor.scout_check("P-0003", "site", "here:1", false, "second".to_string()));
    assert_eq!(recorded(&monitor), vec!["first", "second"]);
    assert_eq!(take_violation(), Some("first".to_string()));
}

#[test]
fn an_observing_run_hands_nothing_over() {
    let mut monitor = Monitor::new(settings("observe", "", "", "run-1"));
    assert!(!monitor.scout_check("P-0002", "site", "here:1", false, "short".to_string()));
    assert!(!has_violation());
}

#[test]
fn only_an_observing_session_makes_failed_actions_end_their_chains() {
    let mut monitor = Monitor::new(settings("", "", "", "run-1"));
    assert!(monitor.scout_check_session().is_none());
    assert!(!is_stateful_chain_mode());
    let mut monitor = Monitor::new(settings("observe", "", "", "run-1"));
    assert!(monitor.scout_check_session().is_some());
    assert!(is_stateful_chain_mode());
}

#[test]
fn any_other_mode_enforces() {
    let mut monitor = Monitor::new(settings("OBSERVE", "", "", "n"));
    assert!(!monitor.__scout_check_observe_mode());
    assert!(!monitor.scout_check("P-0002", "site", "here:1", false, "short".to_string()));
    assert_eq!(monitor.violations.len(), 1);
}

#[test]
fn an_observing_run_says_but_never_records() {
    let mut monitor = Monitor::new(settings("observe", "", "", "run-1"));
    monitor.scout_check_session();
    monitor.scout_check_session();
    assert!(monitor.scout_check("P-0003", "sum", "main.rs:7", true, "m".to_string()));
    assert!(!monitor.scout_check("P-0003", "sum", "main.rs:7", false, "m".to_string()));
    assert_eq!(
        monitor.lines,
        vec![
            "[SCOUT_CHECK_SESSION] run-1".to_string(),
            "[SCOUT_CHECK_EVALUATED] run-1 P-0003 sum main.rs:7".to_string(),
            "[SCOUT_CHECK_EVALUATED] run-1 P-0003 sum main.rs:7".to_string(),
            "[SCOUT_CHECK_WOULD_VIOLATE] run-1 P-0003 sum main.rs:7".to_string(),
        ]
    );
    assert!(monitor.violations.is_empty());
}

#[test]
fn an_enforcing_run_opens_no_session() {
    let mut monitor = Monitor::new(settings("enforce", "", "", "run-1"));
    monitor.scout_check_session();
    assert!(monitor.lines.is_empty());
}

#[test]
fn a_missing_nonce_is_reported_once_and_evaluates_nothing() {
    let mut monitor = Monitor::new(settings("observe", "", "", ""));
    assert_eq!(monitor.__scout_check_nonce(), Err("missing or non-Unicode SCOUT_CHECK_RUN"));
    monitor.scout_check_session();
    assert!(!monitor.scout_check("P-0002", "site", "here:1", true, "m".to_string()));
    assert_eq!(
        monitor.lines,
        vec!["[SCOUT_CHECK_ERROR] INVALID missing or non-Unicode SCOUT_CHECK_RUN".to_string()]
    );
}

#[test]
fn an_empty_nonce_is_refused() {
    let mut none = settings("observe", "", "", "");
    none.run = Some(String::new());
    let monitor = Monitor::new(none);
    assert_eq!(monitor.__scout_check_nonce(), Err("empty SCOUT_CHECK_RUN"));
}

#[test]
fn a_nonce_with_unsafe_characters_is_refused_and_not_echoed() {
    for bad in ["a b", "a\nb", "a/b", "\u{e9}", "[x]"] {
        let mut monitor = Monitor::new(settings("observe", "", "", bad));
        assert_eq!(
            monitor.__scout_check_nonce(),
            Err("SCOUT_CHECK_RUN contains unsafe characters")
        );
        monitor.scout_check_session();
        assert_eq!(
            monitor.lines,
            vec![
                "[SCOUT_CHECK_ERROR] INVALID SCOUT_CHECK_RUN contains unsafe characters".to_string()
            ]
        );
    }
}

#[test]
fn a_plain_nonce_is_taken() {
    let monitor = Monitor::new(settings("observe", "", "", "aZ09_.:-"));
    assert_eq!(monitor.__scout_check_nonce(), Ok("aZ09_.:-".to_string()));
}

#[test]
fn muting_is_announced_once_and_silences_only_the_named() {
    let mut monitor = Monitor::new(settings("", "P-0002, P-0008", "", ""));
    assert!(monitor.__scout_check_muted("P-0002"));
    assert!(monitor.__scout_check_muted("P-0008"));
    assert!(!monitor.__scout_check_muted("P-0003"));
    assert!(monitor.scout_check("P-0002", "site", "here:1", false, "m".to_string()));
    assert!(!monitor.scout_check("P-0003", "site", "here:1", false, "m".to_string()));
    assert_eq!(monitor.lines, vec!["[SCOUT_CHECK_MUTED] P-0002, P-0008".to_string()]);
    assert_eq!(recorded(&monitor), vec!["m"]);
}

#[test]
fn an_unused_mute_list_is_not_announced() {
    let mut monitor = Monitor::new(settings("", "P-0009", "", ""));
    assert!(monitor.__scout_check_selected("P-0002"));
    assert!(monitor.lines.is_empty());
}

#[test]
fn one_selected_property_excludes_the_others() {
    let mut monitor = Monitor::new(settings("", "", "P-0004", ""));
    assert!(monitor.__scout_check_selected("P-0004"));
    assert!(!monitor.__scout_check_selected("P-0002"));
    assert!(monitor.scout_check("P-0002", "site", "here:1", false, "m".to_string()));
    assert!(monitor.violations.is_empty());
}

#[test]
fn muting_beats_selecting() {
    let mut monitor = Monitor::new(settings("", "P-0004", "P-0004", ""));
    assert!(!monitor.__scout_check_selected("P-0004"));
}

#[test]
fn announcements_and_errors_come_once() {
    let mut monitor = Monitor::new(settings("", "", "", ""));
    monitor.__scout_check_announce_mutes("a");
    monitor.__scout_check_announce_mutes("b");
    monitor.__scout_check_emit_error("x");
    monitor.__scout_check_emit_error("y");
    assert_eq!(
        monitor.lines,
        vec!["[SCOUT_CHECK_MUTED] a".to_string(), "[SCOUT_CHECK_ERROR] INVALID x".to_string()]
    );
}
