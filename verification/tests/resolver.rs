use rifthold::activation::{
    ActCommand, ActEvent, ActivationMachine, SETTLE_DELAY_MS, find_matching_window,
};
use rifthold::coordinator::RefreshCoordinator;
use rifthold::model::{ActivationError, RawWindowRecord, WindowEntry};
use rifthold::provider::MacWindowProvider;

fn record(
    window_number: u64,
    owner_name: Option<&str>,
    title: Option<&str>,
    owner_pid: Option<i64>,
    layer: i64,
) -> RawWindowRecord {
    RawWindowRecord {
        window_number,
        owner_name: owner_name.map(|s| s.to_owned()),
        title: title.map(|s| s.to_owned()),
        owner_pid,
        layer,
    }
}

fn entry(id: &str, title: &str, app_name: &str, fallback: bool, pid: Option<i64>) -> WindowEntry {
    WindowEntry {
        id: id.to_owned(),
        title: title.to_owned(),
        app_name: app_name.to_owned(),
        is_title_fallback: fallback,
        owner_pid: pid,
    }
}

fn provider_with(entries: Vec<WindowEntry>) -> MacWindowProvider {
    let mut provider = MacWindowProvider::new();
    provider.refresh_snapshot(entries);
    provider
}

/// Drives one activation request the way the runtime would, pretending
/// every commanded native action succeeds and that a refetch finds
/// nothing new. Returns the result and how many refetches were
/// commanded and whether a raise was attempted.
fn drive(provider: &MacWindowProvider, id: &str) -> (Result<(), ActivationError>, u32, bool) {
    let mut machine = ActivationMachine::new(id.to_owned());
    let mut ev = ActEvent::Start;
    let mut refetches = 0;
    let mut raised = false;
    loop {
        match machine.step(provider, ev) {
            ActCommand::Refetch => {
                refetches += 1;
                ev = ActEvent::Refetched;
            }
            ActCommand::ActivateViaPid(_) => {
                ev = ActEvent::PidOutcome(true);
            }
            ActCommand::ActivateApp(_) => {
                ev = ActEvent::NameOutcome(Ok(()));
            }
            ActCommand::SettleAndRaise(_, _) => {
                raised = true;
                ev = ActEvent::RaiseOutcome(true);
            }
            ActCommand::Finish(result) => {
                return (result, refetches, raised);
            }
        }
    }
}

#[test]
fn missing_id_refetches_exactly_once_then_not_found() {
    let provider = MacWindowProvider::new();
    let (result, refetches, _) = drive(&provider, "missing-id");
    assert_eq!(refetches, 1);
    match result {
        Err(ActivationError::NotFound(message)) => {
            assert_eq!(message, "window id missing-id not found");
        }
        other => panic!("expected a not-found error, got {:?}", other.is_ok()),
    }
    // A second request resolves from scratch: again exactly one refetch,
    // no caching of the negative outcome.
    let (result2, refetches2, _) = drive(&provider, "missing-id");
    assert_eq!(refetches2, 1);
    assert!(matches!(result2, Err(ActivationError::NotFound(_))));
}

#[test]
fn refetch_can_rescue_a_stale_id() {
    // The snapshot misses the id at first; the commanded refetch
    // repopulates it, and the retried lookup succeeds.
    let mut provider = MacWindowProvider::new();
    let mut machine = ActivationMachine::new("3".to_owned());
    let cmd = machine.step(&provider, ActEvent::Start);
    assert!(matches!(cmd, ActCommand::Refetch));
    let records = vec![record(3, Some("Safari"), Some("Apple"), Some(77), 0)];
    provider.ingest_records(&records, 0);
    let cmd = machine.step(&provider, ActEvent::Refetched);
    assert!(matches!(cmd, ActCommand::ActivateViaPid(77)));
}

#[test]
fn known_pid_and_real_title_attempts_fine_grained_raise() {
    let provider = provider_with(vec![entry("9", "Apple — Start", "Safari", false, Some(77))]);
    let (result, refetches, raised) = drive(&provider, "9");
    assert!(result.is_ok());
    assert_eq!(refetches, 0);
    assert!(raised);
}

#[test]
fn fallback_title_never_attempts_fine_grained_raise() {
    let provider = provider_with(vec![entry("9", "Safari", "Safari", true, Some(77))]);
    let (result, _, raised) = drive(&provider, "9");
    assert!(result.is_ok());
    assert!(!raised);
}

#[test]
fn unknown_pid_never_attempts_fine_grained_raise() {
    let provider = provider_with(vec![entry("9", "Apple — Start", "Safari", false, None)]);
    let (result, _, raised) = drive(&provider, "9");
    assert!(result.is_ok());
    assert!(!raised);
}

#[test]
fn raise_command_carries_pid_and_title() {
    let provider = provider_with(vec![entry("9", "Apple — Start", "Safari", false, Some(77))]);
    let mut machine = ActivationMachine::new("9".to_owned());
    let cmd = machine.step(&provider, ActEvent::Start);
    assert!(matches!(cmd, ActCommand::ActivateViaPid(77)));
    match machine.step(&provider, ActEvent::PidOutcome(true)) {
        ActCommand::SettleAndRaise(pid, title) => {
            assert_eq!(pid, 77);
            assert_eq!(title, "Apple — Start");
        }
        _ => panic!("expected the fine-grained raise"),
    }
    assert!(SETTLE_DELAY_MS == 150);
}

#[test]
fn failed_pid_activation_falls_back_to_name() {
    let provider = provider_with(vec![entry("9", "Safari", "Safari", true, Some(77))]);
    let mut machine = ActivationMachine::new("9".to_owned());
    let cmd = machine.step(&provider, ActEvent::Start);
    assert!(matches!(cmd, ActCommand::ActivateViaPid(77)));
    match machine.step(&provider, ActEvent::PidOutcome(false)) {
        ActCommand::ActivateApp(name) => assert_eq!(name, "Safari"),
        _ => panic!("expected the name-based fallback"),
    }
    match machine.step(&provider, ActEvent::NameOutcome(Ok(()))) {
        ActCommand::Finish(result) => assert!(result.is_ok()),
        _ => panic!("expected the request to finish"),
    }
}

#[test]
fn failed_name_activation_is_fatal() {
    let provider = provider_with(vec![entry("9", "gone", "Gone", false, None)]);
    let mut machine = ActivationMachine::new("9".to_owned());
    let cmd = machine.step(&provider, ActEvent::Start);
    assert!(matches!(cmd, ActCommand::ActivateApp(_)));
    match machine.step(&provider, ActEvent::NameOutcome(Err("open -a failed".to_owned()))) {
        ActCommand::Finish(Err(ActivationError::ActivationFailure(message))) => {
            assert_eq!(message, "open -a failed");
        }
        _ => panic!("expected an activation failure"),
    }
}

#[test]
fn blank_app_name_is_rejected_up_front() {
    let provider = provider_with(vec![entry("9", "", "", true, None)]);
    let mut machine = ActivationMachine::new("9".to_owned());
    match machine.step(&provider, ActEvent::Start) {
        ActCommand::Finish(Err(ActivationError::ActivationFailure(message))) => {
            assert_eq!(message, "missing app name for activation");
        }
        _ => panic!("expected the up-front rejection"),
    }
}

#[test]
fn failed_raise_does_not_change_the_outcome() {
    let provider = provider_with(vec![entry("9", "Apple — Start", "Safari", false, Some(77))]);
    let mut machine = ActivationMachine::new("9".to_owned());
    machine.step(&provider, ActEvent::Start);
    let cmd = machine.step(&provider, ActEvent::PidOutcome(true));
    assert!(matches!(cmd, ActCommand::SettleAndRaise(_, _)));
    match machine.step(&provider, ActEvent::RaiseOutcome(false)) {
        ActCommand::Finish(result) => assert!(result.is_ok()),
        _ => panic!("expected the request to finish activated"),
    }
}

#[test]
fn title_search_finds_first_containing_window() {
    let titles = vec![
        "unrelated".to_owned(),
        "notes — shopping".to_owned(),
        "main.rs — VS Code".to_owned(),
        "other — VS Code".to_owned(),
    ];
    assert_eq!(find_matching_window(&titles, "VS Code"), Some(2));
    assert_eq!(find_matching_window(&titles, "shopping"), Some(1));
    assert_eq!(find_matching_window(&titles, "absent"), None);
}

#[test]
fn overlapping_refreshes_cancel_the_older_generation() {
    let mut coordinator = RefreshCoordinator::new();
    let g1 = coordinator.begin_refresh();
    assert!(coordinator.should_proceed(g1));
    let g2 = coordinator.begin_refresh();
    assert!(g1 < g2);
    assert!(!coordinator.should_proceed(g1));
    assert!(coordinator.should_proceed(g2));
    let g3 = coordinator.begin_refresh();
    assert!(!coordinator.should_proceed(g1));
    assert!(!coordinator.should_proceed(g2));
    assert!(coordinator.should_proceed(g3));
}
