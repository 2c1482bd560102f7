use itam_agent::authority::{FetchResponse, ReportResponse};
use itam_agent::matcher::{ProcessSnapshot, ViolationReport};
use itam_agent::policy::{cache_to_disk, CacheRead, ForbiddenApp};
use itam_agent::scheduler::{
    Action, Awaiting, Directive, Event, MonitorState, Notice, Phase, CREDENTIAL_BACKOFF_SECS,
    ELAPSED_WHEN_UNKNOWN_SECS, SCAN_INTERVAL_SECS, SYNC_INTERVAL_SECS,
};

const URL: &str = "https://authority.example";

fn rule(pattern: &str, severity: &str) -> ForbiddenApp {
    ForbiddenApp { process_name: pattern.to_string(), severity: severity.to_string() }
}

fn process(pid: u32, name: &str) -> ProcessSnapshot {
    ProcessSnapshot { process_id: pid, process_name: name.to_string() }
}

fn tick(credential: &str) -> Event {
    Event::Tick { credential: credential.to_string() }
}

fn fetched(apps: Vec<ForbiddenApp>) -> Event {
    Event::Fetched { answer: FetchResponse::Answered { status: 200, body: Some(apps) } }
}

fn inspected(processes: Vec<ProcessSnapshot>) -> Event {
    Event::Inspected { processes, device_id: "host".to_string() }
}

fn reported(status: u16) -> Event {
    Event::Reported { response: ReportResponse::Answered { status } }
}

fn is_wait(directive: &Directive, expected: u64) -> bool {
    matches!(directive.action, Action::Wait { seconds } if seconds == expected)
}

fn report_of(directive: &Directive) -> &ViolationReport {
    match &directive.action {
        Action::Report { violation, .. } => violation,
        other => panic!("expected a report, got {:?}", other),
    }
}

/// A scheduler that has synced `apps` at the time `now` and waits for the scan.
fn synced(apps: Vec<ForbiddenApp>, now: u64) -> MonitorState {
    let mut state = MonitorState::new(URL.to_string());
    let first = state.step(tick("tok"), now);
    assert!(matches!(first.action, Action::Fetch { .. }));
    let second = state.step(fetched(apps), now);
    assert!(matches!(second.action, Action::Store { .. }));
    state
}

#[test]
fn the_intervals() {
    assert_eq!(CREDENTIAL_BACKOFF_SECS, 10);
    assert_eq!(SYNC_INTERVAL_SECS, 300);
    assert_eq!(SCAN_INTERVAL_SECS, 60);
    assert_eq!(ELAPSED_WHEN_UNKNOWN_SECS, 999999);
}

#[test]
fn starts_waiting_for_a_credential() {
    let state = MonitorState::new(URL.to_string());
    assert_eq!(state.phase(), Phase::WaitingForCredential);
    assert_eq!(state.awaiting(), Awaiting::Tick);
    assert!(state.policy().is_empty());
    assert_eq!(state.last_sync(), 0);
    assert_eq!(state.pending_count(), 0);
    assert!(state.expects(&tick("")));
    assert!(!state.expects(&reported(200)));
}

#[test]
fn without_a_credential_nothing_is_attempted() {
    let mut state = MonitorState::new(URL.to_string());
    for round in 0..5u64 {
        let directive = state.step(tick(""), 1_000_000 + round * 10);
        assert!(is_wait(&directive, 10));
        assert!(directive.notice.is_none());
        assert_eq!(state.phase(), Phase::WaitingForCredential);
        assert_eq!(state.awaiting(), Awaiting::Tick);
        assert_eq!(state.last_sync(), 0);
        assert!(state.policy().is_empty());
    }
}

#[test]
fn with_a_credential_the_next_tick_syncs() {
    let mut state = MonitorState::new(URL.to_string());
    assert!(is_wait(&state.step(tick(""), 1_000_000), 10));
    let directive = state.step(tick("tok"), 1_000_010);
    assert!(directive.notice.is_none());
    match directive.action {
        Action::Fetch { request } => {
            assert_eq!(request.url, "https://authority.example/api/forbidden-apps");
            assert_eq!(request.authorization, "Bearer tok");
        }
        other => panic!("expected a fetch, got {:?}", other),
    }
    assert_eq!(state.phase(), Phase::Syncing);
    assert_eq!(state.awaiting(), Awaiting::Fetched);
}

#[test]
fn with_a_credential_the_next_tick_scans_when_no_sync_is_due() {
    let mut state = synced(vec![rule("chrome", "high")], 1_000_000);
    let after_sync = state.step(Event::Stored { written: true }, 1_000_000);
    assert!(matches!(after_sync.action, Action::Inspect));
    let idle = state.step(inspected(Vec::new()), 1_000_001);
    assert!(is_wait(&idle, 60));
    assert_eq!(state.phase(), Phase::Idle);
    // The credential is withdrawn: the scheduler goes back to waiting for one.
    assert!(is_wait(&state.step(tick(""), 1_000_061), 10));
    assert_eq!(state.phase(), Phase::WaitingForCredential);
    // It comes back within the sync interval: the tick goes straight to the scan.
    let directive = state.step(tick("tok2"), 1_000_071);
    assert!(matches!(directive.action, Action::Inspect));
    assert_eq!(state.phase(), Phase::Scanning);
}

#[test]
fn a_fetched_policy_is_stored_and_put_in_force() {
    let mut state = MonitorState::new(URL.to_string());
    state.step(tick("tok"), 1_700_000_000);
    let directive = state.step(fetched(vec![rule("chrome", "high"), rule("steam", "low")]), 1_700_000_002);
    assert!(directive.notice.is_none());
    match directive.action {
        Action::Store { cache } => {
            assert_eq!(cache.last_updated, 1_700_000_002);
            assert_eq!(cache.apps.len(), 2);
            assert_eq!(cache.apps[0].process_name, "chrome");
            assert_eq!(cache.apps[1].severity, "low");
        }
        other => panic!("expected a store, got {:?}", other),
    }
    assert_eq!(state.policy().len(), 2);
    assert_eq!(state.phase(), Phase::Syncing);
    let directive = state.step(Event::Stored { written: true }, 1_700_000_003);
    assert!(matches!(directive.notice, Some(Notice::PolicyUpdated { count: 2 })));
    assert!(matches!(directive.action, Action::Inspect));
    assert_eq!(state.last_sync(), 1_700_000_003);
    assert_eq!(state.phase(), Phase::Scanning);
}

#[test]
fn a_failed_cache_write_does_not_fail_the_sync() {
    let mut state = synced(vec![rule("chrome", "high")], 1_000_000);
    let directive = state.step(Event::Stored { written: false }, 1_000_001);
    assert!(matches!(directive.notice, Some(Notice::PolicyUpdated { count: 1 })));
    assert!(matches!(directive.action, Action::Inspect));
    assert_eq!(state.policy().len(), 1);
    assert_eq!(state.last_sync(), 1_000_001);
}

#[test]
fn a_failed_fetch_falls_back_to_the_cache() {
    let mut state = MonitorState::new(URL.to_string());
    state.step(tick("tok"), 2_000_000);
    let directive = state.step(Event::Fetched { answer: FetchResponse::Unreachable }, 2_000_001);
    assert!(matches!(directive.action, Action::Recall));
    assert!(directive.notice.is_none());
    let cached = CacheRead::Loaded(cache_to_disk(&[rule("chrome", "high")], 1_999_000));
    let directive = state.step(Event::Recalled { cached }, 2_000_002);
    assert!(matches!(directive.notice, Some(Notice::PolicyUpdated { count: 1 })));
    assert!(matches!(directive.action, Action::Inspect));
    assert_eq!(state.policy().len(), 1);
    assert_eq!(state.policy()[0].process_name, "chrome");
    assert_eq!(state.policy()[0].severity, "high");
    assert_eq!(state.last_sync(), 2_000_002);
}

#[test]
fn the_policy_of_the_last_sync_survives_an_outage() {
    // First sync: the fetched policy is handed to the cache.
    let mut state = MonitorState::new(URL.to_string());
    state.step(tick("tok"), 3_000_000);
    let stored = match state.step(fetched(vec![rule("chrome", "high"), rule("steam", "low")]), 3_000_000).action {
        Action::Store { cache } => cache,
        other => panic!("expected a store, got {:?}", other),
    };
    state.step(Event::Stored { written: true }, 3_000_000);
    state.step(inspected(Vec::new()), 3_000_000);
    // A restart later the authority cannot be reached; the cache still holds the record.
    let mut restarted = MonitorState::new(URL.to_string());
    restarted.step(tick("tok"), 3_000_400);
    restarted.step(Event::Fetched { answer: FetchResponse::Answered { status: 503, body: None } }, 3_000_401);
    restarted.step(Event::Recalled { cached: CacheRead::Loaded(stored) }, 3_000_402);
    let policy = restarted.policy();
    assert_eq!(policy.len(), 2);
    assert_eq!(policy[0].process_name, "chrome");
    assert_eq!(policy[0].severity, "high");
    assert_eq!(policy[1].process_name, "steam");
    assert_eq!(policy[1].severity, "low");
}

#[test]
fn without_fetch_and_without_cache_the_policy_is_empty_and_the_scan_is_skipped() {
    let mut state = synced(vec![rule("chrome", "high")], 1_000_000);
    state.step(Event::Stored { written: true }, 1_000_000);
    state.step(inspected(Vec::new()), 1_000_000);
    state.step(tick("tok"), 1_000_400);
    state.step(Event::Fetched { answer: FetchResponse::Unreachable }, 1_000_400);
    let directive = state.step(Event::Recalled { cached: CacheRead::Corrupt }, 1_000_405);
    assert!(matches!(directive.notice, Some(Notice::PolicyUpdated { count: 0 })));
    assert!(is_wait(&directive, 60));
    assert!(state.policy().is_empty());
    assert_eq!(state.phase(), Phase::Idle);
    // The failed sync still counts as an attempt.
    assert_eq!(state.last_sync(), 1_000_405);
    let directive = state.step(tick("tok"), 1_000_465);
    assert!(is_wait(&directive, 60));
    assert!(directive.notice.is_none());
}

#[test]
fn a_sync_is_due_after_more_than_five_minutes() {
    let mut state = synced(vec![rule("chrome", "high")], 5_000_000);
    state.step(Event::Stored { written: true }, 5_000_000);
    state.step(inspected(Vec::new()), 5_000_000);
    // 299 and 300 seconds later: not yet.
    assert!(matches!(state.step(tick("tok"), 5_000_299).action, Action::Inspect));
    state.step(inspected(Vec::new()), 5_000_299);
    assert!(matches!(state.step(tick("tok"), 5_000_300).action, Action::Inspect));
    state.step(inspected(Vec::new()), 5_000_300);
    // 301 seconds later: due.
    assert!(matches!(state.step(tick("tok"), 5_000_301).action, Action::Fetch { .. }));
}

#[test]
fn a_clock_that_went_back_makes_the_sync_due() {
    let mut state = synced(vec![rule("chrome", "high")], 5_000_000);
    state.step(Event::Stored { written: true }, 5_000_000);
    state.step(inspected(Vec::new()), 5_000_000);
    assert!(matches!(state.step(tick("tok"), 4_999_999).action, Action::Fetch { .. }));
}

#[test]
fn the_first_tick_at_the_epoch_does_not_sync() {
    let mut state = MonitorState::new(URL.to_string());
    let directive = state.step(tick("tok"), 300);
    assert!(is_wait(&directive, 60));
    assert_eq!(state.phase(), Phase::Idle);
    let directive = state.step(tick("tok"), 301);
    assert!(matches!(directive.action, Action::Fetch { .. }));
}

#[test]
fn a_scan_submits_each_new_violation_in_order() {
    let mut state = synced(vec![rule("chrome", "high"), rule("steam", "low")], 1_000_000);
    state.step(Event::Stored { written: true }, 1_000_000);
    let snapshot = vec![process(30, "Steam"), process(10, "GoogleChrome"), process(11, "notepad")];
    let first = state.step(inspected(snapshot), 1_000_001);
    assert!(first.notice.is_none());
    match &first.action {
        Action::Report { request, violation } => {
            assert_eq!(request.url, "https://authority.example/api/alerts");
            assert_eq!(request.authorization, "Bearer tok");
            assert_eq!(violation.process_id, 30);
            assert_eq!(violation.app_detected, "steam");
            assert_eq!(violation.severity, "low");
            assert_eq!(violation.device_id, "host");
        }
        other => panic!("expected a report, got {:?}", other),
    }
    assert_eq!(state.pending_count(), 2);
    assert!(state.has_reported(30));
    assert!(state.has_reported(10));
    assert!(!state.has_reported(11));
    let second = state.step(reported(201), 1_000_002);
    match &second.notice {
        Some(Notice::ViolationDetected { violation }) => assert_eq!(violation.process_id, 30),
        other => panic!("expected a notice, got {:?}", other),
    }
    assert_eq!(report_of(&second).process_id, 10);
    assert_eq!(report_of(&second).severity, "high");
    let last = state.step(reported(200), 1_000_003);
    match &last.notice {
        Some(Notice::ViolationDetected { violation }) => assert_eq!(violation.process_id, 10),
        other => panic!("expected a notice, got {:?}", other),
    }
    assert!(is_wait(&last, 60));
    assert_eq!(state.phase(), Phase::Idle);
    assert_eq!(state.pending_count(), 0);
}

#[test]
fn a_failed_report_does_not_hold_up_the_others() {
    let mut state = synced(vec![rule("bad", "high")], 1_000_000);
    state.step(Event::Stored { written: true }, 1_000_000);
    let snapshot = vec![process(1, "bad-one"), process(2, "bad-two"), process(3, "bad-three")];
    let mut attempted: Vec<u32> = Vec::new();
    let mut notified: Vec<u32> = Vec::new();
    let mut directive = state.step(inspected(snapshot), 1_000_001);
    let answers = [
        Event::Reported { response: ReportResponse::Answered { status: 200 } },
        Event::Reported { response: ReportResponse::Unreachable },
        Event::Reported { response: ReportResponse::Answered { status: 200 } },
    ];
    for answer in answers {
        attempted.push(report_of(&directive).process_id);
        directive = state.step(answer, 1_000_002);
        if let Some(Notice::ViolationDetected { violation }) = &directive.notice {
            notified.push(violation.process_id);
        }
    }
    assert_eq!(attempted, vec![1, 2, 3]);
    assert_eq!(notified, vec![1, 3]);
    assert!(is_wait(&directive, 60));
    assert_eq!(state.awaiting(), Awaiting::Tick);
}

#[test]
fn a_refused_report_gives_no_notice() {
    let mut state = synced(vec![rule("bad", "high")], 1_000_000);
    state.step(Event::Stored { written: true }, 1_000_000);
    let directive = state.step(inspected(vec![process(1, "bad")]), 1_000_001);
    assert_eq!(report_of(&directive).process_id, 1);
    let directive = state.step(reported(500), 1_000_002);
    assert!(directive.notice.is_none());
    assert!(is_wait(&directive, 60));
    // The failed report is not tried again in a later scan.
    assert!(matches!(state.step(tick("tok"), 1_000_062).action, Action::Inspect));
    let directive = state.step(inspected(vec![process(1, "bad")]), 1_000_063);
    assert!(is_wait(&directive, 60));
}

#[test]
fn a_reported_process_is_not_alerted_again_in_later_scans() {
    let mut state = synced(vec![rule("chrome", "high")], 1_000_000);
    state.step(Event::Stored { written: true }, 1_000_000);
    let directive = state.step(inspected(vec![process(10, "chrome")]), 1_000_001);
    assert_eq!(report_of(&directive).process_id, 10);
    assert!(is_wait(&state.step(reported(200), 1_000_002), 60));
    for round in 1..4u64 {
        let now = 1_000_002 + round * 60;
        assert!(matches!(state.step(tick("tok"), now).action, Action::Inspect));
        let directive = state.step(inspected(vec![process(10, "chrome")]), now);
        assert!(is_wait(&directive, 60));
        assert!(directive.notice.is_none());
        assert!(state.has_reported(10));
    }
    assert!(matches!(state.step(tick("tok"), 1_000_250).action, Action::Inspect));
    let directive = state.step(inspected(vec![process(10, "chrome"), process(12, "chrome")]), 1_000_250);
    assert_eq!(report_of(&directive).process_id, 12);
}

#[test]
fn a_scan_uses_the_credential_of_its_tick() {
    let mut state = synced(vec![rule("chrome", "high")], 1_000_000);
    state.step(Event::Stored { written: true }, 1_000_000);
    state.step(inspected(Vec::new()), 1_000_000);
    assert!(matches!(state.step(tick("renewed"), 1_000_060).action, Action::Inspect));
    let directive = state.step(inspected(vec![process(10, "chrome")]), 1_000_060);
    match &directive.action {
        Action::Report { request, .. } => assert_eq!(request.authorization, "Bearer renewed"),
        other => panic!("expected a report, got {:?}", other),
    }
}

#[test]
fn expects_tells_the_awaited_event() {
    let mut state = MonitorState::new(URL.to_string());
    state.step(tick("tok"), 1_000_000);
    assert!(state.expects(&fetched(Vec::new())));
    assert!(!state.expects(&tick("tok")));
    assert!(!state.expects(&Event::Stored { written: true }));
    state.step(fetched(vec![rule("a", "b")]), 1_000_000);
    assert!(state.expects(&Event::Stored { written: false }));
    assert!(!state.expects(&Event::Recalled { cached: CacheRead::Missing }));
    state.step(Event::Stored { written: true }, 1_000_000);
    assert!(state.expects(&inspected(Vec::new())));
    state.step(inspected(vec![process(1, "a")]), 1_000_000);
    assert!(state.expects(&reported(200)));
    assert!(!state.expects(&inspected(Vec::new())));
}

#[test]
fn clearing_the_reported_pids_lets_a_process_be_alerted_again() {
    let mut state = synced(vec![rule("chrome", "high")], 1_000_000);
    state.step(Event::Stored { written: true }, 1_000_000);
    let directive = state.step(inspected(vec![process(10, "chrome")]), 1_000_001);
    assert_eq!(report_of(&directive).process_id, 10);
    state.step(reported(200), 1_000_002);
    assert!(state.has_reported(10));
    state.clear_reported();
    assert!(!state.has_reported(10));
    assert!(matches!(state.step(tick("tok"), 1_000_062).action, Action::Inspect));
    let directive = state.step(inspected(vec![process(10, "chrome")]), 1_000_063);
    assert_eq!(report_of(&directive).process_id, 10);
}

#[test]
fn a_process_that_matches_two_rules_is_submitted_twice() {
    let mut state = synced(vec![rule("chrome", "high"), rule("google", "low")], 1_000_000);
    state.step(Event::Stored { written: true }, 1_000_000);
    let first = state.step(inspected(vec![process(10, "GoogleChrome")]), 1_000_001);
    assert_eq!(state.pending_count(), 2);
    assert_eq!(report_of(&first).process_id, 10);
    assert_eq!(report_of(&first).severity, "high");
    let second = state.step(reported(200), 1_000_002);
    assert_eq!(report_of(&second).process_id, 10);
    assert_eq!(report_of(&second).severity, "low");
    let last = state.step(reported(200), 1_000_003);
    match &last.notice {
        Some(Notice::ViolationDetected { violation }) => assert_eq!(violation.severity, "low"),
        other => panic!("expected a notice, got {:?}", other),
    }
    assert!(is_wait(&last, 60));
    // The next scan finds the process reported and submits nothing.
    assert!(matches!(state.step(tick("tok"), 1_000_063).action, Action::Inspect));
    assert!(is_wait(&state.step(inspected(vec![process(10, "GoogleChrome")]), 1_000_064), 60));
}
