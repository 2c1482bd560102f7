//! The monitoring scheduler: a state machine that waits for a credential,
//! synchronises the policy on one cadence and scans on a faster one.
//!
//! The scheduler performs no outside work itself. Each step takes the event
//! that answers its previous action and returns the next action, together with
//! a notice for the observer where one is due. Whoever drives it performs the
//! action and hands back the event.

use crate::authority::{
    alert_request, alert_request_spec, fetch_forbidden_list, fetch_outcome, forbidden_list_request,
    forbidden_list_request_spec, report_outcome, report_violation, FetchResponse, ReportResponse,
    Request, RequestView,
};
use crate::dedup::{clear_reported_pids, new_violations, pids_of, ReportedPids};
use crate::error::AgentError;
use crate::matcher::{
    match_all, processes_view, violations_view, ProcessSnapshot, ProcessView, ViolationReport,
    ViolationView,
};
use crate::policy::{
    cache_record, cache_to_disk, policy_view, CacheRead, ForbiddenApp, ForbiddenAppCache,
    ForbiddenAppCacheView, ForbiddenAppView,
};
use crate::scan::scan_processes;
use crate::sync::{fallback_policy, fallback_spec};
use vstd::prelude::*;

verus! {

/// Seconds to wait before looking for a credential again.
pub const CREDENTIAL_BACKOFF_SECS: u64 = 10;

/// Seconds that must have passed since the last sync before the next one.
pub const SYNC_INTERVAL_SECS: u64 = 300;

/// Seconds between two scans.
pub const SCAN_INTERVAL_SECS: u64 = 60;

/// The time taken to have passed since the last sync where the clock has gone
/// back behind it.
pub const ELAPSED_WHEN_UNKNOWN_SECS: u64 = 999999;

/// The states of the scheduler.
#[derive(Debug, Clone, Copy, PartialEq, Eq, Structural)]
pub enum Phase {
    WaitingForCredential,
    Idle,
    Syncing,
    Scanning,
}

/// The event that the scheduler waits for: the answer to its last action.
#[derive(Debug, Clone, Copy, PartialEq, Eq, Structural)]
pub enum Awaiting {
    Tick,
    Fetched,
    Stored,
    Recalled,
    Inspected,
    Reported,
}

/// What has happened outside since the last step.
#[derive(Debug)]
pub enum Event {
    /// The wait is over; `credential` is what the credential store holds now.
    Tick { credential: String },
    /// The authority has answered the request for the policy, or has not.
    Fetched { answer: FetchResponse },
    /// The cache record has been written, or the write has failed.
    Stored { written: bool },
    /// The cache file has been read.
    Recalled { cached: CacheRead },
    /// The running processes have been enumerated on the device `device_id`.
    Inspected { processes: Vec<ProcessSnapshot>, device_id: String },
    /// The authority has answered the submission of a violation, or has not.
    Reported { response: ReportResponse },
}

/// What to do next outside.
#[derive(Debug)]
pub enum Action {
    /// Sleep, then read the credential store: answered by [`Event::Tick`].
    Wait { seconds: u64 },
    /// Request the policy: answered by [`Event::Fetched`].
    Fetch { request: Request },
    /// Write the record to the cache file: answered by [`Event::Stored`].
    Store { cache: ForbiddenAppCache },
    /// Read the cache file: answered by [`Event::Recalled`].
    Recall,
    /// Enumerate the running processes: answered by [`Event::Inspected`].
    Inspect,
    /// Submit the violation: answered by [`Event::Reported`].
    Report { request: Request, violation: ViolationReport },
}

/// What an [`Action`] says, as mathematical values.
pub enum ActionView {
    Wait { seconds: u64 },
    Fetch { request: RequestView },
    Store { cache: ForbiddenAppCacheView },
    Recall,
    Inspect,
    Report { request: RequestView, violation: ViolationView },
}

impl View for Action {
    type V = ActionView;

    open spec fn view(&self) -> ActionView {
        match *self {
            Action::Wait { seconds } => ActionView::Wait { seconds },
            Action::Fetch { request } => ActionView::Fetch { request: request@ },
            Action::Store { cache } => ActionView::Store { cache: cache@ },
            Action::Recall => ActionView::Recall,
            Action::Inspect => ActionView::Inspect,
            Action::Report { request, violation } => ActionView::Report {
                request: request@,
                violation: violation@,
            },
        }
    }
}

/// A notification for the observer. It is sent and forgotten: nothing answers it.
#[derive(Debug)]
pub enum Notice {
    /// A sync has completed; the policy now has `count` rules.
    PolicyUpdated { count: usize },
    /// A violation has been reported to the authority.
    ViolationDetected { violation: ViolationReport },
}

/// What a [`Notice`] says, as mathematical values.
pub enum NoticeView {
    PolicyUpdated { count: nat },
    ViolationDetected { violation: ViolationView },
}

impl View for Notice {
    type V = NoticeView;

    open spec fn view(&self) -> NoticeView {
        match *self {
            Notice::PolicyUpdated { count } => NoticeView::PolicyUpdated { count: count as nat },
            Notice::ViolationDetected { violation } => NoticeView::ViolationDetected {
                violation: violation@,
            },
        }
    }
}

/// The outcome of a step: a notice to send, if any, and then the action to perform.
#[derive(Debug)]
pub struct Directive {
    pub notice: Option<Notice>,
    pub action: Action,
}

/// What a [`Directive`] says, as mathematical values.
pub struct DirectiveView {
    pub notice: Option<NoticeView>,
    pub action: ActionView,
}

impl View for Directive {
    type V = DirectiveView;

    open spec fn view(&self) -> DirectiveView {
        DirectiveView {
            notice: match self.notice {
                Some(notice) => Some(notice@),
                None => None,
            },
            action: self.action@,
        }
    }
}

/// The scheduler's state, as mathematical values.
pub struct MonitorView {
    /// The event that the next step takes.
    pub awaiting: Awaiting,
    /// Where the authority is.
    pub api_url: Seq<char>,
    /// The credential seen at the last tick.
    pub credential: Seq<char>,
    /// The policy in force.
    pub policy: Seq<ForbiddenAppView>,
    /// When the last sync completed, in seconds since the epoch; 0 before the first.
    pub last_sync: u64,
    /// The process ids reported so far.
    pub reported: Set<u32>,
    /// The violations of the current scan that are still to be submitted.
    pub pending: Seq<ViolationView>,
}

/// The event that answers the last action, by its kind.
pub open spec fn awaited(event: Event) -> Awaiting {
    match event {
        Event::Tick { .. } => Awaiting::Tick,
        Event::Fetched { .. } => Awaiting::Fetched,
        Event::Stored { .. } => Awaiting::Stored,
        Event::Recalled { .. } => Awaiting::Recalled,
        Event::Inspected { .. } => Awaiting::Inspected,
        Event::Reported { .. } => Awaiting::Reported,
    }
}

/// The seconds that have passed since the last sync.
pub open spec fn elapsed_since(last_sync: u64, now: u64) -> int {
    if now >= last_sync {
        now - last_sync
    } else {
        ELAPSED_WHEN_UNKNOWN_SECS as int
    }
}

/// A sync is due when more than the sync interval has passed since the last one.
pub open spec fn sync_due(last_sync: u64, now: u64) -> bool {
    elapsed_since(last_sync, now) > SYNC_INTERVAL_SECS
}

/// The state that the scheduler is in.
pub open spec fn phase_of(state: MonitorView) -> Phase {
    match state.awaiting {
        Awaiting::Tick => if state.credential.len() == 0 {
            Phase::WaitingForCredential
        } else {
            Phase::Idle
        },
        Awaiting::Fetched | Awaiting::Stored | Awaiting::Recalled => Phase::Syncing,
        Awaiting::Inspected | Awaiting::Reported => Phase::Scanning,
    }
}

/// The state before the first tick.
pub open spec fn initial(api_url: Seq<char>) -> MonitorView {
    MonitorView {
        awaiting: Awaiting::Tick,
        api_url,
        credential: Seq::empty(),
        policy: Seq::empty(),
        last_sync: 0,
        reported: Set::empty(),
        pending: Seq::empty(),
    }
}

/// Starts the scan of this tick: inspect the processes if there is a policy to
/// hold them against, else skip the scan and wait for the next tick.
pub open spec fn start_scan(state: MonitorView, notice: Option<NoticeView>) -> (
    MonitorView,
    DirectiveView,
) {
    if state.policy.len() > 0 {
        (
            MonitorView { awaiting: Awaiting::Inspected, ..state },
            DirectiveView { notice, action: ActionView::Inspect },
        )
    } else {
        (
            MonitorView { awaiting: Awaiting::Tick, ..state },
            DirectiveView { notice, action: ActionView::Wait { seconds: SCAN_INTERVAL_SECS } },
        )
    }
}

/// Goes on with the report loop: submit the first pending violation, or, with
/// none left, wait for the next tick.
pub open spec fn next_report(state: MonitorView, notice: Option<NoticeView>) -> (
    MonitorView,
    DirectiveView,
) {
    if state.pending.len() > 0 {
        (
            MonitorView { awaiting: Awaiting::Reported, ..state },
            DirectiveView {
                notice,
                action: ActionView::Report {
                    request: alert_request_spec(state.api_url, state.credential),
                    violation: state.pending[0],
                },
            },
        )
    } else {
        (
            MonitorView { awaiting: Awaiting::Tick, ..state },
            DirectiveView { notice, action: ActionView::Wait { seconds: SCAN_INTERVAL_SECS } },
        )
    }
}

/// A tick: without a credential, back off; with one, sync if a sync is due,
/// else scan.
pub open spec fn on_tick(state: MonitorView, credential: Seq<char>, now: u64) -> (
    MonitorView,
    DirectiveView,
) {
    let seen = MonitorView { credential, ..state };
    if credential.len() == 0 {
        (
            MonitorView { awaiting: Awaiting::Tick, ..seen },
            DirectiveView {
                notice: None,
                action: ActionView::Wait { seconds: CREDENTIAL_BACKOFF_SECS },
            },
        )
    } else if sync_due(state.last_sync, now) {
        (
            MonitorView { awaiting: Awaiting::Fetched, ..seen },
            DirectiveView {
                notice: None,
                action: ActionView::Fetch {
                    request: forbidden_list_request_spec(state.api_url, credential),
                },
            },
        )
    } else {
        start_scan(seen, None)
    }
}

/// The authority's answer to the fetch: a fetched policy replaces the current
/// one and goes to the cache; a failed fetch turns to the cache.
pub open spec fn on_fetched(
    state: MonitorView,
    fetched: Result<Seq<ForbiddenAppView>, AgentError>,
    now: u64,
) -> (MonitorView, DirectiveView) {
    match fetched {
        Ok(apps) => (
            MonitorView { awaiting: Awaiting::Stored, policy: apps, ..state },
            DirectiveView {
                notice: None,
                action: ActionView::Store { cache: cache_record(apps, now) },
            },
        ),
        Err(_) => (
            MonitorView { awaiting: Awaiting::Recalled, ..state },
            DirectiveView { notice: None, action: ActionView::Recall },
        ),
    }
}

/// The end of a sync: the time is noted, the observer is told the size of the
/// policy, and the scan of this tick starts.
pub open spec fn finish_sync(state: MonitorView, now: u64) -> (MonitorView, DirectiveView) {
    start_scan(
        MonitorView { last_sync: now, ..state },
        Some(NoticeView::PolicyUpdated { count: state.policy.len() }),
    )
}

/// The cache has been read after a failed fetch: what it holds, or nothing,
/// becomes the policy, and the sync ends.
pub open spec fn on_recalled(state: MonitorView, fallback: Seq<ForbiddenAppView>, now: u64) -> (
    MonitorView,
    DirectiveView,
) {
    finish_sync(MonitorView { policy: fallback, ..state }, now)
}

/// The processes have been enumerated: the new violations among the matches
/// become pending, their process ids reported, and the report loop starts.
pub open spec fn on_inspected(
    state: MonitorView,
    processes: Seq<ProcessView>,
    device_id: Seq<char>,
) -> (MonitorView, DirectiveView) {
    let found = match_all(processes, state.policy, device_id);
    next_report(
        MonitorView {
            pending: new_violations(found, state.reported),
            reported: state.reported.union(pids_of(found)),
            ..state
        },
        None,
    )
}

/// The authority's answer to a submission: the observer is told of the
/// violation if it was accepted; either way the violation is done with and the
/// report loop goes on.
pub open spec fn on_reported(state: MonitorView, accepted: bool) -> (MonitorView, DirectiveView) {
    if state.pending.len() > 0 {
        next_report(
            MonitorView { pending: state.pending.skip(1), ..state },
            if accepted {
                Some(NoticeView::ViolationDetected { violation: state.pending[0] })
            } else {
                None
            },
        )
    } else {
        next_report(state, None)
    }
}

/// One step of the scheduler: the state and the directive that follow from a
/// state and the event it was waiting for, at the time `now` in seconds since
/// the epoch.
pub open spec fn step_spec(state: MonitorView, event: Event, now: u64) -> (
    MonitorView,
    DirectiveView,
) {
    match event {
        Event::Tick { credential } => on_tick(state, credential@, now),
        Event::Fetched { answer } => on_fetched(state, fetch_outcome(answer@), now),
        Event::Stored { written } => finish_sync(state, now),
        Event::Recalled { cached } => on_recalled(state, fallback_spec(cached@), now),
        Event::Inspected { processes, device_id } => on_inspected(
            state,
            processes_view(processes@),
            device_id@,
        ),
        Event::Reported { response } => on_reported(state, report_outcome(response) is Ok),
    }
}

/// The scheduler. It owns the policy in force, the time of the last sync and
/// the set of reported process ids, for the lifetime of the agent.
#[derive(Debug)]
pub struct MonitorState {
    awaiting: Awaiting,
    api_url: String,
    credential: String,
    policy: Vec<ForbiddenApp>,
    last_sync: u64,
    reported: ReportedPids,
    pending: Vec<ViolationReport>,
    cursor: usize,
}

impl View for MonitorState {
    type V = MonitorView;

    closed spec fn view(&self) -> MonitorView {
        MonitorView {
            awaiting: self.awaiting,
            api_url: self.api_url@,
            credential: self.credential@,
            policy: policy_view(self.policy@),
            last_sync: self.last_sync,
            reported: self.reported@,
            pending: if self.cursor <= self.pending.len() {
                violations_view(self.pending@).skip(self.cursor as int)
            } else {
                Seq::empty()
            },
        }
    }
}

impl MonitorState {
    /// The scheduler at the start of a run, for the authority at `api_url`: no
    /// credential, no policy, nothing reported, waiting for the first tick.
    pub fn new(api_url: String) -> (state: Self)
        ensures
            state@ == initial(api_url@),
    {
        let state = MonitorState {
            awaiting: Awaiting::Tick,
            api_url,
            credential: String::new(),
            policy: Vec::new(),
            last_sync: 0,
            reported: ReportedPids::new(),
            pending: Vec::new(),
            cursor: 0,
        };
        assert(state@.policy == Seq::<ForbiddenAppView>::empty());
        assert(state@.pending == Seq::<ViolationView>::empty());
        state
    }

    /// The state that the scheduler is in.
    pub fn phase(&self) -> (phase: Phase)
        ensures
            phase == phase_of(self@),
    {
        match self.awaiting {
            Awaiting::Tick => if self.credential.as_str().is_empty() {
                Phase::WaitingForCredential
            } else {
                Phase::Idle
            },
            Awaiting::Fetched | Awaiting::Stored | Awaiting::Recalled => Phase::Syncing,
            Awaiting::Inspected | Awaiting::Reported => Phase::Scanning,
        }
    }

    /// The kind of event that the next step takes.
    pub fn awaiting(&self) -> (awaiting: Awaiting)
        ensures
            awaiting == self@.awaiting,
    {
        self.awaiting
    }

    /// Whether `event` is the one that the next step takes.
    pub fn expects(&self, event: &Event) -> (expected: bool)
        ensures
            expected == (self@.awaiting == awaited(*event)),
    {
        match event {
            Event::Tick { .. } => self.awaiting == Awaiting::Tick,
            Event::Fetched { .. } => self.awaiting == Awaiting::Fetched,
            Event::Stored { .. } => self.awaiting == Awaiting::Stored,
            Event::Recalled { .. } => self.awaiting == Awaiting::Recalled,
            Event::Inspected { .. } => self.awaiting == Awaiting::Inspected,
            Event::Reported { .. } => self.awaiting == Awaiting::Reported,
        }
    }

    /// The policy in force.
    pub fn policy(&self) -> (policy: &Vec<ForbiddenApp>)
        ensures
            policy_view(policy@) == self@.policy,
    {
        &self.policy
    }

    /// When the last sync completed, in seconds since the epoch; 0 before the first.
    pub fn last_sync(&self) -> (last_sync: u64)
        ensures
            last_sync == self@.last_sync,
    {
        self.last_sync
    }

    /// Whether `process_id` has been reported during this run.
    pub fn has_reported(&self, process_id: u32) -> (reported: bool)
        ensures
            reported == self@.reported.contains(process_id),
    {
        self.reported.contains(process_id)
    }

    /// The number of violations of the current scan that are still to be submitted.
    pub fn pending_count(&self) -> (count: usize)
        ensures
            count == self@.pending.len(),
    {
        if self.cursor <= self.pending.len() {
            self.pending.len() - self.cursor
        } else {
            0
        }
    }

    /// Forgets every reported process id, for the cleanup of a long run. What
    /// is pending stays pending.
    pub fn clear_reported(&mut self)
        ensures
            final(self)@ == (MonitorView { reported: Set::empty(), ..old(self)@ }),
    {
        clear_reported_pids(&mut self.reported);
    }

    fn start_scan(&mut self, notice: Option<Notice>) -> (directive: Directive)
        ensures
            final(self)@ == start_scan(old(self)@, directive@.notice).0,
            directive@ == start_scan(old(self)@, directive@.notice).1,
            directive.notice == notice,
    {
        if self.policy.len() > 0 {
            self.awaiting = Awaiting::Inspected;
            Directive { notice, action: Action::Inspect }
        } else {
            self.awaiting = Awaiting::Tick;
            Directive { notice, action: Action::Wait { seconds: SCAN_INTERVAL_SECS } }
        }
    }

    fn next_report(&mut self, notice: Option<Notice>) -> (directive: Directive)
        ensures
            final(self)@ == next_report(old(self)@, directive@.notice).0,
            directive@ == next_report(old(self)@, directive@.notice).1,
            directive.notice == notice,
    {
        if self.cursor < self.pending.len() {
            self.awaiting = Awaiting::Reported;
            let request = alert_request(self.api_url.as_str(), self.credential.as_str());
            let violation = self.pending[self.cursor].clone();
            Directive { notice, action: Action::Report { request, violation } }
        } else {
            self.awaiting = Awaiting::Tick;
            Directive { notice, action: Action::Wait { seconds: SCAN_INTERVAL_SECS } }
        }
    }

    fn finish_sync(&mut self, now: u64) -> (directive: Directive)
        ensures
            final(self)@ == finish_sync(old(self)@, now).0,
            directive@ == finish_sync(old(self)@, now).1,
    {
        self.last_sync = now;
        let notice = Notice::PolicyUpdated { count: self.policy.len() };
        self.start_scan(Some(notice))
    }

    /// Takes the event that answers the last action, at the time `now` in
    /// seconds since the epoch, and decides what comes next.
    ///
    /// - A tick without a credential backs off; no sync and no scan happens.
    /// - A tick with a credential starts a sync if one is due, else the scan.
    /// - A sync replaces the policy by the fetched one, or by the cached one
    ///   where the fetch failed, and notes the time whatever the outcome.
    /// - A scan is skipped while the policy is empty. Otherwise each new
    ///   violation is submitted in turn; a failed submission is passed over and
    ///   the loop goes on with the next.
    ///
    /// The event is taken for what it is, also where it is not the one that
    /// [`MonitorState::expects`] asks for; what holds of every run is stated
    /// for runs in which each event answers the action before it.
    pub fn step(&mut self, event: Event, now: u64) -> (directive: Directive)
        ensures
            final(self)@ == step_spec(old(self)@, event, now).0,
            directive@ == step_spec(old(self)@, event, now).1,
    {
        match event {
            Event::Tick { credential } => {
                self.credential = credential;
                if self.credential.as_str().is_empty() {
                    self.awaiting = Awaiting::Tick;
                    Directive {
                        notice: None,
                        action: Action::Wait { seconds: CREDENTIAL_BACKOFF_SECS },
                    }
                } else {
                    let elapsed = if now >= self.last_sync {
                        now - self.last_sync
                    } else {
                        ELAPSED_WHEN_UNKNOWN_SECS
                    };
                    if elapsed > SYNC_INTERVAL_SECS {
                        self.awaiting = Awaiting::Fetched;
                        let request = forbidden_list_request(
                            self.api_url.as_str(),
                            self.credential.as_str(),
                        );
                        Directive { notice: None, action: Action::Fetch { request } }
                    } else {
                        self.start_scan(None)
                    }
                }
            },
            Event::Fetched { answer } => {
                match fetch_forbidden_list(answer) {
                    Ok(apps) => {
                        let cache = cache_to_disk(apps.as_slice(), now);
                        self.policy = apps;
                        self.awaiting = Awaiting::Stored;
                        Directive { notice: None, action: Action::Store { cache } }
                    },
                    Err(_) => {
                        self.awaiting = Awaiting::Recalled;
                        Directive { notice: None, action: Action::Recall }
                    },
                }
            },
            Event::Stored { written: _ } => self.finish_sync(now),
            Event::Recalled { cached } => {
                self.policy = fallback_policy(cached);
                self.finish_sync(now)
            },
            Event::Inspected { processes, device_id } => {
                let found = scan_processes(
                    processes.as_slice(),
                    self.policy.as_slice(),
                    device_id.as_str(),
                    &mut self.reported,
                );
                self.pending = found;
                self.cursor = 0;
                assert(violations_view(self.pending@).skip(0) == violations_view(self.pending@));
                self.next_report(None)
            },
            Event::Reported { response } => {
                if self.cursor < self.pending.len() {
                    let notice = match report_violation(response) {
                        Ok(_) => Some(
                            Notice::ViolationDetected {
                                violation: self.pending[self.cursor].clone(),
                            },
                        ),
                        Err(_) => None,
                    };
                    let ghost before = violations_view(self.pending@).skip(self.cursor as int);
                    self.cursor = self.cursor + 1;
                    assert(violations_view(self.pending@).skip(self.cursor as int)
                        == before.skip(1));
                    self.next_report(notice)
                } else {
                    self.next_report(None)
                }
            },
        }
    }
}

} // verus!
