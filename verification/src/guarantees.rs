//! What holds of every run of the scheduler, proved from its step function.

use crate::authority::{
    alert_request_spec, fetch_outcome, forbidden_list_request_spec, report_outcome, ReportResponse,
};
use crate::error::AgentError;
use crate::policy::{cache_record, CacheReadView, ForbiddenAppView};
use crate::scheduler::{
    awaited, initial, on_reported, phase_of, step_spec, sync_due, ActionView, Awaiting,
    DirectiveView, Event, MonitorView, NoticeView, Phase, CREDENTIAL_BACKOFF_SECS,
    SCAN_INTERVAL_SECS, SYNC_INTERVAL_SECS,
};
use vstd::prelude::*;

verus! {

/// What the scheduler's states have in common: work is under way only with a
/// credential, a scan only with a policy, and violations are pending only
/// while the report loop runs.
pub open spec fn consistent(state: MonitorView) -> bool {
    &&& state.awaiting != Awaiting::Tick ==> state.credential.len() > 0
    &&& (state.awaiting == Awaiting::Inspected || state.awaiting == Awaiting::Reported)
        ==> state.policy.len() > 0
    &&& state.awaiting == Awaiting::Reported <==> state.pending.len() > 0
}

/// The scheduler starts out waiting for a credential, in a consistent state.
pub proof fn lemma_initial_state(api_url: Seq<char>)
    ensures
        consistent(initial(api_url)),
        phase_of(initial(api_url)) == Phase::WaitingForCredential,
{
}

/// Every step leads from a consistent state to a consistent state, and leaves
/// the address of the authority as it was.
pub proof fn lemma_step_keeps_consistent(state: MonitorView, event: Event, now: u64)
    requires
        consistent(state),
        state.awaiting == awaited(event),
    ensures
        consistent(step_spec(state, event, now).0),
        step_spec(state, event, now).0.api_url == state.api_url,
{
}

/// While the credential store is empty, a tick does nothing but back off: no
/// sync and no scan is started, and the policy, the time of the last sync and
/// the reported process ids stay as they are.
pub proof fn lemma_no_credential_no_work(state: MonitorView, event: Event, now: u64)
    requires
        event matches Event::Tick { credential } && credential@.len() == 0,
    ensures
        step_spec(state, event, now).1 == (DirectiveView {
            notice: None,
            action: ActionView::Wait { seconds: CREDENTIAL_BACKOFF_SECS },
        }),
        phase_of(step_spec(state, event, now).0) == Phase::WaitingForCredential,
        step_spec(state, event, now).0.policy == state.policy,
        step_spec(state, event, now).0.last_sync == state.last_sync,
        step_spec(state, event, now).0.reported == state.reported,
        step_spec(state, event, now).0.pending == state.pending,
{
}

/// Once the credential store holds a credential, the next tick proceeds: to a
/// sync if one is due; else to a scan if the policy is not empty; else it
/// waits for the next tick. No notice is sent.
pub proof fn lemma_credential_starts_work(state: MonitorView, event: Event, now: u64)
    requires
        event matches Event::Tick { credential } && credential@.len() > 0,
    ensures
        step_spec(state, event, now).1.notice is None,
        step_spec(state, event, now).1.action == if sync_due(state.last_sync, now) {
            ActionView::Fetch {
                request: forbidden_list_request_spec(state.api_url, event->credential@),
            }
        } else if state.policy.len() > 0 {
            ActionView::Inspect
        } else {
            ActionView::Wait { seconds: SCAN_INTERVAL_SECS }
        },
        phase_of(step_spec(state, event, now).0) == if sync_due(state.last_sync, now) {
            Phase::Syncing
        } else if state.policy.len() > 0 {
            Phase::Scanning
        } else {
            Phase::Idle
        },
        step_spec(state, event, now).0.credential == event->credential@,
{
}

/// No step takes a process id out of the set of reported ones.
pub proof fn lemma_reported_only_grows(state: MonitorView, event: Event, now: u64)
    ensures
        state.reported.subset_of(step_spec(state, event, now).0.reported),
{
}

/// A fetched policy is put in force and handed to the cache as it is, stamped
/// with the time of the step.
pub proof fn lemma_fetched_policy_is_stored(
    state: MonitorView,
    event: Event,
    apps: Seq<ForbiddenAppView>,
    now: u64,
)
    requires
        event matches Event::Fetched { answer } && fetch_outcome(answer@) == Ok::<
            Seq<ForbiddenAppView>,
            AgentError,
        >(apps),
    ensures
        step_spec(state, event, now).0.policy == apps,
        step_spec(state, event, now).1 == (DirectiveView {
            notice: None,
            action: ActionView::Store { cache: cache_record(apps, now) },
        }),
{
}

/// When a fetch fails while the cache still holds the record of an earlier
/// sync, the policy in force after the sync is exactly the one of that record.
pub proof fn lemma_failed_fetch_falls_back(
    state: MonitorView,
    failed: Event,
    recalled: Event,
    apps: Seq<ForbiddenAppView>,
    stored_at: u64,
    now: u64,
    later: u64,
)
    requires
        failed matches Event::Fetched { answer } && fetch_outcome(answer@) is Err,
        recalled matches Event::Recalled { cached } && cached@ == CacheReadView::Loaded(
            cache_record(apps, stored_at),
        ),
    ensures
        step_spec(state, failed, now).1 == (DirectiveView {
            notice: None,
            action: ActionView::Recall,
        }),
        step_spec(state, failed, now).0.awaiting == awaited(recalled),
        step_spec(step_spec(state, failed, now).0, recalled, later).0.policy == apps,
        step_spec(step_spec(state, failed, now).0, recalled, later).1.notice == Some(
            NoticeView::PolicyUpdated { count: apps.len() },
        ),
{
}

/// The policy of the last successful sync survives an outage: where the cache
/// holds the record that the sync handed to it, a later sync whose fetch fails
/// puts exactly that policy in force again.
pub proof fn lemma_policy_survives_outage(
    earlier: MonitorView,
    success: Event,
    stored_at: u64,
    state: MonitorView,
    failed: Event,
    recalled: Event,
    now: u64,
    later: u64,
)
    requires
        success matches Event::Fetched { answer } && fetch_outcome(answer@) is Ok,
        failed matches Event::Fetched { answer } && fetch_outcome(answer@) is Err,
        recalled matches Event::Recalled { cached } && step_spec(
            earlier,
            success,
            stored_at,
        ).1.action == (ActionView::Store { cache: cached@->Loaded_0 }) && cached@ is Loaded,
    ensures
        step_spec(step_spec(state, failed, now).0, recalled, later).0.policy == step_spec(
            earlier,
            success,
            stored_at,
        ).0.policy,
{
}

/// A sync notes its time whether the policy came from the authority or from
/// the cache, and whether or not the cache could be written; no tick within
/// the sync interval after it starts another sync.
pub proof fn lemma_sync_is_not_repeated_early(
    state: MonitorView,
    event: Event,
    now: u64,
    tick: Event,
    later: u64,
)
    requires
        event is Stored || event is Recalled,
        tick is Tick,
        now <= later <= now + SYNC_INTERVAL_SECS,
    ensures
        step_spec(state, event, now).0.last_sync == now,
        step_spec(state, event, now).1.notice == Some(
            NoticeView::PolicyUpdated { count: step_spec(state, event, now).0.policy.len() },
        ),
        !(step_spec(step_spec(state, event, now).0, tick, later).1.action is Fetch),
{
}

/// Whether the cache record could be written makes no difference to a sync.
pub proof fn lemma_cache_write_is_best_effort(state: MonitorView, now: u64)
    ensures
        step_spec(state, Event::Stored { written: true }, now) == step_spec(
            state,
            Event::Stored { written: false },
            now,
        ),
{
}

/// While the policy is empty no scan is started and nothing is reported.
pub proof fn lemma_empty_policy_skips_scan(state: MonitorView, event: Event, now: u64)
    requires
        state.policy.len() == 0,
        event is Tick || event is Stored,
    ensures
        !(step_spec(state, event, now).1.action is Inspect),
        !(step_spec(state, event, now).1.action is Report),
{
}

/// The answer to a submission, accepted or not, is followed by the submission
/// of the next pending violation; the wait for the next tick comes only after
/// the last. The observer hears of the violation exactly when it was accepted.
pub proof fn lemma_failed_report_does_not_stop_the_loop(
    state: MonitorView,
    event: Event,
    now: u64,
)
    requires
        state.pending.len() > 0,
        event is Reported,
    ensures
        step_spec(state, event, now).0.pending == state.pending.skip(1),
        step_spec(state, event, now).1.action == if state.pending.len() > 1 {
            ActionView::Report {
                request: alert_request_spec(state.api_url, state.credential),
                violation: state.pending[1],
            }
        } else {
            ActionView::Wait { seconds: SCAN_INTERVAL_SECS }
        },
        step_spec(state, event, now).1.notice == if report_outcome(event->Reported_response)
            is Ok {
            Some(NoticeView::ViolationDetected { violation: state.pending[0] })
        } else {
            None
        },
{
}

/// The state and the directives that a series of answers to submissions leads to.
pub open spec fn after_reports(state: MonitorView, answers: Seq<ReportResponse>) -> (
    MonitorView,
    Seq<DirectiveView>,
)
    decreases answers.len(),
{
    if answers.len() == 0 {
        (state, Seq::empty())
    } else {
        let (reached, directives) = after_reports(state, answers.drop_last());
        let (next, directive) = on_reported(reached, report_outcome(answers.last()) is Ok);
        (next, directives.push(directive))
    }
}

/// Every pending violation is submitted, in order, whatever the answers to the
/// ones before it; the observer is told of exactly those that were accepted,
/// in the same order; and after the last answer the scheduler waits for the
/// next tick.
pub proof fn lemma_every_violation_is_attempted(state: MonitorView, answers: Seq<ReportResponse>)
    requires
        answers.len() <= state.pending.len(),
    ensures
        after_reports(state, answers).0.pending == state.pending.skip(answers.len() as int),
        after_reports(state, answers).0.reported == state.reported,
        after_reports(state, answers).0.policy == state.policy,
        after_reports(state, answers).1.len() == answers.len(),
        forall|k: int|
            0 <= k < answers.len() ==> (#[trigger] after_reports(state, answers).1[k]).notice
                == if report_outcome(answers[k]) is Ok {
                Some(NoticeView::ViolationDetected { violation: state.pending[k] })
            } else {
                None
            },
        forall|k: int|
            0 <= k < answers.len() ==> (#[trigger] after_reports(state, answers).1[k]).action
                == if k + 1 < state.pending.len() {
                ActionView::Report {
                    request: alert_request_spec(state.api_url, state.credential),
                    violation: state.pending[k + 1],
                }
            } else {
                ActionView::Wait { seconds: SCAN_INTERVAL_SECS }
            },
    decreases answers.len(),
{
    if answers.len() == 0 {
        assert(state.pending.skip(0) == state.pending);
    } else {
        let earlier = answers.drop_last();
        lemma_every_violation_is_attempted(state, earlier);
        let (reached, directives) = after_reports(state, earlier);
        let done = earlier.len() as int;
        assert(reached.pending == state.pending.skip(done));
        assert(reached.pending.len() > 0);
        assert(reached.pending[0] == state.pending[done]);
        assert(reached.pending.skip(1) == state.pending.skip(done + 1));
        assert(reached.api_url == state.api_url && reached.credential == state.credential) by {
            lemma_reports_keep_the_request(state, earlier);
        }
        let all = after_reports(state, answers).1;
        assert forall|k: int| 0 <= k < answers.len() implies (#[trigger] all[k]).notice
            == if report_outcome(answers[k]) is Ok {
            Some(NoticeView::ViolationDetected { violation: state.pending[k] })
        } else {
            None
        } by {
            if k < done {
                assert(all[k] == directives[k]);
                assert(answers[k] == earlier[k]);
            }
        }
        assert forall|k: int| 0 <= k < answers.len() implies (#[trigger] all[k]).action == if k
            + 1 < state.pending.len() {
            ActionView::Report {
                request: alert_request_spec(state.api_url, state.credential),
                violation: state.pending[k + 1],
            }
        } else {
            ActionView::Wait { seconds: SCAN_INTERVAL_SECS }
        } by {
            if k < done {
                assert(all[k] == directives[k]);
            } else {
                if done + 1 < state.pending.len() {
                    assert(state.pending.skip(done + 1)[0] == state.pending[done + 1]);
                }
            }
        }
    }
}

/// The answers to submissions change neither the address of the authority nor
/// the credential in use.
pub proof fn lemma_reports_keep_the_request(state: MonitorView, answers: Seq<ReportResponse>)
    ensures
        after_reports(state, answers).0.api_url == state.api_url,
        after_reports(state, answers).0.credential == state.credential,
    decreases answers.len(),
{
    if answers.len() > 0 {
        lemma_reports_keep_the_request(state, answers.drop_last());
    }
}

} // verus!
