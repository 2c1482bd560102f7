//! Matching of running processes against the policy.

use crate::policy::{policy_view, ForbiddenApp, ForbiddenAppView};
use vstd::prelude::*;

verus! {

/// One running process, as seen at the moment of a scan.
#[derive(Debug)]
pub struct ProcessSnapshot {
    pub process_id: u32,
    pub process_name: String,
}

/// What a [`ProcessSnapshot`] says, as mathematical values.
pub struct ProcessView {
    pub process_id: u32,
    pub process_name: Seq<char>,
}

impl View for ProcessSnapshot {
    type V = ProcessView;

    open spec fn view(&self) -> ProcessView {
        ProcessView { process_id: self.process_id, process_name: self.process_name@ }
    }
}

impl Clone for ProcessSnapshot {
    fn clone(&self) -> (copy: Self)
        ensures
            copy == *self,
    {
        ProcessSnapshot { process_id: self.process_id, process_name: self.process_name.clone() }
    }
}

/// A detected instance of a running process that matches a rule of the policy.
#[derive(Debug)]
pub struct ViolationReport {
    pub device_id: String,
    pub app_detected: String,
    pub severity: String,
    pub process_id: u32,
}

/// What a [`ViolationReport`] says, as mathematical values.
pub struct ViolationView {
    pub device_id: Seq<char>,
    pub app_detected: Seq<char>,
    pub severity: Seq<char>,
    pub process_id: u32,
}

impl View for ViolationReport {
    type V = ViolationView;

    open spec fn view(&self) -> ViolationView {
        ViolationView {
            device_id: self.device_id@,
            app_detected: self.app_detected@,
            severity: self.severity@,
            process_id: self.process_id,
        }
    }
}

impl Clone for ViolationReport {
    fn clone(&self) -> (copy: Self)
        ensures
            copy == *self,
    {
        ViolationReport {
            device_id: self.device_id.clone(),
            app_detected: self.app_detected.clone(),
            severity: self.severity.clone(),
            process_id: self.process_id,
        }
    }
}

/// The processes of a snapshot, in order, as mathematical values.
pub open spec fn processes_view(processes: Seq<ProcessSnapshot>) -> Seq<ProcessView> {
    processes.map_values(|process: ProcessSnapshot| process@)
}

/// A list of violations, in order, as mathematical values.
pub open spec fn violations_view(violations: Seq<ViolationReport>) -> Seq<ViolationView> {
    violations.map_values(|violation: ViolationReport| violation@)
}

/// The lower-case form of a string, as `str::to_lowercase` computes it.
pub uninterp spec fn lowercase(s: Seq<char>) -> Seq<char>;

/// `needle` stands in `hay` at position `at`.
pub open spec fn occurs_at(hay: Seq<char>, needle: Seq<char>, at: int) -> bool {
    &&& 0 <= at
    &&& at + needle.len() <= hay.len()
    &&& hay.subrange(at, at + needle.len()) == needle
}

/// `needle` is a contiguous part of `hay`.
pub open spec fn contains_seq(hay: Seq<char>, needle: Seq<char>) -> bool {
    exists|at: int| occurs_at(hay, needle, at)
}

/// A process name matches a pattern when, both taken in lower case, the name
/// contains the pattern.
pub open spec fn is_match(process_name: Seq<char>, pattern: Seq<char>) -> bool {
    contains_seq(lowercase(process_name), lowercase(pattern))
}

/// The violation that a match of `process` against `app` gives rise to.
pub open spec fn violation_for(
    process: ProcessView,
    app: ForbiddenAppView,
    device_id: Seq<char>,
) -> ViolationView {
    ViolationView {
        device_id,
        app_detected: lowercase(process.process_name),
        severity: app.severity,
        process_id: process.process_id,
    }
}

/// The violations of one process: one for each rule it matches, in policy order.
pub open spec fn matches_of(
    process: ProcessView,
    policy: Seq<ForbiddenAppView>,
    device_id: Seq<char>,
) -> Seq<ViolationView> {
    policy.filter(|app: ForbiddenAppView| is_match(process.process_name, app.process_name))
        .map_values(|app: ForbiddenAppView| violation_for(process, app, device_id))
}

/// The violations of a snapshot: those of each process, in snapshot order.
pub open spec fn match_all(
    processes: Seq<ProcessView>,
    policy: Seq<ForbiddenAppView>,
    device_id: Seq<char>,
) -> Seq<ViolationView> {
    processes.map_values(|process: ProcessView| matches_of(process, policy, device_id)).flatten()
}

/// Calls `str::to_lowercase`. The contract names its result: the lower-case form
/// of a string depends on the string alone.
#[verifier::external_body]
fn to_lowercase(s: &str) -> (lowered: String)
    ensures
        lowered@ == lowercase(s@),
{
    s.to_lowercase()
}

/// Calls `str::contains` with a string pattern: true exactly when the pattern
/// matches a contiguous part of the string.
#[verifier::external_body]
fn str_contains(hay: &str, needle: &str) -> (found: bool)
    ensures
        found == contains_seq(hay@, needle@),
{
    hay.contains(needle)
}

/// Adding a rule at the end of the policy adds its violation, if it matches, at
/// the end of the process's violations.
pub proof fn lemma_matches_of_push(
    process: ProcessView,
    policy: Seq<ForbiddenAppView>,
    app: ForbiddenAppView,
    device_id: Seq<char>,
)
    ensures
        matches_of(process, policy.push(app), device_id) == if is_match(
            process.process_name,
            app.process_name,
        ) {
            matches_of(process, policy, device_id).push(violation_for(process, app, device_id))
        } else {
            matches_of(process, policy, device_id)
        },
{
    reveal(Seq::filter);
    let pred = |a: ForbiddenAppView| is_match(process.process_name, a.process_name);
    assert(policy.push(app).drop_last() == policy);
    assert(policy.push(app).last() == app);
    assert(policy.push(app).filter(pred) == if pred(app) {
        policy.filter(pred).push(app)
    } else {
        policy.filter(pred)
    });
}

/// Adding a process at the end of the snapshot adds its violations at the end.
pub proof fn lemma_match_all_push(
    processes: Seq<ProcessView>,
    process: ProcessView,
    policy: Seq<ForbiddenAppView>,
    device_id: Seq<char>,
)
    ensures
        match_all(processes.push(process), policy, device_id) == match_all(
            processes,
            policy,
            device_id,
        ) + matches_of(process, policy, device_id),
{
    let per_process = |p: ProcessView| matches_of(p, policy, device_id);
    assert(processes.push(process).map_values(per_process) == processes.map_values(
        per_process,
    ).push(matches_of(process, policy, device_id)));
    processes.map_values(per_process).lemma_flatten_push(matches_of(process, policy, device_id));
}

/// The violation `violation` is that of `process` against the rule at `at`,
/// which it matches.
pub open spec fn stems_from(
    violation: ViolationView,
    process: ProcessView,
    policy: Seq<ForbiddenAppView>,
    device_id: Seq<char>,
    at: int,
) -> bool {
    &&& 0 <= at < policy.len()
    &&& is_match(process.process_name, policy[at].process_name)
    &&& violation == violation_for(process, policy[at], device_id)
}

/// The violations of a process are those of the rules that it matches: each
/// stems from such a rule, and each such rule has its violation.
pub proof fn lemma_matches_of_is_exact(
    process: ProcessView,
    policy: Seq<ForbiddenAppView>,
    device_id: Seq<char>,
)
    ensures
        forall|violation: ViolationView| #[trigger]
            matches_of(process, policy, device_id).contains(violation) <==> exists|at: int|
                stems_from(violation, process, policy, device_id, at),
    decreases policy.len(),
{
    let found = matches_of(process, policy, device_id);
    if policy.len() == 0 {
        reveal(Seq::filter);
        assert(found.len() == 0);
    } else {
        let init = policy.drop_last();
        let last = policy.last();
        let before = matches_of(process, init, device_id);
        lemma_matches_of_is_exact(process, init, device_id);
        lemma_matches_of_push(process, init, last, device_id);
        assert(init.push(last) == policy);
        let hit = is_match(process.process_name, last.process_name);
        assert forall|violation: ViolationView| #[trigger]
            found.contains(violation) <==> exists|at: int|
                stems_from(violation, process, policy, device_id, at) by {
            if found.contains(violation) {
                let k = choose|k: int| 0 <= k < found.len() && found[k] == violation;
                if k < before.len() {
                    assert(before[k] == violation);
                    assert(before.contains(violation));
                    let at = choose|at: int| stems_from(violation, process, init, device_id, at);
                    assert(stems_from(violation, process, policy, device_id, at));
                } else {
                    assert(hit);
                    assert(stems_from(violation, process, policy, device_id, policy.len() - 1));
                }
            }
            if exists|at: int| stems_from(violation, process, policy, device_id, at) {
                let at = choose|at: int| stems_from(violation, process, policy, device_id, at);
                if at < init.len() {
                    assert(stems_from(violation, process, init, device_id, at));
                    assert(before.contains(violation));
                    let k = choose|k: int| 0 <= k < before.len() && before[k] == violation;
                    assert(found[k] == violation);
                } else {
                    assert(found[before.len() as int] == violation);
                }
            }
        }
    }
}

/// The violations of a snapshot are exactly those of its processes against the
/// rules they match: nothing else is in the result, and none of them is missing.
pub proof fn lemma_match_all_is_exact(
    processes: Seq<ProcessView>,
    policy: Seq<ForbiddenAppView>,
    device_id: Seq<char>,
)
    ensures
        forall|violation: ViolationView| #[trigger]
            match_all(processes, policy, device_id).contains(violation) <==> exists|
                i: int,
                at: int,
            |
                0 <= i < processes.len() && #[trigger] stems_from(
                    violation,
                    processes[i],
                    policy,
                    device_id,
                    at,
                ),
    decreases processes.len(),
{
    let found = match_all(processes, policy, device_id);
    if processes.len() == 0 {
        assert(processes.map_values(|p: ProcessView| matches_of(p, policy, device_id))
            == Seq::<Seq<ViolationView>>::empty());
        assert(found.len() == 0);
    } else {
        let init = processes.drop_last();
        let last = processes.last();
        let before = match_all(init, policy, device_id);
        let added = matches_of(last, policy, device_id);
        lemma_match_all_is_exact(init, policy, device_id);
        lemma_matches_of_is_exact(last, policy, device_id);
        lemma_match_all_push(init, last, policy, device_id);
        assert(init.push(last) == processes);
        assert(found == before + added);
        assert forall|violation: ViolationView| #[trigger]
            found.contains(violation) <==> exists|i: int, at: int|
                0 <= i < processes.len() && #[trigger] stems_from(
                    violation,
                    processes[i],
                    policy,
                    device_id,
                    at,
                ) by {
            if found.contains(violation) {
                let k = choose|k: int| 0 <= k < found.len() && found[k] == violation;
                if k < before.len() {
                    assert(before[k] == violation);
                    assert(before.contains(violation));
                    let (i, at) = choose|i: int, at: int|
                        0 <= i < init.len() && #[trigger] stems_from(
                            violation,
                            init[i],
                            policy,
                            device_id,
                            at,
                        );
                    assert(stems_from(violation, processes[i], policy, device_id, at));
                } else {
                    assert(added[k - before.len()] == violation);
                    assert(added.contains(violation));
                    let at = choose|at: int| stems_from(violation, last, policy, device_id, at);
                    assert(stems_from(
                        violation,
                        processes[processes.len() - 1],
                        policy,
                        device_id,
                        at,
                    ));
                }
            }
            if exists|i: int, at: int|
                0 <= i < processes.len() && #[trigger] stems_from(
                    violation,
                    processes[i],
                    policy,
                    device_id,
                    at,
                ) {
                let (i, at) = choose|i: int, at: int|
                    0 <= i < processes.len() && #[trigger] stems_from(
                        violation,
                        processes[i],
                        policy,
                        device_id,
                        at,
                    );
                if i < init.len() {
                    assert(stems_from(violation, init[i], policy, device_id, at));
                    assert(before.contains(violation));
                    let k = choose|k: int| 0 <= k < before.len() && before[k] == violation;
                    assert(found[k] == violation);
                } else {
                    assert(stems_from(violation, last, policy, device_id, at));
                    assert(added.contains(violation));
                    let k = choose|k: int| 0 <= k < added.len() && added[k] == violation;
                    assert(found[before.len() + k] == violation);
                }
            }
        }
    }
}

/// Decides one pair of a process and a rule, both names already in lower case:
/// the violation, if the name contains the pattern.
pub fn detect(
    process_id: u32,
    lowered_name: &str,
    lowered_pattern: &str,
    severity: &str,
    device_id: &str,
) -> (found: Option<ViolationReport>)
    ensures
        found is Some <==> contains_seq(lowered_name@, lowered_pattern@),
        found matches Some(violation) ==> violation@ == (ViolationView {
            device_id: device_id@,
            app_detected: lowered_name@,
            severity: severity@,
            process_id,
        }),
{
    if str_contains(lowered_name, lowered_pattern) {
        Some(
            ViolationReport {
                device_id: device_id.to_owned(),
                app_detected: lowered_name.to_owned(),
                severity: severity.to_owned(),
                process_id,
            },
        )
    } else {
        None
    }
}

/// The violations of one process against the policy, in policy order.
pub fn match_process(process: &ProcessSnapshot, policy: &[ForbiddenApp], device_id: &str) -> (found:
    Vec<ViolationReport>)
    ensures
        violations_view(found@) == matches_of(process@, policy_view(policy@), device_id@),
{
    let lowered_name = to_lowercase(process.process_name.as_str());
    let mut found: Vec<ViolationReport> = Vec::new();
    let mut j: usize = 0;
    assert(policy_view(policy@.take(0)) == Seq::<ForbiddenAppView>::empty());
    assert(violations_view(found@) == Seq::<ViolationView>::empty());
    proof {
        reveal(Seq::filter);
    }
    while j < policy.len()
        invariant
            j <= policy.len(),
            lowered_name@ == lowercase(process.process_name@),
            violations_view(found@) == matches_of(
                process@,
                policy_view(policy@.take(j as int)),
                device_id@,
            ),
        decreases policy.len() - j,
    {
        let app = &policy[j];
        let lowered_pattern = to_lowercase(app.process_name.as_str());
        proof {
            assert(policy@.take(j + 1) == policy@.take(j as int).push(policy@[j as int]));
            assert(policy_view(policy@.take(j + 1)) == policy_view(policy@.take(j as int)).push(
                app@,
            ));
            lemma_matches_of_push(
                process@,
                policy_view(policy@.take(j as int)),
                app@,
                device_id@,
            );
        }
        match detect(
            process.process_id,
            lowered_name.as_str(),
            lowered_pattern.as_str(),
            app.severity.as_str(),
            device_id,
        ) {
            Some(violation) => {
                let ghost before = found@;
                found.push(violation);
                assert(violations_view(found@) == violations_view(before).push(violation@));
            },
            None => {},
        }
        j += 1;
    }
    assert(policy@.take(policy.len() as int) == policy@);
    found
}

/// Evaluates every process of a snapshot against every rule of the policy. A
/// process that matches several rules gives one violation for each; the result
/// is in snapshot order, then policy order.
pub fn match_processes(
    processes: &[ProcessSnapshot],
    policy: &[ForbiddenApp],
    device_id: &str,
) -> (violations: Vec<ViolationReport>)
    ensures
        violations_view(violations@) == match_all(
            processes_view(processes@),
            policy_view(policy@),
            device_id@,
        ),
{
    let mut violations: Vec<ViolationReport> = Vec::new();
    let mut i: usize = 0;
    assert(processes_view(processes@.take(0)) == Seq::<ProcessView>::empty());
    assert(violations_view(violations@) == Seq::<ViolationView>::empty());
    assert(match_all(Seq::<ProcessView>::empty(), policy_view(policy@), device_id@)
        == Seq::<ViolationView>::empty()) by {
        assert(Seq::<ProcessView>::empty().map_values(
            |process: ProcessView| matches_of(process, policy_view(policy@), device_id@),
        ) == Seq::<Seq<ViolationView>>::empty());
    }
    while i < processes.len()
        invariant
            i <= processes.len(),
            violations_view(violations@) == match_all(
                processes_view(processes@.take(i as int)),
                policy_view(policy@),
                device_id@,
            ),
        decreases processes.len() - i,
    {
        let mut found = match_process(&processes[i], policy, device_id);
        proof {
            assert(processes@.take(i + 1) == processes@.take(i as int).push(processes@[i as int]));
            assert(processes_view(processes@.take(i + 1)) == processes_view(
                processes@.take(i as int),
            ).push(processes@[i as int]@));
            lemma_match_all_push(
                processes_view(processes@.take(i as int)),
                processes@[i as int]@,
                policy_view(policy@),
                device_id@,
            );
        }
        let ghost before = violations@;
        let ghost added = found@;
        violations.append(&mut found);
        assert(violations@ == before + added);
        assert(violations_view(violations@) == violations_view(before) + violations_view(added));
        i += 1;
    }
    assert(processes@.take(processes.len() as int) == processes@);
    violations
}

} // verus!
