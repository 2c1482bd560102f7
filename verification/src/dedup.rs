//! Suppression of repeated alerts: the set of process ids already reported
//! during this run of the agent.

use crate::matcher::{violations_view, ViolationReport, ViolationView};
use std::collections::HashSet;
use vstd::prelude::*;

verus! {

broadcast use vstd::std_specs::hash::group_hash_axioms;

/// The process ids that occur in a list of violations.
pub open spec fn pids_of(violations: Seq<ViolationView>) -> Set<u32> {
    Set::new(
        |pid: u32|
            exists|i: int| 0 <= i < violations.len() && (#[trigger] violations[i]).process_id == pid,
    )
}

/// The new violations of a list, in order: those whose process id is not among
/// the reported ones. Several violations of one process are all new, or none is.
pub open spec fn new_violations(violations: Seq<ViolationView>, reported: Set<u32>) -> Seq<
    ViolationView,
> {
    violations.filter(|violation: ViolationView| !reported.contains(violation.process_id))
}

/// The process ids already surfaced as a violation. It grows with every
/// filtered list and shrinks only by [`ReportedPids::clear`]; it is never stored.
#[derive(Debug)]
pub struct ReportedPids {
    pids: HashSet<u32>,
}

impl View for ReportedPids {
    type V = Set<u32>;

    closed spec fn view(&self) -> Set<u32> {
        self.pids@
    }
}

impl ReportedPids {
    /// The empty set, as at the start of a run.
    pub fn new() -> (reported: Self)
        ensures
            reported@ == Set::<u32>::empty(),
    {
        ReportedPids { pids: HashSet::new() }
    }

    /// Whether `process_id` has been reported already.
    pub fn contains(&self, process_id: u32) -> (found: bool)
        ensures
            found == self@.contains(process_id),
    {
        self.pids.contains(&process_id)
    }

    /// Returns the violations of `violations` whose process id was not reported
    /// before this call, in order, and marks the process ids of the list as
    /// reported. Several violations of one process that was not reported
    /// before are all returned; no later call returns any of that process.
    pub fn filter_new(&mut self, violations: Vec<ViolationReport>) -> (fresh: Vec<ViolationReport>)
        ensures
            violations_view(fresh@) == new_violations(violations_view(violations@), old(self)@),
            final(self)@ == old(self)@.union(pids_of(violations_view(violations@))),
    {
        let ghost all = violations_view(violations@);
        let ghost before = self@;
        let mut fresh: Vec<ViolationReport> = Vec::new();
        let mut i: usize = 0;
        proof {
            reveal(Seq::filter);
            assert(violations_view(fresh@) == Seq::<ViolationView>::empty());
        }
        while i < violations.len()
            invariant
                i <= violations.len(),
                all == violations_view(violations@),
                self@ == before,
                violations_view(fresh@) == new_violations(all.take(i as int), before),
            decreases violations.len() - i,
        {
            let violation = &violations[i];
            proof {
                lemma_new_violations_push(all.take(i as int), violation@, before);
                assert(all.take(i + 1) == all.take(i as int).push(violation@));
            }
            if !self.pids.contains(&violation.process_id) {
                let ghost kept = fresh@;
                fresh.push(violation.clone());
                assert(violations_view(fresh@) == violations_view(kept).push(violation@));
            }
            i += 1;
        }
        assert(all.take(violations.len() as int) == all);
        let mut j: usize = 0;
        assert(self@ == before.union(pids_of(all.take(0))));
        while j < violations.len()
            invariant
                j <= violations.len(),
                all == violations_view(violations@),
                self@ == before.union(pids_of(all.take(j as int))),
            decreases violations.len() - j,
        {
            proof {
                lemma_pids_of_push(all.take(j as int), violations[j as int]@);
                assert(all.take(j + 1) == all.take(j as int).push(violations[j as int]@));
            }
            self.pids.insert(violations[j].process_id);
            j += 1;
        }
        fresh
    }

    /// Empties the set.
    pub fn clear(&mut self)
        ensures
            final(self)@ == Set::<u32>::empty(),
    {
        self.pids.clear();
    }
}

/// Empties the set of reported process ids, for periodic cleanup.
pub fn clear_reported_pids(reported: &mut ReportedPids)
    ensures
        final(reported)@ == Set::<u32>::empty(),
{
    reported.clear();
}

/// The process ids of a list with one more violation at its end.
pub proof fn lemma_pids_of_push(violations: Seq<ViolationView>, last: ViolationView)
    ensures
        pids_of(violations.push(last)) == pids_of(violations).insert(last.process_id),
{
    let longer = violations.push(last);
    assert forall|pid: u32| pids_of(longer).contains(pid) <==> pids_of(violations).insert(
        last.process_id,
    ).contains(pid) by {
        if pids_of(longer).contains(pid) {
            let i = choose|i: int| 0 <= i < longer.len() && longer[i].process_id == pid;
            if i < violations.len() {
                assert(violations[i].process_id == pid);
            }
        }
        if pids_of(violations).contains(pid) {
            let i = choose|i: int| 0 <= i < violations.len() && violations[i].process_id == pid;
            assert(longer[i].process_id == pid);
        }
        if pid == last.process_id {
            assert(longer[violations.len() as int].process_id == pid);
        }
    }
}

/// The new violations of a list with one more violation at its end: that one
/// is added exactly when its process id is not among the reported ones.
pub proof fn lemma_new_violations_push(
    violations: Seq<ViolationView>,
    last: ViolationView,
    reported: Set<u32>,
)
    ensures
        new_violations(violations.push(last), reported) == if reported.contains(last.process_id) {
            new_violations(violations, reported)
        } else {
            new_violations(violations, reported).push(last)
        },
{
    reveal(Seq::filter);
    assert(violations.push(last).drop_last() == violations);
}

/// The set of reported process ids after a series of filtered lists.
pub open spec fn reported_after(reported: Set<u32>, batches: Seq<Seq<ViolationView>>) -> Set<u32>
    decreases batches.len(),
{
    if batches.len() == 0 {
        reported
    } else {
        reported_after(reported, batches.drop_last()).union(pids_of(batches.last()))
    }
}

/// No new violation carries a process id that was reported before, and each
/// carries one of the list.
pub proof fn lemma_new_violations_are_new(violations: Seq<ViolationView>, reported: Set<u32>)
    ensures
        forall|i: int|
            0 <= i < new_violations(violations, reported).len() ==> {
                let pid = (#[trigger] new_violations(violations, reported)[i]).process_id;
                !reported.contains(pid) && pids_of(violations).contains(pid)
            },
    decreases violations.len(),
{
    if violations.len() == 0 {
        reveal(Seq::filter);
    } else {
        let earlier = violations.drop_last();
        let last = violations.last();
        let kept = new_violations(earlier, reported);
        let fresh = new_violations(violations, reported);
        lemma_new_violations_are_new(earlier, reported);
        lemma_pids_of_push(earlier, last);
        lemma_new_violations_push(earlier, last, reported);
        assert(earlier.push(last) == violations);
        assert forall|i: int| 0 <= i < fresh.len() implies {
            let pid = (#[trigger] fresh[i]).process_id;
            !reported.contains(pid) && pids_of(violations).contains(pid)
        } by {
            if i < kept.len() {
                assert(fresh[i] == kept[i]);
                assert(pids_of(earlier).contains(kept[i].process_id));
            } else {
                assert(fresh[i] == last);
            }
        }
    }
}

/// Every violation of a list whose process id was not reported before is
/// among the new ones: a process that matches several rules keeps all of its
/// violations.
pub proof fn lemma_unreported_violation_is_new(
    violations: Seq<ViolationView>,
    reported: Set<u32>,
    at: int,
)
    requires
        0 <= at < violations.len(),
        !reported.contains(violations[at].process_id),
    ensures
        new_violations(violations, reported).contains(violations[at]),
{
    violations.lemma_filter_contains(
        |violation: ViolationView| !reported.contains(violation.process_id),
        at,
    );
}

/// A process id that is in the set of reported ids is in no result of
/// [`ReportedPids::filter_new`], whatever list is filtered.
pub proof fn lemma_reported_pid_is_never_new(
    violations: Seq<ViolationView>,
    reported: Set<u32>,
    pid: u32,
)
    requires
        reported.contains(pid),
    ensures
        forall|i: int|
            0 <= i < new_violations(violations, reported).len() ==> (#[trigger] new_violations(
                violations,
                reported,
            )[i]).process_id != pid,
{
    lemma_new_violations_are_new(violations, reported);
}

/// Filtering the same list a second time returns nothing.
pub proof fn lemma_second_filter_is_empty(violations: Seq<ViolationView>, reported: Set<u32>)
    ensures
        new_violations(violations, reported.union(pids_of(violations))).len() == 0,
{
    let after = reported.union(pids_of(violations));
    lemma_new_violations_are_new(violations, after);
    if new_violations(violations, after).len() > 0 {
        assert(pids_of(violations).contains(new_violations(violations, after)[0].process_id));
    }
}

/// A reported process id stays reported, and stays out of every result, through
/// any number of calls of [`ReportedPids::filter_new`].
pub proof fn lemma_dedup_is_idempotent(
    reported: Set<u32>,
    batches: Seq<Seq<ViolationView>>,
    next: Seq<ViolationView>,
    pid: u32,
)
    requires
        reported.contains(pid),
    ensures
        reported_after(reported, batches).contains(pid),
        forall|i: int|
            0 <= i < new_violations(next, reported_after(reported, batches)).len() ==> (
            #[trigger] new_violations(next, reported_after(reported, batches))[i]).process_id
                != pid,
    decreases batches.len(),
{
    if batches.len() > 0 {
        lemma_dedup_is_idempotent(reported, batches.drop_last(), batches.last(), pid);
    }
    lemma_reported_pid_is_never_new(next, reported_after(reported, batches), pid);
}

} // verus!
