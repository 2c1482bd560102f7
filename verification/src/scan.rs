//! One scan: match a snapshot of the running processes against the policy and
//! keep what has not been reported before.

use crate::dedup::{new_violations, pids_of, ReportedPids};
use crate::matcher::{
    match_all, match_processes, processes_view, violations_view, ProcessSnapshot, ViolationReport,
};
use crate::policy::{policy_view, ForbiddenApp};
use vstd::prelude::*;

verus! {

/// The identity of this device on every submission: the host's network name,
/// or `unknown` where the host does not tell it.
pub fn get_device_id(hostname: Option<String>) -> (device_id: String)
    ensures
        device_id@ == match hostname {
            Some(name) => name@,
            None => "unknown"@,
        },
{
    match hostname {
        Some(name) => name,
        None => "unknown".to_owned(),
    }
}

/// Scans a snapshot of the running processes for forbidden applications and
/// returns the violations of the processes that no earlier scan has reported,
/// marking their process ids as reported. A process that matches several rules
/// gives one violation for each; a process that was reported before gives none.
pub fn scan_processes(
    processes: &[ProcessSnapshot],
    forbidden_list: &[ForbiddenApp],
    device_id: &str,
    reported: &mut ReportedPids,
) -> (violations: Vec<ViolationReport>)
    ensures
        violations_view(violations@) == new_violations(
            match_all(processes_view(processes@), policy_view(forbidden_list@), device_id@),
            old(reported)@,
        ),
        final(reported)@ == old(reported)@.union(
            pids_of(match_all(processes_view(processes@), policy_view(forbidden_list@), device_id@)),
        ),
{
    let matched = match_processes(processes, forbidden_list, device_id);
    reported.filter_new(matched)
}

} // verus!
