//! The forbidden-application policy and its locally cached copy.

use crate::error::AgentError;
use vstd::prelude::*;

verus! {

/// One rule of the policy: a process-name pattern and the severity of a match.
#[derive(Debug)]
pub struct ForbiddenApp {
    pub process_name: String,
    pub severity: String,
}

/// What a [`ForbiddenApp`] says, as mathematical values.
pub struct ForbiddenAppView {
    pub process_name: Seq<char>,
    pub severity: Seq<char>,
}

impl View for ForbiddenApp {
    type V = ForbiddenAppView;

    open spec fn view(&self) -> ForbiddenAppView {
        ForbiddenAppView { process_name: self.process_name@, severity: self.severity@ }
    }
}

impl Clone for ForbiddenApp {
    fn clone(&self) -> (copy: Self)
        ensures
            copy == *self,
    {
        ForbiddenApp { process_name: self.process_name.clone(), severity: self.severity.clone() }
    }
}

/// The rules of a policy, in order, as mathematical values.
pub open spec fn policy_view(apps: Seq<ForbiddenApp>) -> Seq<ForbiddenAppView> {
    apps.map_values(|app: ForbiddenApp| app@)
}

/// Copies a list of rules.
pub fn clone_policy(apps: &[ForbiddenApp]) -> (copy: Vec<ForbiddenApp>)
    ensures
        copy@ == apps@,
{
    let mut copy: Vec<ForbiddenApp> = Vec::new();
    let mut i: usize = 0;
    while i < apps.len()
        invariant
            i <= apps.len(),
            copy@ == apps@.take(i as int),
        decreases apps.len() - i,
    {
        copy.push(apps[i].clone());
        assert(apps@.take(i + 1) == apps@.take(i as int).push(apps@[i as int]));
        i += 1;
    }
    assert(apps@.take(apps.len() as int) == apps@);
    copy
}

/// A policy or the error in its place, as mathematical values.
pub open spec fn policy_result_view(result: Result<Vec<ForbiddenApp>, AgentError>) -> Result<
    Seq<ForbiddenAppView>,
    AgentError,
> {
    match result {
        Ok(apps) => Ok(policy_view(apps@)),
        Err(error) => Err(error),
    }
}

/// The record that the cache file holds: the rules of the last fetched policy
/// and the time, in seconds since the epoch, at which they were stored.
#[derive(Debug)]
pub struct ForbiddenAppCache {
    pub apps: Vec<ForbiddenApp>,
    pub last_updated: u64,
}

/// What a [`ForbiddenAppCache`] says, as mathematical values.
pub struct ForbiddenAppCacheView {
    pub apps: Seq<ForbiddenAppView>,
    pub last_updated: u64,
}

impl View for ForbiddenAppCache {
    type V = ForbiddenAppCacheView;

    open spec fn view(&self) -> ForbiddenAppCacheView {
        ForbiddenAppCacheView { apps: policy_view(self.apps@), last_updated: self.last_updated }
    }
}

impl Clone for ForbiddenAppCache {
    fn clone(&self) -> (copy: Self)
        ensures
            copy@ == self@,
            copy.apps@ == self.apps@,
    {
        ForbiddenAppCache {
            apps: clone_policy(self.apps.as_slice()),
            last_updated: self.last_updated,
        }
    }
}

/// What an attempt to read the cache file found.
#[derive(Debug)]
pub enum CacheRead {
    /// There is no cache file yet.
    Missing,
    /// The file is there and could not be read.
    Unreadable,
    /// The file was read and does not hold a cache record.
    Corrupt,
    /// The record that the file holds.
    Loaded(ForbiddenAppCache),
}

/// What a [`CacheRead`] says, as mathematical values.
pub enum CacheReadView {
    Missing,
    Unreadable,
    Corrupt,
    Loaded(ForbiddenAppCacheView),
}

impl View for CacheRead {
    type V = CacheReadView;

    open spec fn view(&self) -> CacheReadView {
        match *self {
            CacheRead::Missing => CacheReadView::Missing,
            CacheRead::Unreadable => CacheReadView::Unreadable,
            CacheRead::Corrupt => CacheReadView::Corrupt,
            CacheRead::Loaded(cache) => CacheReadView::Loaded(cache@),
        }
    }
}

/// The record that caches `apps` at the time `now`.
pub open spec fn cache_record(apps: Seq<ForbiddenAppView>, now: u64) -> ForbiddenAppCacheView {
    ForbiddenAppCacheView { apps, last_updated: now }
}

/// The empty policy, which has never been updated: no rules, and the epoch as
/// the time of its last update.
pub open spec fn empty_policy() -> ForbiddenAppCacheView {
    cache_record(Seq::empty(), 0)
}

/// A cached policy or the error in its place, as mathematical values.
pub open spec fn cache_result_view(result: Result<ForbiddenAppCache, AgentError>) -> Result<
    ForbiddenAppCacheView,
    AgentError,
> {
    match result {
        Ok(cache) => Ok(cache@),
        Err(error) => Err(error),
    }
}

/// The policy that a read of the cache yields: the empty policy without a
/// file, the stored record as it is, rules and time of the last update, from a
/// file that holds one, an error from a file that is unreadable or corrupt.
pub open spec fn load_outcome(read: CacheReadView) -> Result<ForbiddenAppCacheView, AgentError> {
    match read {
        CacheReadView::Missing => Ok(empty_policy()),
        CacheReadView::Unreadable => Err(AgentError::Storage),
        CacheReadView::Corrupt => Err(AgentError::Parse),
        CacheReadView::Loaded(cache) => Ok(cache),
    }
}

/// Makes the record to write to the cache file: a copy of `apps`, stamped with
/// the time `now` in seconds since the epoch. The file is rewritten whole.
pub fn cache_to_disk(apps: &[ForbiddenApp], now: u64) -> (cache: ForbiddenAppCache)
    ensures
        cache@ == cache_record(policy_view(apps@), now),
{
    ForbiddenAppCache { apps: clone_policy(apps), last_updated: now }
}

/// Takes the policy out of what a read of the cache file found: its rules
/// together with the time of its last update, both as they were stored. A
/// missing file is no error: it gives the empty policy. A file that could not be
/// read gives [`AgentError::Storage`], one that holds no record
/// [`AgentError::Parse`].
pub fn load_from_cache(read: CacheRead) -> (loaded: Result<ForbiddenAppCache, AgentError>)
    ensures
        cache_result_view(loaded) == load_outcome(read@),
{
    match read {
        CacheRead::Missing => {
            let apps: Vec<ForbiddenApp> = Vec::new();
            assert(policy_view(apps@) == Seq::<ForbiddenAppView>::empty());
            Ok(ForbiddenAppCache { apps, last_updated: 0 })
        },
        CacheRead::Unreadable => Err(AgentError::Storage),
        CacheRead::Corrupt => Err(AgentError::Parse),
        CacheRead::Loaded(cache) => Ok(cache),
    }
}

/// A policy that was stored comes back as it was: a read that finds the record
/// made for `apps` at the time `now` yields the same rules in the same order
/// and the same time of the last update.
pub proof fn lemma_load_returns_stored(apps: Seq<ForbiddenAppView>, now: u64)
    ensures
        load_outcome(CacheReadView::Loaded(cache_record(apps, now))) matches Ok(loaded)
            && loaded.apps == apps && loaded.last_updated == now,
{
}

} // verus!
