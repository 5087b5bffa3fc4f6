//! Compilation jobs and the store that keeps them.

use dashmap::DashMap;
use vstd::prelude::*;

use crate::adapter::route::views;

verus! {

broadcast use vstd::string::group_string_axioms;

/// The state of a compilation job.
#[derive(Debug, Clone, Copy, PartialEq, Eq, Structural)]
pub enum JobStatus {
    Pending,
    Compiling,
    Complete,
    Failed,
}

/// The lower-case name of a status, as responses show it.
pub open spec fn status_name(s: JobStatus) -> Seq<char> {
    match s {
        JobStatus::Pending => "pending"@,
        JobStatus::Compiling => "compiling"@,
        JobStatus::Complete => "complete"@,
        JobStatus::Failed => "failed"@,
    }
}

impl JobStatus {
    /// The lower-case name of the status.
    pub fn as_str(&self) -> (r: &'static str)
        ensures
            r@ == status_name(*self),
    {
        proof {
            reveal_strlit("pending");
            reveal_strlit("compiling");
            reveal_strlit("complete");
            reveal_strlit("failed");
        }
        match self {
            JobStatus::Pending => "pending",
            JobStatus::Compiling => "compiling",
            JobStatus::Complete => "complete",
            JobStatus::Failed => "failed",
        }
    }
}

/// A compilation job.
#[derive(Debug, Clone)]
pub struct Job {
    pub id: String,
    pub module_name: String,
    pub status: JobStatus,
    /// When the job was created, in nanoseconds on the service's monotonic clock.
    pub created_at: u64,
    /// Compilation time, once complete.
    pub compile_time_ms: Option<u64>,
    /// Path of the compiled shared library, once complete.
    pub artifact_path: Option<String>,
    /// The failure, once failed.
    pub error: Option<String>,
}

#[verifier::external_type_specification]
#[verifier::external_body]
#[verifier::reject_recursive_types(K)]
#[verifier::reject_recursive_types(V)]
#[verifier::reject_recursive_types(S)]
pub struct ExDashMap<K, V, S>(DashMap<K, V, S>);

/// The jobs a `DashMap` holds, by id.
pub uninterp spec fn jobs_held(m: DashMap<String, Job>) -> Map<Seq<char>, Job>;

/// Calls `DashMap::new`: a map that holds nothing.
#[verifier::external_body]
fn job_map_new() -> (r: DashMap<String, Job>)
    ensures
        jobs_held(r) =~= Map::empty(),
{
    DashMap::new()
}

/// Calls `DashMap::insert`: afterwards the key maps to the job, and the other keys are as
/// they were.
#[verifier::external_body]
fn job_map_insert(m: &mut DashMap<String, Job>, key: String, job: Job)
    ensures
        jobs_held(*final(m)) == jobs_held(*old(m)).insert(key@, job),
{
    m.insert(key, job);
}

/// Calls `DashMap::get` and clones the job found, if any.
#[verifier::external_body]
fn job_map_get(m: &DashMap<String, Job>, key: &str) -> (r: Option<Job>)
    ensures
        r == (if jobs_held(*m).contains_key(key@) {
            Option::Some(jobs_held(*m)[key@])
        } else {
            Option::None
        }),
{
    match m.get(key) {
        Some(entry) => Some(entry.value().clone()),
        None => None,
    }
}

/// Calls `DashMap::remove`: the key no longer maps to anything, and the job it mapped to, if
/// any, is returned.
#[verifier::external_body]
fn job_map_remove(m: &mut DashMap<String, Job>, key: &str) -> (r: Option<Job>)
    ensures
        jobs_held(*final(m)) == jobs_held(*old(m)).remove(key@),
        r == (if jobs_held(*old(m)).contains_key(key@) {
            Option::Some(jobs_held(*old(m))[key@])
        } else {
            Option::None
        }),
{
    match m.remove(key) {
        Some((_, job)) => Some(job),
        None => None,
    }
}

/// Walks the map with `DashMap::iter` and hands out each key with the creation time of its
/// job: every key once, in an order the walk chooses.
#[verifier::external_body]
fn job_map_stamps(m: &DashMap<String, Job>) -> (r: Vec<(String, u64)>)
    ensures
        forall|i: int| 0 <= i < r@.len() ==> jobs_held(*m).contains_key((#[trigger] r@[i]).0@) && r@[i].1
            == jobs_held(*m)[r@[i].0@].created_at,
        forall|i: int, j: int| 0 <= i < j < r@.len() ==> (#[trigger] r@[i]).0@ != (#[trigger] r@[j]).0@,
        forall|k: Seq<char>| jobs_held(*m).contains_key(k) ==> exists|i: int| 0 <= i < r@.len() && (#[trigger] r@[i]).0@ == k,
{
    m.iter().map(|entry| (entry.key().clone(), entry.value().created_at)).collect()
}

/// Whether a job created at `created_at` has outlived `ttl_secs` at time `now` (nanoseconds):
/// the time since its creation, zero if the clock reads earlier, is more than the TTL.
pub open spec fn expired(created_at: u64, now: u64, ttl_secs: u64) -> bool {
    (if now >= created_at { now - created_at } else { 0 }) > ttl_secs * 1_000_000_000
}

/// The ids of the jobs of `jobs` that have expired at `now`.
pub open spec fn expired_ids(jobs: Map<Seq<char>, Job>, now: u64, ttl_secs: u64) -> Set<Seq<char>> {
    jobs.dom().filter(|k: Seq<char>| expired(jobs[k].created_at, now, ttl_secs))
}

/// The store answers a read with what the last write of that id stored, and a write leaves
/// the other jobs as they were.
pub proof fn law_get_after_insert(jobs: Map<Seq<char>, Job>, job: Job, id: Seq<char>)
    ensures
        jobs.insert(job.id@, job).contains_key(job.id@),
        jobs.insert(job.id@, job)[job.id@] == job,
        id != job.id@ ==> jobs.insert(job.id@, job).contains_key(id) == jobs.contains_key(id),
        id != job.id@ && jobs.contains_key(id) ==> jobs.insert(job.id@, job)[id] == jobs[id],
{
}

/// Removing the expired jobs at `now` keeps exactly the jobs that have not expired, unchanged.
pub proof fn law_cleanup_keeps_live_jobs(jobs: Map<Seq<char>, Job>, now: u64, ttl_secs: u64)
    ensures
        forall|k: Seq<char>|
            #[trigger] jobs.remove_keys(expired_ids(jobs, now, ttl_secs)).contains_key(k) <==> jobs.contains_key(k)
                && !expired(jobs[k].created_at, now, ttl_secs),
        forall|k: Seq<char>|
            jobs.remove_keys(expired_ids(jobs, now, ttl_secs)).contains_key(k) ==> #[trigger] jobs.remove_keys(
                expired_ids(jobs, now, ttl_secs),
            )[k] == jobs[k],
{
}

/// `j` with the status `s`.
pub open spec fn with_status(j: Job, s: JobStatus) -> Job {
    Job { status: s, ..j }
}

/// `j` completed with its artifact at `path` after `ms` milliseconds.
pub open spec fn completed(j: Job, path: String, ms: u64) -> Job {
    Job { status: JobStatus::Complete, artifact_path: Option::Some(path), compile_time_ms: Option::Some(ms), ..j }
}

/// `j` failed with `error`.
pub open spec fn failed(j: Job, error: String) -> Job {
    Job { status: JobStatus::Failed, error: Option::Some(error), ..j }
}

/// `m` with the job at `id`, if there is one, replaced by `f` of it.
pub open spec fn update_at(m: Map<Seq<char>, Job>, id: Seq<char>, j: Job) -> Map<Seq<char>, Job> {
    if m.contains_key(id) {
        m.insert(id, j)
    } else {
        m
    }
}

/// The jobs of the compilation service, kept by id for a limited time.
pub struct JobStore {
    jobs: DashMap<String, Job>,
    ttl_secs: u64,
}

impl JobStore {
    /// The jobs held, by id.
    pub closed spec fn jobs(&self) -> Map<Seq<char>, Job> {
        jobs_held(self.jobs)
    }

    /// How long jobs are kept, in seconds.
    pub closed spec fn ttl(&self) -> u64 {
        self.ttl_secs
    }

    /// A store that holds nothing and keeps jobs for `ttl_secs` seconds.
    pub fn new(ttl_secs: u64) -> (s: JobStore)
        ensures
            s.jobs() == Map::<Seq<char>, Job>::empty(),
            s.ttl() == ttl_secs,
    {
        JobStore { jobs: job_map_new(), ttl_secs }
    }

    /// Stores a job under its id, in place of any job with that id.
    pub fn insert(&mut self, job: Job)
        ensures
            final(self).jobs() == old(self).jobs().insert(job.id@, job),
            final(self).ttl() == old(self).ttl(),
    {
        let key = job.id.clone();
        job_map_insert(&mut self.jobs, key, job);
    }

    /// The job with this id, if any.
    pub fn get(&self, id: &str) -> (r: Option<Job>)
        ensures
            r == (if self.jobs().contains_key(id@) {
                Option::Some(self.jobs()[id@])
            } else {
                Option::None
            }),
    {
        job_map_get(&self.jobs, id)
    }

    /// Sets the status of the job with this id, if there is one.
    pub fn update_status(&mut self, id: &str, status: JobStatus)
        ensures
            final(self).jobs() == update_at(old(self).jobs(), id@, with_status(old(self).jobs()[id@], status)),
            final(self).ttl() == old(self).ttl(),
    {
        if let Some(mut job) = job_map_get(&self.jobs, id) {
            job.status = status;
            job_map_insert(&mut self.jobs, id.to_string(), job);
        }
    }

    /// Marks the job with this id complete, with its artifact and compilation time.
    pub fn mark_complete(&mut self, id: &str, artifact_path: String, compile_time_ms: u64)
        ensures
            final(self).jobs() == update_at(
                old(self).jobs(),
                id@,
                completed(old(self).jobs()[id@], artifact_path, compile_time_ms),
            ),
            final(self).ttl() == old(self).ttl(),
    {
        if let Some(mut job) = job_map_get(&self.jobs, id) {
            job.status = JobStatus::Complete;
            job.artifact_path = Some(artifact_path);
            job.compile_time_ms = Some(compile_time_ms);
            job_map_insert(&mut self.jobs, id.to_string(), job);
        }
    }

    /// Marks the job with this id failed, with the error.
    pub fn mark_failed(&mut self, id: &str, error: String)
        ensures
            final(self).jobs() == update_at(old(self).jobs(), id@, failed(old(self).jobs()[id@], error)),
            final(self).ttl() == old(self).ttl(),
    {
        if let Some(mut job) = job_map_get(&self.jobs, id) {
            job.status = JobStatus::Failed;
            job.error = Some(error);
            job_map_insert(&mut self.jobs, id.to_string(), job);
        }
    }

    /// Removes the jobs that have outlived the TTL at time `now` (nanoseconds on the service's
    /// clock). Returns how many were removed and the artifacts of the removed jobs, which the
    /// caller deletes, in the order the map was walked.
    pub fn cleanup_expired(&mut self, now: u64) -> (r: (usize, Vec<String>))
        ensures
            final(self).ttl() == old(self).ttl(),
            final(self).jobs() == old(self).jobs().remove_keys(expired_ids(old(self).jobs(), now, old(self).ttl())),
            r.0 == expired_ids(old(self).jobs(), now, old(self).ttl()).len(),
            exists|ks: Seq<Seq<char>>|
                ks.no_duplicates() && ks.to_set() == expired_ids(old(self).jobs(), now, old(self).ttl()) && r.1@
                    == artifacts_of(old(self).jobs(), ks),
    {
        let ghost start = self.jobs();
        let ghost ttl = self.ttl_secs;
        let limit: u128 = (self.ttl_secs as u128) * 1_000_000_000u128;
        let stamps = job_map_stamps(&self.jobs);
        let ghost sk = stamps@.map_values(|p: (String, u64)| p.0@);
        proof {
            assert forall|a: int, b: int| 0 <= a < b < sk.len() implies sk[a] != sk[b] by {
                assert(sk[a] == stamps@[a].0@ && sk[b] == stamps@[b].0@);
            }
            assert forall|k: Seq<char>| start.contains_key(k) <==> sk.contains(k) by {
                if start.contains_key(k) {
                    let i = choose|i: int| 0 <= i < stamps@.len() && (#[trigger] stamps@[i]).0@ == k;
                    assert(sk[i] == k);
                }
                if sk.contains(k) {
                    let i = choose|i: int| 0 <= i < sk.len() && sk[i] == k;
                    assert(stamps@[i].0@ == k);
                }
            }
        }
        let mut expired_keys: Vec<String> = Vec::new();
        let mut i: usize = 0;
        assert(sk.take(0) =~= Seq::<Seq<char>>::empty());
        assert(views(expired_keys@) =~= Seq::<Seq<char>>::empty());
        while i < stamps.len()
            invariant
                i <= stamps@.len(),
                limit == ttl * 1_000_000_000,
                start == jobs_held(self.jobs),
                sk == stamps@.map_values(|p: (String, u64)| p.0@),
                forall|a: int| 0 <= a < stamps@.len() ==> start.contains_key((#[trigger] stamps@[a]).0@) && stamps@[a].1
                    == start[stamps@[a].0@].created_at,
                views(expired_keys@) == expired_in(start, sk.take(i as int), now, ttl),
            decreases stamps@.len() - i,
        {
            assert(sk.take(i + 1).drop_last() =~= sk.take(i as int));
            assert(sk.take(i + 1).last() == stamps@[i as int].0@);
            let created = stamps[i].1;
            let elapsed: u64 = if now >= created { now - created } else { 0 };
            if (elapsed as u128) > limit {
                let ghost before = views(expired_keys@);
                expired_keys.push(stamps[i].0.clone());
                assert(views(expired_keys@) =~= before.push(stamps@[i as int].0@));
            }
            i = i + 1;
        }
        let ghost ek = views(expired_keys@);
        let ghost gone = expired_ids(start, now, ttl);
        proof {
            assert(sk.take(sk.len() as int) =~= sk);
            lemma_expired_in(start, sk, now, ttl);
            assert forall|k: Seq<char>| ek.to_set().contains(k) <==> gone.contains(k) by {
                assert(ek.to_set().contains(k) <==> ek.contains(k));
            }
            assert(ek.to_set() =~= gone);
            ek.unique_seq_to_set();
            assert forall|a: int| 0 <= a < ek.len() implies start.contains_key(#[trigger] ek[a]) by {
                assert(ek.contains(ek[a]));
            }
        }
        let count = expired_keys.len();
        let mut artifacts: Vec<String> = Vec::new();
        let mut j: usize = 0;
        assert(ek.take(0) =~= Seq::<Seq<char>>::empty());
        assert(start.remove_keys(ek.take(0).to_set()) =~= start);
        while j < expired_keys.len()
            invariant
                j <= expired_keys@.len(),
                ek == views(expired_keys@),
                ek.no_duplicates(),
                forall|a: int| 0 <= a < ek.len() ==> start.contains_key(#[trigger] ek[a]),
                jobs_held(self.jobs) == start.remove_keys(ek.take(j as int).to_set()),
                artifacts@ == artifacts_of(start, ek.take(j as int)),
                self.ttl_secs == ttl,
            decreases expired_keys@.len() - j,
        {
            let ghost before = jobs_held(self.jobs);
            let ghost key = ek[j as int];
            assert(expired_keys@[j as int]@ == key);
            proof {
                assert(!ek.take(j as int).to_set().contains(key)) by {
                    if ek.take(j as int).contains(key) {
                        let a = choose|a: int| 0 <= a < j && ek.take(j as int)[a] == key;
                        assert(ek[a] == ek[j as int]);
                    }
                }
                assert(start.contains_key(ek[j as int]));
                assert(before.contains_key(key));
            }
            let removed = job_map_remove(&mut self.jobs, expired_keys[j].as_str());
            proof {
                assert(ek.take(j + 1).drop_last() =~= ek.take(j as int));
                assert(ek.take(j + 1).last() == key);
                assert(ek.take(j + 1).to_set() =~= ek.take(j as int).to_set().insert(key));
                assert(jobs_held(self.jobs) =~= start.remove_keys(ek.take(j + 1).to_set()));
            }
            if let Some(job) = removed {
                if let Some(path) = job.artifact_path {
                    artifacts.push(path);
                }
            }
            j = j + 1;
        }
        proof {
            assert(ek.take(ek.len() as int) =~= ek);
        }
        (count, artifacts)
    }
}

/// The artifacts of the jobs `ks` of `jobs`, in that order, for those that have one.
pub open spec fn artifacts_of(jobs: Map<Seq<char>, Job>, ks: Seq<Seq<char>>) -> Seq<String>
    decreases ks.len(),
{
    if ks.len() == 0 {
        Seq::empty()
    } else {
        let earlier = artifacts_of(jobs, ks.drop_last());
        match jobs[ks.last()].artifact_path {
            Option::Some(p) => earlier.push(p),
            Option::None => earlier,
        }
    }
}

/// The keys of `ks` whose jobs have expired, in order.
pub open spec fn expired_in(jobs: Map<Seq<char>, Job>, ks: Seq<Seq<char>>, now: u64, ttl_secs: u64) -> Seq<Seq<char>>
    decreases ks.len(),
{
    if ks.len() == 0 {
        ks
    } else {
        let earlier = expired_in(jobs, ks.drop_last(), now, ttl_secs);
        if expired(jobs[ks.last()].created_at, now, ttl_secs) {
            earlier.push(ks.last())
        } else {
            earlier
        }
    }
}

/// The expired keys of `ks` are those of its keys whose jobs have expired, each once when the
/// keys are.
proof fn lemma_expired_in(jobs: Map<Seq<char>, Job>, ks: Seq<Seq<char>>, now: u64, ttl_secs: u64)
    ensures
        forall|k: Seq<char>|
            #[trigger] expired_in(jobs, ks, now, ttl_secs).contains(k) <==> ks.contains(k) && expired(
                jobs[k].created_at,
                now,
                ttl_secs,
            ),
        ks.no_duplicates() ==> expired_in(jobs, ks, now, ttl_secs).no_duplicates(),
    decreases ks.len(),
{
    if ks.len() > 0 {
        let rest = ks.drop_last();
        lemma_expired_in(jobs, rest, now, ttl_secs);
        let e = expired_in(jobs, ks, now, ttl_secs);
        let er = expired_in(jobs, rest, now, ttl_secs);
        assert forall|k: Seq<char>| ks.contains(k) <==> rest.contains(k) || k == ks.last() by {
            if ks.contains(k) {
                let i = choose|i: int| 0 <= i < ks.len() && ks[i] == k;
                if i < ks.len() - 1 {
                    assert(rest[i] == k);
                }
            }
            if rest.contains(k) {
                let i = choose|i: int| 0 <= i < rest.len() && rest[i] == k;
                assert(ks[i] == k);
            }
            if k == ks.last() {
                assert(ks[ks.len() - 1] == k);
            }
        }
        assert forall|k: Seq<char>| e.contains(k) <==> er.contains(k) || (k == ks.last() && expired(
            jobs[k].created_at,
            now,
            ttl_secs,
        )) by {
            if expired(jobs[ks.last()].created_at, now, ttl_secs) {
                if e.contains(k) {
                    let i = choose|i: int| 0 <= i < e.len() && e[i] == k;
                    if i < er.len() {
                        assert(er[i] == k);
                    }
                }
                if er.contains(k) {
                    let i = choose|i: int| 0 <= i < er.len() && er[i] == k;
                    assert(e[i] == k);
                }
                if k == ks.last() {
                    assert(e[e.len() - 1] == k);
                }
            }
        }
        if ks.no_duplicates() {
            assert(rest.no_duplicates()) by {
                assert forall|a: int, b: int| 0 <= a < rest.len() && 0 <= b < rest.len() && a != b implies rest[a] != rest[b] by {
                    assert(rest[a] == ks[a] && rest[b] == ks[b]);
                }
            }
            assert(!rest.contains(ks.last())) by {
                if rest.contains(ks.last()) {
                    let i = choose|i: int| 0 <= i < rest.len() && rest[i] == ks.last();
                    assert(ks[i] == ks[ks.len() - 1]);
                }
            }
            if expired(jobs[ks.last()].created_at, now, ttl_secs) {
                assert(!er.contains(ks.last()));
                assert forall|a: int, b: int| 0 <= a < e.len() && 0 <= b < e.len() && a != b implies e[a] != e[b] by {
                    if a < er.len() && b < er.len() {
                        assert(e[a] == er[a] && e[b] == er[b]);
                    } else if a == er.len() {
                        assert(e[b] == er[b]);
                        assert(er.contains(er[b]));
                    } else {
                        assert(e[a] == er[a]);
                        assert(er.contains(er[a]));
                    }
                }
            }
        }
    }
}

} // verus!
