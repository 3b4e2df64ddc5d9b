//! A queue backend that keeps the store in memory.
//!
//! It does to its own memory what the operations of a backend do to the
//! store, step for step as `StoreState` describes them. It never blocks;
//! its clock moves when it is told that time has passed.

use crate::models::error::IronForgeError;
use crate::models::job::{Job, JobStatus, JobView};
use crate::queue::store::{enqueue_all, QueueStats, StoreState};
use std::collections::{HashMap, HashSet};
use vstd::prelude::*;
use vstd::std_specs::hash::group_hash_axioms;
use vstd::string::StringExecFns;

verus! {

/// One entry of the sorted index.
#[derive(Debug, Clone, Copy, PartialEq, Eq, Structural)]
pub struct QueueEntry {
    pub id: u128,
    pub score: i64,
}

/// No identifier occurs twice in `index`.
pub open spec fn distinct_ids(index: Seq<QueueEntry>) -> bool {
    forall|i: int, j: int| 0 <= i < j < index.len() ==> index[i].id != index[j].id
}

/// `index` has an entry for `id`.
pub open spec fn holds(index: Seq<QueueEntry>, id: u128) -> bool {
    exists|i: int| 0 <= i < index.len() && (#[trigger] index[i]).id == id
}

/// A place of `id` in `index`; the place, where identifiers are distinct.
pub open spec fn position(index: Seq<QueueEntry>, id: u128) -> int {
    choose|i: int| 0 <= i < index.len() && (#[trigger] index[i]).id == id
}

/// The index as a map from identifier to score.
pub open spec fn scores(index: Seq<QueueEntry>) -> Map<u128, int> {
    Map::new(|id: u128| holds(index, id), |id: u128| index[position(index, id)].score as int)
}

/// Whether the entry `a` comes before `b` in the order of the index: by
/// score, then by identifier.
pub open spec fn leads(a: QueueEntry, b: QueueEntry) -> bool {
    a.score < b.score || (a.score == b.score && a.id <= b.id)
}

proof fn scores_at(index: Seq<QueueEntry>, i: int)
    requires
        distinct_ids(index),
        0 <= i < index.len(),
    ensures
        scores(index).contains_key(index[i].id),
        scores(index)[index[i].id] == index[i].score,
        position(index, index[i].id) == i,
{
    let id = index[i].id;
    assert(holds(index, id));
    let p = position(index, id);
    assert(0 <= p < index.len() && index[p].id == id);
    if p < i {
        assert(index[p].id != index[i].id);
    } else if i < p {
        assert(index[i].id != index[p].id);
    }
}

proof fn scores_push(index: Seq<QueueEntry>, entry: QueueEntry)
    requires
        distinct_ids(index),
        !holds(index, entry.id),
    ensures
        distinct_ids(index.push(entry)),
        scores(index.push(entry)) == scores(index).insert(entry.id, entry.score as int),
{
    let pushed = index.push(entry);
    assert forall|i: int, j: int| 0 <= i < j < pushed.len() implies pushed[i].id
        != pushed[j].id by {
        if j == index.len() {
            assert(index[i].id != entry.id);
        }
    }
    assert forall|id: u128| #[trigger] scores(pushed).contains_key(id) <==> scores(index).insert(
        entry.id,
        entry.score as int,
    ).contains_key(id) by {
        if holds(pushed, id) {
            let p = position(pushed, id);
            if p < index.len() {
                assert(index[p].id == id);
            }
        }
        if holds(index, id) {
            let p = position(index, id);
            assert(pushed[p].id == id);
        }
        if id == entry.id {
            assert(pushed[index.len() as int].id == id);
        }
    }
    assert forall|id: u128| scores(pushed).contains_key(id) implies #[trigger] scores(pushed)[id]
        == scores(index).insert(entry.id, entry.score as int)[id] by {
        let p = position(pushed, id);
        scores_at(pushed, p);
        if p < index.len() {
            assert(pushed[p] == index[p]);
            scores_at(index, p);
        }
    }
    assert(scores(pushed) =~= scores(index).insert(entry.id, entry.score as int));
}

proof fn scores_update(index: Seq<QueueEntry>, at: int, entry: QueueEntry)
    requires
        distinct_ids(index),
        0 <= at < index.len(),
        index[at].id == entry.id,
    ensures
        distinct_ids(index.update(at, entry)),
        scores(index.update(at, entry)) == scores(index).insert(entry.id, entry.score as int),
{
    let updated = index.update(at, entry);
    assert forall|i: int, j: int| 0 <= i < j < updated.len() implies updated[i].id
        != updated[j].id by {
        assert(index[i].id != index[j].id);
    }
    assert forall|id: u128| #[trigger] scores(updated).contains_key(id) <==> scores(index).insert(
        entry.id,
        entry.score as int,
    ).contains_key(id) by {
        if holds(updated, id) {
            let p = position(updated, id);
            assert(index[p].id == id);
        }
        if holds(index, id) {
            let p = position(index, id);
            assert(updated[p].id == id);
        }
        if id == entry.id {
            assert(updated[at].id == id);
        }
    }
    assert forall|id: u128| scores(updated).contains_key(id) implies #[trigger] scores(updated)[id]
        == scores(index).insert(entry.id, entry.score as int)[id] by {
        let p = position(updated, id);
        scores_at(updated, p);
        scores_at(index, p);
    }
    assert(scores(updated) =~= scores(index).insert(entry.id, entry.score as int));
}

proof fn scores_remove(index: Seq<QueueEntry>, at: int)
    requires
        distinct_ids(index),
        0 <= at < index.len(),
    ensures
        distinct_ids(index.remove(at)),
        scores(index.remove(at)) == scores(index).remove(index[at].id),
{
    let removed = index.remove(at);
    assert forall|i: int, j: int| 0 <= i < j < removed.len() implies removed[i].id
        != removed[j].id by {
        let oi = if i < at { i } else { i + 1 };
        let oj = if j < at { j } else { j + 1 };
        assert(index[oi].id != index[oj].id);
    }
    assert forall|id: u128| #[trigger] scores(removed).contains_key(id) <==> scores(index).remove(
        index[at].id,
    ).contains_key(id) by {
        if holds(removed, id) {
            let p = position(removed, id);
            let op = if p < at { p } else { p + 1 };
            assert(index[op].id == id);
            if op < at {
                assert(index[op].id != index[at].id);
            } else {
                assert(index[at].id != index[op].id);
            }
        }
        if holds(index, id) && id != index[at].id {
            let p = position(index, id);
            let np = if p < at { p } else { p - 1 };
            assert(removed[np].id == id);
        }
    }
    assert forall|id: u128| scores(removed).contains_key(id) implies #[trigger] scores(removed)[id]
        == scores(index).remove(index[at].id)[id] by {
        let p = position(removed, id);
        scores_at(removed, p);
        let op = if p < at { p } else { p + 1 };
        scores_at(index, op);
    }
    assert(scores(removed) =~= scores(index).remove(index[at].id));
}

proof fn scores_count(index: Seq<QueueEntry>)
    requires
        distinct_ids(index),
    ensures
        scores(index).dom().finite(),
        scores(index).dom().len() == index.len(),
{
    let ids = index.map_values(|e: QueueEntry| e.id);
    assert(ids.no_duplicates()) by {
        assert forall|i: int, j: int| 0 <= i < ids.len() && 0 <= j < ids.len() && i != j implies ids[i]
            != ids[j] by {
            if i < j {
                assert(index[i].id != index[j].id);
            } else {
                assert(index[j].id != index[i].id);
            }
        }
    }
    assert(scores(index).dom() =~= ids.to_set()) by {
        assert forall|id: u128| scores(index).dom().contains(id) <==> ids.to_set().contains(
            id,
        ) by {
            if holds(index, id) {
                let p = position(index, id);
                assert(ids[p] == id);
            }
            if ids.to_set().contains(id) {
                let p = choose|p: int| 0 <= p < ids.len() && ids[p] == id;
                assert(index[p].id == id);
            }
        }
    }
    ids.unique_seq_to_set();
    vstd::seq_lib::seq_to_set_is_finite(ids);
}

/// The records of the jobs of `records`, each by its view.
pub open spec fn record_views(records: Map<u128, Job>) -> Map<u128, JobView> {
    records.map_values(|job: Job| job@)
}

proof fn record_views_insert(records: Map<u128, Job>, id: u128, job: Job)
    ensures
        record_views(records.insert(id, job)) == record_views(records).insert(id, job@),
{
    assert(record_views(records.insert(id, job)) =~= record_views(records).insert(id, job@));
}

proof fn record_views_remove(records: Map<u128, Job>, id: u128)
    ensures
        record_views(records.remove(id)) == record_views(records).remove(id),
{
    assert(record_views(records.remove(id)) =~= record_views(records).remove(id));
}

/// The expiry of each lock, as a time on the clock.
pub open spec fn expiries(locks: Map<u128, u128>) -> Map<u128, int> {
    locks.map_values(|expiry: u128| expiry as int)
}

proof fn expiries_insert(locks: Map<u128, u128>, id: u128, expiry: u128)
    ensures
        expiries(locks.insert(id, expiry)) == expiries(locks).insert(id, expiry as int),
{
    assert(expiries(locks.insert(id, expiry)) =~= expiries(locks).insert(id, expiry as int));
}

proof fn expiries_remove(locks: Map<u128, u128>, id: u128)
    ensures
        expiries(locks.remove(id)) == expiries(locks).remove(id),
{
    assert(expiries(locks.remove(id)) =~= expiries(locks).remove(id));
}

/// A queue backend in memory.
pub struct MemoryQueueBackend {
    records: HashMap<u128, Job>,
    index: Vec<QueueEntry>,
    dlq: Vec<u128>,
    locks: HashMap<u128, u128>,
    active: HashSet<u128>,
    clock: u64,
}

impl View for MemoryQueueBackend {
    type V = StoreState;

    closed spec fn view(&self) -> StoreState {
        StoreState {
            records: record_views(self.records@),
            queue: scores(self.index@),
            dlq: self.dlq@,
            locks: expiries(self.locks@),
            active: self.active@,
            now: self.clock as int,
        }
    }
}

impl MemoryQueueBackend {
    /// The invariant of the backend: no identifier is indexed twice. Every
    /// operation keeps it, and with it the store stays well formed.
    pub closed spec fn sound(&self) -> bool {
        distinct_ids(self.index@) && self.locks@.dom().finite() && self.active@.finite()
    }

    /// A sound backend holds a well-formed store.
    pub proof fn sound_is_well_formed(&self)
        requires
            self.sound(),
        ensures
            self@.well_formed(),
    {
        scores_count(self.index@);
        assert(expiries(self.locks@).dom() =~= self.locks@.dom());
    }

    /// A backend whose store is empty.
    pub fn new() -> (backend: MemoryQueueBackend)
        ensures
            backend@ == StoreState::empty(),
            backend.sound(),
    {
        let backend = MemoryQueueBackend {
            records: HashMap::new(),
            index: Vec::new(),
            dlq: Vec::new(),
            locks: HashMap::new(),
            active: HashSet::new(),
            clock: 0,
        };
        assert(backend@.records =~= Map::empty());
        assert(backend@.queue =~= Map::empty());
        assert(backend@.locks =~= Map::empty());
        backend
    }
}

/// The place of `id` in `index`, if it has one.
fn find(index: &Vec<QueueEntry>, id: u128) -> (place: Option<usize>)
    ensures
        match place {
            Some(at) => at < index.len() && index[at as int].id == id,
            None => !holds(index@, id),
        },
{
    let mut at: usize = 0;
    while at < index.len()
        invariant
            at <= index.len(),
            forall|i: int| 0 <= i < at ==> (#[trigger] index[i]).id != id,
        decreases index.len() - at,
    {
        if index[at].id == id {
            return Some(at);
        }
        at = at + 1;
    }
    None
}

/// The place of the entry that leads all others, in an index that is not empty.
fn leader(index: &Vec<QueueEntry>) -> (best: usize)
    requires
        index.len() > 0,
    ensures
        best < index.len(),
        forall|i: int| 0 <= i < index.len() ==> leads(index[best as int], #[trigger] index[i]),
{
    let mut best: usize = 0;
    let mut at: usize = 1;
    while at < index.len()
        invariant
            best < at <= index.len(),
            forall|i: int| 0 <= i < at ==> leads(index[best as int], #[trigger] index[i]),
        decreases index.len() - at,
    {
        let candidate = index[at];
        let current = index[best];
        if candidate.score < current.score || (candidate.score == current.score && candidate.id
            < current.id) {
            best = at;
        }
        at = at + 1;
    }
    best
}

/// A count as the store reports it, if it fits.
fn reported(count: usize) -> (reported: Option<i64>)
    ensures
        match reported {
            Some(n) => n == count,
            None => count > i64::MAX,
        },
{
    if count as u64 > 0x7fff_ffff_ffff_ffffu64 {
        None
    } else {
        Some(count as i64)
    }
}

impl MemoryQueueBackend {
    /// Writes the record of `job` and enters its identifier in the index
    /// with the job's score.
    pub fn enqueue(&mut self, job: &Job) -> (result: Result<(), IronForgeError>)
        requires
            old(self).sound(),
        ensures
            final(self).sound(),
            result is Ok,
            final(self)@ == old(self)@.enqueue(job@),
    {
        broadcast use group_hash_axioms;

        let entry = QueueEntry { id: job.id, score: job.calculate_redis_score() };
        let copy = job.clone();
        proof {
            record_views_insert(self.records@, job.id, copy);
        }
        self.records.insert(job.id, copy);
        match find(&self.index, job.id) {
            Some(at) => {
                proof {
                    scores_update(self.index@, at as int, entry);
                }
                self.index.set(at, entry);
            },
            None => {
                proof {
                    scores_push(self.index@, entry);
                }
                self.index.push(entry);
            },
        }
        Ok(())
    }

    /// Enqueues the jobs of `jobs` one by one, in order.
    pub fn enqueue_batch(&mut self, jobs: &Vec<Job>) -> (result: Result<(), IronForgeError>)
        requires
            old(self).sound(),
        ensures
            final(self).sound(),
            result is Ok,
            final(self)@ == enqueue_all(old(self)@, jobs@.map_values(|job: Job| job@)),
    {
        let ghost views = jobs@.map_values(|job: Job| job@);
        let mut done: usize = 0;
        proof {
            assert(views.subrange(0, 0) =~= Seq::empty());
        }
        while done < jobs.len()
            invariant
                done <= jobs.len(),
                views == jobs@.map_values(|job: Job| job@),
                self@ == enqueue_all(old(self)@, views.subrange(0, done as int)),
                self.sound(),
            decreases jobs.len() - done,
        {
            let _ = self.enqueue(&jobs[done]);
            proof {
                let upto = views.subrange(0, done as int + 1);
                assert(upto.drop_last() =~= views.subrange(0, done as int));
                assert(upto.last() == jobs[done as int]@);
            }
            done = done + 1;
        }
        proof {
            assert(views.subrange(0, done as int) =~= views);
        }
        Ok(())
    }

    /// Takes the first identifier off the index and returns its record.
    ///
    /// With an empty index the answer is `None` at once: this backend does
    /// not wait. `None` is also the answer where the identifier's record is
    /// gone; the identifier has left the index all the same.
    pub fn dequeue(&mut self, timeout_secs: u64) -> (result: Result<Option<Job>, IronForgeError>)
        requires
            old(self).sound(),
        ensures
            final(self).sound(),
            result is Ok,
            old(self)@.queue_depth() == 0 ==> final(self)@ == old(self)@ && result->Ok_0 is None,
            old(self)@.queue_depth() > 0 ==> {
                let id = old(self)@.first();
                &&& old(self)@.is_first(id)
                &&& old(self)@.is_head(id)
                &&& final(self)@ == old(self)@.pop(id)
                &&& match result->Ok_0 {
                    Some(job) => old(self)@.get(id) == Some(job@),
                    None => old(self)@.get(id) is None,
                }
            },
    {
        broadcast use group_hash_axioms;

        proof {
            scores_count(self.index@);
        }
        if self.index.len() == 0 {
            return Ok(None);
        }
        let best = leader(&self.index);
        let entry = self.index[best];
        proof {
            let index = self.index@;
            let store = self@;
            scores_at(index, best as int);
            assert forall|other: u128| #[trigger] store.queue.contains_key(other) implies (
            store.queue[entry.id] < store.queue[other] || (store.queue[entry.id]
                == store.queue[other] && entry.id <= other)) by {
                let p = position(index, other);
                scores_at(index, p);
                assert(leads(index[best as int], index[p]));
            }
            assert(store.is_first(entry.id));
            let chosen = store.first();
            assert(store.is_first(chosen));
            assert(store.queue.contains_key(chosen));
            assert(chosen == entry.id);
            scores_remove(index, best as int);
        }
        self.index.remove(best);
        proof {
            scores_count(self.index@);
        }
        match self.records.get(&entry.id) {
            Some(job) => Ok(Some(job.clone())),
            None => Ok(None),
        }
    }

    /// The record of `job_id`, if there is one.
    pub fn get_job(&self, job_id: u128) -> (result: Result<Option<Job>, IronForgeError>)
        requires
            self.sound(),
        ensures
            result is Ok,
            match result->Ok_0 {
                Some(job) => self@.get(job_id) == Some(job@),
                None => self@.get(job_id) is None,
            },
    {
        broadcast use group_hash_axioms;

        match self.records.get(&job_id) {
            Some(job) => Ok(Some(job.clone())),
            None => Ok(None),
        }
    }

    /// Overwrites the record of `job`.
    pub fn update_job(&mut self, job: &Job) -> (result: Result<(), IronForgeError>)
        requires
            old(self).sound(),
        ensures
            final(self).sound(),
            result is Ok,
            final(self)@ == old(self)@.update(job@),
    {
        broadcast use group_hash_axioms;

        let copy = job.clone();
        proof {
            record_views_insert(self.records@, job.id, copy);
        }
        self.records.insert(job.id, copy);
        Ok(())
    }

    /// Sets the progress on the record of `job_id` and leaves the rest of
    /// the record alone. Without a record nothing changes.
    pub fn update_progress(&mut self, job_id: u128, progress: u8) -> (result: Result<
        (),
        IronForgeError,
    >)
        requires
            old(self).sound(),
        ensures
            final(self).sound(),
            result is Ok,
            final(self)@ == old(self)@.update_progress(job_id, progress),
    {
        broadcast use group_hash_axioms;

        let found = match self.records.get(&job_id) {
            Some(job) => Some(job.clone()),
            None => None,
        };
        match found {
            Some(job) => {
                let mut job = job;
                job.progress = progress;
                proof {
                    record_views_insert(self.records@, job_id, job);
                }
                self.records.insert(job_id, job);
            },
            None => {},
        }
        Ok(())
    }

    /// Removes the record, the index entry and the active mark of `job_id`.
    pub fn delete_job(&mut self, job_id: u128) -> (result: Result<(), IronForgeError>)
        requires
            old(self).sound(),
        ensures
            final(self).sound(),
            result is Ok,
            final(self)@ == old(self)@.delete(job_id),
    {
        broadcast use group_hash_axioms;

        proof {
            record_views_remove(self.records@, job_id);
        }
        self.records.remove(&job_id);
        match find(&self.index, job_id) {
            Some(at) => {
                proof {
                    scores_remove(self.index@, at as int);
                }
                self.index.remove(at);
            },
            None => {
                proof {
                    assert(scores(self.index@).remove(job_id) =~= scores(self.index@));
                }
            },
        }
        self.active.remove(&job_id);
        Ok(())
    }

    /// Writes the record of `job` with status `DeadLetter` and pushes its
    /// identifier onto the dead-letter list.
    pub fn move_to_dlq(&mut self, job: &Job) -> (result: Result<(), IronForgeError>)
        requires
            old(self).sound(),
        ensures
            final(self).sound(),
            result is Ok,
            final(self)@ == old(self)@.move_to_dlq(job@),
    {
        broadcast use group_hash_axioms;

        let mut updated = job.clone();
        updated.status = JobStatus::DeadLetter;
        proof {
            record_views_insert(self.records@, job.id, updated);
        }
        self.records.insert(job.id, updated);
        self.dlq.push(job.id);
        Ok(())
    }

    /// The three counts. The store reports them as signed 64-bit numbers;
    /// a count beyond that range is an error.
    pub fn get_stats(&self) -> (result: Result<QueueStats, IronForgeError>)
        requires
            self.sound(),
        ensures
            match result {
                Ok(stats) => stats.queue_depth == self@.queue_depth() && stats.dlq_depth
                    == self@.dlq_depth() && stats.active_jobs == self@.active_jobs(),
                Err(error) => error is QueueBackend && (self@.queue_depth() > i64::MAX
                    || self@.dlq_depth() > i64::MAX || self@.active_jobs() > i64::MAX),
            },
    {
        broadcast use group_hash_axioms;

        proof {
            scores_count(self.index@);
        }
        match (reported(self.index.len()), reported(self.dlq.len()), reported(self.active.len())) {
            (Some(queue_depth), Some(dlq_depth), Some(active_jobs)) => Ok(
                QueueStats { queue_depth, dlq_depth, active_jobs },
            ),
            _ => Err(IronForgeError::QueueBackend(String::from_str("count out of range"))),
        }
    }

    /// Takes the lock of `job_id` for `timeout_secs` seconds if it is free,
    /// and marks the job active. The answer is whether the lock was taken.
    /// A time to live of zero is refused as the store refuses it, with an
    /// error, and nothing changes.
    pub fn acquire_lock(&mut self, job_id: u128, timeout_secs: u64) -> (result: Result<
        bool,
        IronForgeError,
    >)
        requires
            old(self).sound(),
        ensures
            final(self).sound(),
            timeout_secs == 0 ==> final(self)@ == old(self)@ && (result matches Err(
                IronForgeError::QueueBackend(_),
            )),
            timeout_secs > 0 ==> result == Ok::<bool, IronForgeError>(
                old(self)@.lock_is_free(job_id),
            ) && final(self)@ == old(self)@.acquire_lock(job_id, timeout_secs as int),
    {
        broadcast use group_hash_axioms;

        if timeout_secs == 0 {
            return Err(IronForgeError::QueueBackend(String::from_str("invalid expire time")));
        }
        let held = match self.locks.get(&job_id) {
            Some(expiry) => (self.clock as u128) < *expiry,
            None => false,
        };
        if held {
            Ok(false)
        } else {
            let expiry: u128 = self.clock as u128 + timeout_secs as u128;
            proof {
                expiries_insert(self.locks@, job_id, expiry);
            }
            self.locks.insert(job_id, expiry);
            self.active.insert(job_id);
            Ok(true)
        }
    }

    /// Gives the lock of `job_id` back and takes the active mark away.
    pub fn release_lock(&mut self, job_id: u128) -> (result: Result<(), IronForgeError>)
        requires
            old(self).sound(),
        ensures
            final(self).sound(),
            result is Ok,
            final(self)@ == old(self)@.release_lock(job_id),
    {
        broadcast use group_hash_axioms;

        proof {
            expiries_remove(self.locks@, job_id);
        }
        self.locks.remove(&job_id);
        self.active.remove(&job_id);
        Ok(())
    }

    /// Lets `secs` seconds pass on the clock of the store: locks whose
    /// time has come expire. The clock counts in 64 bits.
    pub fn pass_time(&mut self, secs: u64)
        requires
            old(self).sound(),
            old(self)@.now + secs <= u64::MAX,
        ensures
            final(self).sound(),
            final(self)@ == old(self)@.pass(secs as int),
    {
        self.clock = self.clock + secs;
    }

    /// Acknowledges a job. The dequeue has already taken the job off the
    /// index, so nothing is left to do: the store stays as it is.
    pub fn ack_job(&self, job_id: u128, stream_id: &str) -> (result: Result<(), IronForgeError>)
        ensures
            result is Ok,
    {
        Ok(())
    }
}

} // verus!
