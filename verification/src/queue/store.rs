//! The contract of a queue backend, over a model of the store.
//!
//! The store keeps one record per job, a sorted index of the queued
//! identifiers by score, the dead-letter list, the lock keys with their
//! expiry and the set of active jobs. Every backend operation is one
//! atomic step on these; each is also spelled out as the primitive writes
//! that the store performs for it.

use crate::models::job::{score_of, score_respects_priority, JobStatus, JobView, Priority};
use vstd::prelude::*;

verus! {

/// Counts that describe the load of the queue.
#[derive(Debug, Clone, Copy, PartialEq, Eq, Structural)]
pub struct QueueStats {
    pub queue_depth: i64,
    pub dlq_depth: i64,
    pub active_jobs: i64,
}

/// What the store holds.
pub struct StoreState {
    /// `jobs:{id}`: the record of each job, by identifier.
    pub records: Map<u128, JobView>,
    /// `queue:main`: the score of each queued identifier.
    pub queue: Map<u128, int>,
    /// `queue:dlq`: the identifiers moved to the dead-letter queue, oldest first.
    pub dlq: Seq<u128>,
    /// `lock:{id}`: for each lock that was set and not deleted, the time on
    /// the store's clock at which it expires.
    pub locks: Map<u128, int>,
    /// `active:jobs`: the identifiers of the jobs being worked on.
    pub active: Set<u128>,
    /// The store's clock, in seconds.
    pub now: int,
}

/// One primitive write of the store.
pub enum Write {
    /// `SET jobs:{id} record`.
    PutRecord(u128, JobView),
    /// `DEL jobs:{id}`.
    RemoveRecord(u128),
    /// The record of the identifier is read, its progress set, and the
    /// record written back; nothing happens without a record.
    PatchProgress(u128, u8),
    /// `ZADD queue:main score id`.
    IndexAdd(u128, int),
    /// `ZREM queue:main id`.
    IndexRemove(u128),
    /// `RPUSH queue:dlq id`.
    DeadLetterPush(u128),
    /// `SET lock:{id} locked NX EX ttl`.
    LockIfAbsent(u128, int),
    /// `DEL lock:{id}`.
    LockRemove(u128),
    /// `SADD active:jobs id`.
    ActiveAdd(u128),
    /// `SREM active:jobs id`.
    ActiveRemove(u128),
}

impl StoreState {
    /// A store with nothing in it.
    pub open spec fn empty() -> StoreState {
        StoreState {
            records: Map::empty(),
            queue: Map::empty(),
            dlq: Seq::empty(),
            locks: Map::empty(),
            active: Set::empty(),
            now: 0,
        }
    }

    /// The index, the locks and the active set are finite.
    pub open spec fn well_formed(self) -> bool {
        self.queue.dom().finite() && self.locks.dom().finite() && self.active.finite()
    }

    pub open spec fn queue_depth(self) -> nat {
        self.queue.dom().len()
    }

    pub open spec fn dlq_depth(self) -> nat {
        self.dlq.len()
    }

    pub open spec fn active_jobs(self) -> nat {
        self.active.len()
    }

    /// Enqueue: the record is written and the identifier enters the index
    /// with the job's score, in one step. An identifier already in the index
    /// keeps its one entry and takes the new score.
    pub open spec fn enqueue(self, job: JobView) -> StoreState {
        StoreState {
            records: self.records.insert(job.id, job),
            queue: self.queue.insert(job.id, job.score()),
            ..self
        }
    }

    /// Whether a dequeue may return `id`: it is queued and no queued
    /// identifier has a lower score.
    pub open spec fn is_head(self, id: u128) -> bool {
        self.queue.contains_key(id) && forall|other: u128| #[trigger]
            self.queue.contains_key(other) ==> self.queue[id] <= self.queue[other]
    }

    /// Whether `id` is the head that comes first where scores tie: among
    /// equal scores the smaller identifier leads, as in the store's own
    /// order of equal-score members.
    pub open spec fn is_first(self, id: u128) -> bool {
        self.queue.contains_key(id) && forall|other: u128| #[trigger]
            self.queue.contains_key(other) ==> self.queue[id] < self.queue[other] || (
            self.queue[id] == self.queue[other] && id <= other)
    }

    /// The identifier that `is_first`, where the index is not empty.
    pub open spec fn first(self) -> u128 {
        choose|id: u128| self.is_first(id)
    }

    /// Dequeue of `id`: the identifier leaves the index; the record stays.
    pub open spec fn pop(self, id: u128) -> StoreState {
        StoreState { queue: self.queue.remove(id), ..self }
    }

    /// Get: the record of `id`, if there is one.
    pub open spec fn get(self, id: u128) -> Option<JobView> {
        if self.records.contains_key(id) {
            Some(self.records[id])
        } else {
            None
        }
    }

    /// Update: the record is overwritten.
    pub open spec fn update(self, job: JobView) -> StoreState {
        StoreState { records: self.records.insert(job.id, job), ..self }
    }

    /// Progress update: the `progress` field of the record of `id` is set,
    /// and nothing else; without a record nothing changes.
    pub open spec fn update_progress(self, id: u128, progress: u8) -> StoreState {
        if self.records.contains_key(id) {
            StoreState {
                records: self.records.insert(id, JobView { progress, ..self.records[id] }),
                ..self
            }
        } else {
            self
        }
    }

    /// Delete: record, index entry and active mark go in one step.
    pub open spec fn delete(self, id: u128) -> StoreState {
        StoreState {
            records: self.records.remove(id),
            queue: self.queue.remove(id),
            active: self.active.remove(id),
            ..self
        }
    }

    /// Move to the dead-letter queue: the record is written with status
    /// `DeadLetter` and the identifier is pushed onto the list, in one step.
    pub open spec fn move_to_dlq(self, job: JobView) -> StoreState {
        StoreState {
            records: self.records.insert(
                job.id,
                JobView { status: JobStatus::DeadLetter, ..job },
            ),
            dlq: self.dlq.push(job.id),
            ..self
        }
    }

    /// Whether the lock of `id` is held: it was set and has not expired.
    pub open spec fn lock_is_held(self, id: u128) -> bool {
        self.locks.contains_key(id) && self.now < self.locks[id]
    }

    /// Whether the lock of `id` can be taken: nobody holds it.
    pub open spec fn lock_is_free(self, id: u128) -> bool {
        !self.lock_is_held(id)
    }

    /// Acquire: a free lock is taken for `ttl` seconds and the job marked
    /// active; a held lock leaves the store as it is.
    pub open spec fn acquire_lock(self, id: u128, ttl: int) -> StoreState {
        if self.lock_is_free(id) {
            StoreState {
                locks: self.locks.insert(id, self.now + ttl),
                active: self.active.insert(id),
                ..self
            }
        } else {
            self
        }
    }

    /// Release: the lock key and the active mark go.
    pub open spec fn release_lock(self, id: u128) -> StoreState {
        StoreState { locks: self.locks.remove(id), active: self.active.remove(id), ..self }
    }

    /// The passing of `secs` seconds: the clock moves on, and with it every
    /// lock whose time has come expires. Nothing else changes; the active
    /// mark of an expired lock stays until a release or a delete.
    pub open spec fn pass(self, secs: int) -> StoreState {
        StoreState { now: self.now + secs, ..self }
    }

    /// What one primitive write does.
    pub open spec fn apply(self, write: Write) -> StoreState {
        match write {
            Write::PutRecord(id, job) => StoreState {
                records: self.records.insert(id, job),
                ..self
            },
            Write::RemoveRecord(id) => StoreState { records: self.records.remove(id), ..self },
            Write::PatchProgress(id, progress) => if self.records.contains_key(id) {
                StoreState {
                    records: self.records.insert(id, JobView { progress, ..self.records[id] }),
                    ..self
                }
            } else {
                self
            },
            Write::IndexAdd(id, score) => StoreState {
                queue: self.queue.insert(id, score),
                ..self
            },
            Write::IndexRemove(id) => StoreState { queue: self.queue.remove(id), ..self },
            Write::DeadLetterPush(id) => StoreState { dlq: self.dlq.push(id), ..self },
            Write::LockIfAbsent(id, ttl) => if self.lock_is_free(id) {
                StoreState { locks: self.locks.insert(id, self.now + ttl), ..self }
            } else {
                self
            },
            Write::LockRemove(id) => StoreState { locks: self.locks.remove(id), ..self },
            Write::ActiveAdd(id) => StoreState { active: self.active.insert(id), ..self },
            Write::ActiveRemove(id) => StoreState { active: self.active.remove(id), ..self },
        }
    }
}

/// The store after the writes of `writes`, performed in order with nothing
/// in between.
pub open spec fn apply_all(store: StoreState, writes: Seq<Write>) -> StoreState
    decreases writes.len(),
{
    if writes.len() == 0 {
        store
    } else {
        apply_all(store.apply(writes[0]), writes.subrange(1, writes.len() as int))
    }
}

/// The writes of an enqueue.
pub open spec fn enqueue_writes(job: JobView) -> Seq<Write> {
    seq![Write::PutRecord(job.id, job), Write::IndexAdd(job.id, job.score())]
}

/// The writes of a move to the dead-letter queue.
pub open spec fn move_to_dlq_writes(job: JobView) -> Seq<Write> {
    seq![
        Write::PutRecord(job.id, JobView { status: JobStatus::DeadLetter, ..job }),
        Write::DeadLetterPush(job.id),
    ]
}

/// The writes of a delete.
pub open spec fn delete_writes(id: u128) -> Seq<Write> {
    seq![Write::RemoveRecord(id), Write::IndexRemove(id), Write::ActiveRemove(id)]
}

/// The writes of a release of a lock.
pub open spec fn release_writes(id: u128) -> Seq<Write> {
    seq![Write::LockRemove(id), Write::ActiveRemove(id)]
}

/// The writes of a request for a lock: the lock is set if it is absent,
/// and only if that took the lock is the job marked active.
pub open spec fn acquire_writes(store: StoreState, id: u128, ttl: int) -> Seq<Write> {
    if store.lock_is_free(id) {
        seq![Write::LockIfAbsent(id, ttl), Write::ActiveAdd(id)]
    } else {
        seq![Write::LockIfAbsent(id, ttl)]
    }
}

/// Each operation is its writes: performed in order, the primitive writes
/// of an operation leave the store as the operation's one step leaves it.
pub proof fn operations_are_their_writes(store: StoreState, job: JobView, id: u128, ttl: int)
    ensures
        apply_all(store, enqueue_writes(job)) == store.enqueue(job),
        apply_all(store, move_to_dlq_writes(job)) == store.move_to_dlq(job),
        apply_all(store, delete_writes(id)) == store.delete(id),
        apply_all(store, release_writes(id)) == store.release_lock(id),
        apply_all(store, acquire_writes(store, id, ttl)) == store.acquire_lock(id, ttl),
        store.apply(Write::PutRecord(job.id, job)) == store.update(job),
        forall|progress: u8| #[trigger]
            store.apply(Write::PatchProgress(id, progress)) == store.update_progress(id, progress),
{
    reveal_with_fuel(apply_all, 4);
    let writes = enqueue_writes(job);
    assert(writes.subrange(1, 2) =~= seq![writes[1]]);
    assert(writes.subrange(1, 2).subrange(1, 1) =~= Seq::<Write>::empty());
    let writes = move_to_dlq_writes(job);
    assert(writes.subrange(1, 2) =~= seq![writes[1]]);
    assert(writes.subrange(1, 2).subrange(1, 1) =~= Seq::<Write>::empty());
    let writes = delete_writes(id);
    assert(writes.subrange(1, 3) =~= seq![writes[1], writes[2]]);
    assert(writes.subrange(1, 3).subrange(1, 2) =~= seq![writes[2]]);
    assert(writes.subrange(1, 3).subrange(1, 2).subrange(1, 1) =~= Seq::<Write>::empty());
    let writes = release_writes(id);
    assert(writes.subrange(1, 2) =~= seq![writes[1]]);
    assert(writes.subrange(1, 2).subrange(1, 1) =~= Seq::<Write>::empty());
    let writes = acquire_writes(store, id, ttl);
    if store.lock_is_free(id) {
        assert(writes.subrange(1, 2) =~= seq![writes[1]]);
        assert(writes.subrange(1, 2).subrange(1, 1) =~= Seq::<Write>::empty());
    } else {
        assert(writes.subrange(1, 1) =~= Seq::<Write>::empty());
    }
}

/// The store after the jobs of `jobs` have been enqueued one by one, in order.
pub open spec fn enqueue_all(store: StoreState, jobs: Seq<JobView>) -> StoreState
    decreases jobs.len(),
{
    if jobs.len() == 0 {
        store
    } else {
        enqueue_all(store, jobs.drop_last()).enqueue(jobs.last())
    }
}

/// Priority dominance, at one dequeue: while a job of a more urgent
/// priority is queued, no dequeue returns a job of a less urgent one,
/// whenever the two were enqueued and whatever their timestamps.
pub proof fn priority_dominance(
    store: StoreState,
    urgent: u128,
    urgent_priority: Priority,
    urgent_created_at: i64,
    other: u128,
    other_priority: Priority,
    other_created_at: i64,
)
    requires
        store.queue.contains_key(urgent),
        store.queue[urgent] == score_of(urgent_priority, urgent_created_at),
        store.queue.contains_key(other),
        store.queue[other] == score_of(other_priority, other_created_at),
        urgent_priority.rank() < other_priority.rank(),
    ensures
        !store.is_head(other),
        !store.is_first(other),
{
    score_respects_priority(urgent_priority, urgent_created_at, other_priority, other_created_at);
}

/// One step of a history of the queue.
pub enum QueueStep {
    /// A job was enqueued.
    Enqueued(JobView),
    /// A dequeue returned this identifier.
    Dequeued(u128),
}

/// The store after `steps`, applied in order from `store`.
pub open spec fn after_steps(store: StoreState, steps: Seq<QueueStep>) -> StoreState
    decreases steps.len(),
{
    if steps.len() == 0 {
        store
    } else {
        match steps.last() {
            QueueStep::Enqueued(job) => after_steps(store, steps.drop_last()).enqueue(job),
            QueueStep::Dequeued(id) => after_steps(store, steps.drop_last()).pop(id),
        }
    }
}

/// Whether `steps` can happen from `store`: every dequeue returns an
/// identifier that is a head of the queue at that moment.
pub open spec fn can_happen(store: StoreState, steps: Seq<QueueStep>) -> bool {
    forall|at: int|
        0 <= at < steps.len() ==> (#[trigger] steps[at] matches QueueStep::Dequeued(id)
            ==> after_steps(store, steps.subrange(0, at)).is_head(id))
}

/// Whether `steps` leave the queue entry of `id` to the dequeues: no step
/// enqueues a job under that identifier.
pub open spec fn never_enqueues(steps: Seq<QueueStep>, id: u128) -> bool {
    forall|at: int|
        0 <= at < steps.len() ==> (#[trigger] steps[at] matches QueueStep::Enqueued(job)
            ==> job.id != id)
}

/// Priority dominance over a history: when two jobs are queued and one has
/// the lower score, then in every history of enqueues of other jobs and of
/// dequeues, the one with the higher score is not dequeued unless the one
/// with the lower score was dequeued before it. With
/// `score_respects_priority`, every queued job of a more urgent priority
/// leaves before any queued job of a less urgent one.
pub proof fn lower_score_leaves_first(
    store: StoreState,
    steps: Seq<QueueStep>,
    urgent: u128,
    other: u128,
    at: int,
)
    requires
        store.queue.contains_key(urgent),
        store.queue.contains_key(other),
        store.queue[urgent] < store.queue[other],
        can_happen(store, steps),
        never_enqueues(steps, urgent),
        never_enqueues(steps, other),
        0 <= at < steps.len(),
        steps[at] == QueueStep::Dequeued(other),
    ensures
        exists|before: int| 0 <= before < at && steps[before] == QueueStep::Dequeued(urgent),
{
    if forall|before: int| 0 <= before < at ==> steps[before] != QueueStep::Dequeued(urgent) {
        entries_stay(store, steps.subrange(0, at), urgent, other);
        assert(after_steps(store, steps.subrange(0, at)).is_head(other));
    }
}

/// Priority dominance over a history, by priority: when a job of a more
/// urgent priority and one of a less urgent priority are queued under the
/// scores of their enqueue, then in every history of enqueues of other jobs
/// and of dequeues, the less urgent one is not dequeued unless the more
/// urgent one was dequeued before it, whatever the two timestamps.
pub proof fn more_urgent_leaves_first(
    store: StoreState,
    steps: Seq<QueueStep>,
    urgent: JobView,
    other: JobView,
    at: int,
)
    requires
        urgent.priority.rank() < other.priority.rank(),
        store.queue.contains_key(urgent.id),
        store.queue[urgent.id] == urgent.score(),
        store.queue.contains_key(other.id),
        store.queue[other.id] == other.score(),
        can_happen(store, steps),
        never_enqueues(steps, urgent.id),
        never_enqueues(steps, other.id),
        0 <= at < steps.len(),
        steps[at] == QueueStep::Dequeued(other.id),
    ensures
        exists|before: int| 0 <= before < at && steps[before] == QueueStep::Dequeued(urgent.id),
{
    score_respects_priority(
        urgent.priority,
        urgent.created_at,
        other.priority,
        other.created_at,
    );
    lower_score_leaves_first(store, steps, urgent.id, other.id, at);
}

/// While no step dequeues `urgent` and none enqueues under the two
/// identifiers, `urgent` stays queued with its score, and `other` is
/// queued with its score or gone.
proof fn entries_stay(
    store: StoreState,
    steps: Seq<QueueStep>,
    urgent: u128,
    other: u128,
)
    requires
        store.queue.contains_key(urgent),
        store.queue.contains_key(other),
        never_enqueues(steps, urgent),
        never_enqueues(steps, other),
        forall|before: int| 0 <= before < steps.len() ==> steps[before] != QueueStep::Dequeued(urgent),
    ensures
        after_steps(store, steps).queue.contains_key(urgent),
        after_steps(store, steps).queue[urgent] == store.queue[urgent],
        after_steps(store, steps).queue.contains_key(other) ==> after_steps(store, steps).queue[other]
            == store.queue[other],
    decreases steps.len(),
{
    if steps.len() > 0 {
        let earlier = steps.drop_last();
        assert(never_enqueues(earlier, urgent)) by {
            assert forall|at: int| 0 <= at < earlier.len() implies (#[trigger] earlier[at]
                matches QueueStep::Enqueued(job) ==> job.id != urgent) by {
                assert(earlier[at] == steps[at]);
            }
        }
        assert(never_enqueues(earlier, other)) by {
            assert forall|at: int| 0 <= at < earlier.len() implies (#[trigger] earlier[at]
                matches QueueStep::Enqueued(job) ==> job.id != other) by {
                assert(earlier[at] == steps[at]);
            }
        }
        assert forall|before: int| 0 <= before < earlier.len() implies earlier[before]
            != QueueStep::Dequeued(urgent) by {
            assert(earlier[before] == steps[before]);
        }
        entries_stay(store, earlier, urgent, other);
        let last = steps[steps.len() - 1];
        assert(last == steps.last());
        assert(last != QueueStep::Dequeued(urgent));
    }
}

/// Idempotent re-enqueue: enqueueing the same job twice leaves what
/// enqueueing it once leaves: one index entry for its identifier, with the
/// job's score, and the same depth.
pub proof fn enqueue_is_idempotent(store: StoreState, job: JobView)
    requires
        store.well_formed(),
    ensures
        store.enqueue(job).enqueue(job) == store.enqueue(job),
        store.enqueue(job).queue.contains_key(job.id),
        store.enqueue(job).queue[job.id] == job.score(),
        store.enqueue(job).enqueue(job).queue_depth() == store.enqueue(job).queue_depth(),
        store.enqueue(job).well_formed(),
{
    assert(store.enqueue(job).enqueue(job).records =~= store.enqueue(job).records);
    assert(store.enqueue(job).enqueue(job).queue =~= store.enqueue(job).queue);
}

/// Re-enqueue under the same identifier keeps one entry, with the score of
/// the latest enqueue.
pub proof fn reenqueue_keeps_latest_score(store: StoreState, earlier: JobView, later: JobView)
    requires
        store.well_formed(),
        earlier.id == later.id,
    ensures
        store.enqueue(earlier).enqueue(later).queue == store.enqueue(later).queue,
        store.enqueue(earlier).enqueue(later).queue[later.id] == later.score(),
        store.enqueue(earlier).enqueue(later).queue_depth() == store.enqueue(earlier).queue_depth(),
        store.enqueue(earlier).enqueue(later).get(later.id) == Some(later),
{
    assert(store.enqueue(earlier).enqueue(later).queue =~= store.enqueue(later).queue);
    assert(store.enqueue(earlier).enqueue(later).queue.dom() =~= store.enqueue(
        earlier,
    ).queue.dom());
}

/// A move to the dead-letter queue leaves the job's record with status
/// `DeadLetter`, its retries as they were, and the list longer by the
/// job's identifier.
pub proof fn dead_letter_is_recorded(store: StoreState, job: JobView)
    ensures
        store.move_to_dlq(job).get(job.id) == Some(
            JobView { status: JobStatus::DeadLetter, ..job },
        ),
        store.move_to_dlq(job).dlq_depth() == store.dlq_depth() + 1,
        store.move_to_dlq(job).dlq.last() == job.id,
        store.move_to_dlq(job).queue == store.queue,
{
}

/// Lock mutual exclusion: a lock is granted exactly when nobody holds it,
/// and once granted for `ttl` seconds it is refused to everyone for as
/// long as less than `ttl` seconds have passed and it was not released.
/// After a release, or once `ttl` seconds have passed, it can be taken
/// again.
pub proof fn lock_is_exclusive(store: StoreState, id: u128, ttl: int, waited: int)
    requires
        store.lock_is_free(id),
        ttl > 0,
        waited >= 0,
    ensures
        store.acquire_lock(id, ttl).lock_is_held(id),
        store.acquire_lock(id, ttl).active.contains(id),
        waited < ttl ==> !store.acquire_lock(id, ttl).pass(waited).lock_is_free(id)
            && store.acquire_lock(id, ttl).pass(waited).acquire_lock(id, ttl)
            == store.acquire_lock(id, ttl).pass(waited),
        waited >= ttl ==> store.acquire_lock(id, ttl).pass(waited).lock_is_free(id),
        store.acquire_lock(id, ttl).release_lock(id).lock_is_free(id),
        !store.acquire_lock(id, ttl).release_lock(id).active.contains(id),
{
}

/// A held lock is refused: the request changes nothing.
pub proof fn held_lock_is_refused(store: StoreState, id: u128, ttl: int)
    requires
        store.lock_is_held(id),
    ensures
        store.acquire_lock(id, ttl) == store,
{
}

/// Delete legality, on the side of the store: after the delete of a queued
/// job a get finds nothing and the queue is shorter by exactly one.
pub proof fn delete_takes_the_job_away(store: StoreState, id: u128)
    requires
        store.well_formed(),
        store.queue.contains_key(id),
    ensures
        store.delete(id).get(id) is None,
        store.delete(id).queue_depth() == store.queue_depth() - 1,
        !store.delete(id).queue.contains_key(id),
        !store.delete(id).active.contains(id),
        store.delete(id).well_formed(),
{
}

} // verus!
