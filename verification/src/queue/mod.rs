//! The queue engine: what the store holds, what each operation does to it,
//! and what is sent to the store to have it done.

pub(crate) mod memory;
pub(crate) mod redis;
pub(crate) mod store;
pub(crate) mod streams;

pub use memory::{
    distinct_ids, holds, leads, position, record_views, scores, MemoryQueueBackend, QueueEntry,
};
pub use redis::{
    carries, delete_call, enqueue_call, fits, is_call, job_key_of, key_text, lock_key_of,
    move_to_dlq_call, progress_call, script_effect, script_steps, scripts_do_their_operations,
    sends, write_of, writes_of, Argument, Call, Command, Meaning, Place, RedisQueueBackend,
    Script, Step,
};
pub use store::{
    acquire_writes, after_steps, apply_all, can_happen, dead_letter_is_recorded, delete_writes,
    delete_takes_the_job_away, enqueue_all, enqueue_is_idempotent, enqueue_writes,
    held_lock_is_refused, lock_is_exclusive, lower_score_leaves_first, more_urgent_leaves_first,
    move_to_dlq_writes, never_enqueues, operations_are_their_writes, priority_dominance,
    reenqueue_keeps_latest_score, release_writes, QueueStats, QueueStep, StoreState, Write,
};
pub use streams::{stream_of, RedisStreamBackend};
