//! The Redis backend, without its connection: for each operation, what is
//! sent to the store, and what is made of the answer.
//!
//! Operations on more than one key go to the store as one script, so that
//! no other client sees them half done. A script is a list of steps, each
//! one primitive write on the script's keys and arguments; what the steps
//! do to the store is proved to be the operation's one step.

use crate::foreign::{hyphenated, id_text, parse_id, uuid_parse};
use crate::models::error::IronForgeError;
use crate::models::job::{Job, JobStatus, JobView};
use crate::queue::store::{
    apply_all, delete_writes, enqueue_writes, move_to_dlq_writes, operations_are_their_writes,
    QueueStats, StoreState, Write,
};
use vstd::prelude::*;
use vstd::string::{to_string_from_display_ensures, StringExecFns};

verus! {

/// The scripts that run in the store, each in one atomic step.
#[derive(Debug, Clone, Copy, PartialEq, Eq, Structural)]
pub enum Script {
    /// Write the record and enter the identifier in the index.
    Enqueue,
    /// Write the record and push the identifier onto the dead-letter list.
    MoveToDlq,
    /// Remove the record, the index entry and the active mark.
    DeleteJob,
    /// Set the progress field of the record.
    UpdateProgress,
}

/// An argument of a script.
#[derive(Debug)]
pub enum Argument {
    Text(String),
    Number(i64),
}

/// One request to the store.
#[derive(Debug)]
pub enum Command {
    /// Load a script, so that it can be called by its digest.
    LoadScript(Script),
    /// Run a script on `keys` with `args`.
    Eval { script: Script, keys: Vec<String>, args: Vec<Argument> },
    /// Pop the member with the lowest score, waiting up to `timeout_secs`:
    /// on the index, `StoreState::pop` of an identifier that `is_head`.
    PopMin { key: String, timeout_secs: u64 },
    Get { key: String },
    Put { key: String, value: String },
    /// Set `key` if it is absent, to expire after `ttl_secs`.
    SetIfAbsent { key: String, value: String, ttl_secs: u64 },
    Delete { key: String },
    SetAdd { key: String, member: String },
    SetRemove { key: String, member: String },
    SortedSetLen { key: String },
    ListLen { key: String },
    SetLen { key: String },
}

/// One step of a script: a primitive write of the store on some of the
/// script's keys and arguments. A number is a place among the keys or
/// among the arguments, counted from 0.
#[derive(Debug, Clone, Copy, PartialEq, Eq, Structural)]
pub enum Step {
    /// `SET key value`.
    Put { key: usize, value: usize },
    /// `DEL key`.
    Remove { key: usize },
    /// The record under `key` is read, its progress set to the argument,
    /// and the record written back; nothing happens without a record.
    PatchProgress { key: usize, progress: usize },
    /// `ZADD key score member`.
    SortedAdd { key: usize, score: usize, member: usize },
    /// `ZREM key member`.
    SortedRemove { key: usize, member: usize },
    /// `RPUSH key member`.
    ListPush { key: usize, member: usize },
    /// `SREM key member`.
    SetRemove { key: usize, member: usize },
}

/// What a key names in the store.
pub enum Place {
    Record(u128),
    Index,
    DeadLetters,
    Lock(u128),
    Active,
}

/// What an argument of a script stands for.
pub enum Meaning {
    /// The stored form of a job.
    Record(JobView),
    /// The text of an identifier.
    Id(u128),
    Number(int),
}

/// What the keys and arguments of one call of a script stand for.
pub struct Call {
    pub keys: Seq<Place>,
    pub args: Seq<Meaning>,
}

/// The key of the record of `job_id`: `jobs:{id}`.
pub open spec fn job_key_of(job_id: u128) -> Seq<char> {
    "jobs:"@ + hyphenated(job_id)
}

/// The key of the lock of `job_id`: `lock:{id}`.
pub open spec fn lock_key_of(job_id: u128) -> Seq<char> {
    "lock:"@ + hyphenated(job_id)
}

/// The key that names `place`.
pub open spec fn key_text(place: Place) -> Seq<char> {
    match place {
        Place::Record(job_id) => job_key_of(job_id),
        Place::Index => "queue:main"@,
        Place::DeadLetters => "queue:dlq"@,
        Place::Lock(job_id) => lock_key_of(job_id),
        Place::Active => "active:jobs"@,
    }
}

/// The steps of each script, in the order in which the store performs them.
pub open spec fn script_steps(script: Script) -> Seq<Step> {
    match script {
        Script::Enqueue => seq![
            Step::Put { key: 0, value: 0 },
            Step::SortedAdd { key: 1, score: 2, member: 1 },
        ],
        Script::MoveToDlq => seq![
            Step::Put { key: 0, value: 0 },
            Step::ListPush { key: 1, member: 1 },
        ],
        Script::DeleteJob => seq![
            Step::Remove { key: 0 },
            Step::SortedRemove { key: 1, member: 0 },
            Step::SetRemove { key: 2, member: 0 },
        ],
        Script::UpdateProgress => seq![Step::PatchProgress { key: 0, progress: 0 }],
    }
}

/// The write that `step` performs in a call that stands for `call`, where
/// its keys and arguments are of the kind that the step works on.
pub open spec fn write_of(step: Step, call: Call) -> Option<Write> {
    match step {
        Step::Put { key, value } => if key < call.keys.len() && value < call.args.len() {
            match (call.keys[key as int], call.args[value as int]) {
                (Place::Record(id), Meaning::Record(job)) => Some(Write::PutRecord(id, job)),
                _ => None,
            }
        } else {
            None
        },
        Step::Remove { key } => if key < call.keys.len() {
            match call.keys[key as int] {
                Place::Record(id) => Some(Write::RemoveRecord(id)),
                Place::Lock(id) => Some(Write::LockRemove(id)),
                _ => None,
            }
        } else {
            None
        },
        Step::PatchProgress { key, progress } => if key < call.keys.len() && progress
            < call.args.len() {
            match (call.keys[key as int], call.args[progress as int]) {
                (Place::Record(id), Meaning::Number(number)) => if 0 <= number <= u8::MAX {
                    Some(Write::PatchProgress(id, number as u8))
                } else {
                    None
                },
                _ => None,
            }
        } else {
            None
        },
        Step::SortedAdd { key, score, member } => if key < call.keys.len() && score
            < call.args.len() && member < call.args.len() {
            match (call.keys[key as int], call.args[score as int], call.args[member as int]) {
                (Place::Index, Meaning::Number(number), Meaning::Id(id)) => Some(
                    Write::IndexAdd(id, number),
                ),
                _ => None,
            }
        } else {
            None
        },
        Step::SortedRemove { key, member } => if key < call.keys.len() && member
            < call.args.len() {
            match (call.keys[key as int], call.args[member as int]) {
                (Place::Index, Meaning::Id(id)) => Some(Write::IndexRemove(id)),
                _ => None,
            }
        } else {
            None
        },
        Step::ListPush { key, member } => if key < call.keys.len() && member < call.args.len() {
            match (call.keys[key as int], call.args[member as int]) {
                (Place::DeadLetters, Meaning::Id(id)) => Some(Write::DeadLetterPush(id)),
                _ => None,
            }
        } else {
            None
        },
        Step::SetRemove { key, member } => if key < call.keys.len() && member < call.args.len() {
            match (call.keys[key as int], call.args[member as int]) {
                (Place::Active, Meaning::Id(id)) => Some(Write::ActiveRemove(id)),
                _ => None,
            }
        } else {
            None
        },
    }
}

/// Whether every step of `steps` has a write in a call that stands for `call`.
pub open spec fn fits(steps: Seq<Step>, call: Call) -> bool {
    forall|at: int| 0 <= at < steps.len() ==> (#[trigger] write_of(steps[at], call)) is Some
}

/// The writes that `steps` perform, in order, in a call that stands for `call`.
pub open spec fn writes_of(steps: Seq<Step>, call: Call) -> Seq<Write> {
    Seq::new(steps.len(), |at: int| write_of(steps[at], call)->Some_0)
}

/// What a script does to the store in a call that stands for `call`: its
/// steps, in order, with nothing in between.
pub open spec fn script_effect(store: StoreState, script: Script, call: Call) -> StoreState {
    apply_all(store, writes_of(script_steps(script), call))
}

/// What the call that enqueues `job` stands for.
pub open spec fn enqueue_call(job: JobView) -> Call {
    Call {
        keys: seq![Place::Record(job.id), Place::Index],
        args: seq![Meaning::Record(job), Meaning::Id(job.id), Meaning::Number(job.score())],
    }
}

/// What the call that moves `job` to the dead-letter queue stands for.
pub open spec fn move_to_dlq_call(job: JobView) -> Call {
    Call {
        keys: seq![Place::Record(job.id), Place::DeadLetters],
        args: seq![
            Meaning::Record(JobView { status: JobStatus::DeadLetter, ..job }),
            Meaning::Id(job.id),
        ],
    }
}

/// What the call that deletes `job_id` stands for.
pub open spec fn delete_call(job_id: u128) -> Call {
    Call {
        keys: seq![Place::Record(job_id), Place::Index, Place::Active],
        args: seq![Meaning::Id(job_id)],
    }
}

/// What the call that sets the progress of `job_id` stands for.
pub open spec fn progress_call(job_id: u128, progress: u8) -> Call {
    Call { keys: seq![Place::Record(job_id)], args: seq![Meaning::Number(progress as int)] }
}

/// Each script does its operation: in the call that the backend makes for
/// an operation, the steps of the script fit, and together they leave the
/// store as the operation's one step leaves it.
pub proof fn scripts_do_their_operations(store: StoreState, job: JobView, job_id: u128, progress: u8)
    ensures
        fits(script_steps(Script::Enqueue), enqueue_call(job)),
        script_effect(store, Script::Enqueue, enqueue_call(job)) == store.enqueue(job),
        fits(script_steps(Script::MoveToDlq), move_to_dlq_call(job)),
        script_effect(store, Script::MoveToDlq, move_to_dlq_call(job)) == store.move_to_dlq(job),
        fits(script_steps(Script::DeleteJob), delete_call(job_id)),
        script_effect(store, Script::DeleteJob, delete_call(job_id)) == store.delete(job_id),
        fits(script_steps(Script::UpdateProgress), progress_call(job_id, progress)),
        script_effect(store, Script::UpdateProgress, progress_call(job_id, progress))
            == store.update_progress(job_id, progress),
{
    operations_are_their_writes(store, job, job_id, 1);
    assert(writes_of(script_steps(Script::Enqueue), enqueue_call(job)) =~= enqueue_writes(job));
    assert(writes_of(script_steps(Script::MoveToDlq), move_to_dlq_call(job))
        =~= move_to_dlq_writes(job));
    assert(writes_of(script_steps(Script::DeleteJob), delete_call(job_id)) =~= delete_writes(
        job_id,
    ));
    let patch = writes_of(script_steps(Script::UpdateProgress), progress_call(job_id, progress));
    assert(patch =~= seq![Write::PatchProgress(job_id, progress)]);
    assert(patch.subrange(1, 1) =~= Seq::<Write>::empty());
    reveal_with_fuel(apply_all, 2);
    assert(store.apply(Write::PatchProgress(job_id, progress)) == store.update_progress(
        job_id,
        progress,
    ));
}

/// Whether `argument` is how `meaning` is sent, where `record` is the
/// stored form of the job that a record stands for.
pub open spec fn carries(argument: Argument, meaning: Meaning, record: Seq<char>) -> bool {
    match meaning {
        Meaning::Record(_) => argument matches Argument::Text(text) && text@ == record,
        Meaning::Id(job_id) => argument matches Argument::Text(text) && text@ == hyphenated(
            job_id,
        ),
        Meaning::Number(number) => argument matches Argument::Number(sent) && sent == number,
    }
}

/// Whether `command` is the call of `script` that stands for `call`: the
/// script, on the keys that name the call's places, with the arguments
/// that carry the call's meanings.
pub open spec fn is_call(command: Command, script: Script, call: Call, record: Seq<char>) -> bool {
    &&& command matches Command::Eval { script: sent, keys, args }
    &&& sent == script
    &&& keys.len() == call.keys.len()
    &&& forall|at: int| 0 <= at < keys.len() ==> (#[trigger] keys[at])@ == key_text(call.keys[at])
    &&& args.len() == call.args.len()
    &&& forall|at: int| 0 <= at < args.len() ==> carries(#[trigger] args[at], call.args[at], record)
}

/// Whether `command` asks the store for the one write `write`, where
/// `record` is the stored form of the job that a record stands for.
pub open spec fn sends(command: Command, write: Write, record: Seq<char>) -> bool {
    match write {
        Write::PutRecord(job_id, _) => command matches Command::Put { key, value } && key@
            == key_text(Place::Record(job_id)) && value@ == record,
        Write::RemoveRecord(job_id) => command matches Command::Delete { key } && key@
            == key_text(Place::Record(job_id)),
        Write::LockIfAbsent(job_id, ttl) => command matches Command::SetIfAbsent {
            key,
            value,
            ttl_secs,
        } && key@ == key_text(Place::Lock(job_id)) && value@ == "locked"@ && ttl_secs == ttl,
        Write::LockRemove(job_id) => command matches Command::Delete { key } && key@ == key_text(
            Place::Lock(job_id),
        ),
        Write::ActiveAdd(job_id) => command matches Command::SetAdd { key, member } && key@
            == key_text(Place::Active) && member@ == hyphenated(job_id),
        Write::ActiveRemove(job_id) => command matches Command::SetRemove { key, member } && key@
            == key_text(Place::Active) && member@ == hyphenated(job_id),
        _ => false,
    }
}

impl Script {
    /// The steps of the script, in the order in which the store performs them.
    pub fn steps(&self) -> (steps: Vec<Step>)
        ensures
            steps@ == script_steps(*self),
    {
        let mut steps: Vec<Step> = Vec::new();
        match self {
            Script::Enqueue => {
                steps.push(Step::Put { key: 0, value: 0 });
                steps.push(Step::SortedAdd { key: 1, score: 2, member: 1 });
            },
            Script::MoveToDlq => {
                steps.push(Step::Put { key: 0, value: 0 });
                steps.push(Step::ListPush { key: 1, member: 1 });
            },
            Script::DeleteJob => {
                steps.push(Step::Remove { key: 0 });
                steps.push(Step::SortedRemove { key: 1, member: 0 });
                steps.push(Step::SetRemove { key: 2, member: 0 });
            },
            Script::UpdateProgress => {
                steps.push(Step::PatchProgress { key: 0, progress: 0 });
            },
        }
        assert(steps@ =~= script_steps(*self));
        steps
    }
}

/// The Redis backend's side of the conversation with the store.
#[derive(Debug, Clone, Copy)]
pub struct RedisQueueBackend;

impl RedisQueueBackend {
    /// The key of the sorted index of queued identifiers.
    pub fn queue_key() -> (key: &'static str)
        ensures
            key@ == key_text(Place::Index),
    {
        "queue:main"
    }

    /// The key of the dead-letter list.
    pub fn dlq_key() -> (key: &'static str)
        ensures
            key@ == key_text(Place::DeadLetters),
    {
        "queue:dlq"
    }

    /// The key of the set of active jobs.
    pub fn active_jobs_key() -> (key: &'static str)
        ensures
            key@ == key_text(Place::Active),
    {
        "active:jobs"
    }

    /// The key of the record of `job_id`.
    pub fn job_key(job_id: u128) -> (key: String)
        ensures
            key@ == key_text(Place::Record(job_id)),
    {
        String::from_str("jobs:").concat(id_text(job_id).as_str())
    }

    /// The key of the lock of `job_id`.
    pub fn lock_key(job_id: u128) -> (key: String)
        ensures
            key@ == key_text(Place::Lock(job_id)),
    {
        String::from_str("lock:").concat(id_text(job_id).as_str())
    }

    /// The scripts to load when a connection is made, in the order in
    /// which they are loaded.
    pub fn preload() -> (commands: Vec<Command>)
        ensures
            commands.len() == 4,
            commands[0] == Command::LoadScript(Script::Enqueue),
            commands[1] == Command::LoadScript(Script::MoveToDlq),
            commands[2] == Command::LoadScript(Script::DeleteJob),
            commands[3] == Command::LoadScript(Script::UpdateProgress),
    {
        let mut commands: Vec<Command> = Vec::new();
        commands.push(Command::LoadScript(Script::Enqueue));
        commands.push(Command::LoadScript(Script::MoveToDlq));
        commands.push(Command::LoadScript(Script::DeleteJob));
        commands.push(Command::LoadScript(Script::UpdateProgress));
        commands
    }

    /// The enqueue of `job`, whose stored form is `record`.
    pub fn enqueue(job: &Job, record: String) -> (command: Command)
        ensures
            is_call(command, Script::Enqueue, enqueue_call(job@), record@),
    {
        let mut keys: Vec<String> = Vec::new();
        keys.push(RedisQueueBackend::job_key(job.id));
        keys.push(String::from_str(RedisQueueBackend::queue_key()));
        let mut args: Vec<Argument> = Vec::new();
        args.push(Argument::Text(record));
        args.push(Argument::Text(id_text(job.id)));
        args.push(Argument::Number(job.calculate_redis_score()));
        Command::Eval { script: Script::Enqueue, keys, args }
    }

    /// The enqueue of each job of `jobs`, in order, for one round trip to
    /// the store; `records[i]` is the stored form of `jobs[i]`. Each job
    /// keeps its own atomic step. `None` where the two differ in length.
    pub fn enqueue_batch(jobs: &Vec<Job>, records: &Vec<String>) -> (commands: Option<
        Vec<Command>,
    >)
        ensures
            commands is Some <==> jobs.len() == records.len(),
            commands matches Some(list) ==> list.len() == jobs.len() && forall|i: int|
                0 <= i < list.len() ==> is_call(
                    #[trigger] list[i],
                    Script::Enqueue,
                    enqueue_call(jobs[i]@),
                    records[i]@,
                ),
    {
        if jobs.len() != records.len() {
            return None;
        }
        let mut list: Vec<Command> = Vec::new();
        let mut at: usize = 0;
        while at < jobs.len()
            invariant
                at <= jobs.len(),
                jobs.len() == records.len(),
                list.len() == at,
                forall|i: int|
                    0 <= i < list.len() ==> is_call(
                        #[trigger] list[i],
                        Script::Enqueue,
                        enqueue_call(jobs[i]@),
                        records[i]@,
                    ),
            decreases jobs.len() - at,
        {
            let command = RedisQueueBackend::enqueue(&jobs[at], records[at].clone());
            list.push(command);
            at = at + 1;
        }
        Some(list)
    }

    /// The dequeue: a blocking pop of the lowest score from the index.
    pub fn dequeue(timeout_secs: u64) -> (command: Command)
        ensures
            command matches Command::PopMin { key, timeout_secs: wait } && key@ == key_text(
                Place::Index,
            ) && wait == timeout_secs,
    {
        Command::PopMin { key: String::from_str(RedisQueueBackend::queue_key()), timeout_secs }
    }

    /// What the pop returned, read as an identifier: the key, the member
    /// and the score come back, and the member is the identifier's text.
    /// `None` means that the wait timed out.
    pub fn dequeue_reply(reply: Option<(String, String, i64)>) -> (popped: Result<
        Option<u128>,
        IronForgeError,
    >)
        ensures
            match reply {
                None => popped == Ok::<Option<u128>, IronForgeError>(None),
                Some((_, member, _)) => match uuid_parse(member@) {
                    Some(job_id) => popped == Ok::<Option<u128>, IronForgeError>(Some(job_id)),
                    None => popped is Err && popped->Err_0 is QueueBackend,
                },
            },
    {
        match reply {
            None => Ok(None),
            Some((_, member, _)) => RedisQueueBackend::popped_job_id(parse_id(member.as_str())),
        }
    }

    /// The identifier that a pop returned, from what the parser made of
    /// the member: a text that is no identifier is a backend error that
    /// carries the parser's words.
    pub fn popped_job_id(parsed: Result<u128, uuid::Error>) -> (popped: Result<
        Option<u128>,
        IronForgeError,
    >)
        ensures
            match parsed {
                Ok(job_id) => popped == Ok::<Option<u128>, IronForgeError>(Some(job_id)),
                Err(error) => popped matches Err(IronForgeError::QueueBackend(words))
                    && to_string_from_display_ensures::<uuid::Error>(&error, words),
            },
    {
        match parsed {
            Ok(job_id) => Ok(Some(job_id)),
            Err(error) => Err(IronForgeError::QueueBackend(error.to_string())),
        }
    }

    /// The get of the record of `job_id`.
    pub fn get_job(job_id: u128) -> (command: Command)
        ensures
            command matches Command::Get { key } && key@ == key_text(Place::Record(job_id)),
    {
        Command::Get { key: RedisQueueBackend::job_key(job_id) }
    }

    /// The progress update of `job_id`: the progress script on the
    /// record's key, with the new progress.
    pub fn update_progress(job_id: u128, progress: u8) -> (command: Command)
        ensures
            is_call(
                command,
                Script::UpdateProgress,
                progress_call(job_id, progress),
                Seq::empty(),
            ),
    {
        let mut keys: Vec<String> = Vec::new();
        keys.push(RedisQueueBackend::job_key(job_id));
        let mut args: Vec<Argument> = Vec::new();
        args.push(Argument::Number(progress as i64));
        Command::Eval { script: Script::UpdateProgress, keys, args }
    }

    /// A failed progress update, as the backend reports it: a backend
    /// error that carries the store's words.
    pub fn update_progress_failed(error: redis::RedisError) -> (reported: IronForgeError)
        ensures
            reported matches IronForgeError::QueueBackend(words)
                && to_string_from_display_ensures::<redis::RedisError>(&error, words),
    {
        IronForgeError::QueueBackend(error.to_string())
    }

    /// The update of `job`, whose stored form is `record`: the record is
    /// overwritten.
    pub fn update_job(job: &Job, record: String) -> (command: Command)
        ensures
            sends(command, Write::PutRecord(job.id, job@), record@),
    {
        Command::Put { key: RedisQueueBackend::job_key(job.id), value: record }
    }

    /// The delete of `job_id`: the delete script on the record's key, the
    /// index and the active set, with the identifier.
    pub fn delete_job(job_id: u128) -> (command: Command)
        ensures
            is_call(command, Script::DeleteJob, delete_call(job_id), Seq::empty()),
    {
        let mut keys: Vec<String> = Vec::new();
        keys.push(RedisQueueBackend::job_key(job_id));
        keys.push(String::from_str(RedisQueueBackend::queue_key()));
        keys.push(String::from_str(RedisQueueBackend::active_jobs_key()));
        let mut args: Vec<Argument> = Vec::new();
        args.push(Argument::Text(id_text(job_id)));
        Command::Eval { script: Script::DeleteJob, keys, args }
    }

    /// The record that goes to the store with a dead-lettered job: the job
    /// with status `DeadLetter`, all else as it was.
    pub fn dead_letter_record(job: &Job) -> (record: Job)
        ensures
            record@ == (JobView { status: JobStatus::DeadLetter, ..job@ }),
    {
        let mut record = job.clone();
        record.status = JobStatus::DeadLetter;
        record
    }

    /// The move of `job` to the dead-letter queue, where `record` is the
    /// stored form of its `dead_letter_record`: the script on the record's
    /// key and the dead-letter list, with the record and the identifier.
    pub fn move_to_dlq(job: &Job, record: String) -> (command: Command)
        ensures
            is_call(command, Script::MoveToDlq, move_to_dlq_call(job@), record@),
    {
        let mut keys: Vec<String> = Vec::new();
        keys.push(RedisQueueBackend::job_key(job.id));
        keys.push(String::from_str(RedisQueueBackend::dlq_key()));
        let mut args: Vec<Argument> = Vec::new();
        args.push(Argument::Text(record));
        args.push(Argument::Text(id_text(job.id)));
        Command::Eval { script: Script::MoveToDlq, keys, args }
    }

    /// The three counts to ask for: the size of the index, the length of
    /// the dead-letter list and the size of the active set, in this order.
    pub fn get_stats() -> (commands: Vec<Command>)
        ensures
            commands.len() == 3,
            commands[0] matches Command::SortedSetLen { key } && key@ == key_text(Place::Index),
            commands[1] matches Command::ListLen { key } && key@ == key_text(Place::DeadLetters),
            commands[2] matches Command::SetLen { key } && key@ == key_text(Place::Active),
    {
        let mut commands: Vec<Command> = Vec::new();
        commands.push(
            Command::SortedSetLen { key: String::from_str(RedisQueueBackend::queue_key()) },
        );
        commands.push(Command::ListLen { key: String::from_str(RedisQueueBackend::dlq_key()) });
        commands.push(
            Command::SetLen { key: String::from_str(RedisQueueBackend::active_jobs_key()) },
        );
        commands
    }

    /// The statistics, from the three counts in the order of `get_stats`.
    pub fn stats(queue_depth: i64, dlq_depth: i64, active_jobs: i64) -> (stats: QueueStats)
        ensures
            stats == (QueueStats { queue_depth, dlq_depth, active_jobs }),
    {
        QueueStats { queue_depth, dlq_depth, active_jobs }
    }

    /// The request for the lock of `job_id`: the lock key is set to
    /// `locked` if it is absent, to expire after `timeout_secs`.
    pub fn acquire_lock(job_id: u128, timeout_secs: u64) -> (command: Command)
        ensures
            sends(command, Write::LockIfAbsent(job_id, timeout_secs as int), Seq::empty()),
    {
        Command::SetIfAbsent {
            key: RedisQueueBackend::lock_key(job_id),
            value: String::from_str("locked"),
            ttl_secs: timeout_secs,
        }
    }

    /// Whether the lock was taken, from the store's answer. A store that
    /// fails is an error of the backend, not a lock held by another.
    pub fn lock_acquired(reply: Result<bool, redis::RedisError>) -> (acquired: Result<
        bool,
        IronForgeError,
    >)
        ensures
            match reply {
                Ok(taken) => acquired == Ok::<bool, IronForgeError>(taken),
                Err(error) => acquired matches Err(IronForgeError::Redis(source)) && source
                    == error,
            },
    {
        match reply {
            Ok(taken) => Ok(taken),
            Err(error) => Err(IronForgeError::Redis(error)),
        }
    }

    /// What is sent after the request for the lock of `job_id` was
    /// answered: with the lock taken the job is marked active, else
    /// nothing is sent.
    pub fn lock_follow_up(job_id: u128, acquired: bool) -> (commands: Vec<Command>)
        ensures
            acquired ==> commands.len() == 1 && sends(
                commands[0],
                Write::ActiveAdd(job_id),
                Seq::empty(),
            ),
            !acquired ==> commands.len() == 0,
    {
        let mut commands: Vec<Command> = Vec::new();
        if acquired {
            commands.push(RedisQueueBackend::mark_active(job_id));
        }
        commands
    }

    /// The mark that follows a lock taken: the identifier joins the
    /// active set.
    pub fn mark_active(job_id: u128) -> (command: Command)
        ensures
            sends(command, Write::ActiveAdd(job_id), Seq::empty()),
    {
        Command::SetAdd {
            key: String::from_str(RedisQueueBackend::active_jobs_key()),
            member: id_text(job_id),
        }
    }

    /// The release of the lock of `job_id`: the lock key is deleted, then
    /// the identifier leaves the active set.
    pub fn release_lock(job_id: u128) -> (commands: Vec<Command>)
        ensures
            commands.len() == 2,
            sends(commands[0], Write::LockRemove(job_id), Seq::empty()),
            sends(commands[1], Write::ActiveRemove(job_id), Seq::empty()),
    {
        let mut commands: Vec<Command> = Vec::new();
        commands.push(Command::Delete { key: RedisQueueBackend::lock_key(job_id) });
        commands.push(
            Command::SetRemove {
                key: String::from_str(RedisQueueBackend::active_jobs_key()),
                member: id_text(job_id),
            },
        );
        commands
    }

    /// The acknowledgement of a job: nothing is sent. The pop has already
    /// taken the job off the index; the operation is kept for backends
    /// that must acknowledge.
    pub fn ack_job(job_id: u128, stream_id: &str) -> (commands: Vec<Command>)
        ensures
            commands.len() == 0,
    {
        Vec::new()
    }
}

} // verus!
