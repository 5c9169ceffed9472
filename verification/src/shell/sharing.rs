//! One invocation: joining an execution in progress, reusing a saved result or
//! executing the command, and what it reports at its end.
//!
//! Lock order: a caller holding a key's lock only try-locks `.active`, and the
//! owner holding `.active` blocks on that lock, so the two cannot deadlock. The
//! owner may relock its `.lock` descriptor after execution because cleanup never
//! unlinks `.lock` while `.active` is locked. What several calls do together is
//! stated in [`crate::shell::participants`].

use crate::digest::digestible;
use crate::domain::delivery::{classified, classify, Ending};
use crate::domain::execution::{
    add_vote, reportable, signal_code, with_vote, Saving, Votes, CODES,
};
use crate::domain::message::{
    self, failed_line, finished_line, interrupted_line, Decision, Failure, Saved, Wait,
};
use crate::domain::policy::{Reason, Request};
use crate::domain::record::{Record, RecordView};
use crate::domain::shared::{self, parsed, Published, PublishedView, PENDING};
use crate::error::{in_context, CauseView, Error, ErrorKind, IoError};
use crate::shell::replay::{self, written};
use crate::shell::signals::Waited;
use crate::shell::store::{io_view, loaded_view};
use crate::time::SystemTime;
use vstd::prelude::*;

verus! {

/// What an invocation says and returns after its delivery, given the result of
/// the delivery, the command's exit code, what became of its result, what a
/// failure counts as and the signal that was received.
pub open spec fn reported(
    outcome: Result<i32, Seq<CauseView>>,
    command_code: i32,
    saved: Saved,
    failure: Failure,
    signal: i32,
) -> (Seq<char>, Result<i32, Seq<CauseView>>) {
    match classified(
        outcome,
        command_code,
        signal,
        saved == Saved::Execution(Saving::Interrupted),
    ) {
        Ok((code, ending)) => (finished_line(ending, code as int, saved), Ok(code)),
        Err(error) => (failed_line(saved, failure), Err(error)),
    }
}

/// What an invocation says and returns after its delivery. `signal` is sampled
/// once, so that the exit status and its label cannot disagree.
pub fn report(
    outcome: Result<i32, Error>,
    command_code: i32,
    saved: Saved,
    failure: Failure,
    signal: i32,
) -> (report: (String, Result<i32, Error>))
    requires
        reportable(signal as int),
    ensures
        (report.0@, crate::error::viewed(report.1)) == reported(
            crate::error::viewed(outcome),
            command_code,
            saved,
            failure,
            signal,
        ),
{
    match classify(outcome, command_code, signal, saved.interrupted()) {
        Ok((code, ending)) => (message::finished(ending, code, saved), Ok(code)),
        Err(error) => (message::failed(saved, failure), Err(error)),
    }
}

/// Whether `line` shows an ending with this exit status, which is that of
/// `signal` if there was one.
pub open spec fn shows(line: Seq<char>, ending: Ending, code: i32, saved: Saved, signal: i32) -> bool {
    &&& line == finished_line(ending, code as int, saved)
    &&& signal != 0 ==> ending == Ending::Interrupted && code == 128 + signal
}

/// What an invocation says and what it returns agree: a line with an exit
/// status shows the one that is returned, a received signal is both shown and
/// returned, and a failure is shown as one.
pub proof fn the_line_and_the_exit_status_agree(
    outcome: Result<i32, Seq<CauseView>>,
    command_code: i32,
    saved: Saved,
    failure: Failure,
    signal: i32,
)
    requires
        reportable(signal as int),
    ensures
        reported(outcome, command_code, saved, failure, signal).1 matches Ok(code) ==> {
            let interrupted = saved == Saved::Execution(Saving::Interrupted);
            &&& classified(outcome, command_code, signal, interrupted) matches Ok((_, ending))
            &&& shows(
                reported(outcome, command_code, saved, failure, signal).0,
                ending,
                code,
                saved,
                signal,
            )
        },
        reported(outcome, command_code, saved, failure, signal).1 is Err ==> reported(
            outcome,
            command_code,
            saved,
            failure,
            signal,
        ).0 == failed_line(saved, failure),
{
}

/// What an invocation says and returns after it has replayed a result, given
/// how the wait for the delivery ended and the signal that was received.
pub fn replay(
    command_code: i32,
    saved: Saved,
    waited: Waited<Result<(), Error>>,
    signal: i32,
) -> (replay: (String, Result<i32, Error>))
    requires
        waited matches Waited::Interrupted(signal) ==> reportable(signal as int),
        reportable(signal as int),
    ensures
        (replay.0@, crate::error::viewed(replay.1)) == reported(
            written(command_code, waited),
            command_code,
            saved,
            Failure::Replay,
            signal,
        ),
{
    report(replay::write(command_code, waited), command_code, saved, Failure::Replay, signal)
}

/// The votes to write back when this caller takes part in an execution, given
/// the votes that were read or the failure to read them.
pub fn vote(found: Result<Votes, IoError>, request: &Request) -> (votes: Result<Votes, Error>)
    ensures
        match found {
            Ok(found) => votes matches Ok(votes) && votes@ == with_vote(found@, request.policy()),
            Err(error) => votes matches Err(failure) && failure@ == in_context(
                "read active execution policies"@,
                seq![error@],
            ),
        },
{
    match found {
        Ok(found) => {
            let mut votes = found;
            add_vote(&mut votes, request);
            Ok(votes)
        },
        Err(error) => Err(Error::from_io(error).context("read active execution policies")),
    }
}

/// What an invocation does after a part of it has ended. `R` is a result, `T`
/// a text and `E` a failure.
#[derive(Debug)]
pub enum Next<R, T, E> {
    /// Says `line`, if anything, and returns.
    Return { line: Option<T>, result: Result<i32, E> },
    /// Waits for the execution in progress.
    Join,
    /// Delivers a result.
    Replay { record: R, saved: Saved },
    /// Executes the command.
    Own,
}

pub type NextView = Next<RecordView, Seq<char>, Seq<CauseView>>;

pub open spec fn next_view(next: Next<Record, String, Error>) -> NextView {
    match next {
        Next::Return { line, result } => Next::Return {
            line: crate::shell::verbose::viewed(line),
            result: crate::error::viewed(result),
        },
        Next::Join => Next::Join,
        Next::Replay { record, saved } => Next::Replay { record: record@, saved },
        Next::Own => Next::Own,
    }
}

/// Returns with a failure, without a word of its own.
pub open spec fn fails(error: Seq<CauseView>) -> NextView {
    Next::Return { line: None, result: Err(error) }
}

/// Returns because of `signal`, which came while waiting.
pub open spec fn stops(signal: i32, wait: Wait) -> NextView {
    Next::Return {
        line: Some(interrupted_line(128 + signal, wait)),
        result: Ok((128 + signal) as i32),
    }
}

fn interrupted(signal: i32, wait: Wait) -> (next: Next<Record, String, Error>)
    requires
        reportable(signal as int),
    ensures
        next_view(next) == stops(signal, wait),
{
    let code = signal_code(signal);
    Next::Return { line: Some(message::interrupted(code, wait)), result: Ok(code) }
}

/// How a saved result's completion lies to now: its age in nanoseconds, or how
/// far in the future it completed.
pub type Elapsed = Option<Result<u128, u128>>;

/// The age of a saved result at `now`.
pub open spec fn age_of(saved: Option<RecordView>, now: int) -> Elapsed {
    match saved {
        Some(record) => if now >= record.completed {
            Some(Ok((now - record.completed) as u128))
        } else {
            Some(Err((record.completed - now) as u128))
        },
        None => None,
    }
}

/// How a caller obtains its result.
#[derive(Debug)]
pub enum Entry<R> {
    Join,
    Hit(R),
    Run(Reason),
}

/// The last steps before a caller obtains its result.
#[derive(Clone, Copy, Debug, PartialEq, Eq, Structural)]
pub enum EntryAt {
    /// Adding its vote to the execution's file.
    Voting,
    /// Releasing the key's lock.
    Unlocking,
    /// Saying what was decided.
    Announcing,
}

/// The steps that prepare a new execution.
#[derive(Clone, Copy, Debug, PartialEq, Eq, Structural)]
pub enum StartAt {
    /// Removing the previous result.
    Invalidating,
    /// Creating the execution's file, which must not be there.
    Creating,
    Locking,
    Writing,
}

/// Where a caller stands.
#[allow(inconsistent_fields)]
#[derive(Debug)]
pub enum Caller<R, T, E> {
    AcquiringGate,
    /// A signal came while it waited for the key's lock.
    Stopped,
    /// Opening the file of an execution in progress.
    Opening,
    /// Trying to lock that file, which its owner keeps locked.
    Probing,
    /// Removing what a dead owner left.
    Removing,
    /// Reading the saved result.
    Loading,
    Starting { reason: Reason, age: Elapsed, at: StartAt },
    Entering { entry: Entry<R>, age: Elapsed, at: EntryAt },
    Finished(Next<R, T, E>),
}

/// What a caller needs next. `B` are bytes.
#[derive(Debug)]
pub enum CallerAction<B> {
    /// Acquire the key's lock, waiting until a signal arrives.
    AcquireGate,
    /// Look which signal was received.
    Sample,
    /// Open the file of an execution in progress.
    OpenActive,
    /// Try to lock that file without waiting.
    TryActive,
    RemoveAbandoned,
    /// Read the saved result, then the clock.
    Load,
    /// Remove the saved result.
    Invalidate,
    /// Create the execution's file, readable by this user alone.
    CreateActive,
    /// Try to lock the new file without waiting.
    TryNew,
    /// Write these bytes to the new file.
    WriteNew(B),
    /// Add this caller's vote to the execution's file.
    Vote,
    UnlockGate,
    /// Say what was decided.
    Announce { decision: Decision, age: Elapsed },
    Finish,
}

/// The answer to an action. `R` is a result, `I` the failure of a system call
/// and `E` a failure.
#[derive(Debug)]
pub enum CallerEvent<R, I, E> {
    /// Whether the key's lock is held.
    Gate(Result<bool, E>),
    Signal(i32),
    Opened(Result<(), I>),
    Locked(Result<bool, E>),
    Loaded { saved: Result<Option<R>, E>, now: SystemTime },
    /// Whether a file was removed, created or written.
    Filed(Result<(), I>),
    /// Any other action, carried out or not.
    Done(Result<(), E>),
}

pub type CallerState = Caller<Record, String, Error>;

pub type CallerView = Caller<RecordView, Seq<char>, Seq<CauseView>>;

pub type CallerEventView = CallerEvent<RecordView, CauseView, Seq<CauseView>>;

pub open spec fn caller_view(caller: CallerState) -> CallerView {
    match caller {
        Caller::AcquiringGate => Caller::AcquiringGate,
        Caller::Stopped => Caller::Stopped,
        Caller::Opening => Caller::Opening,
        Caller::Probing => Caller::Probing,
        Caller::Removing => Caller::Removing,
        Caller::Loading => Caller::Loading,
        Caller::Starting { reason, age, at } => Caller::Starting { reason, age, at },
        Caller::Entering { entry, age, at } => Caller::Entering {
            entry: match entry {
                Entry::Join => Entry::Join,
                Entry::Hit(record) => Entry::Hit(record@),
                Entry::Run(reason) => Entry::Run(reason),
            },
            age,
            at,
        },
        Caller::Finished(next) => Caller::Finished(next_view(next)),
    }
}

pub open spec fn caller_event(event: CallerEvent<Record, IoError, Error>) -> CallerEventView {
    match event {
        CallerEvent::Gate(result) => CallerEvent::Gate(crate::error::viewed(result)),
        CallerEvent::Signal(signal) => CallerEvent::Signal(signal),
        CallerEvent::Opened(result) => CallerEvent::Opened(io_view(result)),
        CallerEvent::Locked(result) => CallerEvent::Locked(crate::error::viewed(result)),
        CallerEvent::Loaded { saved, now } => CallerEvent::Loaded {
            saved: loaded_view(saved),
            now,
        },
        CallerEvent::Filed(result) => CallerEvent::Filed(io_view(result)),
        CallerEvent::Done(result) => CallerEvent::Done(crate::error::viewed(result)),
    }
}

pub open spec fn caller_action(action: CallerAction<Vec<u8>>) -> CallerAction<Seq<u8>> {
    match action {
        CallerAction::AcquireGate => CallerAction::AcquireGate,
        CallerAction::Sample => CallerAction::Sample,
        CallerAction::OpenActive => CallerAction::OpenActive,
        CallerAction::TryActive => CallerAction::TryActive,
        CallerAction::RemoveAbandoned => CallerAction::RemoveAbandoned,
        CallerAction::Load => CallerAction::Load,
        CallerAction::Invalidate => CallerAction::Invalidate,
        CallerAction::CreateActive => CallerAction::CreateActive,
        CallerAction::TryNew => CallerAction::TryNew,
        CallerAction::WriteNew(bytes) => CallerAction::WriteNew(bytes@),
        CallerAction::Vote => CallerAction::Vote,
        CallerAction::UnlockGate => CallerAction::UnlockGate,
        CallerAction::Announce { decision, age } => CallerAction::Announce { decision, age },
        CallerAction::Finish => CallerAction::Finish,
    }
}

/// What a caller in this state needs next.
pub open spec fn caller_wants(caller: CallerView) -> CallerAction<Seq<u8>> {
    match caller {
        Caller::AcquiringGate => CallerAction::AcquireGate,
        Caller::Stopped => CallerAction::Sample,
        Caller::Opening => CallerAction::OpenActive,
        Caller::Probing => CallerAction::TryActive,
        Caller::Removing => CallerAction::RemoveAbandoned,
        Caller::Loading => CallerAction::Load,
        Caller::Starting { at, .. } => match at {
            StartAt::Invalidating => CallerAction::Invalidate,
            StartAt::Creating => CallerAction::CreateActive,
            StartAt::Locking => CallerAction::TryNew,
            StartAt::Writing => CallerAction::WriteNew(
                Seq::new(CODES as nat, |i: int| 0u8).push(PENDING),
            ),
        },
        Caller::Entering { entry, age, at } => match at {
            EntryAt::Voting => CallerAction::Vote,
            EntryAt::Unlocking => CallerAction::UnlockGate,
            EntryAt::Announcing => CallerAction::Announce {
                decision: match entry {
                    Entry::Join => Decision::Join,
                    Entry::Hit(_) => Decision::Hit,
                    Entry::Run(reason) => Decision::Run(reason),
                },
                age,
            },
        },
        Caller::Finished(_) => CallerAction::Finish,
    }
}

/// The state of a caller after `event`. An event that does not answer the last
/// action changes nothing. `path` is the execution's file as it is to be shown.
pub open spec fn caller_after(
    caller: CallerView,
    event: CallerEventView,
    request: &Request,
    path: Seq<char>,
) -> CallerView {
    match (caller, event) {
        (Caller::AcquiringGate, CallerEvent::Gate(result)) => match result {
            Ok(true) => Caller::Opening,
            Ok(false) => Caller::Stopped,
            Err(error) => Caller::Finished(fails(error)),
        },
        (Caller::Stopped, CallerEvent::Signal(signal)) => Caller::Finished(
            stops(signal, Wait::Key),
        ),
        (Caller::Opening, CallerEvent::Opened(result)) => match result {
            Ok(()) => Caller::Probing,
            Err(CauseView::Io(ErrorKind::NotFound, _)) => Caller::Loading,
            Err(error) => Caller::Finished(
                fails(in_context("open active execution"@, seq![error])),
            ),
        },
        (Caller::Probing, CallerEvent::Locked(result)) => match result {
            Ok(true) => Caller::Removing,
            Ok(false) => Caller::Entering { entry: Entry::Join, age: None, at: EntryAt::Voting },
            Err(error) => Caller::Finished(fails(error)),
        },
        (Caller::Removing, CallerEvent::Filed(result)) => match result {
            Ok(()) => Caller::Loading,
            Err(error) => Caller::Finished(
                fails(in_context("remove abandoned execution"@, seq![error])),
            ),
        },
        (Caller::Loading, CallerEvent::Loaded { saved, now }) => match saved {
            Err(error) => Caller::Finished(fails(error)),
            Ok(saved) => match (request.needs(saved, now@), saved) {
                (None, Some(record)) => Caller::Entering {
                    entry: Entry::Hit(record),
                    age: age_of(saved, now@),
                    at: EntryAt::Unlocking,
                },
                (None, None) => caller,
                (Some(reason), _) => Caller::Starting {
                    reason,
                    age: age_of(saved, now@),
                    at: StartAt::Invalidating,
                },
            },
        },
        (Caller::Starting { reason, age, at: StartAt::Invalidating }, CallerEvent::Done(result)) =>
            match result {
                Ok(()) => Caller::Starting { reason, age, at: StartAt::Creating },
                Err(error) => Caller::Finished(fails(error)),
            },
        (Caller::Starting { reason, age, at: StartAt::Creating }, CallerEvent::Filed(result)) =>
            match result {
                Ok(()) => Caller::Starting { reason, age, at: StartAt::Locking },
                Err(error) => Caller::Finished(
                    fails(in_context("create active execution "@ + path, seq![error])),
                ),
            },
        (Caller::Starting { reason, age, at: StartAt::Locking }, CallerEvent::Locked(result)) =>
            match result {
                Ok(true) => Caller::Starting { reason, age, at: StartAt::Writing },
                Ok(false) => Caller::Finished(
                    fails(crate::error::message("new execution unexpectedly locked"@)),
                ),
                Err(error) => Caller::Finished(fails(error)),
            },
        (Caller::Starting { reason, age, at: StartAt::Writing }, CallerEvent::Filed(result)) =>
            match result {
                Ok(()) => Caller::Entering { entry: Entry::Run(reason), age, at: EntryAt::Voting },
                Err(error) => Caller::Finished(fails(seq![error])),
            },
        (Caller::Entering { entry, age, at: EntryAt::Voting }, CallerEvent::Done(Ok(()))) =>
            Caller::Entering { entry, age, at: EntryAt::Unlocking },
        (Caller::Entering { entry, age, at: EntryAt::Unlocking }, CallerEvent::Done(Ok(()))) =>
            Caller::Entering { entry, age, at: EntryAt::Announcing },
        (Caller::Entering { entry, at: EntryAt::Announcing, .. }, CallerEvent::Done(_)) =>
            Caller::Finished(
                match entry {
                    Entry::Join => Next::Join,
                    Entry::Hit(record) => Next::Replay { record, saved: Saved::Reused },
                    Entry::Run(_) => Next::Own,
                },
            ),
        (Caller::Entering { .. }, CallerEvent::Done(Err(error))) => Caller::Finished(fails(error)),
        _ => caller,
    }
}

fn fail(error: Error) -> (caller: CallerState)
    ensures
        caller_view(caller) == CallerView::Finished(fails(error@)),
{
    Caller::Finished(Next::Return { line: None, result: Err(error) })
}

/// Starts an invocation.
pub fn run() -> (caller: CallerState)
    ensures
        caller_view(caller) == CallerView::AcquiringGate,
{
    Caller::AcquiringGate
}

impl Caller<Record, String, Error> {
    /// What the caller needs next.
    pub fn action(&self) -> (action: CallerAction<Vec<u8>>)
        ensures
            caller_action(action) == caller_wants(caller_view(*self)),
    {
        match self {
            Caller::AcquiringGate => CallerAction::AcquireGate,
            Caller::Stopped => CallerAction::Sample,
            Caller::Opening => CallerAction::OpenActive,
            Caller::Probing => CallerAction::TryActive,
            // An open descriptor identifies this generation even after its name
            // is reused.
            Caller::Removing => CallerAction::RemoveAbandoned,
            Caller::Loading => CallerAction::Load,
            Caller::Starting { at, .. } => match at {
                StartAt::Invalidating => CallerAction::Invalidate,
                StartAt::Creating => CallerAction::CreateActive,
                StartAt::Locking => CallerAction::TryNew,
                StartAt::Writing => CallerAction::WriteNew(shared::pending()),
            },
            Caller::Entering { entry, age, at } => match at {
                EntryAt::Voting => CallerAction::Vote,
                EntryAt::Unlocking => CallerAction::UnlockGate,
                EntryAt::Announcing => CallerAction::Announce {
                    decision: match entry {
                        Entry::Join => Decision::Join,
                        Entry::Hit(_) => Decision::Hit,
                        Entry::Run(reason) => Decision::Run(*reason),
                    },
                    age: *age,
                },
            },
            Caller::Finished(_) => CallerAction::Finish,
        }
    }

    /// The caller after the answer to its last action. `path` is the
    /// execution's file as it is to be shown.
    pub fn step(
        self,
        event: CallerEvent<Record, IoError, Error>,
        request: &Request,
        path: &str,
    ) -> (next: CallerState)
        requires
            event matches CallerEvent::Signal(signal) ==> reportable(signal as int),
        ensures
            caller_view(next) == caller_after(
                caller_view(self),
                caller_event(event),
                request,
                path@,
            ),
    {
        match (self, event) {
            (Caller::AcquiringGate, CallerEvent::Gate(result)) => match result {
                Ok(true) => Caller::Opening,
                Ok(false) => Caller::Stopped,
                Err(error) => fail(error),
            },
            (Caller::Stopped, CallerEvent::Signal(signal)) => Caller::Finished(
                interrupted(signal, Wait::Key),
            ),
            (Caller::Opening, CallerEvent::Opened(result)) => match result {
                Ok(()) => Caller::Probing,
                Err(error) => {
                    if matches!(error.kind, ErrorKind::NotFound) {
                        return Caller::Loading;
                    }
                    fail(Error::from_io(error).context("open active execution"))
                },
            },
            (Caller::Probing, CallerEvent::Locked(result)) => match result {
                Ok(true) => Caller::Removing,
                Ok(false) => Caller::Entering {
                    entry: Entry::Join,
                    age: None,
                    at: EntryAt::Voting,
                },
                Err(error) => fail(error),
            },
            (Caller::Removing, CallerEvent::Filed(result)) => match result {
                Ok(()) => Caller::Loading,
                Err(error) => fail(Error::from_io(error).context("remove abandoned execution")),
            },
            (Caller::Loading, CallerEvent::Loaded { saved, now }) => match saved {
                Err(error) => fail(error),
                Ok(saved) => {
                    let reason = request.reason(saved.as_ref(), now);
                    let age: Elapsed = match &saved {
                        Some(record) => Some(now.duration_since(record.completed)),
                        None => None,
                    };
                    match (reason, saved) {
                        (None, Some(record)) => Caller::Entering {
                            entry: Entry::Hit(record),
                            age,
                            at: EntryAt::Unlocking,
                        },
                        (None, None) => Caller::Loading,
                        (Some(reason), _) => Caller::Starting {
                            reason,
                            age,
                            at: StartAt::Invalidating,
                        },
                    }
                },
            },
            (Caller::Starting { reason, age, at: StartAt::Locking }, CallerEvent::Locked(result)) => {
                match result {
                    Ok(true) => Caller::Starting { reason, age, at: StartAt::Writing },
                    Ok(false) => fail(Error::new("new execution unexpectedly locked")),
                    Err(error) => fail(error),
                }
            },
            (
                Caller::Starting { reason, age, at: StartAt::Invalidating },
                CallerEvent::Done(result),
            ) => match result {
                Ok(()) => Caller::Starting { reason, age, at: StartAt::Creating },
                Err(error) => fail(error),
            },
            (Caller::Starting { reason, age, at: StartAt::Creating }, CallerEvent::Filed(result)) => {
                match result {
                    Ok(()) => Caller::Starting { reason, age, at: StartAt::Locking },
                    Err(error) => {
                        let mut context = "create active execution ".to_owned();
                        context.append(path);
                        fail(Error::from_io(error).context(context.as_str()))
                    },
                }
            },
            (Caller::Starting { reason, age, at: StartAt::Writing }, CallerEvent::Filed(result)) => {
                match result {
                    Ok(()) => Caller::Entering {
                        entry: Entry::Run(reason),
                        age,
                        at: EntryAt::Voting,
                    },
                    Err(error) => fail(Error::from_io(error)),
                }
            },
            (Caller::Entering { entry, age, at }, CallerEvent::Done(result)) => match (at, result) {
                (EntryAt::Announcing, _) => Caller::Finished(
                    match entry {
                        Entry::Join => Next::Join,
                        Entry::Hit(record) => Next::Replay { record, saved: Saved::Reused },
                        Entry::Run(_) => Next::Own,
                    },
                ),
                (_, Err(error)) => fail(error),
                (EntryAt::Voting, Ok(())) => Caller::Entering { entry, age, at: EntryAt::Unlocking },
                (EntryAt::Unlocking, Ok(())) => Caller::Entering {
                    entry,
                    age,
                    at: EntryAt::Announcing,
                },
            },
            (caller, _) => caller,
        }
    }
}

/// Where a caller stands that waits for an execution in progress. `B` are
/// bytes.
#[derive(Debug)]
pub enum Joiner<B, R, T, E> {
    /// Locking the execution's file, which its owner keeps locked.
    Locking,
    /// A signal came while it waited.
    Stopped,
    Reading,
    Unlocking(B),
    Finished(Next<R, T, E>),
}

/// What a waiting caller needs next.
#[derive(Clone, Copy, Debug, PartialEq, Eq, Structural)]
pub enum JoinAction {
    /// Lock the execution's file, waiting until a signal arrives.
    Lock,
    /// Look which signal was received.
    Sample,
    /// Read the execution's file from its tag on.
    Read,
    /// Release the execution's file.
    Unlock,
    Finish,
}

/// The answer to an action.
#[derive(Debug)]
pub enum JoinEvent<B, E> {
    /// Whether the file is locked.
    Locked(Result<bool, E>),
    Signal(i32),
    Read(Result<B, E>),
    Unlocked(Result<(), E>),
}

pub type JoinerState = Joiner<Vec<u8>, Record, String, Error>;

pub type JoinerView = Joiner<Seq<u8>, RecordView, Seq<char>, Seq<CauseView>>;

pub type JoinEventView = JoinEvent<Seq<u8>, Seq<CauseView>>;

pub open spec fn joiner_view(joiner: JoinerState) -> JoinerView {
    match joiner {
        Joiner::Locking => Joiner::Locking,
        Joiner::Stopped => Joiner::Stopped,
        Joiner::Reading => Joiner::Reading,
        Joiner::Unlocking(bytes) => Joiner::Unlocking(bytes@),
        Joiner::Finished(next) => Joiner::Finished(next_view(next)),
    }
}

pub open spec fn join_event(event: JoinEvent<Vec<u8>, Error>) -> JoinEventView {
    match event {
        JoinEvent::Locked(result) => JoinEvent::Locked(crate::error::viewed(result)),
        JoinEvent::Signal(signal) => JoinEvent::Signal(signal),
        JoinEvent::Read(Ok(bytes)) => JoinEvent::Read(Ok(bytes@)),
        JoinEvent::Read(Err(error)) => JoinEvent::Read(Err(error@)),
        JoinEvent::Unlocked(result) => JoinEvent::Unlocked(crate::error::viewed(result)),
    }
}

/// What a waiting caller does with what was published.
pub open spec fn joined(published: Result<PublishedView, Seq<CauseView>>) -> NextView {
    match published {
        Ok(PublishedView::Completed { saving, record }) => Next::Replay {
            record,
            saved: Saved::Execution(saving),
        },
        Ok(PublishedView::Failed { invalidated, message: failure }) => Next::Return {
            line: Some(
                failed_line(
                    if invalidated {
                        Saved::No
                    } else {
                        Saved::Unknown
                    },
                    Failure::Execution,
                ),
            ),
            result: Err(crate::error::message("shared execution failed: "@ + failure)),
        },
        Ok(PublishedView::Unfinished) => fails(
            crate::error::message(
                "execution owner disappeared before publishing a complete result; command not retried"@,
            ),
        ),
        Err(error) => fails(error),
    }
}

/// The state of a waiting caller after `event`. An event that does not answer
/// the last action changes nothing.
pub open spec fn joiner_after(joiner: JoinerView, event: JoinEventView) -> JoinerView {
    match (joiner, event) {
        (Joiner::Locking, JoinEvent::Locked(result)) => match result {
            Ok(true) => Joiner::Reading,
            Ok(false) => Joiner::Stopped,
            Err(error) => Joiner::Finished(fails(error)),
        },
        (Joiner::Stopped, JoinEvent::Signal(signal)) => Joiner::Finished(
            stops(signal, Wait::Execution),
        ),
        (Joiner::Reading, JoinEvent::Read(result)) => match result {
            Ok(bytes) => Joiner::Unlocking(bytes),
            Err(error) => Joiner::Finished(fails(error)),
        },
        (Joiner::Unlocking(bytes), JoinEvent::Unlocked(result)) => match result {
            Ok(()) => Joiner::Finished(joined(parsed(bytes))),
            Err(error) => Joiner::Finished(fails(error)),
        },
        _ => joiner,
    }
}

fn take_published(published: Result<Published, Error>) -> (next: Next<Record, String, Error>)
    ensures
        next_view(next) == joined(shared::viewed(published)),
{
    match published {
        Ok(Published::Completed { saving, record }) => Next::Replay {
            record,
            saved: Saved::Execution(saving),
        },
        Ok(Published::Failed { invalidated, message: failure }) => {
            let mut text = "shared execution failed: ".to_owned();
            text.append(failure.as_str());
            Next::Return {
                line: Some(
                    message::failed(Saved::after_failure(invalidated), Failure::Execution),
                ),
                result: Err(Error::new(text.as_str())),
            }
        },
        Ok(Published::Unfinished) => Next::Return {
            line: None,
            result: Err(
                Error::new(
                    "execution owner disappeared before publishing a complete result; command not retried",
                ),
            ),
        },
        Err(error) => Next::Return { line: None, result: Err(error) },
    }
}

/// Starts to wait for an execution in progress.
pub fn join() -> (joiner: JoinerState)
    ensures
        joiner_view(joiner) == JoinerView::Locking,
{
    Joiner::Locking
}

impl Joiner<Vec<u8>, Record, String, Error> {
    pub open spec fn wants(self) -> JoinAction {
        match self {
            Joiner::Locking => JoinAction::Lock,
            Joiner::Stopped => JoinAction::Sample,
            Joiner::Reading => JoinAction::Read,
            Joiner::Unlocking(_) => JoinAction::Unlock,
            Joiner::Finished(_) => JoinAction::Finish,
        }
    }

    /// What the waiting caller needs next.
    pub fn action(&self) -> (action: JoinAction)
        ensures
            action == self.wants(),
    {
        match self {
            Joiner::Locking => JoinAction::Lock,
            Joiner::Stopped => JoinAction::Sample,
            Joiner::Reading => JoinAction::Read,
            Joiner::Unlocking(_) => JoinAction::Unlock,
            Joiner::Finished(_) => JoinAction::Finish,
        }
    }

    /// The waiting caller after the answer to its last action.
    pub fn step(self, event: JoinEvent<Vec<u8>, Error>) -> (next: JoinerState)
        requires
            event matches JoinEvent::Signal(signal) ==> reportable(signal as int),
            self matches Joiner::Unlocking(bytes) ==> digestible(bytes@.len()),
            event matches JoinEvent::Read(Ok(bytes)) ==> digestible(bytes@.len()),
        ensures
            joiner_view(next) == joiner_after(joiner_view(self), join_event(event)),
            next matches Joiner::Unlocking(bytes) ==> digestible(bytes@.len()),
    {
        match (self, event) {
            (Joiner::Locking, JoinEvent::Locked(result)) => match result {
                Ok(true) => Joiner::Reading,
                Ok(false) => Joiner::Stopped,
                Err(error) => Joiner::Finished(Next::Return { line: None, result: Err(error) }),
            },
            (Joiner::Stopped, JoinEvent::Signal(signal)) => Joiner::Finished(
                interrupted(signal, Wait::Execution),
            ),
            (Joiner::Reading, JoinEvent::Read(result)) => match result {
                Ok(bytes) => Joiner::Unlocking(bytes),
                Err(error) => Joiner::Finished(Next::Return { line: None, result: Err(error) }),
            },
            (Joiner::Unlocking(bytes), JoinEvent::Unlocked(result)) => match result {
                Ok(()) => Joiner::Finished(take_published(shared::parse(bytes.as_slice()))),
                Err(error) => Joiner::Finished(Next::Return { line: None, result: Err(error) }),
            },
            (joiner, _) => joiner,
        }
    }
}

/// A waiting caller never executes the command, whatever it finds.
pub proof fn a_waiter_never_executes(joiner: JoinerView, event: JoinEventView)
    requires
        joiner != JoinerView::Finished(Next::Own),
    ensures
        joiner_after(joiner, event) != JoinerView::Finished(Next::Own),
{
}

/// A committed result is what every waiter delivers, with its exit code, its
/// output and what its owner decided about saving it.
pub proof fn a_waiter_delivers_the_shared_result(saving: Saving, record: RecordView)
    requires
        0 <= record.completed && crate::time::representable(record.completed),
        0 <= record.code <= 255,
        record.stdout.len() <= usize::MAX,
        record.stderr.len() <= usize::MAX,
    ensures
        joiner_after(
            Joiner::Unlocking(
                seq![shared::COMPLETED] + shared::completed_bytes(saving, record),
            ),
            JoinEvent::Unlocked(Ok(())),
        ) == JoinerView::Finished(Next::Replay { record, saved: Saved::Execution(saving) }),
{
    shared::a_completed_result_is_read_back(saving, record);
}

/// When an owner ends without publishing, its waiters fail, whatever it has
/// staged.
pub proof fn a_waiter_of_a_lost_owner_fails(detail: Seq<u8>)
    ensures
        joiner_after(
            Joiner::Unlocking(seq![PENDING] + detail),
            JoinEvent::Unlocked(Ok(())),
        ) matches Joiner::Finished(Next::Return { result: Err(_), .. }),
{
    shared::a_staged_detail_is_invisible(detail);
}

/// What a caller has done so far, and what it has found.
pub struct Steps {
    /// Whether it holds the key's lock.
    pub gate: bool,
    /// Whether another caller held the execution's file.
    pub busy: bool,
    /// The saved result and the time, once it has looked.
    pub found: Option<(Option<RecordView>, int)>,
    /// Whether it has removed the saved result, created and locked the
    /// execution's file, and written its start.
    pub invalidated: bool,
    pub created: bool,
    pub locked: bool,
    pub pending: bool,
    /// Whether its vote is in the execution's file.
    pub voted: bool,
}

/// A caller starts with nothing.
pub open spec fn no_steps() -> Steps {
    Steps {
        gate: false,
        busy: false,
        found: None,
        invalidated: false,
        created: false,
        locked: false,
        pending: false,
        voted: false,
    }
}

/// What a caller has done after an action with this answer.
pub open spec fn stepped(
    steps: Steps,
    action: CallerAction<Seq<u8>>,
    event: CallerEventView,
) -> Steps {
    match (action, event) {
        (CallerAction::AcquireGate, CallerEvent::Gate(Ok(held))) => Steps { gate: held, ..steps },
        (CallerAction::TryActive, CallerEvent::Locked(Ok(held))) => Steps { busy: !held, ..steps },
        (CallerAction::Load, CallerEvent::Loaded { saved: Ok(saved), now }) => Steps {
            found: Some((saved, now@)),
            ..steps
        },
        (CallerAction::Invalidate, CallerEvent::Done(Ok(()))) => Steps {
            invalidated: true,
            ..steps
        },
        (CallerAction::CreateActive, CallerEvent::Filed(Ok(()))) => Steps { created: true, ..steps },
        (CallerAction::TryNew, CallerEvent::Locked(Ok(held))) => Steps { locked: held, ..steps },
        (CallerAction::WriteNew(_), CallerEvent::Filed(Ok(()))) => Steps { pending: true, ..steps },
        (CallerAction::Vote, CallerEvent::Done(Ok(()))) => Steps { voted: true, ..steps },
        (CallerAction::UnlockGate, CallerEvent::Done(Ok(()))) => Steps { gate: false, ..steps },
        _ => steps,
    }
}

/// A caller and what it has done after `events`, from its start.
pub open spec fn called(request: &Request, path: Seq<char>, events: Seq<CallerEventView>) -> (
    CallerView,
    Steps,
)
    decreases events.len(),
{
    if events.len() == 0 {
        (Caller::AcquiringGate, no_steps())
    } else {
        let (caller, steps) = called(request, path, events.drop_last());
        (
            caller_after(caller, events.last(), request, path),
            stepped(steps, caller_wants(caller), events.last()),
        )
    }
}

/// Whether the caller has found that it needs a new execution because of
/// `reason`.
pub open spec fn is_needed(request: &Request, steps: Steps, reason: Reason) -> bool {
    steps.found matches Some((saved, now)) && request.needs(saved, now) == Some(reason)
}

/// Whether the caller has found that it may reuse `record`.
pub open spec fn is_reusable(request: &Request, steps: Steps, record: RecordView) -> bool {
    steps.found matches Some((saved, now)) && saved == Some(record) && request.needs(saved, now)
        is None
}

/// How what a caller has done agrees with where it stands.
pub open spec fn in_step(request: &Request, caller: CallerView, steps: Steps) -> bool {
    let untouched = !steps.invalidated && !steps.created && !steps.locked && !steps.pending
        && !steps.voted;
    match caller {
        Caller::AcquiringGate | Caller::Stopped => !steps.gate && untouched && !steps.busy,
        Caller::Opening | Caller::Probing | Caller::Removing | Caller::Loading => steps.gate
            && untouched && !steps.busy,
        Caller::Starting { reason, at, .. } => {
            &&& steps.gate && !steps.busy && !steps.voted
            &&& is_needed(request, steps, reason)
            &&& !(at is Invalidating) ==> steps.invalidated
            &&& at is Locking || at is Writing ==> steps.created
            &&& at is Writing ==> steps.locked
        },
        Caller::Entering { entry, at, .. } => {
            &&& steps.gate <==> !(at is Announcing)
            &&& match entry {
                Entry::Join => steps.busy && !steps.invalidated && !steps.created,
                Entry::Hit(record) => {
                    &&& untouched && !steps.busy
                    &&& is_reusable(request, steps, record)
                    &&& !(at is Voting)
                },
                Entry::Run(reason) => is_prepared(steps) && is_needed(request, steps, reason),
            }
            &&& !(entry is Hit) && !(at is Voting) ==> steps.voted
        },
        Caller::Finished(Next::Join) => joins(steps),
        Caller::Finished(Next::Replay { record, saved }) => {
            &&& saved == Saved::Reused
            &&& !steps.gate && untouched
            &&& is_reusable(request, steps, record)
        },
        Caller::Finished(Next::Own) => {
            &&& is_prepared(steps) && steps.voted && !steps.gate
            &&& exists|reason: Reason| is_needed(request, steps, reason)
        },
        Caller::Finished(Next::Return { result: Ok(_), .. }) => untouched,
        Caller::Finished(Next::Return { .. }) => true,
    }
}

/// Whether everything is ready for a new execution.
pub open spec fn is_prepared(steps: Steps) -> bool {
    steps.invalidated && steps.created && steps.locked && steps.pending
}

/// Whether a caller takes part in an execution in progress, with its vote cast
/// and the saved result left alone.
pub open spec fn joins(steps: Steps) -> bool {
    steps.busy && steps.voted && !steps.invalidated && !steps.created && !steps.gate
}

proof fn a_step_stays_in_step(
    request: &Request,
    path: Seq<char>,
    caller: CallerView,
    steps: Steps,
    event: CallerEventView,
)
    requires
        in_step(request, caller, steps),
    ensures
        in_step(
            request,
            caller_after(caller, event, request, path),
            stepped(steps, caller_wants(caller), event),
        ),
{
    let next = stepped(steps, caller_wants(caller), event);
    if let Caller::Entering { entry: Entry::Run(reason), .. } = caller {
        assert(is_needed(request, next, reason));
    }
}

/// Whatever happens, what a caller has done agrees with where it stands.
pub proof fn a_caller_stays_in_step(
    request: &Request,
    path: Seq<char>,
    events: Seq<CallerEventView>,
)
    ensures
        in_step(request, called(request, path, events).0, called(request, path, events).1),
    decreases events.len(),
{
    if events.len() > 0 {
        let before = events.drop_last();
        a_caller_stays_in_step(request, path, before);
        let (caller, steps) = called(request, path, before);
        a_step_stays_in_step(request, path, caller, steps, events.last());
    }
}

/// A caller executes the command only after it has found that it needs to,
/// removed the saved result, prepared the execution's file and cast its vote;
/// and it no longer holds the key's lock then.
pub proof fn the_old_result_is_gone_before_the_command_runs(
    request: &Request,
    path: Seq<char>,
    events: Seq<CallerEventView>,
)
    requires
        called(request, path, events).0 == CallerView::Finished(Next::Own),
    ensures
        called(request, path, events).1.invalidated,
        is_prepared(called(request, path, events).1),
        called(request, path, events).1.voted,
        !called(request, path, events).1.gate,
        exists|reason: Reason| is_needed(request, called(request, path, events).1, reason),
{
    a_caller_stays_in_step(request, path, events);
}

/// A caller replays a saved result only if that result satisfies its own
/// request, and leaves it as it is.
pub proof fn a_hit_satisfies_the_request(
    request: &Request,
    path: Seq<char>,
    events: Seq<CallerEventView>,
    record: RecordView,
    saved: Saved,
)
    requires
        called(request, path, events).0 == CallerView::Finished(Next::Replay { record, saved }),
    ensures
        saved == Saved::Reused,
        is_reusable(request, called(request, path, events).1, record),
        !called(request, path, events).1.invalidated,
{
    a_caller_stays_in_step(request, path, events);
}

/// A caller that finds an execution in progress takes part in it: its vote is
/// cast, and neither the saved result nor the time limit plays a role.
pub proof fn an_execution_in_progress_is_joined(
    request: &Request,
    path: Seq<char>,
    events: Seq<CallerEventView>,
)
    requires
        called(request, path, events).0 == CallerView::Finished(Next::Join),
    ensures
        joins(called(request, path, events).1),
{
    a_caller_stays_in_step(request, path, events);
}

/// A saved result that cannot be read is an error, also for a refresh: nothing
/// is executed and nothing is removed.
pub proof fn unreadable_storage_is_an_error(
    request: &Request,
    path: Seq<char>,
    error: Seq<CauseView>,
    now: SystemTime,
)
    ensures
        caller_after(
            Caller::Loading,
            CallerEvent::Loaded { saved: Err(error), now },
            request,
            path,
        ) == CallerView::Finished(fails(error)),
{
}

/// A caller never waits for a lock while it holds the key's lock: it asks for
/// that one only without holding it, merely tries to lock an execution's file,
/// and waits for an execution in progress only after it has let go.
pub proof fn no_caller_waits_while_it_holds_the_key(
    request: &Request,
    path: Seq<char>,
    events: Seq<CallerEventView>,
)
    ensures
        called(request, path, events).1.gate ==> !(caller_wants(called(request, path, events).0) is
            AcquireGate),
        called(request, path, events).0 == CallerView::Finished(Next::Join) ==> !called(
            request,
            path,
            events,
        ).1.gate,
        called(request, path, events).0 == CallerView::Finished(Next::Own) ==> !called(
            request,
            path,
            events,
        ).1.gate,
{
    a_caller_stays_in_step(request, path, events);
}

/// A caller casts its vote, and changes the files of the key, only while it
/// holds the key's lock.
pub proof fn a_caller_votes_under_the_keys_lock(
    request: &Request,
    path: Seq<char>,
    events: Seq<CallerEventView>,
)
    ensures
        match caller_wants(called(request, path, events).0) {
            CallerAction::Vote | CallerAction::Invalidate | CallerAction::CreateActive
            | CallerAction::WriteNew(_) | CallerAction::RemoveAbandoned => called(
                request,
                path,
                events,
            ).1.gate,
            _ => true,
        },
{
    a_caller_stays_in_step(request, path, events);
}

/// Whether `request` may reuse `saved` at `now`: no refresh was asked for, there
/// is a result, its age is between nothing and the limit, and its exit code is
/// a normal one that is included, if only some are, and not excluded.
pub open spec fn may_reuse(request: &Request, saved: Option<RecordView>, now: int) -> bool {
    &&& !request.refresh
    &&& saved is Some
    &&& 0 <= now - saved->0.completed <= request.ttl.secs * 1_000_000_000 + request.ttl.nanos
    &&& 0 <= saved->0.code <= 255
    &&& request.include_codes is None || request.include_codes->0@.contains(saved->0.code as u8)
    &&& request.exclude_codes is None || !request.exclude_codes->0@.contains(saved->0.code as u8)
}

/// A caller that has read what is saved reuses it exactly if its request may;
/// otherwise it starts to prepare a new execution, whatever the reason. Either
/// way nothing is returned yet.
pub proof fn what_may_not_be_reused_is_executed(
    request: &Request,
    path: &str,
    saved: Option<Record>,
    now: SystemTime,
    next: CallerState,
)
    requires
        call_ensures(
            Caller::<Record, String, Error>::step,
            (Caller::Loading, CallerEvent::Loaded { saved: Ok(saved), now }, request, path),
            next,
        ),
    ensures
        may_reuse(request, loaded_view(Ok(saved))->Ok_0, now@) ==> {
            &&& next matches Caller::Entering { entry: Entry::Hit(record), age, at }
            &&& record@ == saved->0@
            &&& age == Some(Ok::<u128, u128>((now@ - saved->0.completed@) as u128))
            &&& at == EntryAt::Unlocking
        },
        !may_reuse(request, loaded_view(Ok(saved))->Ok_0, now@) ==> {
            &&& next matches Caller::Starting { reason, age, at }
            &&& at == StartAt::Invalidating
            &&& age is Some <==> saved is Some
            &&& request.refresh <==> reason == Reason::Refresh
            &&& !request.refresh ==> (saved is None <==> reason == Reason::Missing)
            &&& !request.refresh && saved is Some ==> {
                let passed = now@ - saved->0.completed@;
                let limit = request.ttl.secs * 1_000_000_000 + request.ttl.nanos;
                &&& passed < 0 <==> reason == Reason::FutureTimestamp
                &&& passed > limit <==> reason == Reason::Expired
                &&& 0 <= passed <= limit <==> reason == Reason::Policy
            }
            &&& saved is Some && now@ >= saved->0.completed@ ==> age == Some(
                Ok::<u128, u128>((now@ - saved->0.completed@) as u128),
            )
            &&& saved is Some && now@ < saved->0.completed@ ==> age == Some(
                Err::<u128, u128>((saved->0.completed@ - now@) as u128),
            )
        },
{
}

/// A new execution is prepared in the same four steps for every reason, and
/// each step that succeeds leads to the next one, with the reason kept: the old
/// result is removed, the execution's file is created, locked and written.
pub proof fn every_reason_leads_to_an_execution(
    request: &Request,
    path: &str,
    reason: Reason,
    age: Elapsed,
    at: StartAt,
    event: CallerEvent<Record, IoError, Error>,
    next: CallerState,
)
    requires
        match at {
            StartAt::Invalidating => event matches CallerEvent::Done(Ok(_)),
            StartAt::Creating | StartAt::Writing => event matches CallerEvent::Filed(Ok(_)),
            StartAt::Locking => event matches CallerEvent::Locked(Ok(true)),
        },
        call_ensures(
            Caller::<Record, String, Error>::step,
            (Caller::Starting { reason, age, at }, event, request, path),
            next,
        ),
    ensures
        at is Invalidating ==> next == (CallerState::Starting { reason, age, at: StartAt::Creating }),
        at is Creating ==> next == (CallerState::Starting { reason, age, at: StartAt::Locking }),
        at is Locking ==> next == (CallerState::Starting { reason, age, at: StartAt::Writing }),
        at is Writing ==> next == (CallerState::Entering {
            entry: Entry::Run(reason),
            age,
            at: EntryAt::Voting,
        }),
{
}

/// Once a caller knows how it obtains its result it does so: it votes where it
/// takes part in an execution, releases the key, says what it decided, and then
/// joins, replays the very result that it found, or executes the command. That
/// it could not say so changes nothing.
pub proof fn a_caller_obtains_its_result_as_decided(
    request: &Request,
    path: &str,
    entry: Entry<Record>,
    age: Elapsed,
    at: EntryAt,
    result: Result<(), Error>,
    next: CallerState,
)
    requires
        result is Ok || at is Announcing,
        call_ensures(
            Caller::<Record, String, Error>::step,
            (Caller::Entering { entry, age, at }, CallerEvent::Done(result), request, path),
            next,
        ),
    ensures
        !(at is Announcing) ==> {
            &&& next matches Caller::Entering { entry: kept, age: same, at: after }
            &&& same == age
            &&& at is Voting <==> after is Unlocking
            &&& at is Unlocking <==> after is Announcing
            &&& entry is Join <==> kept is Join
            &&& entry matches Entry::Run(reason) ==> kept == Entry::<Record>::Run(reason)
            &&& entry is Hit ==> kept is Hit && kept->Hit_0@ == entry->Hit_0@
        },
        at is Announcing ==> next is Finished,
        at is Announcing ==> (entry is Join <==> next->Finished_0 is Join),
        at is Announcing ==> (entry is Run <==> next->Finished_0 is Own),
        at is Announcing && entry is Hit ==> {
            &&& next->Finished_0 matches Next::Replay { record, saved }
            &&& record@ == entry->Hit_0@
            &&& saved == Saved::Reused
        },
{
}

/// Before it reads what is saved, a caller takes the key and looks for an
/// execution in progress. It joins one whose file is locked, removes one whose
/// owner is gone, and reads on if there is none.
pub proof fn a_caller_looks_for_an_execution_first(
    request: &Request,
    path: &str,
    caller: CallerState,
    event: CallerEvent<Record, IoError, Error>,
    next: CallerState,
)
    requires
        call_ensures(
            Caller::<Record, String, Error>::step,
            (caller, event, request, path),
            next,
        ),
    ensures
        caller is AcquiringGate ==> (event matches CallerEvent::Gate(Ok(held)) ==> (held
            <==> next is Opening) && (!held <==> next is Stopped)),
        caller is Opening ==> (event matches CallerEvent::Opened(Ok(_)) ==> next is Probing),
        caller is Opening ==> (event matches CallerEvent::Opened(Err(error)) ==> (error.kind
            == ErrorKind::NotFound <==> next is Loading)),
        caller is Probing ==> (event matches CallerEvent::Locked(Ok(true)) ==> next is Removing),
        caller is Probing ==> (event matches CallerEvent::Locked(Ok(false)) ==> next
            == (CallerState::Entering { entry: Entry::Join, age: None, at: EntryAt::Voting })),
        caller is Removing ==> (event matches CallerEvent::Filed(Ok(_)) ==> next is Loading),
{
}

/// A caller returns an exit status of its own, without joining, replaying or
/// executing, only when a signal stopped its wait, and then that signal's.
pub proof fn only_a_signal_ends_a_call_without_a_result(
    request: &Request,
    path: &str,
    caller: CallerState,
    event: CallerEvent<Record, IoError, Error>,
    next: CallerState,
)
    requires
        event matches CallerEvent::Signal(signal) ==> reportable(signal as int),
        !(caller is Finished),
        call_ensures(
            Caller::<Record, String, Error>::step,
            (caller, event, request, path),
            next,
        ),
    ensures
        next matches Caller::Finished(Next::Return { result: Ok(code), .. }) ==> {
            &&& caller is Stopped
            &&& event matches CallerEvent::Signal(signal)
            &&& code == 128 + signal
        },
        caller is Stopped ==> (event matches CallerEvent::Signal(signal) ==> {
            &&& next matches Caller::Finished(Next::Return { line: Some(line), result: Ok(code) })
            &&& code == 128 + signal
            &&& line@ == "interrupted exit="@ + crate::text::signed_decimal(code as int)
                + " saved=unknown reason="@ + "interrupted"@
        }),
{
}

/// Whether an event answers what a caller needs.
pub open spec fn answers_caller(
    action: CallerAction<Vec<u8>>,
    event: CallerEvent<Record, IoError, Error>,
) -> bool {
    match action {
        CallerAction::AcquireGate => event is Gate,
        CallerAction::Sample => event is Signal,
        CallerAction::OpenActive => event is Opened,
        CallerAction::TryActive | CallerAction::TryNew => event is Locked,
        CallerAction::Load => event is Loaded,
        CallerAction::RemoveAbandoned | CallerAction::CreateActive | CallerAction::WriteNew(_) =>
            event is Filed,
        CallerAction::Invalidate | CallerAction::Vote | CallerAction::UnlockGate
        | CallerAction::Announce { .. } => event is Done,
        CallerAction::Finish => false,
    }
}

/// A caller moves on with every answer to what it needs, and with nothing else;
/// it needs nothing more exactly when it is finished.
pub proof fn a_caller_moves_on_with_each_answer(
    request: &Request,
    path: &str,
    caller: CallerState,
    action: CallerAction<Vec<u8>>,
    event: CallerEvent<Record, IoError, Error>,
    next: CallerState,
)
    requires
        call_ensures(Caller::<Record, String, Error>::action, (&caller,), action),
        call_ensures(
            Caller::<Record, String, Error>::step,
            (caller, event, request, path),
            next,
        ),
    ensures
        answers_caller(action, event) <==> caller_view(next) != caller_view(caller),
        action is Finish <==> caller is Finished,
{
}

/// Every step of a caller that fails ends the call with that failure, in the
/// context of the step, except that of saying what was decided: the failure of
/// a step never counts as success, and nothing is executed.
pub proof fn a_failed_step_ends_the_call(
    request: &Request,
    path: &str,
    caller: CallerState,
    event: CallerEvent<Record, IoError, Error>,
    next: CallerState,
    action: CallerAction<Vec<u8>>,
)
    requires
        call_ensures(Caller::<Record, String, Error>::action, (&caller,), action),
        answers_caller(action, event),
        !(action is Announce),
        call_ensures(
            Caller::<Record, String, Error>::step,
            (caller, event, request, path),
            next,
        ),
    ensures
        event matches CallerEvent::Gate(Err(error)) ==> is_failure(next, error@),
        event matches CallerEvent::Locked(Err(error)) ==> is_failure(next, error@),
        event matches CallerEvent::Loaded { saved: Err(error), .. } ==> is_failure(next, error@),
        event matches CallerEvent::Done(Err(error)) ==> is_failure(next, error@),
        event matches CallerEvent::Opened(Err(error)) ==> error.kind != ErrorKind::NotFound
            ==> is_failure(
            next,
            seq![CauseView::Message("open active execution"@), error@],
        ),
        action is RemoveAbandoned ==> (event matches CallerEvent::Filed(Err(error)) ==> is_failure(
            next,
            seq![CauseView::Message("remove abandoned execution"@), error@],
        )),
        action is CreateActive ==> (event matches CallerEvent::Filed(Err(error)) ==> is_failure(
            next,
            seq![CauseView::Message("create active execution "@ + path@), error@],
        )),
        action is WriteNew ==> (event matches CallerEvent::Filed(Err(error)) ==> is_failure(
            next,
            seq![error@],
        )),
        action is TryNew ==> (event matches CallerEvent::Locked(Ok(false)) ==> is_failure(
            next,
            seq![CauseView::Message("new execution unexpectedly locked"@)],
        )),
{
    if let CallerEvent::Opened(Err(error)) = event {
        assert(in_context("open active execution"@, seq![error@]) =~= seq![
            CauseView::Message("open active execution"@),
            error@,
        ]);
    }
    if let CallerEvent::Filed(Err(error)) = event {
        assert(in_context("remove abandoned execution"@, seq![error@]) =~= seq![
            CauseView::Message("remove abandoned execution"@),
            error@,
        ]);
        assert(in_context("create active execution "@ + path@, seq![error@]) =~= seq![
            CauseView::Message("create active execution "@ + path@),
            error@,
        ]);
    }
}

/// Whether a call has ended with this failure, without a word of its own.
pub open spec fn is_failure(caller: CallerState, error: Seq<CauseView>) -> bool {
    &&& caller matches Caller::Finished(Next::Return { line, result })
    &&& line is None
    &&& result is Err
    &&& result->Err_0@ == error
}

/// A caller without anything to reuse executes its command: if nothing fails on
/// the way, it takes the key, finds no execution, reads what is saved, removes
/// it, creates, locks and writes the execution's file, votes, lets go of the
/// key, says why and owns the execution, in this order.
pub proof fn a_miss_ends_in_an_execution(
    request: &Request,
    path: Seq<char>,
    text: Seq<char>,
    saved: Option<RecordView>,
    now: SystemTime,
)
    requires
        !may_reuse(request, saved, now@),
    ensures
        ({
            let step = |caller: CallerView, event: CallerEventView|
                caller_after(caller, event, request, path);
            let done = CallerEventView::Done(Ok(()));
            let filed = CallerEventView::Filed(Ok(()));
            let opening = step(Caller::AcquiringGate, CallerEvent::Gate(Ok(true)));
            let loading = step(
                opening,
                CallerEvent::Opened(Err(CauseView::Io(ErrorKind::NotFound, text))),
            );
            let invalidating = step(loading, CallerEvent::Loaded { saved: Ok(saved), now });
            let creating = step(invalidating, done);
            let locking = step(creating, filed);
            let writing = step(locking, CallerEvent::Locked(Ok(true)));
            let voting = step(writing, filed);
            let unlocking = step(voting, done);
            let announcing = step(unlocking, done);
            let end = step(announcing, done);
            &&& caller_wants(Caller::AcquiringGate) is AcquireGate
            &&& caller_wants(opening) is OpenActive
            &&& caller_wants(loading) is Load
            &&& caller_wants(invalidating) is Invalidate
            &&& caller_wants(creating) is CreateActive
            &&& caller_wants(locking) is TryNew
            &&& caller_wants(writing) matches CallerAction::WriteNew(bytes)
            &&& bytes.len() == 257 && bytes[256] == 2
            &&& forall|i: int| 0 <= i < 256 ==> bytes[i] == 0
            &&& caller_wants(voting) is Vote
            &&& caller_wants(unlocking) is UnlockGate
            &&& caller_wants(announcing) matches CallerAction::Announce { decision, age }
            &&& decision is Run
            &&& age is Some <==> saved is Some
            &&& end == CallerView::Finished(Next::Own)
        }),
{
}

/// A caller that may reuse what is saved does so, if nothing fails on the way:
/// it lets go of the key, says so and replays what it read, as it was.
pub proof fn a_hit_ends_in_a_replay(
    request: &Request,
    path: Seq<char>,
    saved: RecordView,
    now: SystemTime,
)
    requires
        may_reuse(request, Some(saved), now@),
    ensures
        ({
            let step = |caller: CallerView, event: CallerEventView|
                caller_after(caller, event, request, path);
            let done = CallerEventView::Done(Ok(()));
            let unlocking = step(
                Caller::Loading,
                CallerEvent::Loaded { saved: Ok(Some(saved)), now },
            );
            let announcing = step(unlocking, done);
            let end = step(announcing, done);
            &&& caller_wants(unlocking) is UnlockGate
            &&& caller_wants(announcing) matches CallerAction::Announce { decision, age }
            &&& decision == Decision::Hit
            &&& age is Some
            &&& end == CallerView::Finished(Next::Replay { record: saved, saved: Saved::Reused })
        }),
{
}

/// A caller that finds an execution in progress joins it, if nothing fails on
/// the way: it votes, lets go of the key, says so and waits. One whose owner is
/// gone is removed, and what is saved is read.
pub proof fn an_execution_is_joined_or_reclaimed(request: &Request, path: Seq<char>)
    ensures
        ({
            let step = |caller: CallerView, event: CallerEventView|
                caller_after(caller, event, request, path);
            let done = CallerEventView::Done(Ok(()));
            let probing = step(Caller::Opening, CallerEvent::Opened(Ok(())));
            let voting = step(probing, CallerEvent::Locked(Ok(false)));
            let unlocking = step(voting, done);
            let announcing = step(unlocking, done);
            let end = step(announcing, done);
            let removing = step(probing, CallerEvent::Locked(Ok(true)));
            &&& caller_wants(probing) is TryActive
            &&& caller_wants(voting) is Vote
            &&& caller_wants(unlocking) is UnlockGate
            &&& caller_wants(announcing) matches CallerAction::Announce { decision, age }
            &&& decision == Decision::Join && age is None
            &&& end == CallerView::Finished(Next::Join)
            &&& caller_wants(removing) is RemoveAbandoned
            &&& caller_wants(step(removing, CallerEvent::Filed(Ok(())))) is Load
            &&& caller_wants(Caller::Stopped) is Sample
        }),
{
}

/// A replay that is delivered without a failure and without a signal returns
/// the exit code of the result that is replayed, whatever it is, and says so.
pub proof fn a_replay_exits_as_its_command_did(
    code: i32,
    saved: Saved,
    replayed: (String, Result<i32, Error>),
)
    requires
        call_ensures(replay, (code, saved, Waited::Done(Ok::<(), Error>(())), 0i32), replayed),
    ensures
        replayed.1 == Ok::<i32, Error>(code),
        saved != Saved::Execution(Saving::Interrupted) ==> replayed.0@ == "completed"@ + " exit="@
            + crate::text::signed_decimal(code as int) + " saved="@ + saved.says(),
        saved == Saved::Execution(Saving::Interrupted) ==> replayed.0@ == "interrupted"@
            + " exit="@ + crate::text::signed_decimal(code as int) + " saved="@ + saved.says(),
{
}

/// A replay that a signal stops, or during which one comes, returns that
/// signal's exit status; one that cannot be delivered fails as such.
pub proof fn a_replay_heeds_signals_and_failures(
    code: i32,
    saved: Saved,
    stop: i32,
    signal: i32,
    error: Error,
    stopped: (String, Result<i32, Error>),
    signalled: (String, Result<i32, Error>),
    failed: (String, Result<i32, Error>),
    closed: bool,
)
    requires
        reportable(stop as int),
        reportable(signal as int),
        signal != 0,
        call_ensures(crate::domain::delivery::output_closed, (&error,), closed),
        call_ensures(replay, (code, saved, Waited::Interrupted(stop), 0i32), stopped),
        call_ensures(replay, (code, saved, Waited::Done(Ok::<(), Error>(())), signal), signalled),
        call_ensures(replay, (code, saved, Waited::Done(Err(error)), 0i32), failed),
    ensures
        stopped.1 is Ok && stopped.1->Ok_0 == 128 + stop,
        signalled.1 is Ok && signalled.1->Ok_0 == 128 + signal,
        failed.1 is Err <==> !closed,
        failed.1 is Err ==> failed.1->Err_0@ == error@ && failed.0@ == "failed saved="@
            + saved.says() + " reason="@ + "replay-failure"@,
        failed.1 is Ok ==> failed.1->Ok_0 == code,
{
}

/// What an invocation returns after its delivery: its own exit code if nothing
/// happened, the status of a signal if one came, the command's exit code if
/// only a reader closed, and otherwise the failure. The line says the same.
pub proof fn an_invocation_returns_what_its_delivery_came_to(
    outcome: Result<i32, Error>,
    command_code: i32,
    saved: Saved,
    failure: Failure,
    signal: i32,
    reported: (String, Result<i32, Error>),
    closed: bool,
)
    requires
        reportable(signal as int),
        outcome is Err ==> call_ensures(
            crate::domain::delivery::output_closed,
            (&outcome->Err_0,),
            closed,
        ),
        call_ensures(report, (outcome, command_code, saved, failure, signal), reported),
    ensures
        reported.1 is Err <==> outcome is Err && !closed,
        reported.1 is Err ==> reported.1->Err_0@ == outcome->Err_0@,
        reported.1 is Err ==> reported.0@ == "failed saved="@ + saved.says() + " reason="@
            + match failure {
            Failure::Execution => "failure"@,
            Failure::Delivery => "delivery-failure"@,
            Failure::Replay => "replay-failure"@,
        },
        reported.1 is Ok && signal != 0 ==> reported.1->Ok_0 == 128 + signal,
        reported.1 is Ok && signal == 0 && outcome is Ok ==> reported.1->Ok_0 == outcome->Ok_0,
        reported.1 is Ok && signal == 0 && outcome is Err ==> reported.1->Ok_0 == command_code,
        reported.1 is Ok ==> reported.0@ == (if signal != 0 || saved == Saved::Execution(
            Saving::Interrupted,
        ) {
            "interrupted"@
        } else if outcome is Ok {
            "completed"@
        } else {
            "output-closed"@
        }) + " exit="@ + crate::text::signed_decimal(reported.1->Ok_0 as int) + " saved="@
            + saved.says(),
{
}

/// A caller that takes part in an execution writes back every vote that it
/// read, and its own for each exit code that its code lists allow.
pub proof fn a_participant_keeps_all_votes_and_adds_its_own(
    found: Votes,
    request: &Request,
    votes: Result<Votes, Error>,
    error: IoError,
    failed: Result<Votes, Error>,
)
    requires
        call_ensures(vote, (Ok(found), request), votes),
        call_ensures(vote, (Err(error), request), failed),
    ensures
        votes is Ok,
        forall|code: int|
            #![trigger votes->Ok_0@[code]]
            0 <= code < 256 ==> (votes->Ok_0@[code] != 0 <==> found@[code] != 0 || ((
            request.include_codes is None || request.include_codes->0@.contains(code as u8)) && (
            request.exclude_codes is None || !request.exclude_codes->0@.contains(code as u8)))),
        failed is Err && failed->Err_0@ == seq![
            CauseView::Message("read active execution policies"@),
            error@,
        ],
{
    assert forall|code: int|
        #![trigger votes->Ok_0@[code]]
        0 <= code < 256 implies (votes->Ok_0@[code] != 0 <==> found@[code] != 0
        || request.policy().allows(code)) by {
        crate::domain::execution::a_vote_only_adds(found@, request.policy(), code);
    }
    assert(failed->Err_0@ =~= seq![
        CauseView::Message("read active execution policies"@),
        error@,
    ]);
}

/// Whether an event answers what a waiting caller needs.
pub open spec fn answers_joiner(action: JoinAction, event: JoinEvent<Vec<u8>, Error>) -> bool {
    match action {
        JoinAction::Lock => event is Locked,
        JoinAction::Sample => event is Signal,
        JoinAction::Read => event is Read,
        JoinAction::Unlock => event is Unlocked,
        JoinAction::Finish => false,
    }
}

/// A waiting caller moves on with every answer to what it needs, and with
/// nothing else; it needs nothing more exactly when it is finished.
pub proof fn a_waiter_moves_on_with_each_answer(
    joiner: JoinerState,
    action: JoinAction,
    event: JoinEvent<Vec<u8>, Error>,
    next: JoinerState,
)
    requires
        call_ensures(Joiner::<Vec<u8>, Record, String, Error>::action, (&joiner,), action),
        call_ensures(Joiner::<Vec<u8>, Record, String, Error>::step, (joiner, event), next),
    ensures
        answers_joiner(action, event) <==> joiner_view(next) != joiner_view(joiner),
        action is Finish <==> joiner is Finished,
{
}

/// A waiting caller reads the execution's file once it has its lock, keeps
/// every byte that it read, and ends with a signal's exit status only if a
/// signal stopped its wait. A step that fails ends its wait with that failure.
pub proof fn a_waiter_reads_what_was_published(
    joiner: JoinerState,
    event: JoinEvent<Vec<u8>, Error>,
    next: JoinerState,
)
    requires
        event matches JoinEvent::Signal(signal) ==> reportable(signal as int),
        call_ensures(Joiner::<Vec<u8>, Record, String, Error>::step, (joiner, event), next),
    ensures
        joiner is Locking ==> (event matches JoinEvent::Locked(Ok(held)) ==> (held <==> next is
            Reading) && (!held <==> next is Stopped)),
        joiner is Reading ==> (event matches JoinEvent::Read(Ok(bytes)) ==> (
        next matches Joiner::Unlocking(kept) && kept@ == bytes@)),
        joiner is Stopped ==> (event matches JoinEvent::Signal(signal) ==> {
            &&& next matches Joiner::Finished(Next::Return { line: Some(line), result: Ok(code) })
            &&& code == 128 + signal
            &&& line@ == "interrupted exit="@ + crate::text::signed_decimal(code as int)
                + " saved=unknown reason="@ + "waiter-interrupted"@
        }),
        !(joiner is Finished) ==> (next matches Joiner::Finished(
            Next::Return { result: Ok(_), .. },
        ) ==> joiner is Stopped && event is Signal),
        joiner is Locking ==> (event matches JoinEvent::Locked(Err(error)) ==> is_lost(next, error@)),
        joiner is Reading ==> (event matches JoinEvent::Read(Err(error)) ==> is_lost(next, error@)),
        joiner is Unlocking ==> (event matches JoinEvent::Unlocked(Err(error)) ==> is_lost(
            next,
            error@,
        )),
{
}

/// Whether a wait has ended with this failure, without a word of its own.
pub open spec fn is_lost(joiner: JoinerState, error: Seq<CauseView>) -> bool {
    &&& joiner matches Joiner::Finished(Next::Return { line, result })
    &&& line is None
    &&& result is Err
    &&& result->Err_0@ == error
}

/// What was published decides what a waiting caller does: it replays a result
/// as it is, with what its owner decided about saving it; it fails with the
/// owner's own words, saying whether the saved result is gone; and without a
/// published end it fails too, and does not run the command itself.
pub proof fn what_is_published_decides_for_its_waiters(
    bytes: Vec<u8>,
    published: Result<Published, Error>,
    next: JoinerState,
)
    requires
        digestible(bytes@.len()),
        call_ensures(
            Joiner::<Vec<u8>, Record, String, Error>::step,
            (Joiner::Unlocking(bytes), JoinEvent::Unlocked(Ok(()))),
            next,
        ),
        shared::viewed(published) == parsed(bytes@),
    ensures
        published matches Ok(Published::Completed { saving, record }) ==> {
            &&& next matches Joiner::Finished(Next::Replay { record: replayed, saved })
            &&& replayed@ == record@
            &&& saved == Saved::Execution(saving)
        },
        published matches Ok(Published::Failed { invalidated, message: why }) ==> {
            &&& next matches Joiner::Finished(Next::Return { line: Some(line), result: Err(error) })
            &&& error@ == seq![CauseView::Message("shared execution failed: "@ + why@)]
            &&& line@ == "failed saved="@ + (if invalidated {
                "no"@
            } else {
                "unknown"@
            }) + " reason="@ + "failure"@
        },
        published matches Ok(Published::Unfinished) ==> is_lost(
            next,
            seq![
                CauseView::Message(
                    "execution owner disappeared before publishing a complete result; command not retried"@,
                ),
            ],
        ),
        published matches Err(error) ==> is_lost(next, error@),
{
}

/// A call starts by taking the key, a wait for an execution by locking its
/// file.
pub proof fn a_call_starts_with_the_key(
    caller: CallerState,
    first: CallerAction<Vec<u8>>,
    joiner: JoinerState,
    lock: JoinAction,
)
    requires
        call_ensures(run, (), caller),
        call_ensures(Caller::<Record, String, Error>::action, (&caller,), first),
        call_ensures(join, (), joiner),
        call_ensures(Joiner::<Vec<u8>, Record, String, Error>::action, (&joiner,), lock),
    ensures
        caller is AcquiringGate && first is AcquireGate,
        joiner is Locking && lock is Lock,
{
}

/// What a caller announces is what it decided: the very reason for which it
/// runs the command, and the age of the saved result that it found.
pub proof fn a_caller_announces_what_it_decided(
    entry: Entry<Record>,
    age: Elapsed,
    action: CallerAction<Vec<u8>>,
)
    requires
        call_ensures(
            Caller::<Record, String, Error>::action,
            (&Caller::Entering { entry, age, at: EntryAt::Announcing },),
            action,
        ),
    ensures
        action matches CallerAction::Announce { decision, age: told } && told == age && (
        decision == Decision::Join <==> entry is Join) && (decision == Decision::Hit <==> entry is
            Hit) && (entry matches Entry::Run(reason) ==> decision == Decision::Run(reason)),
{
}

/// A caller that prepares an execution removes the saved result, creates the
/// execution's file, locks it and writes it, and one that enters an execution
/// votes and lets go of the key, whatever the reason.
pub proof fn a_caller_asks_for_the_step_at_which_it_is(
    reason: Reason,
    entry: Entry<Record>,
    age: Elapsed,
    at: StartAt,
    prepares: CallerAction<Vec<u8>>,
    votes: CallerAction<Vec<u8>>,
    unlocks: CallerAction<Vec<u8>>,
)
    requires
        call_ensures(
            Caller::<Record, String, Error>::action,
            (&Caller::Starting { reason, age, at },),
            prepares,
        ),
        call_ensures(
            Caller::<Record, String, Error>::action,
            (&Caller::Entering { entry, age, at: EntryAt::Voting },),
            votes,
        ),
        call_ensures(
            Caller::<Record, String, Error>::action,
            (&Caller::Entering { entry, age, at: EntryAt::Unlocking },),
            unlocks,
        ),
    ensures
        at is Invalidating <==> prepares is Invalidate,
        at is Creating <==> prepares is CreateActive,
        at is Locking <==> prepares is TryNew,
        at is Writing <==> prepares is WriteNew,
        votes is Vote,
        unlocks is UnlockGate,
{
}

} // verus!
