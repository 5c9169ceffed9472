//! Running a command: collecting its output, forwarding signals to it, and
//! delivering what it writes.

use crate::bytes::push_all;
use crate::domain::delivery::{combined, delivery_result};
use crate::domain::execution::{ended_with, reportable, signal_code, Outcome, OutcomeView, Saving};
use crate::domain::record::RecordView;
use crate::error::{in_context, message, CauseView, Error, ErrorKind, IoError};
use crate::text::{between, signed_decimal, signed_decimal_text};
use crate::time::SystemTime;
use vstd::prelude::*;

verus! {

/// The failure to start a program, which is named as it is to be shown.
pub fn start_failed(program: &str, error: IoError) -> (failure: Error)
    ensures
        failure@ == in_context("could not start "@ + program@, seq![error@]),
{
    let mut context = "could not start ".to_owned();
    context.append(program);
    Error::from_io(error).context(context.as_str())
}

/// What follows one read of a child's output. `B` are bytes and `E` is a
/// failure.
#[derive(Debug)]
pub enum Captured<B, E> {
    /// Hand these bytes on for delivery, then read again. A failed consumer
    /// must not stop draining the child's pipe.
    Forward(B),
    Again,
    /// The output is complete.
    End,
    Failed(E),
}

pub open spec fn captured_view(captured: Captured<Vec<u8>, Error>) -> Captured<
    Seq<u8>,
    Seq<CauseView>,
> {
    match captured {
        Captured::Forward(bytes) => Captured::Forward(bytes@),
        Captured::Again => Captured::Again,
        Captured::End => Captured::End,
        Captured::Failed(error) => Captured::Failed(error@),
    }
}

/// What follows a read that brought `read`. No bytes mean the end.
pub open spec fn captured_on(read: Result<Seq<u8>, CauseView>) -> Captured<
    Seq<u8>,
    Seq<CauseView>,
> {
    match read {
        Ok(bytes) => if bytes.len() == 0 {
            Captured::End
        } else {
            Captured::Forward(bytes)
        },
        Err(CauseView::Io(ErrorKind::Interrupted, _)) => Captured::Again,
        Err(error) => Captured::Failed(seq![error]),
    }
}

/// The bytes that a read adds to what was captured.
pub open spec fn adds(read: Result<Seq<u8>, CauseView>) -> Seq<u8> {
    match read {
        Ok(bytes) => bytes,
        Err(_) => Seq::empty(),
    }
}

/// Takes in one read of a child's output.
pub fn capture(captured: &mut Vec<u8>, read: Result<Vec<u8>, IoError>) -> (next: Captured<
    Vec<u8>,
    Error,
>)
    ensures
        captured_view(next) == captured_on(crate::shell::store::bytes_view(read)),
        final(captured)@ == old(captured)@ + adds(crate::shell::store::bytes_view(read)),
{
    match read {
        Ok(bytes) => {
            if bytes.len() == 0 {
                assert(captured@ =~= captured@ + bytes@);
                return Captured::End;
            }
            push_all(captured, bytes.as_slice());
            Captured::Forward(bytes)
        },
        Err(error) => {
            assert(captured@ =~= captured@ + Seq::<u8>::empty());
            if matches!(error.kind, ErrorKind::Interrupted) {
                return Captured::Again;
            }
            Captured::Failed(Error::from_io(error))
        },
    }
}

/// Everything captured by `reads`.
pub open spec fn captured_by(reads: Seq<Result<Seq<u8>, CauseView>>) -> Seq<u8>
    decreases reads.len(),
{
    if reads.len() == 0 {
        Seq::empty()
    } else {
        captured_by(reads.drop_last()) + adds(reads.last())
    }
}

/// Everything handed on for delivery after `reads`.
pub open spec fn forwarded_by(reads: Seq<Result<Seq<u8>, CauseView>>) -> Seq<u8>
    decreases reads.len(),
{
    if reads.len() == 0 {
        Seq::empty()
    } else {
        forwarded_by(reads.drop_last()) + match captured_on(reads.last()) {
            Captured::Forward(bytes) => bytes,
            _ => Seq::empty(),
        }
    }
}

/// What is saved of a child's output is exactly what is delivered of it,
/// however it is cut into reads and however often a read is interrupted.
pub proof fn what_is_saved_is_what_is_delivered(reads: Seq<Result<Seq<u8>, CauseView>>)
    ensures
        captured_by(reads) == forwarded_by(reads),
    decreases reads.len(),
{
    if reads.len() > 0 {
        what_is_saved_is_what_is_delivered(reads.drop_last());
        assert(captured_by(reads) =~= forwarded_by(reads));
    }
}

/// Whether a child has ended, given the process that a wait without reaping
/// found (0 for none) or its failure. An interrupted wait has found nothing.
pub fn exited_without_reaping(found: Result<i32, IoError>) -> (exited: Result<bool, IoError>)
    ensures
        exited == match found {
            Ok(pid) => Ok::<bool, IoError>(pid != 0),
            Err(error) => if error.kind == ErrorKind::Interrupted {
                Ok(false)
            } else {
                Err(error)
            },
        },
{
    match found {
        Ok(pid) => Ok(pid != 0),
        Err(error) => {
            if matches!(error.kind, ErrorKind::Interrupted) {
                return Ok(false);
            }
            Err(error)
        },
    }
}

/// Where the supervision of a child stands. `S` is how a child ended and `I`
/// the failure of a system call.
#[derive(Debug)]
pub enum Supervision<S, I> {
    /// About to look for a signal to forward.
    Looking,
    Forwarding(i32),
    /// About to look whether the child has ended.
    Probing,
    /// The child has ended; about to look at the clock.
    Timing,
    /// About to look whether all output has been read.
    Draining,
    Pausing,
    Reaping,
    Finished(Result<S, I>),
}

/// What the supervision of a child needs next.
#[derive(Clone, Copy, Debug, PartialEq, Eq, Structural)]
pub enum RunAction {
    /// Take the signal that is still to be forwarded.
    TakePending,
    /// Send this signal to the child's process group.
    Forward(i32),
    /// Look whether the child has ended, without reaping it.
    Probe,
    ReadClock,
    /// Look whether both outputs have been read to their end.
    CheckDrained,
    Pause,
    /// Wait for the child, which has ended.
    Reap,
    Finish,
}

/// The answer to an action.
#[derive(Debug)]
pub enum RunEvent<S, I> {
    Signal(i32),
    Done,
    Probed(Result<bool, I>),
    Time(SystemTime),
    Drained(bool),
    Reaped(Result<S, I>),
}

/// The supervision of a child until it has ended and its output is complete.
/// The child is not reaped until its pipes close, keeping its group ID
/// reserved for the signals that are forwarded to it.
#[derive(Debug)]
pub struct Supervisor<S, I> {
    /// When the child was first seen to have ended.
    pub completed: Option<SystemTime>,
    pub at: Supervision<S, I>,
}

/// The supervision after `event`. An event that does not answer the last
/// action changes nothing.
pub open spec fn supervised<S, I>(run: Supervisor<S, I>, event: RunEvent<S, I>) -> Supervisor<S, I> {
    let completed = run.completed;
    let moved = |at: Supervision<S, I>| Supervisor { completed, at };
    // Once the child has ended, only its output is waited for.
    let after_signals = moved(
        if completed is None {
            Supervision::Probing
        } else {
            Supervision::Draining
        },
    );
    match (run.at, event) {
        (Supervision::Looking, RunEvent::Signal(signal)) => if signal != 0 {
            moved(Supervision::Forwarding(signal))
        } else {
            after_signals
        },
        (Supervision::Forwarding(_), RunEvent::Done) => after_signals,
        (Supervision::Probing, RunEvent::Probed(result)) => match result {
            Ok(true) => moved(Supervision::Timing),
            Ok(false) => moved(Supervision::Pausing),
            Err(error) => moved(Supervision::Finished(Err(error))),
        },
        (Supervision::Timing, RunEvent::Time(now)) => Supervisor {
            completed: Some(now),
            at: Supervision::Draining,
        },
        (Supervision::Draining, RunEvent::Drained(drained)) => moved(
            if drained {
                Supervision::Reaping
            } else {
                Supervision::Pausing
            },
        ),
        (Supervision::Pausing, RunEvent::Done) => moved(Supervision::Looking),
        (Supervision::Reaping, RunEvent::Reaped(status)) => moved(Supervision::Finished(status)),
        _ => run,
    }
}

/// Starts to supervise a child.
pub fn execute<S, I>() -> (run: Supervisor<S, I>)
    ensures
        run == (Supervisor::<S, I> { completed: None, at: Supervision::Looking }),
{
    Supervisor { completed: None, at: Supervision::Looking }
}

impl<S, I> Supervisor<S, I> {
    pub open spec fn wants(self) -> RunAction {
        match self.at {
            Supervision::Looking => RunAction::TakePending,
            Supervision::Forwarding(signal) => RunAction::Forward(signal),
            Supervision::Probing => RunAction::Probe,
            Supervision::Timing => RunAction::ReadClock,
            Supervision::Draining => RunAction::CheckDrained,
            Supervision::Pausing => RunAction::Pause,
            Supervision::Reaping => RunAction::Reap,
            Supervision::Finished(_) => RunAction::Finish,
        }
    }

    /// What the supervision needs next.
    pub fn action(&self) -> (action: RunAction)
        ensures
            action == self.wants(),
    {
        match &self.at {
            Supervision::Looking => RunAction::TakePending,
            Supervision::Forwarding(signal) => RunAction::Forward(*signal),
            Supervision::Probing => RunAction::Probe,
            Supervision::Timing => RunAction::ReadClock,
            Supervision::Draining => RunAction::CheckDrained,
            Supervision::Pausing => RunAction::Pause,
            Supervision::Reaping => RunAction::Reap,
            Supervision::Finished(_) => RunAction::Finish,
        }
    }

    /// The supervision after the answer to its last action.
    pub fn step(self, event: RunEvent<S, I>) -> (next: Supervisor<S, I>)
        ensures
            next == supervised(self, event),
    {
        let mut completed = self.completed;
        let after_signals = if completed.is_none() {
            Supervision::Probing
        } else {
            Supervision::Draining
        };
        let at = match (self.at, event) {
            (Supervision::Looking, RunEvent::Signal(signal)) => if signal != 0 {
                Supervision::Forwarding(signal)
            } else {
                after_signals
            },
            (Supervision::Forwarding(_), RunEvent::Done) => after_signals,
            (Supervision::Probing, RunEvent::Probed(result)) => match result {
                Ok(true) => Supervision::Timing,
                Ok(false) => Supervision::Pausing,
                Err(error) => Supervision::Finished(Err(error)),
            },
            (Supervision::Timing, RunEvent::Time(now)) => {
                completed = Some(now);
                Supervision::Draining
            },
            (Supervision::Draining, RunEvent::Drained(drained)) => if drained {
                Supervision::Reaping
            } else {
                Supervision::Pausing
            },
            (Supervision::Pausing, RunEvent::Done) => Supervision::Looking,
            (Supervision::Reaping, RunEvent::Reaped(status)) => Supervision::Finished(status),
            (at, _) => at,
        };
        Supervisor { completed, at }
    }
}

/// The supervision after `events`, from its start.
pub open spec fn supervised_through<S, I>(events: Seq<RunEvent<S, I>>) -> Supervisor<S, I>
    decreases events.len(),
{
    if events.len() == 0 {
        Supervisor { completed: None, at: Supervision::Looking }
    } else {
        supervised(supervised_through(events.drop_last()), events.last())
    }
}

/// Whether the completion time is known exactly when it has to be.
pub open spec fn timed<S, I>(run: Supervisor<S, I>) -> bool {
    match run.at {
        Supervision::Probing | Supervision::Timing => run.completed is None,
        Supervision::Draining | Supervision::Reaping | Supervision::Finished(Ok(_)) =>
            run.completed is Some,
        _ => true,
    }
}

/// A child is reaped only after it was seen to end, which fixes the completion
/// time of its result; so a result always has one.
pub proof fn a_reaped_child_has_a_completion_time<S, I>(events: Seq<RunEvent<S, I>>)
    ensures
        timed(supervised_through(events)),
    decreases events.len(),
{
    if events.len() > 0 {
        a_reaped_child_has_a_completion_time(events.drop_last());
    }
}

/// The completion time is read right after the child is seen to have ended and
/// never changes, however long its output takes.
pub proof fn the_completion_time_stays<S, I>(events: Seq<RunEvent<S, I>>, event: RunEvent<S, I>)
    ensures
        ({
            let run = supervised_through(events);
            let next = supervised(run, event);
            &&& run.completed is Some ==> next.completed == run.completed
            &&& run.completed is None && next.completed is Some ==> run.at is Timing && event
                == RunEvent::<S, I>::Time(next.completed->0)
        }),
{
    a_reaped_child_has_a_completion_time(events);
}

/// Every signal that is taken is sent to the child's group before anything
/// else happens, and only while the child is not reaped; reaping follows only
/// once the child has ended and its output is complete.
pub proof fn signals_reach_the_child_before_it_is_reaped<S, I>(
    run: Supervisor<S, I>,
    event: RunEvent<S, I>,
)
    ensures
        forall|signal: i32|
            run.at is Looking && signal != 0 ==> (#[trigger] supervised(
                run,
                RunEvent::Signal(signal),
            )).wants() == RunAction::Forward(signal),
        run.at is Reaping || run.at is Finished ==> !(supervised(run, event).at is Forwarding)
            && !(supervised(run, event).at is Looking),
        supervised(run, event).at is Reaping && !(run.at is Reaping) ==> run.at is Draining && event
            == RunEvent::<S, I>::Drained(true),
{
}

/// How a child ended: its exit code or the signal that ended it, and both as
/// they are to be shown.
#[derive(Debug)]
pub struct Ended {
    pub code: Option<i32>,
    pub signal: Option<i32>,
    pub text: String,
}

/// How a worker ended. `T` is what it returns and `E` a failure.
#[derive(Debug)]
pub enum Worker<T, E> {
    Returned(Result<T, E>),
    Panicked,
}

/// What a worker leaves, with the text for a panic.
pub open spec fn left(worker: Worker<Vec<u8>, Error>, panicked: Seq<char>) -> Result<
    Seq<u8>,
    Seq<CauseView>,
> {
    match worker {
        Worker::Returned(Ok(bytes)) => Ok(bytes@),
        Worker::Returned(Err(error)) => Err(error@),
        Worker::Panicked => Err(message(panicked)),
    }
}

/// The failure to collect the output of a child that has ended.
pub open spec fn lost_output(ended: Seq<char>, error: Seq<CauseView>) -> Seq<CauseView> {
    in_context("child already completed with "@ + ended + "; output transfer failed"@, error)
}

fn collected(worker: Worker<Vec<u8>, Error>, panicked: &str, ended: &str) -> (bytes: Result<
    Vec<u8>,
    Error,
>)
    ensures
        match left(worker, panicked@) {
            Ok(left) => bytes matches Ok(bytes) && bytes@ == left,
            Err(error) => bytes matches Err(failure) && failure@ == lost_output(ended@, error),
        },
{
    let error = match worker {
        Worker::Returned(Ok(bytes)) => {
            return Ok(bytes);
        },
        Worker::Returned(Err(error)) => error,
        Worker::Panicked => Error::new(panicked),
    };
    Err(
        error.context(
            between("child already completed with ", ended, "; output transfer failed").as_str(),
        ),
    )
}

/// The outcome of an execution, given how the child ended, what its outputs
/// left, when it completed and the signal that this process received.
pub open spec fn executed(
    status: Result<Ended, IoError>,
    interrupted: i32,
    stdout: Worker<Vec<u8>, Error>,
    stderr: Worker<Vec<u8>, Error>,
    completed: Option<SystemTime>,
) -> Result<OutcomeView, Seq<CauseView>> {
    match status {
        Err(error) => Err(in_context("wait for child"@, seq![error@])),
        Ok(ended) => match (
            left(stdout, "stdout worker panicked"@),
            left(stderr, "stderr worker panicked"@),
            completed,
        ) {
            (Err(error), _, _) => Err(lost_output(ended.text@, error)),
            (_, Err(error), _) => Err(lost_output(ended.text@, error)),
            (_, _, None) => Err(message("missing child completion time"@)),
            (Ok(stdout), Ok(stderr), Some(completed)) => Ok(
                OutcomeView {
                    record: RecordView {
                        completed: completed@,
                        code: ended_with(ended.code, ended.signal, interrupted as int),
                        stdout,
                        stderr,
                    },
                    reusable: ended.code is Some && interrupted == 0,
                },
            ),
        },
    }
}

/// The outcome of an execution whose child was supervised to its end.
pub fn outcome(
    status: Result<Ended, IoError>,
    interrupted: i32,
    stdout: Worker<Vec<u8>, Error>,
    stderr: Worker<Vec<u8>, Error>,
    completed: Option<SystemTime>,
) -> (outcome: Result<Outcome, Error>)
    requires
        reportable(interrupted as int),
        status matches Ok(ended) ==> (ended.signal matches Some(signal) ==> reportable(
            signal as int,
        )),
    ensures
        match outcome {
            Ok(outcome) => executed(status, interrupted, stdout, stderr, completed) == Ok::<
                OutcomeView,
                Seq<CauseView>,
            >(outcome@),
            Err(error) => executed(status, interrupted, stdout, stderr, completed) == Err::<
                OutcomeView,
                Seq<CauseView>,
            >(error@),
        },
{
    let ended = match status {
        Ok(ended) => ended,
        Err(error) => {
            return Err(Error::from_io(error).context("wait for child"));
        },
    };
    let stdout = match collected(stdout, "stdout worker panicked", ended.text.as_str()) {
        Ok(stdout) => stdout,
        Err(error) => {
            return Err(error);
        },
    };
    let stderr = match collected(stderr, "stderr worker panicked", ended.text.as_str()) {
        Ok(stderr) => stderr,
        Err(error) => {
            return Err(error);
        },
    };
    match completed {
        Some(completed) => Ok(
            Outcome::new(completed, ended.code, ended.signal, interrupted, stdout, stderr),
        ),
        None => Err(Error::new("missing child completion time")),
    }
}

/// The result of a command that a signal ended, or during which this process
/// received one, is never saved, whatever the votes.
pub proof fn a_signalled_command_is_never_saved(
    ended: Ended,
    interrupted: i32,
    stdout: Worker<Vec<u8>, Error>,
    stderr: Worker<Vec<u8>, Error>,
    completed: Option<SystemTime>,
    votes: Seq<u8>,
)
    requires
        ended.code is None || interrupted != 0,
    ensures
        executed(Ok(ended), interrupted, stdout, stderr, completed) matches Ok(outcome)
            ==> outcome.saving(votes) == Saving::Interrupted,
{
}

/// Where the end of a delivery stands. `E` is a failure.
#[derive(Debug)]
pub enum Delivery<E> {
    /// About to look for a signal.
    Looking,
    /// About to look whether both writers have ended.
    Checking,
    Pausing,
    /// A signal came or both writers have ended; about to look for a signal
    /// once more.
    Confirming,
    /// About to collect what both writers left.
    Collecting,
    Finished(Result<i32, E>),
}

/// What the end of a delivery needs next.
#[derive(Clone, Copy, Debug, PartialEq, Eq, Structural)]
pub enum DeliveryAction {
    /// Look which signal was received.
    Sample,
    /// Look whether both writers have ended.
    CheckWriters,
    Pause,
    /// Collect what both writers left.
    Collect,
    Finish,
}

/// The answer to an action.
#[derive(Debug)]
pub enum DeliveryEvent<E> {
    Signal(i32),
    Ended(bool),
    Paused,
    Collected(Worker<(), E>, Worker<(), E>),
}

pub open spec fn delivery_view(delivery: Delivery<Error>) -> Delivery<Seq<CauseView>> {
    match delivery {
        Delivery::Looking => Delivery::Looking,
        Delivery::Checking => Delivery::Checking,
        Delivery::Pausing => Delivery::Pausing,
        Delivery::Confirming => Delivery::Confirming,
        Delivery::Collecting => Delivery::Collecting,
        Delivery::Finished(result) => Delivery::Finished(crate::error::viewed(result)),
    }
}

pub open spec fn worker_view(worker: Worker<(), Error>) -> Worker<(), Seq<CauseView>> {
    match worker {
        Worker::Returned(result) => Worker::Returned(crate::error::viewed(result)),
        Worker::Panicked => Worker::Panicked,
    }
}

pub open spec fn delivery_event(event: DeliveryEvent<Error>) -> DeliveryEvent<Seq<CauseView>> {
    match event {
        DeliveryEvent::Signal(signal) => DeliveryEvent::Signal(signal),
        DeliveryEvent::Ended(ended) => DeliveryEvent::Ended(ended),
        DeliveryEvent::Paused => DeliveryEvent::Paused,
        DeliveryEvent::Collected(out, err) => DeliveryEvent::Collected(
            worker_view(out),
            worker_view(err),
        ),
    }
}

/// What the writer of one stream left, for a command that exited with `code`.
pub open spec fn transferred(worker: Worker<(), Seq<CauseView>>, code: i32) -> Result<
    (),
    Seq<CauseView>,
> {
    let lost = |error: Seq<CauseView>|
        Err::<(), Seq<CauseView>>(
            in_context(
                "child already completed with exit code "@ + signed_decimal(code as int)
                    + "; output transfer failed"@,
                error,
            ),
        );
    match worker {
        Worker::Returned(Ok(())) => Ok(()),
        Worker::Returned(Err(error)) => lost(error),
        Worker::Panicked => lost(message("output writer panicked"@)),
    }
}

/// The end of a delivery after `event`, for a command that exited with `code`.
/// An event that does not answer the last action changes nothing.
pub open spec fn delivered(
    delivery: Delivery<Seq<CauseView>>,
    event: DeliveryEvent<Seq<CauseView>>,
    code: i32,
) -> Delivery<Seq<CauseView>> {
    match (delivery, event) {
        (Delivery::Looking, DeliveryEvent::Signal(signal)) => if signal != 0 {
            Delivery::Confirming
        } else {
            Delivery::Checking
        },
        (Delivery::Checking, DeliveryEvent::Ended(ended)) => if ended {
            Delivery::Confirming
        } else {
            Delivery::Pausing
        },
        (Delivery::Pausing, DeliveryEvent::Paused) => Delivery::Looking,
        (Delivery::Confirming, DeliveryEvent::Signal(signal)) => if signal != 0 {
            Delivery::Finished(Ok((128 + signal) as i32))
        } else {
            Delivery::Collecting
        },
        (Delivery::Collecting, DeliveryEvent::Collected(out, err)) => Delivery::Finished(
            match combined(transferred(out, code), transferred(err, code)) {
                Ok(()) => Ok(code),
                Err(error) => Err(error),
            },
        ),
        _ => delivery,
    }
}

fn transfer(worker: Worker<(), Error>, code: i32) -> (result: Result<(), Error>)
    ensures
        crate::error::viewed(result) == transferred(worker_view(worker), code),
{
    let error = match worker {
        Worker::Returned(Ok(())) => {
            return Ok(());
        },
        Worker::Returned(Err(error)) => error,
        Worker::Panicked => Error::new("output writer panicked"),
    };
    let code = signed_decimal_text(code);
    Err(
        error.context(
            between(
                "child already completed with exit code ",
                code.as_str(),
                "; output transfer failed",
            ).as_str(),
        ),
    )
}

impl Delivery<Error> {
    /// Starts to wait for the end of a delivery.
    pub fn finish() -> (delivery: Delivery<Error>)
        ensures
            delivery_view(delivery) == Delivery::<Seq<CauseView>>::Looking,
    {
        Delivery::Looking
    }

    pub open spec fn wants(self) -> DeliveryAction {
        match self {
            Delivery::Looking | Delivery::Confirming => DeliveryAction::Sample,
            Delivery::Checking => DeliveryAction::CheckWriters,
            Delivery::Pausing => DeliveryAction::Pause,
            Delivery::Collecting => DeliveryAction::Collect,
            Delivery::Finished(_) => DeliveryAction::Finish,
        }
    }

    /// What the end of the delivery needs next.
    pub fn action(&self) -> (action: DeliveryAction)
        ensures
            action == self.wants(),
    {
        match self {
            Delivery::Looking | Delivery::Confirming => DeliveryAction::Sample,
            Delivery::Checking => DeliveryAction::CheckWriters,
            Delivery::Pausing => DeliveryAction::Pause,
            Delivery::Collecting => DeliveryAction::Collect,
            Delivery::Finished(_) => DeliveryAction::Finish,
        }
    }

    /// The end of the delivery after the answer to its last action.
    pub fn step(self, event: DeliveryEvent<Error>, code: i32) -> (next: Delivery<Error>)
        requires
            event matches DeliveryEvent::Signal(signal) ==> reportable(signal as int),
        ensures
            delivery_view(next) == delivered(delivery_view(self), delivery_event(event), code),
    {
        match (self, event) {
            (Delivery::Looking, DeliveryEvent::Signal(signal)) => if signal != 0 {
                Delivery::Confirming
            } else {
                Delivery::Checking
            },
            (Delivery::Checking, DeliveryEvent::Ended(ended)) => if ended {
                Delivery::Confirming
            } else {
                Delivery::Pausing
            },
            (Delivery::Pausing, DeliveryEvent::Paused) => Delivery::Looking,
            (Delivery::Confirming, DeliveryEvent::Signal(signal)) => if signal != 0 {
                Delivery::Finished(Ok(signal_code(signal)))
            } else {
                Delivery::Collecting
            },
            (Delivery::Collecting, DeliveryEvent::Collected(out, err)) => {
                let out = transfer(out, code);
                let err = transfer(err, code);
                Delivery::Finished(
                    match delivery_result(out, err) {
                        Ok(()) => Ok(code),
                        Err(error) => Err(error),
                    },
                )
            },
            (delivery, _) => delivery,
        }
    }
}

/// A delivery ends with the command's own code only if both writers delivered
/// everything and no signal was there when it was last looked for.
pub proof fn a_delivery_succeeds_only_when_all_is_written(
    delivery: Delivery<Seq<CauseView>>,
    event: DeliveryEvent<Seq<CauseView>>,
    code: i32,
    result: i32,
)
    requires
        !(delivery is Finished),
        delivered(delivery, event, code) == Delivery::<Seq<CauseView>>::Finished(Ok(result)),
    ensures
        ({
            ||| {
                &&& delivery is Collecting
                &&& event matches DeliveryEvent::Collected(
                    Worker::Returned(Ok(_)),
                    Worker::Returned(Ok(_)),
                )
                &&& result == code
            }
            ||| {
                &&& delivery is Confirming
                &&& event matches DeliveryEvent::Signal(signal)
                &&& signal != 0
                &&& result == (128 + signal) as i32
            }
        }),
{
}

/// However a child's output is cut into reads, what is captured of it is the
/// bytes of the reads that succeeded, all of them and in their order, and so is
/// what is handed on for delivery.
pub proof fn every_byte_of_the_output_is_kept(reads: Seq<Result<Seq<u8>, CauseView>>)
    ensures
        captured_by(reads) == reads.flat_map(
            |read: Result<Seq<u8>, CauseView>| if read is Ok { read->Ok_0 } else { seq![] },
        ),
        forwarded_by(reads) == reads.flat_map(
            |read: Result<Seq<u8>, CauseView>| if read is Ok { read->Ok_0 } else { seq![] },
        ),
    decreases reads.len(),
{
    let brings = |read: Result<Seq<u8>, CauseView>| if read is Ok { read->Ok_0 } else { seq![] };
    if reads.len() > 0 {
        let before = reads.drop_last();
        every_byte_of_the_output_is_kept(before);
        reads.lemma_flat_map_take_append(brings, reads.len() - 1);
        assert(reads.take(reads.len() - 1) =~= before);
        assert(reads.take(reads.len() as int) =~= reads);
        assert(captured_by(reads) =~= before.flat_map(brings) + brings(reads.last()));
        assert(forwarded_by(reads) =~= before.flat_map(brings) + brings(reads.last()));
    } else {
        assert(reads.flat_map(brings) =~= seq![]);
    }
}

/// A read that brings bytes is taken in whole: each of its bytes is captured
/// behind what was there, and each is handed on. One that brings none, and only
/// that, is the end of the output.
pub proof fn a_read_is_taken_in_whole(
    captured: &mut Vec<u8>,
    bytes: Vec<u8>,
    next: Captured<Vec<u8>, Error>,
)
    requires
        call_ensures(capture, (captured, Ok(bytes)), next),
    ensures
        final(captured)@ == old(captured)@ + bytes@,
        bytes@.len() == 0 <==> next is End,
        bytes@.len() > 0 ==> (next matches Captured::Forward(forwarded) && forwarded@ == bytes@),
{
}

/// A read that fails neither adds to what was captured nor takes from it. After
/// an interruption the output is read on; any other failure is passed on as it
/// is.
pub proof fn a_failed_read_loses_nothing(
    captured: &mut Vec<u8>,
    error: IoError,
    next: Captured<Vec<u8>, Error>,
)
    requires
        call_ensures(capture, (captured, Err(error)), next),
    ensures
        final(captured)@ == old(captured)@,
        error.kind == ErrorKind::Interrupted <==> next is Again,
        error.kind != ErrorKind::Interrupted ==> (next matches Captured::Failed(failure)
            && failure@ == seq![CauseView::Io(error.kind, error.text@)]),
{
    assert(old(captured)@ + Seq::<u8>::empty() =~= old(captured)@);
}

/// A program that cannot be started is named in the failure, in front of the
/// reason.
pub proof fn a_failed_start_names_the_program(program: &str, error: IoError, failure: Error)
    requires
        call_ensures(start_failed, (program, error), failure),
    ensures
        failure@ == seq![
            CauseView::Message("could not start "@ + program@),
            CauseView::Io(error.kind, error.text@),
        ],
{
    assert(failure@ =~= seq![
        CauseView::Message("could not start "@ + program@),
        CauseView::Io(error.kind, error.text@),
    ]);
}

/// A child has ended exactly when a process was found; an interrupted look has
/// found none, and every other failure is passed on.
pub proof fn a_child_has_ended_when_it_is_found(
    found: Result<i32, IoError>,
    exited: Result<bool, IoError>,
)
    requires
        call_ensures(exited_without_reaping, (found,), exited),
    ensures
        exited == Ok::<bool, IoError>(true) <==> found is Ok && found->Ok_0 != 0,
        exited is Err <==> found is Err && found->Err_0.kind != ErrorKind::Interrupted,
        exited is Err ==> exited->Err_0 == found->Err_0,
{
}

/// Whether an event answers what the supervision of a child needs.
pub open spec fn answers_run<S, I>(action: RunAction, event: RunEvent<S, I>) -> bool {
    match action {
        RunAction::TakePending => event is Signal,
        RunAction::Forward(_) | RunAction::Pause => event is Done,
        RunAction::Probe => event is Probed,
        RunAction::ReadClock => event is Time,
        RunAction::CheckDrained => event is Drained,
        RunAction::Reap => event is Reaped,
        RunAction::Finish => false,
    }
}

/// The supervision of a child moves on with every answer to what it needs, and
/// with nothing else; it needs nothing more exactly when it is finished.
pub proof fn supervision_moves_on_with_each_answer<S, I>(
    run: Supervisor<S, I>,
    action: RunAction,
    event: RunEvent<S, I>,
    next: Supervisor<S, I>,
)
    requires
        call_ensures(Supervisor::<S, I>::action, (&run,), action),
        call_ensures(Supervisor::<S, I>::step, (run, event), next),
    ensures
        answers_run(action, event) <==> next.at != run.at,
        !answers_run(action, event) ==> next == run,
        action is Finish <==> run.at is Finished,
{
}

/// A signal that is found is sent to the child, the very same one; without one
/// the child is looked at, or its output once it has ended.
pub proof fn a_signal_is_forwarded_as_it_is<S, I>(
    run: Supervisor<S, I>,
    signal: i32,
    next: Supervisor<S, I>,
    action: RunAction,
)
    requires
        run.at is Looking,
        call_ensures(Supervisor::<S, I>::step, (run, RunEvent::Signal(signal)), next),
        call_ensures(Supervisor::<S, I>::action, (&next,), action),
    ensures
        next.completed == run.completed,
        signal != 0 ==> action == RunAction::Forward(signal),
        signal == 0 && run.completed is None ==> action == RunAction::Probe,
        signal == 0 && run.completed is Some ==> action == RunAction::CheckDrained,
{
}

/// After a signal was forwarded, or there was none, a child is looked at until
/// it has ended, and its output until it is complete; between two looks there
/// is a pause, after which signals are looked for again.
pub proof fn a_child_is_watched_until_it_ends<S, I>(
    run: Supervisor<S, I>,
    event: RunEvent<S, I>,
    next: Supervisor<S, I>,
    action: RunAction,
)
    requires
        call_ensures(Supervisor::<S, I>::step, (run, event), next),
        call_ensures(Supervisor::<S, I>::action, (&next,), action),
    ensures
        run.at is Forwarding && event is Done && run.completed is None ==> action
            == RunAction::Probe,
        run.at is Forwarding && event is Done && run.completed is Some ==> action
            == RunAction::CheckDrained,
        run.at is Probing ==> (event matches RunEvent::Probed(Ok(ended)) ==> action == if ended {
            RunAction::ReadClock
        } else {
            RunAction::Pause
        }),
        run.at is Timing ==> (event matches RunEvent::Time(now) ==> next.completed == Some(now)
            && action == RunAction::CheckDrained),
        run.at is Draining ==> (event matches RunEvent::Drained(drained) ==> action == if drained {
            RunAction::Reap
        } else {
            RunAction::Pause
        }),
        run.at is Pausing && event is Done ==> action == RunAction::TakePending,
        !(run.at is Timing) ==> next.completed == run.completed,
{
}

/// A supervision ends with what reaping the child brought, whatever that is, or
/// with the failure to look at it.
pub proof fn a_child_ends_as_it_was_reaped<S, I>(
    run: Supervisor<S, I>,
    event: RunEvent<S, I>,
    next: Supervisor<S, I>,
)
    requires
        !(run.at is Finished),
        call_ensures(Supervisor::<S, I>::step, (run, event), next),
    ensures
        run.at is Reaping ==> (event matches RunEvent::Reaped(status) ==> next.at
            == Supervision::Finished(status)),
        run.at is Probing ==> (event matches RunEvent::Probed(Err(error)) ==> next.at
            == Supervision::<S, I>::Finished(Err(error))),
        next.at is Finished ==> (run.at is Reaping && event is Reaped) || (run.at is Probing
            && event matches RunEvent::Probed(Err(_))),
{
}

/// What a child left becomes the outcome of its execution: both outputs to the
/// last byte, the time at which it ended, and its own exit code, unless a
/// signal ended it or this process received one.
pub proof fn the_outcome_is_what_the_child_left(
    ended: Ended,
    interrupted: i32,
    stdout: Vec<u8>,
    stderr: Vec<u8>,
    completed: SystemTime,
    result: Result<Outcome, Error>,
)
    requires
        reportable(interrupted as int),
        ended.signal matches Some(signal) ==> reportable(signal as int),
        call_ensures(
            outcome,
            (
                Ok(ended),
                interrupted,
                Worker::Returned(Ok(stdout)),
                Worker::Returned(Ok(stderr)),
                Some(completed),
            ),
            result,
        ),
    ensures
        result is Ok,
        result->Ok_0@.record.stdout == stdout@,
        result->Ok_0@.record.stderr == stderr@,
        result->Ok_0@.record.completed == completed@,
        result->Ok_0@.reusable <==> ended.code is Some && interrupted == 0,
        interrupted != 0 ==> result->Ok_0@.record.code == 128 + interrupted,
        interrupted == 0 && ended.code is Some ==> result->Ok_0@.record.code == ended.code->0,
        interrupted == 0 && ended.code is None && ended.signal is Some
            ==> result->Ok_0@.record.code == 128 + ended.signal->0,
{
}

/// An execution has an outcome exactly if its child was waited for, both of its
/// outputs were collected and its end was timed. If an output is lost, the
/// failure says how the child ended before it says why.
pub proof fn an_execution_without_its_output_has_no_outcome(
    status: Result<Ended, IoError>,
    interrupted: i32,
    stdout: Worker<Vec<u8>, Error>,
    stderr: Worker<Vec<u8>, Error>,
    completed: Option<SystemTime>,
    result: Result<Outcome, Error>,
)
    requires
        call_ensures(outcome, (status, interrupted, stdout, stderr, completed), result),
    ensures
        result is Ok <==> status is Ok && (stdout matches Worker::Returned(Ok(_))) && (
        stderr matches Worker::Returned(Ok(_))) && completed is Some,
        status matches Err(error) ==> result->Err_0@ == seq![
            CauseView::Message("wait for child"@),
            error@,
        ],
        status matches Ok(ended) ==> (stdout matches Worker::Returned(Err(lost)) ==> result->Err_0@
            == seq![
            CauseView::Message(
                "child already completed with "@ + ended.text@ + "; output transfer failed"@,
            ),
        ] + lost@),
        status matches Ok(ended) ==> (stdout matches Worker::Returned(Ok(_)) ==> (
        stderr matches Worker::Returned(Err(lost)) ==> result->Err_0@ == seq![
            CauseView::Message(
                "child already completed with "@ + ended.text@ + "; output transfer failed"@,
            ),
        ] + lost@)),
{
    if status is Err {
        assert(result->Err_0@ =~= seq![CauseView::Message("wait for child"@), status->Err_0@]);
    }
}

/// Whether an event answers what the end of a delivery needs.
pub open spec fn answers_delivery(action: DeliveryAction, event: DeliveryEvent<Error>) -> bool {
    match action {
        DeliveryAction::Sample => event is Signal,
        DeliveryAction::CheckWriters => event is Ended,
        DeliveryAction::Pause => event is Paused,
        DeliveryAction::Collect => event is Collected,
        DeliveryAction::Finish => false,
    }
}

/// The end of a delivery moves on with every answer to what it needs, and with
/// nothing else; it needs nothing more exactly when it is finished.
pub proof fn a_delivery_moves_on_with_each_answer(
    delivery: Delivery<Error>,
    action: DeliveryAction,
    event: DeliveryEvent<Error>,
    code: i32,
    next: Delivery<Error>,
)
    requires
        call_ensures(Delivery::<Error>::action, (&delivery,), action),
        call_ensures(Delivery::<Error>::step, (delivery, event, code), next),
    ensures
        answers_delivery(action, event) <==> delivery_view(next) != delivery_view(delivery),
        action is Finish <==> delivery is Finished,
{
}

/// Once both writers have delivered everything, and no signal came, a delivery
/// ends with the command's own exit code, whatever that is.
pub proof fn a_complete_delivery_returns_the_commands_code(
    code: i32,
    next: Delivery<Error>,
)
    requires
        call_ensures(
            Delivery::<Error>::step,
            (
                Delivery::Collecting,
                DeliveryEvent::Collected(Worker::Returned(Ok(())), Worker::Returned(Ok(()))),
                code,
            ),
            next,
        ),
    ensures
        next == Delivery::<Error>::Finished(Ok(code)),
{
}

/// A delivery of which either writer failed fails, and the failure says which
/// exit code the child had left.
pub proof fn an_incomplete_delivery_fails(
    out: Worker<(), Error>,
    err: Worker<(), Error>,
    code: i32,
    next: Delivery<Error>,
)
    requires
        !(out matches Worker::Returned(Ok(_))) || !(err matches Worker::Returned(Ok(_))),
        call_ensures(
            Delivery::<Error>::step,
            (Delivery::Collecting, DeliveryEvent::Collected(out, err), code),
            next,
        ),
    ensures
        next matches Delivery::Finished(Err(error)) && error@.len() > 0 && error@[0]
            == CauseView::Message(
            "child already completed with exit code "@ + signed_decimal(code as int)
                + "; output transfer failed"@,
        ),
        (out matches Worker::Returned(Err(lost)) && err matches Worker::Returned(Ok(_)))
            ==> next->Finished_0->Err_0@.skip(1) == out->Returned_0->Err_0@,
        (err matches Worker::Returned(Err(lost)) && out matches Worker::Returned(Ok(_)))
            ==> next->Finished_0->Err_0@.skip(1) == err->Returned_0->Err_0@,
{
    let error = next->Finished_0->Err_0@;
    if out is Returned && out->Returned_0 is Err {
        assert(error.skip(1) =~= out->Returned_0->Err_0@ || err is Panicked || err->Returned_0
            is Err);
    }
    if err is Returned && err->Returned_0 is Err {
        assert(error.skip(1) =~= err->Returned_0->Err_0@ || out is Panicked || out->Returned_0
            is Err);
    }
}

/// A signal ends a delivery with its own exit status. Until one comes the
/// writers are waited for, and what they left is collected only once both have
/// ended and no signal is there.
pub proof fn a_delivery_waits_for_its_writers_or_a_signal(
    delivery: Delivery<Error>,
    event: DeliveryEvent<Error>,
    code: i32,
    next: Delivery<Error>,
)
    requires
        event matches DeliveryEvent::Signal(signal) ==> reportable(signal as int),
        call_ensures(Delivery::<Error>::step, (delivery, event, code), next),
    ensures
        delivery is Looking ==> (event matches DeliveryEvent::Signal(signal) ==> (signal == 0
            <==> next is Checking) && (signal != 0 <==> next is Confirming)),
        delivery is Checking ==> (event matches DeliveryEvent::Ended(ended) ==> (ended <==> next is
            Confirming) && (!ended <==> next is Pausing)),
        delivery is Pausing && event is Paused ==> next is Looking,
        delivery is Confirming ==> (event matches DeliveryEvent::Signal(signal) ==> if signal == 0 {
            next is Collecting
        } else {
            next == Delivery::<Error>::Finished(Ok((128 + signal) as i32))
        }),
{
}

/// A supervision starts with a look for signals, with nothing known of the end
/// of the child, and the end of a delivery starts with a look for signals too.
pub proof fn supervision_and_delivery_start_with_a_look<S, I>(
    run: Supervisor<S, I>,
    first: RunAction,
    delivery: Delivery<Error>,
    look: DeliveryAction,
)
    requires
        call_ensures(execute::<S, I>, (), run),
        call_ensures(Supervisor::<S, I>::action, (&run,), first),
        call_ensures(Delivery::<Error>::finish, (), delivery),
        call_ensures(Delivery::<Error>::action, (&delivery,), look),
    ensures
        run.completed is None && run.at is Looking && first is TakePending,
        delivery is Looking && look is Sample,
{
}

} // verus!
