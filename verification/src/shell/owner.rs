//! The caller that executes a command and shares its result: what it does from
//! the start of the command until its own delivery, and what it publishes.

use crate::domain::execution::{reportable, Outcome, OutcomeView, Saving, Votes};
use crate::domain::message::{Failure, Saved};
use crate::domain::record::{encoded, RecordError};
use crate::domain::shared::{self, completed_bytes, failure_bytes};
use crate::error::{in_context, message, rendered, CauseView, Error, IoError};
use crate::shell::sharing::{report, reported};
use crate::shell::store::{self, io_view, save_steps, saving, SaveStep};
use crate::text::{signed_decimal, signed_decimal_text};
use vstd::prelude::*;

verus! {

/// Where an owner looks for a signal that interrupts its execution.
#[derive(Clone, Copy, Debug, PartialEq, Eq, Structural)]
pub enum Point {
    BeforeSave,
    BeforeStage,
    AfterStage,
    /// With the seal: no later signal counts against the execution.
    Sealed,
}

/// Where the publication of a result stands.
#[derive(Clone, Copy, Debug, PartialEq, Eq, Structural)]
pub enum At {
    /// About to look for a signal.
    Sampling(Point),
    /// Removing the saved result after a signal, which changed the outcome or
    /// not.
    Invalidating(Point, bool),
    Saving,
    /// Writing what waiters will read, after this point.
    Staging(Point),
    /// Removing the marker of the execution.
    Removing,
    Committing,
}

/// Where an owner stands. `O` is its outcome, `V` the votes of all
/// participants, `T` a text and `E` a failure.
#[derive(Debug)]
pub enum Owner<O, V, T, E> {
    Executing,
    /// Taking the key's lock again.
    Locking(Result<O, E>),
    /// Reading the votes. `child` is the exit code that the child left.
    Voting { outcome: O, child: i32 },
    Publishing { outcome: O, child: i32, votes: V, at: At },
    /// Removing the saved result after a failure.
    Failing { error: E },
    /// Publishing a failure.
    Reporting { error: E, invalidated: bool, text: T },
    /// Removing the marker of a failed execution.
    Discarding { error: E },
    /// Releasing the marker, then the key's lock if `gate`.
    Unlocking { end: Result<(i32, Saving), E>, gate: bool },
    Delivering { code: i32, saving: Saving },
    Finished { line: Option<T>, result: Result<i32, E> },
}

/// What an owner needs next. `B` are bytes and `S` the steps of a save.
#[derive(Debug)]
pub enum OwnerAction<B, S> {
    /// Run the command.
    Execute,
    /// Take the key's lock, however long it takes.
    LockGate,
    ReadVotes,
    /// Look which signal was received.
    Sample,
    /// Look which signal was received, and set the seal.
    Seal,
    /// Remove the saved result.
    Invalidate,
    /// Save the result in these steps, up to the first that fails.
    Save(S),
    /// Replace everything behind the tag by these bytes.
    Stage(B),
    /// Remove the marker of the execution.
    RemoveMarker,
    /// Write the tag of a completed execution.
    Commit,
    /// Report the failure, replace everything behind the tag by these bytes,
    /// then write the tag of a failed execution.
    PublishFailure { saved: Saved, detail: B },
    /// Remove the marker if possible.
    DiscardMarker,
    UnlockActive,
    UnlockGate,
    /// Wait until the output of a command with this exit code is delivered,
    /// then look which signal was received.
    Deliver(i32),
    Finish,
}

/// The answer to an action. `I` is the failure of a system call.
#[derive(Debug)]
pub enum OwnerEvent<O, V, I, E> {
    Executed(Result<O, E>),
    Votes(Result<V, E>),
    Signal(i32),
    /// Whether the marker of a completed execution is removed.
    Removed(Result<(), I>),
    /// Any other action, carried out or not.
    Done(Result<(), E>),
    Delivered { result: Result<i32, E>, signal: i32 },
}

pub type OwnerState = Owner<Outcome, Votes, String, Error>;

pub type OwnerView = Owner<OutcomeView, Seq<u8>, Seq<char>, Seq<CauseView>>;

pub type OwnerRequest = OwnerAction<Vec<u8>, Vec<SaveStep<Vec<u8>>>>;

pub type OwnerActionView = OwnerAction<Seq<u8>, Seq<SaveStep<Seq<u8>>>>;

pub type OwnerAnswer = OwnerEvent<Outcome, Votes, IoError, Error>;

pub type OwnerEventView = OwnerEvent<OutcomeView, Seq<u8>, CauseView, Seq<CauseView>>;

pub open spec fn owner_view(owner: OwnerState) -> OwnerView {
    match owner {
        Owner::Executing => Owner::Executing,
        Owner::Locking(Ok(outcome)) => Owner::Locking(Ok(outcome@)),
        Owner::Locking(Err(error)) => Owner::Locking(Err(error@)),
        Owner::Voting { outcome, child } => Owner::Voting { outcome: outcome@, child },
        Owner::Publishing { outcome, child, votes, at } => Owner::Publishing {
            outcome: outcome@,
            child,
            votes: votes@,
            at,
        },
        Owner::Failing { error } => Owner::Failing { error: error@ },
        Owner::Reporting { error, invalidated, text } => Owner::Reporting {
            error: error@,
            invalidated,
            text: text@,
        },
        Owner::Discarding { error } => Owner::Discarding { error: error@ },
        Owner::Unlocking { end, gate } => Owner::Unlocking {
            end: crate::error::viewed(end),
            gate,
        },
        Owner::Delivering { code, saving } => Owner::Delivering { code, saving },
        Owner::Finished { line, result } => Owner::Finished {
            line: crate::shell::verbose::viewed(line),
            result: crate::error::viewed(result),
        },
    }
}

pub open spec fn owner_event(event: OwnerAnswer) -> OwnerEventView {
    match event {
        OwnerEvent::Executed(Ok(outcome)) => OwnerEvent::Executed(Ok(outcome@)),
        OwnerEvent::Executed(Err(error)) => OwnerEvent::Executed(Err(error@)),
        OwnerEvent::Votes(Ok(votes)) => OwnerEvent::Votes(Ok(votes@)),
        OwnerEvent::Votes(Err(error)) => OwnerEvent::Votes(Err(error@)),
        OwnerEvent::Signal(signal) => OwnerEvent::Signal(signal),
        OwnerEvent::Removed(result) => OwnerEvent::Removed(io_view(result)),
        OwnerEvent::Done(result) => OwnerEvent::Done(crate::error::viewed(result)),
        OwnerEvent::Delivered { result, signal } => OwnerEvent::Delivered {
            result: crate::error::viewed(result),
            signal,
        },
    }
}

pub open spec fn owner_action(action: OwnerRequest) -> OwnerActionView {
    match action {
        OwnerAction::Execute => OwnerAction::Execute,
        OwnerAction::LockGate => OwnerAction::LockGate,
        OwnerAction::ReadVotes => OwnerAction::ReadVotes,
        OwnerAction::Sample => OwnerAction::Sample,
        OwnerAction::Seal => OwnerAction::Seal,
        OwnerAction::Invalidate => OwnerAction::Invalidate,
        OwnerAction::Save(steps) => OwnerAction::Save(save_steps(steps@)),
        OwnerAction::Stage(bytes) => OwnerAction::Stage(bytes@),
        OwnerAction::RemoveMarker => OwnerAction::RemoveMarker,
        OwnerAction::Commit => OwnerAction::Commit,
        OwnerAction::PublishFailure { saved, detail } => OwnerAction::PublishFailure {
            saved,
            detail: detail@,
        },
        OwnerAction::DiscardMarker => OwnerAction::DiscardMarker,
        OwnerAction::UnlockActive => OwnerAction::UnlockActive,
        OwnerAction::UnlockGate => OwnerAction::UnlockGate,
        OwnerAction::Deliver(code) => OwnerAction::Deliver(code),
        OwnerAction::Finish => OwnerAction::Finish,
    }
}

/// What an owner in this state needs next.
pub open spec fn owner_wants(owner: OwnerView) -> OwnerActionView {
    match owner {
        Owner::Executing => OwnerAction::Execute,
        Owner::Locking(_) => OwnerAction::LockGate,
        Owner::Voting { .. } => OwnerAction::ReadVotes,
        Owner::Publishing { outcome, votes, at, .. } => match at {
            At::Sampling(Point::Sealed) => OwnerAction::Seal,
            At::Sampling(_) => OwnerAction::Sample,
            At::Invalidating(_, _) => OwnerAction::Invalidate,
            At::Saving => OwnerAction::Save(saving(encoded(outcome.record))),
            At::Staging(_) => OwnerAction::Stage(
                completed_bytes(outcome.saving(votes), outcome.record),
            ),
            At::Removing => OwnerAction::RemoveMarker,
            At::Committing => OwnerAction::Commit,
        },
        Owner::Failing { .. } => OwnerAction::Invalidate,
        Owner::Reporting { invalidated, text, .. } => OwnerAction::PublishFailure {
            saved: if invalidated {
                Saved::No
            } else {
                Saved::Unknown
            },
            detail: failure_bytes(invalidated, text),
        },
        Owner::Discarding { .. } => OwnerAction::DiscardMarker,
        Owner::Unlocking { gate, .. } => if gate {
            OwnerAction::UnlockGate
        } else {
            OwnerAction::UnlockActive
        },
        Owner::Delivering { code, .. } => OwnerAction::Deliver(code),
        Owner::Finished { .. } => OwnerAction::Finish,
    }
}

/// The failure of an owner whose child left `child`.
pub open spec fn child_failed(child: i32, error: Seq<CauseView>) -> OwnerView {
    Owner::Failing {
        error: in_context(
            "child already completed with exit code "@ + signed_decimal(child as int),
            error,
        ),
    }
}

/// Writing what waiters will read, after `point`.
pub open spec fn to_stage(outcome: OutcomeView, child: i32, votes: Seq<u8>, point: Point) -> OwnerView {
    if outcome.record.completed < 0 {
        child_failed(child, message(RecordError::BeforeEpoch.says()))
    } else {
        Owner::Publishing { outcome, child, votes, at: At::Staging(point) }
    }
}

/// The failure to save a result.
pub open spec fn unsaved(path: Seq<char>, error: Seq<CauseView>) -> Seq<CauseView> {
    in_context("could not save result "@ + path, error)
}

/// What follows a look for signals at `point`, which changed the outcome or
/// not. `path` is the saved result as it is to be shown.
pub open spec fn past(
    outcome: OutcomeView,
    child: i32,
    votes: Seq<u8>,
    point: Point,
    changed: bool,
    path: Seq<char>,
) -> OwnerView {
    match point {
        Point::BeforeSave => if outcome.saving(votes) != Saving::Saved {
            Owner::Publishing { outcome, child, votes, at: At::Sampling(Point::BeforeStage) }
        } else if outcome.record.completed < 0 {
            child_failed(child, unsaved(path, message(RecordError::BeforeEpoch.says())))
        } else {
            Owner::Publishing { outcome, child, votes, at: At::Saving }
        },
        Point::BeforeStage => to_stage(outcome, child, votes, point),
        Point::AfterStage => if changed {
            to_stage(outcome, child, votes, point)
        } else {
            Owner::Publishing { outcome, child, votes, at: At::Removing }
        },
        Point::Sealed => if changed {
            to_stage(outcome, child, votes, point)
        } else {
            Owner::Publishing { outcome, child, votes, at: At::Committing }
        },
    }
}

/// What follows a completed step of the publication.
pub open spec fn published_step(
    outcome: OutcomeView,
    child: i32,
    votes: Seq<u8>,
    at: At,
    path: Seq<char>,
) -> OwnerView {
    let moved = |at: At| Owner::Publishing { outcome, child, votes, at };
    match at {
        At::Sampling(_) => moved(at),
        At::Invalidating(point, changed) => past(outcome, child, votes, point, changed, path),
        At::Saving => moved(At::Sampling(Point::BeforeStage)),
        At::Staging(Point::BeforeSave) | At::Staging(Point::BeforeStage) => moved(
            At::Sampling(Point::AfterStage),
        ),
        At::Staging(Point::AfterStage) => moved(At::Removing),
        At::Staging(Point::Sealed) => moved(At::Committing),
        At::Removing => moved(At::Sampling(Point::Sealed)),
        At::Committing => Owner::Unlocking {
            end: Ok((outcome.record.code as i32, outcome.saving(votes))),
            gate: false,
        },
    }
}

/// The state of an owner after `event`. An event that does not answer the last
/// action changes nothing. `path` is the saved result as it is to be shown.
pub open spec fn owner_after(owner: OwnerView, event: OwnerEventView, path: Seq<char>) -> OwnerView {
    match (owner, event) {
        (Owner::Executing, OwnerEvent::Executed(execution)) => Owner::Locking(execution),
        (Owner::Locking(execution), OwnerEvent::Done(result)) => match (result, execution) {
            (Err(error), _) => Owner::Finished { line: None, result: Err(error) },
            (Ok(()), Ok(outcome)) => Owner::Voting { outcome, child: outcome.record.code as i32 },
            (Ok(()), Err(error)) => Owner::Failing { error },
        },
        (Owner::Voting { outcome, child }, OwnerEvent::Votes(Ok(votes))) => Owner::Publishing {
            outcome,
            child,
            votes,
            at: At::Sampling(Point::BeforeSave),
        },
        (Owner::Voting { child, .. }, OwnerEvent::Votes(Err(error))) => child_failed(child, error),
        (
            Owner::Publishing { outcome, child, votes, at: At::Sampling(point) },
            OwnerEvent::Signal(signal),
        ) => if signal == 0 {
            past(outcome, child, votes, point, false, path)
        } else {
            let next = outcome.interrupted(signal as int);
            Owner::Publishing {
                outcome: next,
                child,
                votes,
                at: At::Invalidating(point, next != outcome),
            }
        },
        (
            Owner::Publishing { outcome, child, votes, at: At::Removing },
            OwnerEvent::Removed(result),
        ) => match result {
            Ok(()) => published_step(outcome, child, votes, At::Removing, path),
            Err(error) => child_failed(
                child,
                in_context("remove completed execution marker"@, seq![error]),
            ),
        },
        (Owner::Publishing { at: At::Sampling(_), .. }, OwnerEvent::Done(_)) => owner,
        (Owner::Publishing { at: At::Removing, .. }, OwnerEvent::Done(_)) => owner,
        (Owner::Publishing { outcome, child, votes, at }, OwnerEvent::Done(result)) => match result {
            Ok(()) => published_step(outcome, child, votes, at, path),
            Err(error) => match at {
                At::Saving => child_failed(child, unsaved(path, error)),
                _ => child_failed(child, error),
            },
        },
        (Owner::Failing { error }, OwnerEvent::Done(Ok(()))) => Owner::Reporting {
            error,
            invalidated: true,
            text: rendered(error),
        },
        (Owner::Failing { error }, OwnerEvent::Done(Err(cleanup))) => Owner::Reporting {
            error,
            invalidated: false,
            text: rendered(error) + "; could not invalidate result: "@ + rendered(cleanup),
        },
        (Owner::Reporting { error, .. }, OwnerEvent::Done(Ok(()))) => Owner::Discarding { error },
        (Owner::Reporting { text, .. }, OwnerEvent::Done(Err(error))) => Owner::Finished {
            line: None,
            result: Err(in_context(text, error)),
        },
        (Owner::Discarding { error }, OwnerEvent::Done(_)) => Owner::Unlocking {
            end: Err(error),
            gate: false,
        },
        (Owner::Unlocking { .. }, OwnerEvent::Done(Err(error))) => Owner::Finished {
            line: None,
            result: Err(error),
        },
        (Owner::Unlocking { end, gate: false }, OwnerEvent::Done(Ok(()))) => Owner::Unlocking {
            end,
            gate: true,
        },
        (Owner::Unlocking { end: Ok((code, saving)), .. }, OwnerEvent::Done(Ok(()))) =>
            Owner::Delivering { code, saving },
        (Owner::Unlocking { end: Err(error), .. }, OwnerEvent::Done(Ok(()))) => Owner::Finished {
            line: None,
            result: Err(error),
        },
        (Owner::Delivering { code, saving }, OwnerEvent::Delivered { result, signal }) => {
            let (line, result) = reported(
                result,
                code,
                Saved::Execution(saving),
                Failure::Delivery,
                signal,
            );
            Owner::Finished { line: Some(line), result }
        },
        _ => owner,
    }
}

/// Whether the outcome of an owner can be written down whenever it has to be.
pub open spec fn owner_wf(owner: OwnerView) -> bool {
    match owner {
        Owner::Locking(Ok(outcome)) => {
            &&& outcome.record.storable()
            &&& i32::MIN <= outcome.record.code <= i32::MAX
        },
        Owner::Voting { outcome, .. } => {
            &&& outcome.record.storable()
            &&& i32::MIN <= outcome.record.code <= i32::MAX
        },
        Owner::Publishing { outcome, at, .. } => {
            &&& outcome.record.storable()
            &&& i32::MIN <= outcome.record.code <= i32::MAX
            &&& at is Saving || at is Staging ==> outcome.record.completed >= 0
        },
        _ => true,
    }
}

/// Whether an event is one that can happen: its outcome can be written down,
/// and `128 + signal` is an exit status.
pub open spec fn owner_event_wf(event: OwnerEventView) -> bool {
    match event {
        OwnerEvent::Executed(Ok(outcome)) => {
            &&& outcome.record.storable()
            &&& i32::MIN <= outcome.record.code <= i32::MAX
        },
        OwnerEvent::Signal(signal) => reportable(signal as int),
        OwnerEvent::Delivered { signal, .. } => reportable(signal as int),
        _ => true,
    }
}

fn fail_child(child: i32, error: Error) -> (next: OwnerState)
    ensures
        owner_view(next) == child_failed(child, error@),
{
    let mut context = "child already completed with exit code ".to_owned();
    context.append(signed_decimal_text(child).as_str());
    Owner::Failing { error: error.context(context.as_str()) }
}

fn stage_after(outcome: Outcome, child: i32, votes: Votes, point: Point) -> (next: OwnerState)
    ensures
        owner_view(next) == to_stage(outcome@, child, votes@, point),
{
    if outcome.record().completed.since_epoch() < 0 {
        fail_child(child, Error::new(RecordError::BeforeEpoch.text()))
    } else {
        Owner::Publishing { outcome, child, votes, at: At::Staging(point) }
    }
}

fn unsaved_error(path: &str, error: Error) -> (failure: Error)
    ensures
        failure@ == unsaved(path@, error@),
{
    let mut context = "could not save result ".to_owned();
    context.append(path);
    error.context(context.as_str())
}

fn go_past(
    outcome: Outcome,
    child: i32,
    votes: Votes,
    point: Point,
    changed: bool,
    path: &str,
) -> (next: OwnerState)
    ensures
        owner_view(next) == past(outcome@, child, votes@, point, changed, path@),
{
    match point {
        Point::BeforeSave => {
            if !matches!(Saving::of(&outcome, &votes), Saving::Saved) {
                Owner::Publishing { outcome, child, votes, at: At::Sampling(Point::BeforeStage) }
            } else if outcome.record().completed.since_epoch() < 0 {
                let error = Error::new(RecordError::BeforeEpoch.text());
                fail_child(child, unsaved_error(path, error))
            } else {
                Owner::Publishing { outcome, child, votes, at: At::Saving }
            }
        },
        Point::BeforeStage => stage_after(outcome, child, votes, point),
        Point::AfterStage => if changed {
            stage_after(outcome, child, votes, point)
        } else {
            Owner::Publishing { outcome, child, votes, at: At::Removing }
        },
        Point::Sealed => if changed {
            stage_after(outcome, child, votes, point)
        } else {
            Owner::Publishing { outcome, child, votes, at: At::Committing }
        },
    }
}

fn publish_step(outcome: Outcome, child: i32, votes: Votes, at: At, path: &str) -> (next: OwnerState)
    ensures
        owner_view(next) == published_step(outcome@, child, votes@, at, path@),
{
    let at = match at {
        At::Sampling(_) => at,
        At::Invalidating(point, changed) => {
            return go_past(outcome, child, votes, point, changed, path);
        },
        At::Saving => At::Sampling(Point::BeforeStage),
        At::Staging(Point::BeforeSave) | At::Staging(Point::BeforeStage) => At::Sampling(
            Point::AfterStage,
        ),
        At::Staging(Point::AfterStage) => At::Removing,
        At::Staging(Point::Sealed) => At::Committing,
        At::Removing => At::Sampling(Point::Sealed),
        At::Committing => {
            let saving = Saving::of(&outcome, &votes);
            return Owner::Unlocking { end: Ok((outcome.code(), saving)), gate: false };
        },
    };
    Owner::Publishing { outcome, child, votes, at }
}

/// Starts to own the execution of a command.
pub fn own() -> (owner: OwnerState)
    ensures
        owner_view(owner) == OwnerView::Executing,
        owner_wf(owner_view(owner)),
{
    Owner::Executing
}

impl Owner<Outcome, Votes, String, Error> {
    /// What the owner needs next.
    pub fn action(&self) -> (action: OwnerRequest)
        requires
            owner_wf(owner_view(*self)),
        ensures
            owner_action(action) == owner_wants(owner_view(*self)),
    {
        match self {
            Owner::Executing => OwnerAction::Execute,
            Owner::Locking(_) => OwnerAction::LockGate,
            Owner::Voting { .. } => OwnerAction::ReadVotes,
            Owner::Publishing { outcome, votes, at, .. } => match at {
                At::Sampling(Point::Sealed) => OwnerAction::Seal,
                At::Sampling(_) => OwnerAction::Sample,
                At::Invalidating(_, _) => OwnerAction::Invalidate,
                At::Saving => match store::save(outcome.record()) {
                    Ok(steps) => OwnerAction::Save(steps),
                    Err(_) => OwnerAction::Finish,
                },
                At::Staging(_) => {
                    let saving = Saving::of(outcome, votes);
                    match shared::completed_detail(saving, outcome.record()) {
                        Ok(bytes) => OwnerAction::Stage(bytes),
                        Err(_) => OwnerAction::Finish,
                    }
                },
                At::Removing => OwnerAction::RemoveMarker,
                // Only this final byte publishes success. Shared data is
                // temporary, so the commit byte needs process visibility, not
                // crash durability.
                At::Committing => OwnerAction::Commit,
            },
            Owner::Failing { .. } => OwnerAction::Invalidate,
            Owner::Reporting { invalidated, text, .. } => OwnerAction::PublishFailure {
                saved: Saved::after_failure(*invalidated),
                detail: shared::failure_detail(*invalidated, text.as_str()),
            },
            Owner::Discarding { .. } => OwnerAction::DiscardMarker,
            Owner::Unlocking { gate, .. } => if *gate {
                OwnerAction::UnlockGate
            } else {
                OwnerAction::UnlockActive
            },
            Owner::Delivering { code, .. } => OwnerAction::Deliver(*code),
            Owner::Finished { .. } => OwnerAction::Finish,
        }
    }

    /// The owner after the answer to its last action. `path` is the saved
    /// result as it is to be shown.
    pub fn step(self, event: OwnerAnswer, path: &str) -> (next: OwnerState)
        requires
            owner_wf(owner_view(self)),
            owner_event_wf(owner_event(event)),
        ensures
            owner_view(next) == owner_after(owner_view(self), owner_event(event), path@),
            owner_wf(owner_view(next)),
    {
        match (self, event) {
            (Owner::Executing, OwnerEvent::Executed(execution)) => Owner::Locking(execution),
            (Owner::Locking(execution), OwnerEvent::Done(result)) => match (result, execution) {
                (Err(error), _) => Owner::Finished { line: None, result: Err(error) },
                (Ok(()), Ok(outcome)) => {
                    let child = outcome.code();
                    Owner::Voting { outcome, child }
                },
                (Ok(()), Err(error)) => Owner::Failing { error },
            },
            (Owner::Voting { outcome, child }, OwnerEvent::Votes(Ok(votes))) => Owner::Publishing {
                outcome,
                child,
                votes,
                at: At::Sampling(Point::BeforeSave),
            },
            (Owner::Voting { child, .. }, OwnerEvent::Votes(Err(error))) => fail_child(
                child,
                error,
            ),
            (
                Owner::Publishing { outcome, child, votes, at: At::Sampling(point) },
                OwnerEvent::Signal(signal),
            ) => {
                if signal == 0 {
                    return go_past(outcome, child, votes, point, false, path);
                }
                let mut outcome = outcome;
                let changed = outcome.interrupt(signal);
                Owner::Publishing { outcome, child, votes, at: At::Invalidating(point, changed) }
            },
            (
                Owner::Publishing { outcome, child, votes, at: At::Removing },
                OwnerEvent::Removed(result),
            ) => match result {
                Ok(()) => publish_step(outcome, child, votes, At::Removing, path),
                Err(error) => {
                    let error = Error::from_io(error).context("remove completed execution marker");
                    fail_child(child, error)
                },
            },
            (Owner::Publishing { outcome, child, votes, at }, OwnerEvent::Done(result)) => {
                if matches!(at, At::Sampling(_)) || matches!(at, At::Removing) {
                    return Owner::Publishing { outcome, child, votes, at };
                }
                match result {
                    Ok(()) => publish_step(outcome, child, votes, at, path),
                    Err(error) => match at {
                        At::Saving => fail_child(child, unsaved_error(path, error)),
                        _ => fail_child(child, error),
                    },
                }
            },
            (Owner::Failing { error }, OwnerEvent::Done(result)) => {
                let mut text = error.render();
                let invalidated = result.is_ok();
                if let Err(cleanup) = result {
                    text.append("; could not invalidate result: ");
                    text.append(cleanup.render().as_str());
                }
                Owner::Reporting { error, invalidated, text }
            },
            (Owner::Reporting { error, text, .. }, OwnerEvent::Done(result)) => match result {
                Ok(()) => Owner::Discarding { error },
                Err(error) => Owner::Finished {
                    line: None,
                    result: Err(error.context(text.as_str())),
                },
            },
            (Owner::Discarding { error }, OwnerEvent::Done(_)) => Owner::Unlocking {
                end: Err(error),
                gate: false,
            },
            (Owner::Unlocking { end, gate }, OwnerEvent::Done(result)) => match result {
                Err(error) => Owner::Finished { line: None, result: Err(error) },
                Ok(()) => if !gate {
                    Owner::Unlocking { end, gate: true }
                } else {
                    match end {
                        Ok((code, saving)) => Owner::Delivering { code, saving },
                        Err(error) => Owner::Finished { line: None, result: Err(error) },
                    }
                },
            },
            (Owner::Delivering { code, saving }, OwnerEvent::Delivered { result, signal }) => {
                let (line, result) = report(
                    result,
                    code,
                    Saved::Execution(saving),
                    Failure::Delivery,
                    signal,
                );
                Owner::Finished { line: Some(line), result }
            },
            (owner, _) => owner,
        }
    }
}

/// Whether an event answers what an owner needs.
pub open spec fn answers_owner(action: OwnerRequest, event: OwnerAnswer) -> bool {
    match action {
        OwnerAction::Execute => event is Executed,
        OwnerAction::ReadVotes => event is Votes,
        OwnerAction::Sample | OwnerAction::Seal => event is Signal,
        OwnerAction::RemoveMarker => event is Removed,
        OwnerAction::Deliver(_) => event is Delivered,
        OwnerAction::Finish => false,
        _ => event is Done,
    }
}

/// An owner moves on with every answer to what it needs, and with nothing else;
/// it needs nothing more exactly when it is finished.
pub proof fn an_owner_moves_on_with_each_answer(
    owner: OwnerState,
    action: OwnerRequest,
    event: OwnerAnswer,
    path: &str,
    next: OwnerState,
)
    requires
        owner_wf(owner_view(owner)),
        call_ensures(Owner::<Outcome, Votes, String, Error>::action, (&owner,), action),
        call_ensures(Owner::<Outcome, Votes, String, Error>::step, (owner, event, path), next),
    ensures
        answers_owner(action, event) <==> owner_view(next) != owner_view(owner),
        action is Finish <==> owner is Finished,
{
}

/// What the command left is what its owner publishes: it takes the key again,
/// reads the votes, and begins with the outcome as it is and the exit code that
/// the child left. A command that left no outcome is a failure, with the very
/// reason.
pub proof fn an_owner_starts_from_what_the_command_left(
    owner: OwnerState,
    event: OwnerAnswer,
    path: &str,
    next: OwnerState,
)
    requires
        owner_wf(owner_view(owner)),
        call_ensures(Owner::<Outcome, Votes, String, Error>::step, (owner, event, path), next),
    ensures
        owner is Executing ==> (event matches OwnerEvent::Executed(Ok(outcome)) ==> (
        next matches Owner::Locking(Ok(kept)) && kept@ == outcome@)),
        owner is Executing ==> (event matches OwnerEvent::Executed(Err(error)) ==> (
        next matches Owner::Locking(Err(kept)) && kept@ == error@)),
        owner matches Owner::Locking(Ok(outcome)) ==> (event matches OwnerEvent::Done(Ok(_)) ==> (
        next matches Owner::Voting { outcome: kept, child } && kept@ == outcome@ && child
            == outcome@.record.code)),
        owner matches Owner::Locking(Err(error)) ==> (event matches OwnerEvent::Done(Ok(_)) ==> (
        next matches Owner::Failing { error: kept } && kept@ == error@)),
        owner matches Owner::Voting { outcome, child } ==> (event matches OwnerEvent::Votes(
            Ok(votes),
        ) ==> {
            &&& next matches Owner::Publishing { outcome: kept, child: left, votes: counted, at }
            &&& kept@ == outcome@ && left == child && counted@ == votes@
            &&& at == At::Sampling(Point::BeforeSave)
        }),
{
}

/// An owner that finds no signal before it saves, saves exactly what its
/// outcome and the votes ask for: a normal end whose exit code has a vote, in
/// full, and nothing else. What cannot be saved because its time lies before
/// the epoch is a failure.
pub proof fn an_owner_saves_what_was_voted_for(
    outcome: Outcome,
    child: i32,
    votes: Votes,
    path: &str,
    next: OwnerState,
)
    requires
        call_ensures(
            Owner::<Outcome, Votes, String, Error>::step,
            (
                Owner::Publishing { outcome, child, votes, at: At::Sampling(Point::BeforeSave) },
                OwnerEvent::Signal(0),
                path,
            ),
            next,
        ),
    ensures
        ({
            let is_saved = outcome@.reusable && 0 <= outcome@.record.code <= 255
                && votes@[outcome@.record.code] != 0;
            let is_early = outcome@.record.completed < 0;
            &&& is_saved && is_early <==> next is Failing
            &&& !(is_saved && is_early) ==> {
                &&& next matches Owner::Publishing { outcome: kept, child: left, votes: counted, at }
                &&& kept@ == outcome@ && left == child && counted@ == votes@
                &&& is_saved <==> at == At::Saving
                &&& !is_saved <==> at == At::Sampling(Point::BeforeStage)
            }
        }),
{
}

/// What an owner saves is the stored form of its record, written to a temporary
/// file that then takes the place of the saved result; what it stages for its
/// waiters is the saving status and the same stored form.
pub proof fn an_owner_saves_and_shares_its_record(
    outcome: Outcome,
    child: i32,
    votes: Votes,
    point: Point,
    saves: OwnerRequest,
    stages: OwnerRequest,
)
    requires
        outcome@.record.storable(),
        i32::MIN <= outcome@.record.code <= i32::MAX,
        outcome@.record.completed >= 0,
        call_ensures(
            Owner::<Outcome, Votes, String, Error>::action,
            (&Owner::Publishing { outcome, child, votes, at: At::Saving },),
            saves,
        ),
        call_ensures(
            Owner::<Outcome, Votes, String, Error>::action,
            (&Owner::Publishing { outcome, child, votes, at: At::Staging(point) },),
            stages,
        ),
    ensures
        saves matches OwnerAction::Save(steps) && steps@.len() == 4 && steps@[0] is CreateTemporary
            && steps@[2] is Sync && steps@[3] is Rename && (steps@[1] matches SaveStep::Write(bytes)
            && bytes@ == encoded(outcome@.record)),
        stages matches OwnerAction::Stage(bytes) && bytes@.len() > 0 && bytes@.skip(1) == encoded(
            outcome@.record,
        ) && {
            let is_saved = outcome@.reusable && 0 <= outcome@.record.code <= 255
                && votes@[outcome@.record.code] != 0;
            &&& bytes@[0] == 1 <==> is_saved
            &&& bytes@[0] == 2 <==> outcome@.reusable && !is_saved
            &&& bytes@[0] == 3 <==> !outcome@.reusable
        },
{
    let steps = saves->Save_0@;
    assert(owner_action(saves) == OwnerActionView::Save(save_steps(steps)));
    assert(save_steps(steps).len() == 4);
    assert(save_steps(steps)[0] == store::save_step(steps[0]));
    assert(save_steps(steps)[1] == store::save_step(steps[1]));
    assert(save_steps(steps)[2] == store::save_step(steps[2]));
    assert(save_steps(steps)[3] == store::save_step(steps[3]));
    assert(stages->Stage_0@.skip(1) =~= encoded(outcome@.record));
}

/// Every step of a publication that succeeds leads to the next, with the
/// outcome and the votes kept: after the save the result is staged, then the
/// marker is removed, the execution sealed and the result committed; what is
/// staged again after a signal goes on where it was.
pub proof fn a_publication_goes_on_to_its_commit(
    outcome: Outcome,
    child: i32,
    votes: Votes,
    at: At,
    event: OwnerAnswer,
    path: &str,
    next: OwnerState,
)
    requires
        at is Saving || at is Staging || at is Removing,
        at is Removing ==> event == OwnerAnswer::Removed(Ok(())),
        !(at is Removing) ==> event == OwnerAnswer::Done(Ok(())),
        call_ensures(
            Owner::<Outcome, Votes, String, Error>::step,
            (Owner::Publishing { outcome, child, votes, at }, event, path),
            next,
        ),
    ensures
        next matches Owner::Publishing { outcome: kept, child: left, votes: counted, at: after } && {
            &&& kept@ == outcome@ && left == child && counted@ == votes@
            &&& at is Saving ==> after == At::Sampling(Point::BeforeStage)
            &&& at == At::Staging(Point::BeforeStage) ==> after == At::Sampling(Point::AfterStage)
            &&& at == At::Staging(Point::AfterStage) ==> after == At::Removing
            &&& at is Removing ==> after == At::Sampling(Point::Sealed)
            &&& at == At::Staging(Point::Sealed) ==> after == At::Committing
        },
{
}

/// An owner that finds no signal goes on: it stages its result, removes its
/// marker, and commits.
pub proof fn without_a_signal_a_publication_goes_on(
    outcome: Outcome,
    child: i32,
    votes: Votes,
    point: Point,
    path: &str,
    next: OwnerState,
)
    requires
        outcome@.record.completed >= 0,
        !(point is BeforeSave),
        call_ensures(
            Owner::<Outcome, Votes, String, Error>::step,
            (
                Owner::Publishing { outcome, child, votes, at: At::Sampling(point) },
                OwnerEvent::Signal(0),
                path,
            ),
            next,
        ),
    ensures
        next matches Owner::Publishing { outcome: kept, child: left, votes: counted, at } && {
            &&& kept@ == outcome@ && left == child && counted@ == votes@
            &&& point is BeforeStage ==> at == At::Staging(point)
            &&& point is AfterStage ==> at == At::Removing
            &&& point is Sealed ==> at == At::Committing
        },
{
}

/// A signal that an owner finds takes over the exit code, makes the result one
/// that is not saved, and has the saved result removed first; the output stays
/// what it was.
pub proof fn a_signal_takes_over_a_publication(
    outcome: Outcome,
    child: i32,
    votes: Votes,
    point: Point,
    signal: i32,
    path: &str,
    next: OwnerState,
    action: OwnerRequest,
)
    requires
        reportable(signal as int),
        signal != 0,
        outcome@.record.storable(),
        call_ensures(
            Owner::<Outcome, Votes, String, Error>::step,
            (
                Owner::Publishing { outcome, child, votes, at: At::Sampling(point) },
                OwnerEvent::Signal(signal),
                path,
            ),
            next,
        ),
        call_ensures(Owner::<Outcome, Votes, String, Error>::action, (&next,), action),
    ensures
        action is Invalidate,
        next matches Owner::Publishing { outcome: kept, child: left, votes: counted, at } && {
            &&& left == child && counted@ == votes@
            &&& kept@.record.code == 128 + signal && !kept@.reusable
            &&& kept@.record.stdout == outcome@.record.stdout
            &&& kept@.record.stderr == outcome@.record.stderr
            &&& kept@.record.completed == outcome@.record.completed
            &&& at == At::Invalidating(
                point,
                outcome@.reusable || outcome@.record.code != 128 + signal,
            )
        },
{
    if !outcome@.reusable && outcome@.record.code == 128 + signal {
        assert(outcome@.interrupted(signal as int) =~= outcome@);
    }
}

/// Once the saved result is removed after a signal, the publication goes on
/// where it was: an interrupted result is never saved, and what was staged is
/// staged again exactly if the signal changed it.
pub proof fn an_interrupted_publication_goes_on(
    outcome: Outcome,
    child: i32,
    votes: Votes,
    point: Point,
    changed: bool,
    path: &str,
    next: OwnerState,
)
    requires
        !outcome@.reusable,
        outcome@.record.completed >= 0,
        call_ensures(
            Owner::<Outcome, Votes, String, Error>::step,
            (
                Owner::Publishing { outcome, child, votes, at: At::Invalidating(point, changed) },
                OwnerEvent::Done(Ok(())),
                path,
            ),
            next,
        ),
    ensures
        next matches Owner::Publishing { outcome: kept, child: left, votes: counted, at } && {
            &&& kept@ == outcome@ && left == child && counted@ == votes@
            &&& point is BeforeSave ==> at == At::Sampling(Point::BeforeStage)
            &&& point is BeforeStage ==> at == At::Staging(point)
            &&& point is AfterStage && changed ==> at == At::Staging(point)
            &&& point is AfterStage && !changed ==> at == At::Removing
            &&& point is Sealed && changed ==> at == At::Staging(point)
            &&& point is Sealed && !changed ==> at == At::Committing
        },
{
}

/// An owner that has committed ends with the exit code that it committed and
/// says of it what became of it: the very code and saving status that its
/// waiters read.
pub proof fn an_owner_delivers_what_it_committed(
    outcome: Outcome,
    child: i32,
    votes: Votes,
    path: &str,
    next: OwnerState,
)
    requires
        i32::MIN <= outcome@.record.code <= i32::MAX,
        call_ensures(
            Owner::<Outcome, Votes, String, Error>::step,
            (
                Owner::Publishing { outcome, child, votes, at: At::Committing },
                OwnerEvent::Done(Ok(())),
                path,
            ),
            next,
        ),
    ensures
        next matches Owner::Unlocking { end: Ok((code, saving)), gate } && {
            let is_saved = outcome@.reusable && 0 <= outcome@.record.code <= 255
                && votes@[outcome@.record.code] != 0;
            &&& !gate
            &&& code == outcome@.record.code
            &&& saving == Saving::Saved <==> is_saved
            &&& saving == Saving::Excluded <==> outcome@.reusable && !is_saved
            &&& saving == Saving::Interrupted <==> !outcome@.reusable
        },
{
}

/// An owner lets go of its file, then of the key, and then delivers, or fails
/// with the failure that it published. What it returns in the end is what its
/// delivery came to, reported for its exit code and saving status.
pub proof fn an_owner_lets_go_and_delivers(
    end: Result<(i32, Saving), Error>,
    path: &str,
    file_gone: OwnerState,
    key_gone: OwnerState,
    first: OwnerRequest,
    second: OwnerRequest,
)
    requires
        call_ensures(
            Owner::<Outcome, Votes, String, Error>::action,
            (&Owner::Unlocking { end, gate: false },),
            first,
        ),
        call_ensures(
            Owner::<Outcome, Votes, String, Error>::action,
            (&Owner::Unlocking { end, gate: true },),
            second,
        ),
        call_ensures(
            Owner::<Outcome, Votes, String, Error>::step,
            (Owner::Unlocking { end, gate: false }, OwnerEvent::Done(Ok(())), path),
            file_gone,
        ),
        call_ensures(
            Owner::<Outcome, Votes, String, Error>::step,
            (Owner::Unlocking { end, gate: true }, OwnerEvent::Done(Ok(())), path),
            key_gone,
        ),
    ensures
        first is UnlockActive,
        second is UnlockGate,
        file_gone matches Owner::Unlocking { end: kept, gate } && gate && (kept is Ok <==> end is Ok)
            && (end is Ok ==> kept->Ok_0 == end->Ok_0) && (end is Err ==> kept->Err_0@
            == end->Err_0@),
        end matches Ok((code, saving)) ==> key_gone == (OwnerState::Delivering { code, saving }),
        end matches Err(error) ==> (key_gone matches Owner::Finished { line, result } && line is None
            && result is Err && result->Err_0@ == error@),
{
}

/// What an owner returns after its delivery: the exit code that was delivered
/// if no signal came, that of a signal if one did, and the failure of a
/// delivery that failed otherwise than by a closed reader. With a closed reader
/// it returns the code that it committed.
pub proof fn an_owner_returns_what_its_delivery_came_to(
    code: i32,
    saving: Saving,
    result: Result<i32, Error>,
    signal: i32,
    path: &str,
    next: OwnerState,
    closed: bool,
)
    requires
        reportable(signal as int),
        result is Err ==> call_ensures(
            crate::domain::delivery::output_closed,
            (&result->Err_0,),
            closed,
        ),
        call_ensures(
            Owner::<Outcome, Votes, String, Error>::step,
            (Owner::Delivering { code, saving }, OwnerEvent::Delivered { result, signal }, path),
            next,
        ),
    ensures
        next matches Owner::Finished { line, result: returned } && {
            &&& returned is Err <==> result is Err && !closed
            &&& returned is Err ==> returned->Err_0@ == result->Err_0@
            &&& returned is Ok && signal != 0 ==> returned->Ok_0 == 128 + signal
            &&& returned is Ok && signal == 0 && result is Ok ==> returned->Ok_0 == result->Ok_0
            &&& returned is Ok && signal == 0 && result is Err ==> returned->Ok_0 == code
            &&& line is Some
            &&& returned is Err ==> line->0@ == "failed saved="@ + saving.says() + " reason="@
                + "delivery-failure"@
            &&& returned is Ok ==> line->0@ == (if signal != 0 || saving == Saving::Interrupted {
                "interrupted"@
            } else if result is Ok {
                "completed"@
            } else {
                "output-closed"@
            }) + " exit="@ + signed_decimal(returned->Ok_0 as int) + " saved="@ + saving.says()
        },
{
}

/// Whatever step of a publication fails, the owner fails with it, in front of
/// which stands the exit code that the child left; a save that fails also names
/// the file.
pub proof fn a_failed_step_fails_the_publication(
    owner: OwnerState,
    child: i32,
    event: OwnerAnswer,
    path: &str,
    next: OwnerState,
)
    requires
        owner_wf(owner_view(owner)),
        owner matches Owner::Voting { child: left, .. } ==> left == child,
        owner matches Owner::Publishing { child: left, .. } ==> left == child,
        call_ensures(Owner::<Outcome, Votes, String, Error>::step, (owner, event, path), next),
    ensures
        owner is Voting ==> (event matches OwnerEvent::Votes(Err(error)) ==> fails_after(
            next,
            child,
            error@,
        )),
        owner matches Owner::Publishing { at, .. } ==> (event matches OwnerEvent::Done(Err(error))
            ==> (at is Invalidating || at is Staging || at is Committing ==> fails_after(
            next,
            child,
            error@,
        )) && (at is Saving ==> fails_after(
            next,
            child,
            seq![CauseView::Message("could not save result "@ + path@)] + error@,
        ))),
        owner matches Owner::Publishing { at: At::Removing, .. } ==> (
        event matches OwnerEvent::Removed(Err(error)) ==> fails_after(
            next,
            child,
            seq![CauseView::Message("remove completed execution marker"@), error@],
        )),
        owner is Locking ==> (event matches OwnerEvent::Done(Err(error)) ==> ends_with(
            next,
            error@,
        )),
        owner is Unlocking ==> (event matches OwnerEvent::Done(Err(error)) ==> ends_with(
            next,
            error@,
        )),
{
    if let OwnerEvent::Removed(Err(error)) = event {
        assert(in_context("remove completed execution marker"@, seq![error@]) =~= seq![
            CauseView::Message("remove completed execution marker"@),
            error@,
        ]);
    }
}

/// Whether an owner is about to publish this failure, after a child that left
/// `child`.
pub open spec fn fails_after(owner: OwnerState, child: i32, error: Seq<CauseView>) -> bool {
    owner matches Owner::Failing { error: failure } && failure@ == seq![
        CauseView::Message(
            "child already completed with exit code "@ + signed_decimal(child as int),
        ),
    ] + error
}

/// Whether an owner has ended with this failure, without a word of its own.
pub open spec fn ends_with(owner: OwnerState, error: Seq<CauseView>) -> bool {
    owner matches Owner::Finished { line, result } && line is None && result is Err
        && result->Err_0@ == error
}

/// An owner that fails has the saved result removed, tells its waiters the
/// whole failure and whether that result is gone, removes its marker, and lets
/// go; what it returns is the failure.
pub proof fn a_failure_is_published_in_full(
    error: Error,
    removed: Result<(), Error>,
    path: &str,
    next: OwnerState,
    invalidates: OwnerRequest,
    publishes: OwnerRequest,
)
    requires
        call_ensures(
            Owner::<Outcome, Votes, String, Error>::action,
            (&Owner::Failing { error },),
            invalidates,
        ),
        call_ensures(
            Owner::<Outcome, Votes, String, Error>::step,
            (Owner::Failing { error }, OwnerEvent::Done(removed), path),
            next,
        ),
        call_ensures(Owner::<Outcome, Votes, String, Error>::action, (&next,), publishes),
    ensures
        invalidates is Invalidate,
        next matches Owner::Reporting { error: kept, .. } && kept@ == error@,
        publishes matches OwnerAction::PublishFailure { saved, detail } && {
            &&& removed is Ok <==> saved == Saved::No
            &&& removed is Err <==> saved == Saved::Unknown
            &&& removed is Ok ==> detail@ == seq![1u8] + vstd::utf8::encode_utf8(rendered(error@))
            &&& removed is Err ==> detail@ == seq![0u8] + vstd::utf8::encode_utf8(
                rendered(error@) + "; could not invalidate result: "@ + rendered(removed->Err_0@),
            )
        },
{
}

/// After a failure was published the marker goes, whether or not that works,
/// and the failure is kept; a failure that could not be published is returned
/// with what went wrong.
pub proof fn a_published_failure_is_returned(
    error: Error,
    invalidated: bool,
    text: String,
    published: Result<(), Error>,
    removed: Result<(), Error>,
    path: &str,
    after: OwnerState,
    discards: OwnerRequest,
    last: OwnerState,
)
    requires
        call_ensures(
            Owner::<Outcome, Votes, String, Error>::step,
            (Owner::Reporting { error, invalidated, text }, OwnerEvent::Done(published), path),
            after,
        ),
        call_ensures(
            Owner::<Outcome, Votes, String, Error>::action,
            (&Owner::Discarding { error },),
            discards,
        ),
        call_ensures(
            Owner::<Outcome, Votes, String, Error>::step,
            (Owner::Discarding { error }, OwnerEvent::Done(removed), path),
            last,
        ),
    ensures
        published is Ok ==> (after matches Owner::Discarding { error: kept } && kept@ == error@),
        published matches Err(why) ==> ends_with(
            after,
            seq![CauseView::Message(text@)] + why@,
        ),
        discards is DiscardMarker,
        last matches Owner::Unlocking { end: Err(kept), gate } && kept@ == error@ && !gate,
{
}

/// What an owner asks for where it looks for signals, removes its marker and
/// commits: it sets the seal with the last look, and only then.
pub proof fn the_seal_is_set_with_the_last_look(
    outcome: Outcome,
    child: i32,
    votes: Votes,
    point: Point,
    looks: OwnerRequest,
    removes: OwnerRequest,
    commits: OwnerRequest,
)
    requires
        outcome@.record.storable(),
        i32::MIN <= outcome@.record.code <= i32::MAX,
        call_ensures(
            Owner::<Outcome, Votes, String, Error>::action,
            (&Owner::Publishing { outcome, child, votes, at: At::Sampling(point) },),
            looks,
        ),
        call_ensures(
            Owner::<Outcome, Votes, String, Error>::action,
            (&Owner::Publishing { outcome, child, votes, at: At::Removing },),
            removes,
        ),
        call_ensures(
            Owner::<Outcome, Votes, String, Error>::action,
            (&Owner::Publishing { outcome, child, votes, at: At::Committing },),
            commits,
        ),
    ensures
        looks is Seal <==> point is Sealed,
        looks is Sample <==> !(point is Sealed),
        removes is RemoveMarker,
        commits is Commit,
{
}

/// An execution that nothing disturbs ends as its command did. Its owner runs
/// the command, takes the key, reads the votes, saves the result if it has a
/// vote, stages it, removes its marker, seals, commits, lets go of its file and
/// of the key, delivers, and returns the command's exit code, whatever it is.
pub proof fn an_undisturbed_owner_ends_as_its_command_did(
    outcome: OutcomeView,
    votes: Seq<u8>,
    path: Seq<char>,
)
    requires
        outcome.record.completed >= 0,
        i32::MIN <= outcome.record.code <= i32::MAX,
    ensures
        ({
            let step = |owner: OwnerView, event: OwnerEventView| owner_after(owner, event, path);
            let done = OwnerEventView::Done(Ok(()));
            let quiet = OwnerEventView::Signal(0);
            let code = outcome.record.code as i32;
            let is_saved = outcome.reusable && 0 <= code < votes.len() && votes[code as int] != 0;
            let locking = step(Owner::Executing, OwnerEvent::Executed(Ok(outcome)));
            let voting = step(locking, done);
            let sampling = step(voting, OwnerEvent::Votes(Ok(votes)));
            let decided = step(sampling, quiet);
            let saved = if is_saved {
                step(decided, done)
            } else {
                decided
            };
            let staging = step(saved, quiet);
            let staged = step(staging, done);
            let removing = step(staged, quiet);
            let sealing = step(removing, OwnerEvent::Removed(Ok(())));
            let committing = step(sealing, quiet);
            let committed = step(committing, done);
            let file_gone = step(committed, done);
            let delivering = step(file_gone, done);
            let end = step(delivering, OwnerEvent::Delivered { result: Ok(code), signal: 0 });
            &&& owner_wants(Owner::Executing) is Execute
            &&& owner_wants(locking) is LockGate
            &&& owner_wants(voting) is ReadVotes
            &&& owner_wants(sampling) is Sample
            &&& is_saved <==> owner_wants(decided) is Save
            &&& owner_wants(saved) is Sample
            &&& owner_wants(staging) is Stage
            &&& owner_wants(staged) is Sample
            &&& owner_wants(removing) is RemoveMarker
            &&& owner_wants(sealing) is Seal
            &&& owner_wants(committing) is Commit
            &&& owner_wants(committed) is UnlockActive
            &&& owner_wants(file_gone) is UnlockGate
            &&& owner_wants(delivering) == OwnerActionView::Deliver(code)
            &&& owner_wants(end) is Finish
            &&& end matches Owner::Finished { line: Some(_), result }
            &&& result == Ok::<i32, Seq<CauseView>>(code)
        }),
{
}

/// An owner starts by running the command.
pub proof fn an_owner_starts_with_the_command(owner: OwnerState, first: OwnerRequest)
    requires
        call_ensures(own, (), owner),
        call_ensures(Owner::<Outcome, Votes, String, Error>::action, (&owner,), first),
    ensures
        owner is Executing && first is Execute,
{
}

/// A result that completed before the epoch can be neither saved nor shared, so
/// its owner fails before it does either, and says so.
pub proof fn a_result_before_the_epoch_is_a_failure(
    outcome: Outcome,
    child: i32,
    votes: Votes,
    path: &str,
    saving: OwnerState,
    staging: OwnerState,
)
    requires
        outcome@.record.completed < 0,
        call_ensures(
            Owner::<Outcome, Votes, String, Error>::step,
            (
                Owner::Publishing { outcome, child, votes, at: At::Sampling(Point::BeforeSave) },
                OwnerEvent::Signal(0),
                path,
            ),
            saving,
        ),
        call_ensures(
            Owner::<Outcome, Votes, String, Error>::step,
            (
                Owner::Publishing { outcome, child, votes, at: At::Sampling(Point::BeforeStage) },
                OwnerEvent::Signal(0),
                path,
            ),
            staging,
        ),
    ensures
        outcome@.reusable && 0 <= outcome@.record.code <= 255 && votes@[outcome@.record.code] != 0
            ==> fails_after(
            saving,
            child,
            seq![
                CauseView::Message("could not save result "@ + path@),
                CauseView::Message("second time provided was later than self"@),
            ],
        ),
        fails_after(
            staging,
            child,
            seq![CauseView::Message("second time provided was later than self"@)],
        ),
{
    assert(unsaved(path@, message("second time provided was later than self"@)) =~= seq![
        CauseView::Message("could not save result "@ + path@),
        CauseView::Message("second time provided was later than self"@),
    ]);
}

} // verus!
