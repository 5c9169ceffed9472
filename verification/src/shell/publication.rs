//! What an owner leaves behind for later calls and for its waiters, whatever
//! happens on the way.

use crate::domain::execution::{reportable, OutcomeView, Saving};
use crate::domain::record::{encoded, RecordView};
use crate::domain::shared::{
    a_completed_result_is_read_back, completed_bytes, failure_bytes, parsed, PublishedView,
    COMPLETED, FAILED, PENDING,
};
use crate::error::CauseView;
use crate::shell::owner::{
    owner_after, owner_wants, At, Owner, OwnerAction, OwnerActionView, OwnerEvent, OwnerEventView,
    OwnerView, Point,
};
use crate::shell::store::{a_save_replaces_the_result, saved_by, Disk};
use crate::text::signed_decimal;
use crate::time::representable;
use vstd::prelude::*;

verus! {

/// The saved result for a key.
pub enum ResultFile {
    Absent,
    Holds(Seq<u8>),
    /// Removing it failed.
    Unknown,
}

/// What an owner has done so far.
pub struct World {
    /// How often the command has run.
    pub executions: nat,
    /// What the command left, if it ran to its end.
    pub ran: Option<OutcomeView>,
    /// The votes of all participants, once they are read.
    pub votes: Option<Seq<u8>>,
    pub result: ResultFile,
    /// The tag of the execution's file, if it is certain.
    pub tag: Option<u8>,
    /// What follows the tag, if it is certain.
    pub detail: Option<Seq<u8>>,
    /// The last signal that the owner found, 0 for none.
    pub signal: int,
    /// Whether it holds the key's lock, and the lock on the execution's file.
    pub gate: bool,
    pub file: bool,
}

/// An owner starts after the previous result was removed, with a new file that
/// it has locked and without the key's lock.
pub open spec fn beginning() -> World {
    World {
        executions: 0,
        ran: None,
        votes: None,
        result: ResultFile::Absent,
        tag: Some(PENDING),
        detail: Some(Seq::empty()),
        signal: 0,
        gate: false,
        file: true,
    }
}

/// What there is after an action with this answer. A save that fails leaves
/// the saved result as it was, as every unfinished one does.
pub open spec fn acted(world: World, action: OwnerActionView, event: OwnerEventView) -> World {
    match (action, event) {
        (OwnerAction::Execute, OwnerEvent::Executed(execution)) => World {
            executions: world.executions + 1,
            ran: match execution {
                Ok(outcome) => Some(outcome),
                Err(_) => None,
            },
            ..world
        },
        (OwnerAction::LockGate, OwnerEvent::Done(Ok(_))) => World { gate: true, ..world },
        (OwnerAction::UnlockActive, OwnerEvent::Done(Ok(_))) => World { file: false, ..world },
        (OwnerAction::UnlockGate, OwnerEvent::Done(Ok(_))) => World { gate: false, ..world },
        (OwnerAction::ReadVotes, OwnerEvent::Votes(Ok(votes))) => World {
            votes: Some(votes),
            ..world
        },
        (OwnerAction::Invalidate, OwnerEvent::Done(result)) => World {
            result: if result is Ok {
                ResultFile::Absent
            } else {
                ResultFile::Unknown
            },
            ..world
        },
        (OwnerAction::Save(steps), OwnerEvent::Done(Ok(_))) => World {
            result: match saved_by(Disk { saved: None, temporary: None }, steps).saved {
                Some(bytes) => ResultFile::Holds(bytes),
                None => ResultFile::Absent,
            },
            ..world
        },
        (OwnerAction::Stage(bytes), OwnerEvent::Done(result)) => World {
            detail: if result is Ok {
                Some(bytes)
            } else {
                None
            },
            ..world
        },
        (OwnerAction::Commit, OwnerEvent::Done(result)) => World {
            tag: if result is Ok {
                Some(COMPLETED)
            } else {
                None
            },
            ..world
        },
        (OwnerAction::PublishFailure { detail, .. }, OwnerEvent::Done(result)) => World {
            tag: if result is Ok {
                Some(FAILED)
            } else {
                None
            },
            detail: if result is Ok {
                Some(detail)
            } else {
                None
            },
            ..world
        },
        (OwnerAction::Sample, OwnerEvent::Signal(signal)) if signal != 0 => World {
            signal: signal as int,
            ..world
        },
        (OwnerAction::Seal, OwnerEvent::Signal(signal)) if signal != 0 => World {
            signal: signal as int,
            ..world
        },
        _ => world,
    }
}

/// An owner and what it has done after `events`, from its start. `path` is the
/// saved result as it is to be shown.
pub open spec fn owned(path: Seq<char>, events: Seq<OwnerEventView>) -> (OwnerView, World)
    decreases events.len(),
{
    if events.len() == 0 {
        (Owner::Executing, beginning())
    } else {
        let (owner, world) = owned(path, events.drop_last());
        (
            owner_after(owner, events.last(), path),
            acted(world, owner_wants(owner), events.last()),
        )
    }
}

/// What is saved for an outcome with these votes.
pub open spec fn expected(outcome: OutcomeView, votes: Seq<u8>) -> ResultFile {
    if outcome.saving(votes) == Saving::Saved {
        ResultFile::Holds(encoded(outcome.record))
    } else {
        ResultFile::Absent
    }
}

/// Whether `record` is one that a process can hold.
pub open spec fn is_real(record: RecordView) -> bool {
    &&& representable(record.completed)
    &&& i32::MIN <= record.code <= i32::MAX
    &&& record.stdout.len() <= usize::MAX
    &&& record.stderr.len() <= usize::MAX
}

/// Whether an event is one that can happen.
pub open spec fn can_happen(event: OwnerEventView) -> bool {
    match event {
        OwnerEvent::Executed(Ok(outcome)) => is_real(outcome.record),
        OwnerEvent::Signal(signal) => reportable(signal as int),
        _ => true,
    }
}

/// Whether `record` is what waiters read with this saving status, and what is
/// saved, if anything is.
pub open spec fn publishes(world: World, saving: Saving, record: RecordView) -> bool {
    &&& is_real(record)
    &&& is_of_the_command(world, record)
    &&& record.completed >= 0
    &&& world.tag == Some(COMPLETED)
    &&& world.detail == Some(completed_bytes(saving, record))
    &&& world.result == if saving == Saving::Saved {
        ResultFile::Holds(encoded(record))
    } else {
        ResultFile::Absent
    }
}

/// Whether a result with exit code `code` and this saving status was published.
pub open spec fn published(world: World, code: int, saving: Saving) -> bool {
    exists|record: RecordView| #[trigger] publishes(world, saving, record) && record.code == code
}

/// Whether the last signal, if there was one, decided the result.
pub open spec fn heeded(world: World, code: int, saving: Saving) -> bool {
    world.signal != 0 ==> code == 128 + world.signal && saving == Saving::Interrupted
}

/// Whether `record` is what the command left, apart from the exit code, which
/// a signal may replace.
pub open spec fn is_of_the_command(world: World, record: RecordView) -> bool {
    world.ran matches Some(ran) && record == (RecordView { code: record.code, ..ran.record })
}

/// Whether what is saved, if anything is, is what the command itself left
/// after a normal end, and some participant voted for it.
pub open spec fn saves_only_own_results(world: World) -> bool {
    world.result matches ResultFile::Holds(bytes) ==> {
        &&& world.ran matches Some(ran)
        &&& world.votes matches Some(votes)
        &&& ran.saving(votes) == Saving::Saved
        &&& bytes == encoded(ran.record)
    }
}

/// Which locks an owner holds where it stands.
pub open spec fn holds_its_locks(owner: OwnerView, world: World) -> bool {
    match owner {
        Owner::Executing | Owner::Locking(_) => !world.gate && world.file,
        Owner::Voting { .. } | Owner::Publishing { .. } | Owner::Failing { .. } | Owner::Reporting {
            ..
        } | Owner::Discarding { .. } => world.gate && world.file,
        Owner::Unlocking { gate, .. } => world.gate && (world.file <==> !gate),
        Owner::Delivering { .. } => !world.gate && !world.file,
        Owner::Finished { result, .. } => result is Ok ==> !world.gate && !world.file,
    }
}

/// How what an owner has done agrees with where it stands.
pub open spec fn consistent(owner: OwnerView, world: World) -> bool {
    &&& world.executions == if owner is Executing {
        0nat
    } else {
        1nat
    }
    &&& saves_only_own_results(world)
    &&& holds_its_locks(owner, world)
    &&& match owner {
        Owner::Executing | Owner::Locking(_) | Owner::Voting { .. } => {
            &&& owner matches Owner::Locking(Ok(outcome)) ==> is_real(outcome.record)
                && world.ran == Some(outcome)
            &&& owner matches Owner::Voting { outcome, .. } ==> is_real(outcome.record)
                && world.ran == Some(outcome)
            &&& world.result is Absent
            &&& world.tag == Some(PENDING)
            &&& world.signal == 0
        },
        Owner::Publishing { outcome, votes, at, .. } => {
            &&& is_real(outcome.record)
            &&& is_of_the_command(world, outcome.record)
            &&& world.votes == Some(votes)
            &&& world.tag == Some(PENDING)
            &&& world.signal == 0 ==> world.ran == Some(outcome)
            &&& world.signal != 0 ==> outcome.record.code == 128 + world.signal
                && !outcome.reusable
            &&& match at {
                At::Sampling(Point::BeforeSave) => world.result is Absent,
                At::Invalidating(point, changed) => {
                    &&& !outcome.reusable
                    &&& point is AfterStage || point is Sealed ==> outcome.record.completed >= 0
                    &&& !changed && (point is AfterStage || point is Sealed) ==> world.detail
                        == Some(completed_bytes(outcome.saving(votes), outcome.record))
                },
                At::Saving => world.result is Absent && outcome.saving(votes) == Saving::Saved,
                At::Sampling(Point::BeforeStage) => world.result == expected(outcome, votes),
                At::Staging(_) => {
                    &&& outcome.record.completed >= 0
                    &&& world.result == expected(outcome, votes)
                },
                At::Sampling(_) | At::Removing | At::Committing => {
                    &&& outcome.record.completed >= 0
                    &&& world.result == expected(outcome, votes)
                    &&& world.detail == Some(
                        completed_bytes(outcome.saving(votes), outcome.record),
                    )
                },
            }
        },
        Owner::Failing { .. } => world.tag != Some(COMPLETED),
        Owner::Reporting { invalidated, .. } => {
            &&& world.tag != Some(COMPLETED)
            &&& invalidated ==> world.result is Absent
        },
        Owner::Discarding { .. } | Owner::Unlocking { end: Err(_), .. } => shares_a_failure(world),
        Owner::Unlocking { end: Ok((code, saving)), .. } | Owner::Delivering { code, saving } => {
            &&& published(world, code as int, saving)
            &&& heeded(world, code as int, saving)
        },
        Owner::Finished { result, .. } => result is Ok ==> world.tag == Some(COMPLETED),
    }
}

/// Whether waiters read a failure, which says that the saved result is gone
/// only if it is.
pub open spec fn shares_a_failure(world: World) -> bool {
    &&& world.tag == Some(FAILED)
    &&& exists|invalidated: bool, text: Seq<char>|
        world.detail == Some(#[trigger] failure_bytes(invalidated, text)) && (invalidated
            ==> world.result is Absent)
}

proof fn a_step_stays_consistent(
    owner: OwnerView,
    world: World,
    event: OwnerEventView,
    path: Seq<char>,
)
    requires
        consistent(owner, world),
        can_happen(event),
    ensures
        consistent(owner_after(owner, event, path), acted(world, owner_wants(owner), event)),
{
    let next = acted(world, owner_wants(owner), event);
    if let Owner::Publishing { outcome, at: At::Saving, .. } = owner {
        a_save_replaces_the_result(Disk { saved: None, temporary: None }, encoded(outcome.record));
    }
    match (owner, event) {
        (Owner::Publishing { outcome, votes, at: At::Committing, .. }, OwnerEvent::Done(Ok(()))) => {
            assert(publishes(next, outcome.saving(votes), outcome.record));
        },
        (Owner::Reporting { invalidated, text, .. }, OwnerEvent::Done(Ok(()))) => {
            assert(next.detail == Some(failure_bytes(invalidated, text)));
        },
        (Owner::Unlocking { end: Ok((code, saving)), .. }, _) => {
            let record = choose|record: RecordView| #[trigger]
                publishes(world, saving, record) && record.code == code;
            assert(publishes(next, saving, record));
        },
        _ => {},
    }
}

/// Whatever happens, what an owner has done agrees with where it stands.
pub proof fn an_owner_stays_consistent(path: Seq<char>, events: Seq<OwnerEventView>)
    requires
        forall|i: int| 0 <= i < events.len() ==> can_happen(#[trigger] events[i]),
    ensures
        consistent(owned(path, events).0, owned(path, events).1),
    decreases events.len(),
{
    if events.len() > 0 {
        let before = events.drop_last();
        assert forall|i: int| 0 <= i < before.len() implies can_happen(#[trigger] before[i]) by {
            assert(before[i] == events[i]);
        }
        an_owner_stays_consistent(path, before);
        let (owner, world) = owned(path, before);
        a_step_stays_consistent(owner, world, events.last(), path);
    }
}

/// The command runs at most once, also when something fails afterwards.
pub proof fn the_command_is_never_repeated(path: Seq<char>, events: Seq<OwnerEventView>)
    requires
        forall|i: int| 0 <= i < events.len() ==> can_happen(#[trigger] events[i]),
    ensures
        owned(path, events).1.executions <= 1,
        owned(path, events).1.executions == 1 ==> owner_wants(owned(path, events).0)
            != OwnerActionView::Execute,
{
    an_owner_stays_consistent(path, events);
}

/// Until it commits, an owner publishes nothing: whatever it has staged, its
/// waiters read an unfinished execution.
pub proof fn nothing_is_visible_before_the_commit(path: Seq<char>, events: Seq<OwnerEventView>)
    requires
        forall|i: int| 0 <= i < events.len() ==> can_happen(#[trigger] events[i]),
        ({
            let owner = owned(path, events).0;
            owner is Executing || owner is Locking || owner is Voting || owner is Publishing
        }),
    ensures
        owned(path, events).1.tag matches Some(tag) && forall|detail: Seq<u8>|
            #![trigger parsed(seq![tag] + detail)]
            parsed(seq![tag] + detail) == Ok::<PublishedView, Seq<CauseView>>(
                PublishedView::Unfinished,
            ),
{
    an_owner_stays_consistent(path, events);
}

/// When an owner delivers its result, its waiters read that result: the same
/// exit code, the output of the command and the same saving status. And that
/// status is the truth: the result is saved for later calls if it says so, and
/// no result is if it does not.
pub proof fn waiters_get_what_the_owner_reports(
    path: Seq<char>,
    events: Seq<OwnerEventView>,
    code: i32,
    saving: Saving,
)
    requires
        forall|i: int| 0 <= i < events.len() ==> can_happen(#[trigger] events[i]),
        owned(path, events).0 == (OwnerView::Delivering { code, saving }),
    ensures
        published(owned(path, events).1, code as int, saving),
        0 <= code <= 255 ==> exists|record: RecordView|
            #![trigger publishes(owned(path, events).1, saving, record)]
            {
                &&& publishes(owned(path, events).1, saving, record)
                &&& record.code == code
                &&& parsed(seq![COMPLETED] + owned(path, events).1.detail->0) == Ok::<
                    PublishedView,
                    Seq<CauseView>,
                >(PublishedView::Completed { saving, record })
            },
{
    an_owner_stays_consistent(path, events);
    let world = owned(path, events).1;
    let record = choose|record: RecordView| #[trigger]
        publishes(world, saving, record) && record.code == code;
    if 0 <= code <= 255 {
        a_completed_result_is_read_back(saving, record);
        assert(publishes(owned(path, events).1, saving, record));
    }
}

/// A signal that an owner finds before it seals its execution is what all
/// participants get, and then nothing is saved.
pub proof fn a_signal_before_the_seal_reaches_everyone(
    path: Seq<char>,
    events: Seq<OwnerEventView>,
    code: i32,
    saving: Saving,
)
    requires
        forall|i: int| 0 <= i < events.len() ==> can_happen(#[trigger] events[i]),
        owned(path, events).0 == (OwnerView::Delivering { code, saving }),
        owned(path, events).1.signal != 0,
    ensures
        code == 128 + owned(path, events).1.signal,
        saving == Saving::Interrupted,
        owned(path, events).1.result is Absent,
{
    an_owner_stays_consistent(path, events);
}

/// An owner that fails publishes a failure, never a result, and tells its
/// waiters that the saved result is gone only if it is.
pub proof fn a_failure_is_never_shared_as_a_result(path: Seq<char>, events: Seq<OwnerEventView>)
    requires
        forall|i: int| 0 <= i < events.len() ==> can_happen(#[trigger] events[i]),
    ensures
        match owned(path, events).0 {
            Owner::Failing { .. } | Owner::Reporting { .. } => owned(path, events).1.tag != Some(
                COMPLETED,
            ),
            Owner::Discarding { .. } | Owner::Unlocking { end: Err(_), .. } => shares_a_failure(
                owned(path, events).1,
            ),
            _ => true,
        },
{
    an_owner_stays_consistent(path, events);
}

/// An owner that reports success has committed its result.
pub proof fn success_is_reported_only_after_the_commit(path: Seq<char>, events: Seq<OwnerEventView>)
    requires
        forall|i: int| 0 <= i < events.len() ==> can_happen(#[trigger] events[i]),
    ensures
        owned(path, events).0 matches Owner::Finished { result: Ok(_), .. } ==> owned(
            path,
            events,
        ).1.tag == Some(COMPLETED),
{
    an_owner_stays_consistent(path, events);
}

/// Whatever happens, nothing is ever saved but what the command itself left
/// after a normal end that no signal interrupted, and only if some participant
/// voted for its exit code. In particular no old result comes back, and
/// neither a command that could not start nor one that a signal ended is
/// saved.
pub proof fn only_allowed_results_are_saved(path: Seq<char>, events: Seq<OwnerEventView>)
    requires
        forall|i: int| 0 <= i < events.len() ==> can_happen(#[trigger] events[i]),
    ensures
        saves_only_own_results(owned(path, events).1),
        owned(path, events).1.ran is None ==> !(owned(path, events).1.result is Holds),
        owned(path, events).1.ran matches Some(ran) ==> (!ran.reusable ==> !(owned(
            path,
            events,
        ).1.result is Holds)),
{
    an_owner_stays_consistent(path, events);
}

/// An owner reads the votes, saves, shares and removes its marker while it
/// holds both the key's lock and that on its execution's file. It lets go of
/// the file before the key, and delivers holding neither. A caller votes only
/// while it holds the key's lock itself, which is why no vote is lost (see
/// [`crate::shell::participants::no_vote_is_lost`]).
pub proof fn an_owner_publishes_under_both_locks(path: Seq<char>, events: Seq<OwnerEventView>)
    requires
        forall|i: int| 0 <= i < events.len() ==> can_happen(#[trigger] events[i]),
    ensures
        holds_its_locks(owned(path, events).0, owned(path, events).1),
        match owner_wants(owned(path, events).0) {
            OwnerAction::ReadVotes | OwnerAction::Save(_) | OwnerAction::Stage(_)
            | OwnerAction::RemoveMarker | OwnerAction::Commit | OwnerAction::PublishFailure { .. } => {
                owned(path, events).1.gate && owned(path, events).1.file
            },
            OwnerAction::UnlockGate => !owned(path, events).1.file,
            OwnerAction::LockGate => !owned(path, events).1.gate && owned(path, events).1.file,
            OwnerAction::Deliver(_) => !owned(path, events).1.gate && !owned(path, events).1.file,
            _ => true,
        },
{
    an_owner_stays_consistent(path, events);
}

/// Whatever goes wrong once the command has ended, the failure says so first,
/// with the exit code that the command left.
pub proof fn a_later_failure_names_the_exit_code(
    owner: OwnerView,
    event: OwnerEventView,
    path: Seq<char>,
    child: i32,
    error: Seq<CauseView>,
)
    requires
        owner matches Owner::Voting { child: left, .. } ==> left == child,
        owner matches Owner::Publishing { child: left, .. } ==> left == child,
        owner is Voting || owner is Publishing,
        owner_after(owner, event, path) == (OwnerView::Failing { error }),
    ensures
        error.len() >= 1,
        error[0] == CauseView::Message(
            "child already completed with exit code "@ + signed_decimal(child as int),
        ),
        forall|cleanup: Result<(), Seq<CauseView>>|
            #![trigger owner_after(OwnerView::Failing { error }, OwnerEvent::Done(cleanup), path)]
            owner_after(
                OwnerView::Failing { error },
                OwnerEvent::Done(cleanup),
                path,
            ) matches Owner::Reporting { error: kept, .. } && kept == error,
{
}

} // verus!
