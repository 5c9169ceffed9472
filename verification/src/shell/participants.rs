//! All calls for one key together: callers, waiters, owners and cleanups that
//! share the key's lock file and the files of its executions, in any order and
//! with any of them dying at any moment.
//!
//! A lock belongs to a file, not to its name, and ends with the process that
//! holds it. A caller or a cleanup that has acquired the key's lock has found
//! the file that it locked still linked, so it acquires the lock of the linked
//! file. Whoever reads or writes votes holds that lock (see
//! [`nobody_votes_at_the_same_time`]), so each of those steps is taken as one.

use crate::domain::execution::{
    a_vote_only_adds, voted, with_vote, OutcomeView, Saving, CODES,
};
use crate::domain::policy::{Policy, Request};
use crate::error::{CauseView, ErrorKind};
use crate::shell::cleanup::{
    sweep_start, sweep_wants, swept, SweepAction, SweepAt, SweepEvent, SweepEventView, SweepView,
};
use crate::shell::owner::{
    owner_after, owner_wants, At, Owner, OwnerAction, OwnerEvent, OwnerEventView, OwnerView,
};
use crate::shell::sharing::{
    caller_after, caller_wants, joiner_after, Caller, CallerAction, CallerEvent, CallerEventView,
    CallerView, Entry, JoinEvent, JoinEventView, Joiner, JoinerView, Next, StartAt,
};
use crate::time::Duration;
use vstd::prelude::*;

verus! {

/// What a process is doing.
pub enum Role {
    Calling(CallerView),
    Joining(JoinerView),
    Owning(OwnerView),
    Sweeping(SweepView),
    /// It has ended, and its locks with it.
    Gone,
}

/// A process that deals with the key. Files are counted in the order in which
/// they were created.
pub struct Process {
    pub request: Request,
    /// The limit and the time of a cleanup.
    pub age: Option<Duration>,
    pub now: int,
    /// The key's lock file that it has open.
    pub lock: Option<int>,
    /// The execution's file that it has open.
    pub file: Option<int>,
    pub role: Role,
}

/// The file of an execution.
pub struct ActiveFile {
    /// Which process has locked it.
    pub holder: Option<int>,
    pub votes: Seq<u8>,
    /// Which processes have cast their vote in it.
    pub cast: Set<int>,
}

/// Everything that the calls for one key share.
pub struct KeyState {
    /// Which process has locked each of the lock files.
    pub gates: Seq<Option<int>>,
    /// The lock file that is linked.
    pub gate: Option<int>,
    pub files: Seq<ActiveFile>,
    /// The execution's file that is linked.
    pub active: Option<int>,
    pub processes: Seq<Process>,
    /// The execution's file and the saved result as they are to be shown.
    pub path: Seq<char>,
}

/// One step of a process. What a failed write leaves is `torn`, and `removed`
/// tells whether a marker that may stay is removed.
#[allow(inconsistent_fields)]
pub enum Move {
    Call { event: CallerEventView, torn: Seq<u8> },
    Join(JoinEventView),
    Own { event: OwnerEventView, removed: bool },
    Sweep(SweepEventView),
    /// What a caller decided to do.
    Turn,
    /// The process ends, of its own will or not.
    End,
}

impl KeyState {
    pub open spec fn has(self, p: int) -> bool {
        0 <= p < self.processes.len()
    }

    pub open spec fn policy(self, p: int) -> Policy {
        self.processes[p].request.policy()
    }

    /// The execution's file that `p` has open.
    pub open spec fn file(self, p: int) -> int {
        self.processes[p].file->0
    }

    pub open spec fn has_file(self, p: int) -> bool {
        self.processes[p].file is Some && 0 <= self.file(p) < self.files.len()
    }

    /// Whether `p` has the linked file open.
    pub open spec fn has_linked_file(self, p: int) -> bool {
        self.has_file(p) && self.active == self.processes[p].file
    }

    /// Whether `p` has locked the file that it has open.
    pub open spec fn holds_file(self, p: int) -> bool {
        self.has_file(p) && self.files[self.file(p)].holder == Some(p)
    }

    /// Whether the vote of `p` is in the file that it has open.
    pub open spec fn has_voted(self, p: int) -> bool {
        self.has_file(p) && self.files[self.file(p)].cast.contains(p)
    }

    /// Whether `p` has the linked lock file open.
    pub open spec fn has_linked_gate(self, p: int) -> bool {
        &&& self.processes[p].lock matches Some(lock)
        &&& 0 <= lock < self.gates.len()
        &&& self.gate == Some(lock)
    }

    /// Whether `p` holds the key's lock.
    pub open spec fn holds_gate(self, p: int) -> bool {
        self.has_linked_gate(p) && self.gates[self.processes[p].lock->0] == Some(p)
    }

    pub open spec fn with_process(self, p: int, process: Process) -> KeyState {
        KeyState { processes: self.processes.update(p, process), ..self }
    }

    pub open spec fn with_role(self, p: int, role: Role) -> KeyState {
        self.with_process(p, Process { role, ..self.processes[p] })
    }

    pub open spec fn with_file(self, p: int, file: ActiveFile) -> KeyState {
        KeyState { files: self.files.update(self.file(p), file), ..self }
    }

    /// Whether the key's lock can be acquired: no file is linked, or nobody
    /// has locked the one that is.
    pub open spec fn gate_is_free(self) -> bool {
        self.gate matches Some(gate) ==> 0 <= gate < self.gates.len() && self.gates[gate] is None
    }

    /// `p` acquires the key's lock, creating its file if need be.
    pub open spec fn gate_acquired(self, p: int) -> KeyState {
        let gates = match self.gate {
            Some(gate) => self.gates.update(gate, Some(p)),
            None => self.gates.push(Some(p)),
        };
        let gate = match self.gate {
            Some(gate) => gate,
            None => self.gates.len() as int,
        };
        KeyState { gates, gate: Some(gate), ..self }.with_process(
            p,
            Process { lock: Some(gate), ..self.processes[p] },
        )
    }

    /// `p` locks the lock file that it has open.
    pub open spec fn gate_locked(self, p: int) -> KeyState {
        KeyState { gates: self.gates.update(self.processes[p].lock->0, Some(p)), ..self }
    }

    /// `p` releases the lock file that it has open.
    pub open spec fn gate_released(self, p: int) -> KeyState {
        if self.processes[p].lock is Some && 0 <= self.processes[p].lock->0 < self.gates.len()
            && self.gates[self.processes[p].lock->0] == Some(p) {
            KeyState { gates: self.gates.update(self.processes[p].lock->0, None), ..self }
        } else {
            self
        }
    }

    /// `p` locks the execution's file that it has open.
    pub open spec fn file_locked(self, p: int) -> KeyState {
        self.with_file(p, ActiveFile { holder: Some(p), ..self.files[self.file(p)] })
    }

    /// `p` releases the execution's file that it has open.
    pub open spec fn file_released(self, p: int) -> KeyState {
        if self.holds_file(p) {
            self.with_file(p, ActiveFile { holder: None, ..self.files[self.file(p)] })
        } else {
            self
        }
    }

    /// `p` has opened the linked file.
    pub open spec fn file_opened(self, p: int) -> KeyState {
        self.with_process(p, Process { file: self.active, ..self.processes[p] })
    }

    /// `p` has created a new file, and with it closed the one that it had open.
    pub open spec fn file_created(self, p: int) -> KeyState {
        let released = self.file_released(p);
        let new = released.files.len() as int;
        KeyState {
            files: released.files.push(
                ActiveFile { holder: None, votes: Seq::empty(), cast: Set::empty() },
            ),
            active: Some(new),
            ..released
        }.with_process(p, Process { file: Some(new), ..released.processes[p] })
    }

    /// The file that `p` has open holds these votes.
    pub open spec fn votes_written(self, p: int, votes: Seq<u8>) -> KeyState {
        self.with_file(p, ActiveFile { votes, ..self.files[self.file(p)] })
    }

    /// `p` has cast its vote in the file that it has open.
    pub open spec fn vote_cast(self, p: int) -> KeyState {
        let file = self.files[self.file(p)];
        self.with_file(
            p,
            ActiveFile {
                votes: with_vote(file.votes, self.policy(p)),
                cast: file.cast.insert(p),
                ..file
            },
        )
    }
}

/// Whether every vote in `votes` is also in `more`.
pub open spec fn keeps_votes(votes: Seq<u8>, more: Seq<u8>) -> bool {
    forall|code: int| #[trigger] voted(votes, code) ==> voted(more, code)
}

/// Whether opening the linked file can end like this.
pub open spec fn can_open(key: KeyState, result: Result<(), CauseView>) -> bool {
    match result {
        Ok(_) => key.active is Some,
        Err(CauseView::Io(ErrorKind::NotFound, _)) => key.active is None,
        Err(_) => true,
    }
}

/// Whether an attempt of `p` to lock the file that it has open can end like
/// this: it holds the lock exactly if nobody else does.
pub open spec fn can_try(key: KeyState, p: int, result: Result<bool, Seq<CauseView>>) -> bool {
    result matches Ok(held) ==> key.has_file(p) && (held <==> key.files[key.file(p)].holder is None)
}

/// Whether the caller `p` can get this answer.
pub open spec fn can_be_told(
    key: KeyState,
    p: int,
    action: CallerAction<Seq<u8>>,
    event: CallerEventView,
    torn: Seq<u8>,
) -> bool {
    match (action, event) {
        (CallerAction::AcquireGate, CallerEvent::Gate(result)) => result == Ok::<
            bool,
            Seq<CauseView>,
        >(true) ==> key.gate_is_free(),
        (CallerAction::Sample, CallerEvent::Signal(_)) => true,
        (CallerAction::OpenActive, CallerEvent::Opened(result)) => can_open(key, result),
        (CallerAction::TryActive, CallerEvent::Locked(result)) => can_try(key, p, result),
        (CallerAction::TryNew, CallerEvent::Locked(result)) => can_try(key, p, result),
        (CallerAction::RemoveAbandoned, CallerEvent::Filed(result)) => result is Ok ==> key.active
            is Some,
        (CallerAction::Load, CallerEvent::Loaded { .. }) => true,
        (CallerAction::Invalidate, CallerEvent::Done(_)) => true,
        (CallerAction::CreateActive, CallerEvent::Filed(result)) => result is Ok ==> key.active
            is None,
        (CallerAction::WriteNew(_), CallerEvent::Filed(_)) => true,
        (CallerAction::Vote, CallerEvent::Done(Ok(_))) => key.files[key.file(p)].votes.len()
            == CODES,
        (CallerAction::Vote, CallerEvent::Done(Err(_))) => keeps_votes(
            key.files[key.file(p)].votes,
            torn,
        ),
        (CallerAction::UnlockGate, CallerEvent::Done(_)) => true,
        (CallerAction::Announce { .. }, CallerEvent::Done(_)) => true,
        _ => false,
    }
}

/// What the caller `p` has changed with this answer.
pub open spec fn caller_changed(
    key: KeyState,
    p: int,
    action: CallerAction<Seq<u8>>,
    event: CallerEventView,
    torn: Seq<u8>,
) -> KeyState {
    match (action, event) {
        (CallerAction::AcquireGate, CallerEvent::Gate(Ok(true))) => key.gate_acquired(p),
        (CallerAction::OpenActive, CallerEvent::Opened(Ok(_))) => key.file_opened(p),
        (CallerAction::TryActive, CallerEvent::Locked(Ok(true))) => key.file_locked(p),
        (CallerAction::TryNew, CallerEvent::Locked(Ok(true))) => key.file_locked(p),
        (CallerAction::RemoveAbandoned, CallerEvent::Filed(Ok(_))) => KeyState {
            active: None,
            ..key
        },
        (CallerAction::CreateActive, CallerEvent::Filed(Ok(_))) => key.file_created(p),
        (CallerAction::WriteNew(bytes), CallerEvent::Filed(Ok(_))) => key.votes_written(
            p,
            bytes.take(CODES as int),
        ),
        (CallerAction::WriteNew(_), CallerEvent::Filed(Err(_))) => key.votes_written(p, torn),
        (CallerAction::Vote, CallerEvent::Done(Ok(_))) => key.vote_cast(p),
        (CallerAction::Vote, CallerEvent::Done(Err(_))) => key.votes_written(p, torn),
        (CallerAction::UnlockGate, CallerEvent::Done(Ok(_))) => key.gate_released(p),
        _ => key,
    }
}

/// Whether the owner `p` can get this answer.
pub open spec fn owner_can_be_told(key: KeyState, p: int, owner: OwnerView, event: OwnerEventView) -> bool {
    match (owner_wants(owner), event) {
        (OwnerAction::Execute, OwnerEvent::Executed(_)) => true,
        (OwnerAction::LockGate, OwnerEvent::Done(result)) => result is Ok ==> {
            &&& key.processes[p].lock matches Some(lock)
            &&& 0 <= lock < key.gates.len()
            &&& key.gates[lock] is None
        },
        (OwnerAction::ReadVotes, OwnerEvent::Votes(result)) => result matches Ok(votes) ==> votes
            == key.files[key.file(p)].votes,
        (OwnerAction::Sample, OwnerEvent::Signal(_)) => true,
        (OwnerAction::Seal, OwnerEvent::Signal(_)) => true,
        (OwnerAction::RemoveMarker, OwnerEvent::Removed(result)) => result is Ok ==> key.active
            is Some,
        (OwnerAction::Invalidate, OwnerEvent::Done(_)) => true,
        (OwnerAction::Save(_), OwnerEvent::Done(_)) => true,
        (OwnerAction::Stage(_), OwnerEvent::Done(_)) => true,
        (OwnerAction::Commit, OwnerEvent::Done(_)) => true,
        (OwnerAction::PublishFailure { .. }, OwnerEvent::Done(_)) => true,
        (OwnerAction::DiscardMarker, OwnerEvent::Done(_)) => true,
        (OwnerAction::UnlockActive, OwnerEvent::Done(_)) => true,
        (OwnerAction::UnlockGate, OwnerEvent::Done(_)) => true,
        (OwnerAction::Deliver(_), OwnerEvent::Delivered { .. }) => true,
        _ => false,
    }
}

/// What the owner `p` has changed with this answer.
pub open spec fn owner_changed(
    key: KeyState,
    p: int,
    owner: OwnerView,
    event: OwnerEventView,
    removed: bool,
) -> KeyState {
    match (owner_wants(owner), event) {
        (OwnerAction::LockGate, OwnerEvent::Done(Ok(_))) => key.gate_locked(p),
        (OwnerAction::RemoveMarker, OwnerEvent::Removed(Ok(_))) => KeyState { active: None, ..key },
        (OwnerAction::DiscardMarker, OwnerEvent::Done(_)) if removed => KeyState {
            active: None,
            ..key
        },
        (OwnerAction::UnlockActive, OwnerEvent::Done(Ok(_))) => key.file_released(p),
        (OwnerAction::UnlockGate, OwnerEvent::Done(Ok(_))) => key.gate_released(p),
        _ => key,
    }
}

/// Whether the waiter `p` can get this answer. It gets the lock only if nobody
/// else has it.
pub open spec fn joiner_can_be_told(
    key: KeyState,
    p: int,
    joiner: JoinerView,
    event: JoinEventView,
) -> bool {
    match (joiner, event) {
        (Joiner::Locking, JoinEvent::Locked(result)) => result == Ok::<bool, Seq<CauseView>>(true)
            ==> key.has_file(p) && key.files[key.file(p)].holder is None,
        (Joiner::Stopped, JoinEvent::Signal(_)) => true,
        (Joiner::Reading, JoinEvent::Read(_)) => true,
        (Joiner::Unlocking(_), JoinEvent::Unlocked(_)) => true,
        _ => false,
    }
}

/// What the waiter `p` has changed with this answer.
pub open spec fn joiner_changed(
    key: KeyState,
    p: int,
    joiner: JoinerView,
    event: JoinEventView,
) -> KeyState {
    match (joiner, event) {
        (Joiner::Locking, JoinEvent::Locked(Ok(true))) => key.file_locked(p),
        (Joiner::Unlocking(_), JoinEvent::Unlocked(Ok(_))) => key.file_released(p),
        _ => key,
    }
}

/// Whether the cleanup `p` can get this answer.
pub open spec fn sweep_can_be_told(
    key: KeyState,
    p: int,
    sweep: SweepView,
    event: SweepEventView,
) -> bool {
    match (sweep_wants(sweep), event) {
        (SweepAction::AcquireGate, SweepEvent::Gate(result)) => result == Ok::<
            bool,
            Seq<CauseView>,
        >(true) ==> key.gate_is_free(),
        (SweepAction::OpenActive, SweepEvent::Opened(result)) => can_open(key, result),
        (SweepAction::TryActive, SweepEvent::Locked(result)) => can_try(key, p, result),
        (SweepAction::RemoveAbandoned, SweepEvent::Done(result)) => result is Ok ==> key.active
            is Some,
        (SweepAction::Read, SweepEvent::Read(_)) => true,
        (SweepAction::ReadModified, SweepEvent::Time(_)) => true,
        (SweepAction::RemoveResult, SweepEvent::Done(_)) => true,
        (SweepAction::RemoveGate, SweepEvent::Done(_)) => true,
        _ => false,
    }
}

/// What the cleanup `p` has changed with this answer.
pub open spec fn sweep_changed(
    key: KeyState,
    p: int,
    sweep: SweepView,
    event: SweepEventView,
) -> KeyState {
    match (sweep_wants(sweep), event) {
        (SweepAction::AcquireGate, SweepEvent::Gate(Ok(true))) => key.gate_acquired(p),
        (SweepAction::OpenActive, SweepEvent::Opened(Ok(_))) => key.file_opened(p),
        (SweepAction::TryActive, SweepEvent::Locked(Ok(true))) => key.file_locked(p),
        (SweepAction::RemoveAbandoned, SweepEvent::Done(Ok(_))) => KeyState {
            active: None,
            ..key
        },
        (SweepAction::RemoveGate, SweepEvent::Done(Ok(_))) => KeyState { gate: None, ..key },
        _ => key,
    }
}

/// Whether `p` can make this move.
pub open spec fn can_move(key: KeyState, p: int, step: Move) -> bool {
    &&& key.has(p)
    &&& match (key.processes[p].role, step) {
        (Role::Calling(caller), Move::Call { event, torn }) => can_be_told(
            key,
            p,
            caller_wants(caller),
            event,
            torn,
        ),
        (Role::Joining(joiner), Move::Join(event)) => joiner_can_be_told(key, p, joiner, event),
        (Role::Owning(owner), Move::Own { event, .. }) => owner_can_be_told(key, p, owner, event),
        (Role::Sweeping(sweep), Move::Sweep(event)) => sweep_can_be_told(key, p, sweep, event),
        (Role::Calling(Caller::Finished(Next::Own)), Move::Turn) => true,
        (Role::Calling(Caller::Finished(Next::Join)), Move::Turn) => true,
        (_, Move::End) => true,
        _ => false,
    }
}

/// What there is after `p` has made this move.
pub open spec fn moved(key: KeyState, p: int, step: Move) -> KeyState {
    match (key.processes[p].role, step) {
        (Role::Calling(caller), Move::Call { event, torn }) => caller_changed(
            key,
            p,
            caller_wants(caller),
            event,
            torn,
        ).with_role(
            p,
            Role::Calling(caller_after(caller, event, &key.processes[p].request, key.path)),
        ),
        (Role::Joining(joiner), Move::Join(event)) => joiner_changed(
            key,
            p,
            joiner,
            event,
        ).with_role(p, Role::Joining(joiner_after(joiner, event))),
        (Role::Owning(owner), Move::Own { event, removed }) => owner_changed(
            key,
            p,
            owner,
            event,
            removed,
        ).with_role(p, Role::Owning(owner_after(owner, event, key.path))),
        (Role::Sweeping(sweep), Move::Sweep(event)) => sweep_changed(
            key,
            p,
            sweep,
            event,
        ).with_role(
            p,
            Role::Sweeping(swept(sweep, event, key.processes[p].age, key.processes[p].now)),
        ),
        (Role::Calling(Caller::Finished(Next::Own)), Move::Turn) => key.with_role(
            p,
            Role::Owning(Owner::Executing),
        ),
        (Role::Calling(Caller::Finished(Next::Join)), Move::Turn) => key.with_role(
            p,
            Role::Joining(Joiner::Locking),
        ),
        (_, Move::End) => key.file_released(p).gate_released(p).with_role(p, Role::Gone),
        _ => key,
    }
}

/// Whether `key` is a start: no file is there, and each process is about to
/// begin its call or its cleanup.
pub open spec fn is_start(key: KeyState) -> bool {
    &&& key.gates.len() == 0 && key.gate is None
    &&& key.files.len() == 0 && key.active is None
    &&& forall|p: int|
        key.has(p) ==> ((#[trigger] key.processes[p]).role == Role::Calling(Caller::AcquiringGate)
            || key.processes[p].role == Role::Sweeping(sweep_start()))
}

/// Whether each of these moves can be made, from `key` on.
pub open spec fn can_follow(key: KeyState, moves: Seq<(int, Move)>) -> bool
    decreases moves.len(),
{
    moves.len() > 0 ==> {
        let (p, step) = moves.last();
        &&& can_follow(key, moves.drop_last())
        &&& can_move(reached(key, moves.drop_last()), p, step)
    }
}

/// What there is after these moves, from `key` on.
pub open spec fn reached(key: KeyState, moves: Seq<(int, Move)>) -> KeyState
    decreases moves.len(),
{
    if moves.len() == 0 {
        key
    } else {
        let (p, step) = moves.last();
        moved(reached(key, moves.drop_last()), p, step)
    }
}

/// Whether `votes` allow every code that `policy` does.
pub open spec fn backs(votes: Seq<u8>, policy: Policy) -> bool {
    forall|code: int| #[trigger] policy.allows(code) ==> voted(votes, code)
}

/// Whether `votes` hold the vote of every process that cast one in `file`.
pub open spec fn holds_all_votes(key: KeyState, file: int, votes: Seq<u8>) -> bool {
    forall|q: int| #[trigger]
        key.files[file].cast.contains(q) ==> key.has(q) && backs(votes, key.policy(q))
}

/// Whether an owner that publishes has removed its marker.
pub open spec fn has_removed_marker(at: At) -> bool {
    match at {
        At::Sampling(point) => point is Sealed,
        At::Invalidating(point, _) => point is Sealed,
        At::Staging(point) => point is Sealed,
        At::Committing => true,
        At::Saving | At::Removing => false,
    }
}

/// How the locks and files of a caller agree with where it stands.
pub open spec fn caller_fits(key: KeyState, p: int, caller: CallerView) -> bool {
    match caller {
        Caller::AcquiringGate | Caller::Stopped => true,
        Caller::Opening => key.holds_gate(p),
        Caller::Probing => key.holds_gate(p) && key.has_linked_file(p),
        Caller::Removing => key.holds_gate(p) && key.has_linked_file(p) && key.holds_file(p),
        Caller::Loading => key.holds_gate(p) && key.active is None,
        Caller::Starting { at, .. } => {
            &&& key.holds_gate(p)
            &&& match at {
                StartAt::Invalidating | StartAt::Creating => key.active is None,
                StartAt::Locking => key.has_linked_file(p) && key.files[key.file(p)].cast
                    == Set::<int>::empty(),
                StartAt::Writing => key.has_linked_file(p) && key.files[key.file(p)].cast
                    == Set::<int>::empty() && key.holds_file(p),
            }
        },
        Caller::Entering { entry, at, .. } => {
            &&& !(at is Announcing) ==> key.holds_gate(p)
            &&& match entry {
                Entry::Join => key.has_file(p) && (!(at is Voting) ==> key.has_voted(p)),
                Entry::Hit(_) => !(at is Voting),
                Entry::Run(_) => {
                    &&& key.has_linked_gate(p)
                    &&& key.has_linked_file(p) && key.holds_file(p)
                    &&& !(at is Voting) ==> key.has_voted(p)
                },
            }
        },
        Caller::Finished(Next::Join) => key.has_voted(p),
        Caller::Finished(Next::Own) => {
            &&& key.has_linked_gate(p)
            &&& key.has_linked_file(p) && key.holds_file(p) && key.has_voted(p)
        },
        Caller::Finished(_) => true,
    }
}

/// How the locks and files of an owner agree with where it stands.
pub open spec fn owner_fits(key: KeyState, p: int, owner: OwnerView) -> bool {
    match owner {
        Owner::Executing | Owner::Locking(_) => {
            &&& key.has_linked_gate(p)
            &&& key.has_linked_file(p) && key.holds_file(p) && key.has_voted(p)
        },
        Owner::Voting { .. } => {
            &&& key.holds_gate(p)
            &&& key.has_linked_file(p) && key.holds_file(p) && key.has_voted(p)
        },
        Owner::Publishing { votes, at, .. } => {
            &&& key.holds_gate(p)
            &&& key.holds_file(p) && key.has_voted(p)
            &&& if has_removed_marker(at) {
                key.active is None
            } else {
                key.has_linked_file(p)
            }
            &&& holds_all_votes(key, key.file(p), votes)
        },
        Owner::Failing { .. } | Owner::Reporting { .. } | Owner::Discarding { .. } => {
            &&& key.holds_gate(p)
            &&& key.holds_file(p)
            &&& key.active is None || key.has_linked_file(p)
        },
        Owner::Unlocking { .. } | Owner::Delivering { .. } | Owner::Finished { .. } => true,
    }
}

/// How the locks and files of a cleanup agree with where it stands.
pub open spec fn sweep_fits(key: KeyState, p: int, sweep: SweepView) -> bool {
    match sweep.at {
        SweepAt::Opening => key.holds_gate(p),
        SweepAt::Probing => key.holds_gate(p) && key.has_linked_file(p),
        SweepAt::Reclaiming => key.holds_gate(p) && key.has_linked_file(p) && key.holds_file(p),
        SweepAt::Reading | SweepAt::Dating | SweepAt::RemovingResult | SweepAt::RemovingGate =>
            key.holds_gate(p) && key.active is None,
        _ => true,
    }
}

/// How the locks and files of a process agree with where it stands.
pub open spec fn fits(key: KeyState, p: int) -> bool {
    match key.processes[p].role {
        Role::Calling(caller) => caller_fits(key, p, caller),
        Role::Joining(_) => key.has_voted(p),
        Role::Owning(owner) => owner_fits(key, p, owner),
        Role::Sweeping(sweep) => sweep_fits(key, p, sweep),
        Role::Gone => true,
    }
}

/// Whether all processes agree with each other.
pub open spec fn agrees(key: KeyState) -> bool {
    &&& key.gate matches Some(gate) ==> 0 <= gate < key.gates.len()
    &&& key.active matches Some(file) ==> 0 <= file < key.files.len()
    &&& forall|file: int|
        0 <= file < key.files.len() ==> holds_all_votes(
            key,
            file,
            (#[trigger] key.files[file]).votes,
        )
    &&& forall|p: int| key.has(p) ==> #[trigger] fits(key, p)
}

proof fn a_vote_keeps_votes(votes: Seq<u8>, policy: Policy)
    requires
        votes.len() == CODES,
    ensures
        keeps_votes(votes, with_vote(votes, policy)),
        backs(with_vote(votes, policy), policy),
{
    assert forall|code: int| #[trigger] voted(votes, code) implies voted(
        with_vote(votes, policy),
        code,
    ) by {
        a_vote_only_adds(votes, policy, code);
    }
    assert forall|code: int| #[trigger] policy.allows(code) implies voted(
        with_vote(votes, policy),
        code,
    ) by {
        a_vote_only_adds(votes, policy, code);
    }
}

proof fn more_votes_back_as_much(votes: Seq<u8>, more: Seq<u8>)
    requires
        keeps_votes(votes, more),
    ensures
        forall|policy: Policy| #[trigger] backs(votes, policy) ==> backs(more, policy),
{
    assert forall|policy: Policy| #[trigger] backs(votes, policy) implies backs(more, policy) by {
        assert forall|code: int| #[trigger] policy.allows(code) implies voted(more, code) by {
            assert(voted(votes, code));
        }
    }
}

/// A move changes no votes but those in the file that its process has open,
/// and keeps every vote that was cast there.
proof fn a_move_keeps_votes(key: KeyState, p: int, step: Move)
    requires
        agrees(key),
        can_move(key, p, step),
    ensures
        ({
            let next = moved(key, p, step);
            forall|file: int|
                0 <= file < next.files.len() ==> holds_all_votes(
                    next,
                    file,
                    (#[trigger] next.files[file]).votes,
                )
        }),
{
    let next = moved(key, p, step);
    assert(fits(key, p));
    assert forall|file: int| 0 <= file < next.files.len() implies holds_all_votes(
        next,
        file,
        (#[trigger] next.files[file]).votes,
    ) by {
        assert forall|q: int| #[trigger] next.files[file].cast.contains(q) implies next.has(q)
            && backs(next.files[file].votes, next.policy(q)) by {
            if file < key.files.len() {
                assert(holds_all_votes(key, file, key.files[file].votes));
                let before = key.files[file].votes;
                if before.len() == CODES {
                    a_vote_keeps_votes(before, key.policy(p));
                    more_votes_back_as_much(before, with_vote(before, key.policy(p)));
                }
                if let Move::Call { torn, .. } = step {
                    if keeps_votes(before, torn) {
                        more_votes_back_as_much(before, torn);
                    }
                }
            }
        }
    }
}

/// Whether `q` still has what it relies on: nobody else takes its locks, while
/// it holds the key's lock nobody else links, removes or votes in an
/// execution's file, and what it has locked stays linked.
spec fn is_undisturbed(key: KeyState, next: KeyState, q: int) -> bool {
    &&& next.processes.len() == key.processes.len()
    &&& next.processes[q] == key.processes[q]
    &&& forall|r: int| key.has(r) ==> #[trigger] next.policy(r) == key.policy(r)
    &&& key.has_file(q) ==> next.has_file(q)
    &&& key.holds_file(q) ==> next.holds_file(q)
    &&& key.has_voted(q) ==> next.has_voted(q)
    &&& key.holds_gate(q) ==> {
        &&& next.holds_gate(q)
        &&& next.active == key.active
        &&& key.has_file(q) ==> next.files[next.file(q)].cast == key.files[key.file(q)].cast
    }
    &&& key.has_linked_file(q) && key.holds_file(q) ==> {
        &&& next.active == key.active
        &&& key.has_linked_gate(q) ==> next.has_linked_gate(q)
    }
}

proof fn the_undisturbed_fit(key: KeyState, next: KeyState, q: int)
    requires
        key.has(q),
        fits(key, q),
        is_undisturbed(key, next, q),
    ensures
        fits(next, q),
{
    if let Role::Owning(Owner::Publishing { votes, .. }) = key.processes[q].role {
        assert forall|r: int| #[trigger] next.files[next.file(q)].cast.contains(r) implies next.has(
            r,
        ) && backs(votes, next.policy(r)) by {
            assert(key.files[key.file(q)].cast.contains(r));
        }
    }
}

proof fn a_role_disturbs_nobody(key: KeyState, next: KeyState, p: int, role: Role, q: int)
    requires
        key.has(p),
        key.has(q),
        q != p,
        is_undisturbed(key, next, q),
    ensures
        is_undisturbed(key, next.with_role(p, role), q),
{
    let last = next.with_role(p, role);
    assert forall|r: int| key.has(r) implies #[trigger] last.policy(r) == key.policy(r) by {
        assert(next.policy(r) == key.policy(r));
    }
}

proof fn a_caller_disturbs_nobody(
    key: KeyState,
    p: int,
    caller: CallerView,
    event: CallerEventView,
    torn: Seq<u8>,
    q: int,
)
    requires
        agrees(key),
        key.has(p),
        key.has(q),
        q != p,
        caller_fits(key, p, caller),
        can_be_told(key, p, caller_wants(caller), event, torn),
    ensures
        is_undisturbed(key, caller_changed(key, p, caller_wants(caller), event, torn), q),
{
}

proof fn an_owner_disturbs_nobody(
    key: KeyState,
    p: int,
    owner: OwnerView,
    event: OwnerEventView,
    removed: bool,
    q: int,
)
    requires
        agrees(key),
        key.has(p),
        key.has(q),
        q != p,
        owner_fits(key, p, owner),
        owner_can_be_told(key, p, owner, event),
    ensures
        is_undisturbed(key, owner_changed(key, p, owner, event, removed), q),
{
}

proof fn a_waiter_disturbs_nobody(
    key: KeyState,
    p: int,
    joiner: JoinerView,
    event: JoinEventView,
    q: int,
)
    requires
        agrees(key),
        key.has(p),
        key.has(q),
        q != p,
        key.has_voted(p),
        joiner_can_be_told(key, p, joiner, event),
    ensures
        is_undisturbed(key, joiner_changed(key, p, joiner, event), q),
{
}

proof fn a_sweep_disturbs_nobody(
    key: KeyState,
    p: int,
    sweep: SweepView,
    event: SweepEventView,
    q: int,
)
    requires
        agrees(key),
        key.has(p),
        key.has(q),
        q != p,
        sweep_fits(key, p, sweep),
        sweep_can_be_told(key, p, sweep, event),
    ensures
        is_undisturbed(key, sweep_changed(key, p, sweep, event), q),
{
}

proof fn an_end_disturbs_nobody(key: KeyState, p: int, q: int)
    requires
        agrees(key),
        key.has(p),
        key.has(q),
        q != p,
    ensures
        is_undisturbed(key, key.file_released(p).gate_released(p), q),
{
}

proof fn a_move_fits_the_others(key: KeyState, p: int, step: Move, q: int)
    requires
        agrees(key),
        can_move(key, p, step),
        key.has(q),
        q != p,
    ensures
        fits(moved(key, p, step), q),
{
    assert(fits(key, p));
    assert(fits(key, q));
    let next = moved(key, p, step);
    match (key.processes[p].role, step) {
        (Role::Calling(caller), Move::Call { event, torn }) => {
            a_caller_disturbs_nobody(key, p, caller, event, torn, q);
            let changed = caller_changed(key, p, caller_wants(caller), event, torn);
            a_role_disturbs_nobody(
                key,
                changed,
                p,
                Role::Calling(caller_after(caller, event, &key.processes[p].request, key.path)),
                q,
            );
        },
        (Role::Joining(joiner), Move::Join(event)) => {
            a_waiter_disturbs_nobody(key, p, joiner, event, q);
            let changed = joiner_changed(key, p, joiner, event);
            a_role_disturbs_nobody(
                key,
                changed,
                p,
                Role::Joining(joiner_after(joiner, event)),
                q,
            );
        },
        (Role::Owning(owner), Move::Own { event, removed }) => {
            an_owner_disturbs_nobody(key, p, owner, event, removed, q);
            let changed = owner_changed(key, p, owner, event, removed);
            a_role_disturbs_nobody(
                key,
                changed,
                p,
                Role::Owning(owner_after(owner, event, key.path)),
                q,
            );
        },
        (Role::Sweeping(sweep), Move::Sweep(event)) => {
            a_sweep_disturbs_nobody(key, p, sweep, event, q);
            let changed = sweep_changed(key, p, sweep, event);
            a_role_disturbs_nobody(
                key,
                changed,
                p,
                Role::Sweeping(swept(sweep, event, key.processes[p].age, key.processes[p].now)),
                q,
            );
        },
        (_, Move::Turn) => {
            a_role_disturbs_nobody(key, key, p, Role::Owning(Owner::Executing), q);
            a_role_disturbs_nobody(key, key, p, Role::Joining(Joiner::Locking), q);
        },
        (_, Move::End) => {
            an_end_disturbs_nobody(key, p, q);
            let changed = key.file_released(p).gate_released(p);
            a_role_disturbs_nobody(key, changed, p, Role::Gone, q);
        },
        _ => {},
    }
    the_undisturbed_fit(key, next, q);
}

proof fn a_caller_fits_after(
    key: KeyState,
    p: int,
    caller: CallerView,
    event: CallerEventView,
    torn: Seq<u8>,
)
    requires
        agrees(key),
        key.has(p),
        caller_fits(key, p, caller),
        can_be_told(key, p, caller_wants(caller), event, torn),
    ensures
        ({
            let after = caller_after(caller, event, &key.processes[p].request, key.path);
            caller_fits(
                caller_changed(key, p, caller_wants(caller), event, torn).with_role(
                    p,
                    Role::Calling(after),
                ),
                p,
                after,
            )
        }),
{
}

proof fn an_owner_fits_after(
    key: KeyState,
    p: int,
    owner: OwnerView,
    event: OwnerEventView,
    removed: bool,
)
    requires
        agrees(key),
        key.has(p),
        owner_fits(key, p, owner),
        owner_can_be_told(key, p, owner, event),
    ensures
        ({
            let after = owner_after(owner, event, key.path);
            owner_fits(
                owner_changed(key, p, owner, event, removed).with_role(p, Role::Owning(after)),
                p,
                after,
            )
        }),
{
}

proof fn a_sweep_fits_after(key: KeyState, p: int, sweep: SweepView, event: SweepEventView)
    requires
        agrees(key),
        key.has(p),
        sweep_fits(key, p, sweep),
        sweep_can_be_told(key, p, sweep, event),
    ensures
        ({
            let after = swept(sweep, event, key.processes[p].age, key.processes[p].now);
            sweep_fits(
                sweep_changed(key, p, sweep, event).with_role(p, Role::Sweeping(after)),
                p,
                after,
            )
        }),
{
}

proof fn a_move_keeps_agreement(key: KeyState, p: int, step: Move)
    requires
        agrees(key),
        can_move(key, p, step),
    ensures
        agrees(moved(key, p, step)),
{
    let next = moved(key, p, step);
    assert(fits(key, p));
    a_move_keeps_votes(key, p, step);
    match (key.processes[p].role, step) {
        (Role::Calling(caller), Move::Call { event, torn }) => {
            a_caller_fits_after(key, p, caller, event, torn);
        },
        (Role::Owning(owner), Move::Own { event, removed }) => {
            an_owner_fits_after(key, p, owner, event, removed);
        },
        (Role::Sweeping(sweep), Move::Sweep(event)) => {
            a_sweep_fits_after(key, p, sweep, event);
        },
        _ => {},
    }
    assert(fits(next, p));
    assert forall|q: int| next.has(q) implies #[trigger] fits(next, q) by {
        if q != p {
            a_move_fits_the_others(key, p, step, q);
        }
    }
}

/// Whatever the processes do, in whatever order, and wherever any of them
/// ends, they agree with each other.
pub proof fn processes_stay_in_agreement(start: KeyState, moves: Seq<(int, Move)>)
    requires
        is_start(start),
        can_follow(start, moves),
    ensures
        agrees(reached(start, moves)),
    decreases moves.len(),
{
    if moves.len() == 0 {
        assert forall|p: int| start.has(p) implies #[trigger] fits(start, p) by {
            assert(start.processes[p].role == Role::Calling(Caller::AcquiringGate)
                || start.processes[p].role == Role::Sweeping(sweep_start()));
        }
    } else {
        let (p, step) = moves.last();
        processes_stay_in_agreement(start, moves.drop_last());
        a_move_keeps_agreement(reached(start, moves.drop_last()), p, step);
    }
}

/// Whether `p` executes the command, is about to, or is still publishing what
/// it left.
pub open spec fn is_executing(key: KeyState, p: int) -> bool {
    &&& key.has(p)
    &&& match key.processes[p].role {
        Role::Calling(Caller::Entering { entry: Entry::Run(_), .. }) => true,
        Role::Calling(Caller::Finished(Next::Own)) => true,
        Role::Owning(owner) => match owner {
            Owner::Unlocking { .. } | Owner::Delivering { .. } | Owner::Finished { .. } => false,
            _ => true,
        },
        _ => false,
    }
}

/// Simultaneous calls for one key never execute its command twice: at most one
/// of them is executing it, from its decision until its result is published.
pub proof fn one_execution_at_a_time(start: KeyState, moves: Seq<(int, Move)>, p: int, q: int)
    requires
        is_start(start),
        can_follow(start, moves),
        is_executing(reached(start, moves), p),
        is_executing(reached(start, moves), q),
    ensures
        p == q,
{
    processes_stay_in_agreement(start, moves);
    let key = reached(start, moves);
    assert(fits(key, p));
    assert(fits(key, q));
}

/// While the command is executed, every other caller that gets as far as
/// looking finds the execution in progress and takes part in it: it neither
/// looks at the saved result nor prepares an execution of its own, and its
/// attempt to lock the execution's file only ever finds it busy.
pub proof fn calls_share_the_execution_in_progress(
    start: KeyState,
    moves: Seq<(int, Move)>,
    p: int,
    q: int,
    caller: CallerView,
)
    requires
        is_start(start),
        can_follow(start, moves),
        is_executing(reached(start, moves), p),
        reached(start, moves).has(q),
        q != p,
        reached(start, moves).processes[q].role == Role::Calling(caller),
    ensures
        !(caller is Removing) && !(caller is Loading) && !(caller is Starting),
        !(caller matches Caller::Entering { entry: Entry::Run(_), .. }),
        caller is Probing ==> forall|held: bool, torn: Seq<u8>|
            #![trigger can_be_told(reached(start, moves), q, caller_wants(caller), CallerEvent::Locked(Ok(held)), torn)]
            can_be_told(
                reached(start, moves),
                q,
                caller_wants(caller),
                CallerEvent::Locked(Ok(held)),
                torn,
            ) ==> !held,
{
    processes_stay_in_agreement(start, moves);
    let key = reached(start, moves);
    assert(fits(key, p));
    assert(fits(key, q));
}

/// Whether `q` takes part in the execution of the file that `p` has open: it
/// owns that execution or has joined it.
pub open spec fn takes_part(key: KeyState, p: int, q: int) -> bool {
    &&& key.has(q)
    &&& key.processes[q].file == key.processes[p].file
    &&& match key.processes[q].role {
        Role::Owning(owner) => q == p,
        Role::Joining(_) => true,
        Role::Calling(Caller::Finished(Next::Join)) => true,
        Role::Calling(Caller::Entering { entry: Entry::Join, at, .. }) => !(at is Voting),
        _ => false,
    }
}

/// No vote is lost: the votes by which an owner decides whether to save hold
/// those of every process that takes part in its execution, and of every other
/// that had cast its vote there, and no further vote can be cast. So if any of
/// them allows the exit code of a result that no signal interrupted, it is
/// saved.
pub proof fn no_vote_is_lost(
    start: KeyState,
    moves: Seq<(int, Move)>,
    p: int,
    outcome: OutcomeView,
    child: i32,
    votes: Seq<u8>,
    at: At,
    q: int,
)
    requires
        is_start(start),
        can_follow(start, moves),
        reached(start, moves).has(p),
        reached(start, moves).has(q),
        reached(start, moves).processes[p].role == Role::Owning(
            Owner::Publishing { outcome, child, votes, at },
        ),
    ensures
        takes_part(reached(start, moves), p, q) ==> reached(start, moves).files[reached(
            start,
            moves,
        ).file(p)].cast.contains(q),
        reached(start, moves).files[reached(start, moves).file(p)].cast.contains(q) ==> backs(
            votes,
            reached(start, moves).policy(q),
        ),
        reached(start, moves).files[reached(start, moves).file(p)].cast.contains(q)
            && outcome.reusable && reached(start, moves).policy(q).allows(outcome.record.code)
            ==> outcome.saving(votes) == Saving::Saved,
        reached(start, moves).processes[q].role matches Role::Calling(caller) ==> !(caller_wants(
            caller,
        ) is Vote),
{
    processes_stay_in_agreement(start, moves);
    let key = reached(start, moves);
    assert(fits(key, p));
    assert(fits(key, q));
}

/// Whether `p` is about to read or write votes.
pub open spec fn is_at_the_votes(key: KeyState, p: int) -> bool {
    &&& key.has(p)
    &&& match key.processes[p].role {
        Role::Calling(caller) => caller_wants(caller) is Vote || caller_wants(caller) is WriteNew,
        Role::Owning(owner) => owner_wants(owner) is ReadVotes,
        _ => false,
    }
}

/// At most one process at a time reads or writes votes.
pub proof fn nobody_votes_at_the_same_time(
    start: KeyState,
    moves: Seq<(int, Move)>,
    p: int,
    q: int,
)
    requires
        is_start(start),
        can_follow(start, moves),
        is_at_the_votes(reached(start, moves), p),
        is_at_the_votes(reached(start, moves), q),
    ensures
        p == q,
{
    processes_stay_in_agreement(start, moves);
    let key = reached(start, moves);
    assert(fits(key, p));
    assert(fits(key, q));
}

/// A cleanup removes nothing of a key whose command is being executed: neither
/// the execution's file nor a saved result nor the key's lock file.
pub proof fn cleanup_leaves_an_execution_alone(
    start: KeyState,
    moves: Seq<(int, Move)>,
    p: int,
    q: int,
    sweep: SweepView,
)
    requires
        is_start(start),
        can_follow(start, moves),
        is_executing(reached(start, moves), p),
        reached(start, moves).has(q),
        reached(start, moves).processes[q].role == Role::Sweeping(sweep),
    ensures
        !(sweep_wants(sweep) is RemoveAbandoned),
        !(sweep_wants(sweep) is RemoveResult),
        !(sweep_wants(sweep) is RemoveGate),
{
    processes_stay_in_agreement(start, moves);
    let key = reached(start, moves);
    assert(fits(key, p));
    assert(fits(key, q));
}

} // verus!
