//! Locks on files: trying one, waiting for one, and acquiring the lock that
//! guards a key.

use crate::error::{in_context, message, CauseView, Error, ErrorKind, IoError};
use crate::shell::store::io_view;
use crate::text::between;
use vstd::prelude::*;

verus! {

/// What an attempt to lock without waiting means: whether it holds the lock.
pub open spec fn attempted(result: Result<(), CauseView>) -> Result<bool, Seq<CauseView>> {
    match result {
        Ok(()) => Ok(true),
        Err(CauseView::Io(ErrorKind::WouldBlock, _)) => Ok(false),
        Err(error) => Err(in_context("cache lock failed"@, seq![error])),
    }
}

/// Whether an attempt to lock a file without waiting holds the lock.
pub fn try_lock(result: Result<(), IoError>) -> (locked: Result<bool, Error>)
    ensures
        crate::error::viewed(locked) == attempted(io_view(result)),
{
    match result {
        Ok(()) => Ok(true),
        Err(error) => {
            if matches!(error.kind, ErrorKind::WouldBlock) {
                return Ok(false);
            }
            Err(Error::from_io(error).context("cache lock failed"))
        },
    }
}

/// Whether a lock was released.
pub fn unlock(result: Result<(), IoError>) -> (unlocked: Result<(), Error>)
    ensures
        match result {
            Ok(()) => unlocked is Ok,
            Err(error) => unlocked matches Err(failure) && failure@ == in_context(
                "release cache lock"@,
                seq![error@],
            ),
        },
{
    match result {
        Ok(()) => Ok(()),
        Err(error) => Err(Error::from_io(error).context("release cache lock")),
    }
}

/// Where waiting for a lock stands.
#[derive(Debug)]
pub enum Locking<E> {
    /// About to look for a signal.
    Checking,
    Trying,
    /// Pausing before the next attempt.
    Pausing,
    /// Whether the lock is held, or what went wrong.
    Finished(Result<bool, E>),
}

/// What waiting for a lock needs next.
#[derive(Clone, Copy, Debug, PartialEq, Eq, Structural)]
pub enum LockAction {
    /// Look which signal was received.
    Sample,
    /// Try to lock without waiting.
    Try,
    Pause,
    Finish,
}

/// The answer to an action.
#[derive(Debug)]
pub enum LockEvent<I> {
    Signal(i32),
    Tried(Result<(), I>),
    Paused,
}

pub open spec fn lock_event(event: LockEvent<IoError>) -> LockEvent<CauseView> {
    match event {
        LockEvent::Signal(signal) => LockEvent::Signal(signal),
        LockEvent::Tried(result) => LockEvent::Tried(io_view(result)),
        LockEvent::Paused => LockEvent::Paused,
    }
}

impl View for Locking<Error> {
    type V = Locking<Seq<CauseView>>;

    open spec fn view(&self) -> Locking<Seq<CauseView>> {
        match self {
            Locking::Checking => Locking::Checking,
            Locking::Trying => Locking::Trying,
            Locking::Pausing => Locking::Pausing,
            Locking::Finished(result) => Locking::Finished(crate::error::viewed(*result)),
        }
    }
}

/// Where each round of waiting for a lock starts. Only an interruptible wait
/// looks for signals.
pub open spec fn lock_round(interruptible: bool) -> Locking<Seq<CauseView>> {
    if interruptible {
        Locking::Checking
    } else {
        Locking::Trying
    }
}

/// Where waiting for a lock stands after `event`. An event that does not
/// answer the last action changes nothing.
pub open spec fn locked_on(
    interruptible: bool,
    locking: Locking<Seq<CauseView>>,
    event: LockEvent<CauseView>,
) -> Locking<Seq<CauseView>> {
    match (locking, event) {
        (Locking::Checking, LockEvent::Signal(signal)) => if signal != 0 {
            Locking::Finished(Ok(false))
        } else {
            Locking::Trying
        },
        (Locking::Trying, LockEvent::Tried(result)) => match attempted(result) {
            Ok(true) => Locking::Finished(Ok(true)),
            Ok(false) => Locking::Pausing,
            Err(error) => Locking::Finished(Err(error)),
        },
        (Locking::Pausing, LockEvent::Paused) => lock_round(interruptible),
        _ => locking,
    }
}

/// Starts to wait for a lock, until a signal arrives if `interruptible`.
pub fn lock(interruptible: bool) -> (locking: Locking<Error>)
    ensures
        locking@ == lock_round(interruptible),
{
    if interruptible {
        Locking::Checking
    } else {
        Locking::Trying
    }
}

impl Locking<Error> {
    pub open spec fn wants(self) -> LockAction {
        match self {
            Locking::Checking => LockAction::Sample,
            Locking::Trying => LockAction::Try,
            Locking::Pausing => LockAction::Pause,
            Locking::Finished(_) => LockAction::Finish,
        }
    }

    /// What waiting for the lock needs next.
    pub fn action(&self) -> (action: LockAction)
        ensures
            action == self.wants(),
    {
        match self {
            Locking::Checking => LockAction::Sample,
            Locking::Trying => LockAction::Try,
            Locking::Pausing => LockAction::Pause,
            Locking::Finished(_) => LockAction::Finish,
        }
    }

    /// Waiting for the lock after the answer to its last action.
    pub fn step(self, interruptible: bool, event: LockEvent<IoError>) -> (next: Locking<Error>)
        ensures
            next@ == locked_on(interruptible, self@, lock_event(event)),
    {
        match (self, event) {
            (Locking::Checking, LockEvent::Signal(signal)) => if signal != 0 {
                Locking::Finished(Ok(false))
            } else {
                Locking::Trying
            },
            (Locking::Trying, LockEvent::Tried(result)) => match try_lock(result) {
                Ok(true) => Locking::Finished(Ok(true)),
                Ok(false) => Locking::Pausing,
                Err(error) => Locking::Finished(Err(error)),
            },
            (Locking::Pausing, LockEvent::Paused) => lock(interruptible),
            (locking, _) => locking,
        }
    }
}

/// The state of waiting for a lock after `events`, from its start.
pub open spec fn locked_through(interruptible: bool, events: Seq<LockEvent<CauseView>>) -> Locking<
    Seq<CauseView>,
>
    decreases events.len(),
{
    if events.len() == 0 {
        lock_round(interruptible)
    } else {
        locked_on(
            interruptible,
            locked_through(interruptible, events.drop_last()),
            events.last(),
        )
    }
}

/// A wait that is not interruptible never looks for signals and never ends
/// without the lock, except by an error.
pub proof fn an_uninterruptible_wait_gets_the_lock(events: Seq<LockEvent<CauseView>>)
    ensures
        !(locked_through(false, events) is Checking),
        locked_through(false, events) != Locking::<Seq<CauseView>>::Finished(Ok(false)),
    decreases events.len(),
{
    if events.len() > 0 {
        an_uninterruptible_wait_gets_the_lock(events.drop_last());
    }
}

/// How often a key's lock is opened before giving up.
pub const GATE_ATTEMPTS: u32 = 100;

/// Where acquiring a key's lock stands.
#[derive(Debug)]
pub enum GateProgress<E> {
    Opening,
    Locking,
    /// Locked; about to look whether the file still has a name.
    Inspecting,
    /// Whether the lock is held, or what went wrong.
    Finished(Result<bool, E>),
}

/// What acquiring a key's lock needs next.
#[derive(Clone, Copy, Debug, PartialEq, Eq, Structural)]
pub enum GateAction {
    /// Open the key's lock file, creating it if need be.
    Open,
    /// Lock what was opened, waiting until a signal arrives if `wait`.
    Lock { wait: bool },
    /// Count the names that the locked file still has.
    Inspect,
    Finish,
}

/// The answer to an action.
#[derive(Debug)]
pub enum GateEvent<I, E> {
    Opened(Result<(), I>),
    Locked(Result<bool, E>),
    Inspected(Result<u64, I>),
}

/// Opens and locks a key's gate. Cleanup may unlink an idle `.lock` while
/// holding it, so a lock only counts while the locked inode is still linked;
/// otherwise a caller that opened the removed inode retries with a new one.
/// The link count comes from the descriptor alone, because some filesystems
/// report different identities for `fstat` and `stat` of the same file.
/// Ends without the lock when interrupted, or when busy without `wait`.
#[derive(Debug)]
pub struct Gate {
    pub wait: bool,
    /// How many further times the file may be opened.
    pub left: u32,
    pub progress: GateProgress<Error>,
}

pub struct GateView {
    pub wait: bool,
    pub left: int,
    pub progress: GateProgress<Seq<CauseView>>,
}

pub open spec fn gate_event(event: GateEvent<IoError, Error>) -> GateEvent<
    CauseView,
    Seq<CauseView>,
> {
    match event {
        GateEvent::Opened(result) => GateEvent::Opened(io_view(result)),
        GateEvent::Locked(result) => GateEvent::Locked(crate::error::viewed(result)),
        GateEvent::Inspected(result) => GateEvent::Inspected(io_view(result)),
    }
}

impl View for Gate {
    type V = GateView;

    open spec fn view(&self) -> GateView {
        GateView {
            wait: self.wait,
            left: self.left as int,
            progress: match self.progress {
                GateProgress::Opening => GateProgress::Opening,
                GateProgress::Locking => GateProgress::Locking,
                GateProgress::Inspecting => GateProgress::Inspecting,
                GateProgress::Finished(result) => GateProgress::Finished(
                    crate::error::viewed(result),
                ),
            },
        }
    }
}

/// The failure of a gate whose file never has a name.
pub open spec fn removed_gate(path: Seq<char>) -> Seq<CauseView> {
    message("key lock "@ + path + " kept being removed while being locked"@)
}

impl GateView {
    pub open spec fn moved(self, progress: GateProgress<Seq<CauseView>>) -> GateView {
        GateView { progress, ..self }
    }

    /// The state after `event`. An event that does not answer the last action
    /// changes nothing. `path` is the lock file as it is to be shown.
    pub open spec fn after(
        self,
        event: GateEvent<CauseView, Seq<CauseView>>,
        path: Seq<char>,
    ) -> GateView {
        match (self.progress, event) {
            (GateProgress::Opening, GateEvent::Opened(Ok(()))) => GateView {
                left: self.left - 1,
                progress: GateProgress::Locking,
                ..self
            },
            (GateProgress::Opening, GateEvent::Opened(Err(error))) => self.moved(
                GateProgress::Finished(Err(in_context("open key lock"@, seq![error]))),
            ),
            (GateProgress::Locking, GateEvent::Locked(Ok(true))) => self.moved(
                GateProgress::Inspecting,
            ),
            (GateProgress::Locking, GateEvent::Locked(result)) => self.moved(
                GateProgress::Finished(result),
            ),
            (GateProgress::Inspecting, GateEvent::Inspected(Ok(links))) => if links > 0 {
                self.moved(GateProgress::Finished(Ok(true)))
            } else if self.left > 0 {
                self.moved(GateProgress::Opening)
            } else {
                self.moved(GateProgress::Finished(Err(removed_gate(path))))
            },
            (GateProgress::Inspecting, GateEvent::Inspected(Err(error))) => self.moved(
                GateProgress::Finished(Err(in_context("inspect key lock"@, seq![error]))),
            ),
            _ => self,
        }
    }

    /// Every attempt that is under way or still to come is accounted for.
    pub open spec fn wf(self) -> bool {
        &&& 0 <= self.left <= GATE_ATTEMPTS
        &&& self.progress is Opening ==> self.left > 0
    }
}

/// The start of acquiring a gate.
pub open spec fn gate_start(wait: bool) -> GateView {
    GateView { wait, left: GATE_ATTEMPTS as int, progress: GateProgress::Opening }
}

/// Starts to acquire a key's gate.
pub fn acquire_gate(wait: bool) -> (gate: Gate)
    ensures
        gate@ == gate_start(wait),
        gate@.wf(),
{
    // Each retry needs a concurrent cleanup, so a bound only guards against a
    // filesystem that never reports a link, which must fail instead of spinning.
    Gate { wait, left: GATE_ATTEMPTS, progress: GateProgress::Opening }
}

impl Gate {
    pub open spec fn wants(self) -> GateAction {
        match self.progress {
            GateProgress::Opening => GateAction::Open,
            GateProgress::Locking => GateAction::Lock { wait: self.wait },
            GateProgress::Inspecting => GateAction::Inspect,
            GateProgress::Finished(_) => GateAction::Finish,
        }
    }

    /// What acquiring it needs next.
    pub fn action(&self) -> (action: GateAction)
        ensures
            action == self.wants(),
    {
        match &self.progress {
            GateProgress::Opening => GateAction::Open,
            GateProgress::Locking => GateAction::Lock { wait: self.wait },
            GateProgress::Inspecting => GateAction::Inspect,
            GateProgress::Finished(_) => GateAction::Finish,
        }
    }

    /// A gate after the answer to its last action. `path` is the lock file
    /// as it is to be shown.
    pub fn step(self, event: GateEvent<IoError, Error>, path: &str) -> (next: Gate)
        requires
            self@.wf(),
        ensures
            next@ == self@.after(gate_event(event), path@),
            next@.wf(),
    {
        let wait = self.wait;
        let mut left = self.left;
        let progress = match (self.progress, event) {
            (GateProgress::Opening, GateEvent::Opened(Ok(()))) => {
                left = left - 1;
                GateProgress::Locking
            },
            (GateProgress::Opening, GateEvent::Opened(Err(error))) => GateProgress::Finished(
                Err(Error::from_io(error).context("open key lock")),
            ),
            (GateProgress::Locking, GateEvent::Locked(Ok(true))) => GateProgress::Inspecting,
            (GateProgress::Locking, GateEvent::Locked(result)) => GateProgress::Finished(result),
            (GateProgress::Inspecting, GateEvent::Inspected(Ok(links))) => if links > 0 {
                GateProgress::Finished(Ok(true))
            } else if left > 0 {
                GateProgress::Opening
            } else {
                GateProgress::Finished(
                    Err(
                        Error::new(
                            between("key lock ", path, " kept being removed while being locked").as_str(),
                        ),
                    ),
                )
            },
            (GateProgress::Inspecting, GateEvent::Inspected(Err(error))) => GateProgress::Finished(
                Err(Error::from_io(error).context("inspect key lock")),
            ),
            (progress, _) => progress,
        };
        Gate { wait, left, progress }
    }
}

/// The state of acquiring a gate after `events`, from its start.
pub open spec fn gate_through(
    wait: bool,
    path: Seq<char>,
    events: Seq<GateEvent<CauseView, Seq<CauseView>>>,
) -> GateView
    decreases events.len(),
{
    if events.len() == 0 {
        gate_start(wait)
    } else {
        gate_through(wait, path, events.drop_last()).after(events.last(), path)
    }
}

/// How often a lock file was opened successfully in `events`.
pub open spec fn opens(
    wait: bool,
    path: Seq<char>,
    events: Seq<GateEvent<CauseView, Seq<CauseView>>>,
) -> nat
    decreases events.len(),
{
    if events.len() == 0 {
        0
    } else {
        let before = events.drop_last();
        opens(wait, path, before) + if gate_through(wait, path, before).progress is Opening
            && events.last() matches GateEvent::Opened(Ok(_)) {
            1nat
        } else {
            0nat
        }
    }
}

/// A gate is opened at most a fixed number of times, so a filesystem that
/// never reports a link cannot keep a caller busy for ever.
pub proof fn a_gate_gives_up(
    wait: bool,
    path: Seq<char>,
    events: Seq<GateEvent<CauseView, Seq<CauseView>>>,
)
    ensures
        gate_through(wait, path, events).wf(),
        opens(wait, path, events) + gate_through(wait, path, events).left == GATE_ATTEMPTS,
        opens(wait, path, events) <= GATE_ATTEMPTS,
    decreases events.len(),
{
    if events.len() > 0 {
        a_gate_gives_up(wait, path, events.drop_last());
    }
}

/// A gate counts as held only if its file still had a name when that was
/// looked at, after it was locked.
pub proof fn a_gate_counts_only_while_linked(
    gate: GateView,
    event: GateEvent<CauseView, Seq<CauseView>>,
    path: Seq<char>,
)
    requires
        !(gate.progress is Finished),
    ensures
        gate.after(event, path).progress == GateProgress::<Seq<CauseView>>::Finished(Ok(true))
            ==> gate.progress is Inspecting && (event matches GateEvent::Inspected(Ok(links))
            && links > 0),
        gate.after(event, path).progress is Inspecting && !(gate.progress is Inspecting)
            ==> event == GateEvent::<CauseView, Seq<CauseView>>::Locked(Ok(true)),
{
}

/// An attempt holds the lock exactly if it succeeded, and another holds it
/// exactly if the attempt would have blocked; everything else is an error.
pub proof fn an_attempt_holds_the_lock_or_another_does(
    result: Result<(), IoError>,
    locked: Result<bool, Error>,
)
    requires
        call_ensures(try_lock, (result,), locked),
    ensures
        locked == Ok::<bool, Error>(true) <==> result is Ok,
        locked == Ok::<bool, Error>(false) <==> result is Err && result->Err_0.kind
            == ErrorKind::WouldBlock,
        locked is Err ==> locked->Err_0@ == seq![
            CauseView::Message("cache lock failed"@),
            result->Err_0@,
        ],
{
    if locked is Err {
        assert(locked->Err_0@ =~= seq![CauseView::Message("cache lock failed"@), result->Err_0@]);
    }
}

/// A lock is released exactly if releasing it did not fail.
pub proof fn a_lock_is_released_or_it_is_an_error(
    result: Result<(), IoError>,
    unlocked: Result<(), Error>,
)
    requires
        call_ensures(unlock, (result,), unlocked),
    ensures
        unlocked is Ok <==> result is Ok,
        unlocked is Err ==> unlocked->Err_0@ == seq![
            CauseView::Message("release cache lock"@),
            result->Err_0@,
        ],
{
    if unlocked is Err {
        assert(unlocked->Err_0@ =~= seq![
            CauseView::Message("release cache lock"@),
            result->Err_0@,
        ]);
    }
}

/// Whether an event answers what waiting for a lock needs.
pub open spec fn answers_lock(action: LockAction, event: LockEvent<IoError>) -> bool {
    match action {
        LockAction::Sample => event is Signal,
        LockAction::Try => event is Tried,
        LockAction::Pause => event is Paused,
        LockAction::Finish => false,
    }
}

/// Waiting for a lock moves on with every answer to what it needs, and with
/// nothing else; it needs nothing more exactly when it is finished.
pub proof fn waiting_for_a_lock_moves_on_with_each_answer(
    locking: Locking<Error>,
    interruptible: bool,
    action: LockAction,
    event: LockEvent<IoError>,
    next: Locking<Error>,
)
    requires
        call_ensures(Locking::<Error>::action, (&locking,), action),
        call_ensures(Locking::<Error>::step, (locking, interruptible, event), next),
    ensures
        answers_lock(action, event) <==> next@ != locking@,
        action is Finish <==> locking is Finished,
{
}

/// A wait for a lock tries until it has it: a signal ends it without the lock,
/// but only if it may be interrupted; an attempt that succeeds ends it with the
/// lock; a lock that another holds is tried again after a pause.
pub proof fn a_wait_for_a_lock_ends_with_it_or_a_signal(
    locking: Locking<Error>,
    interruptible: bool,
    event: LockEvent<IoError>,
    next: Locking<Error>,
    start: Locking<Error>,
)
    requires
        call_ensures(lock, (interruptible,), start),
        call_ensures(Locking::<Error>::step, (locking, interruptible, event), next),
    ensures
        interruptible <==> start is Checking,
        !interruptible <==> start is Trying,
        locking is Checking ==> (event matches LockEvent::Signal(signal) ==> (signal == 0
            <==> next is Trying) && (signal != 0 <==> next == Locking::<Error>::Finished(
            Ok(false),
        ))),
        locking is Trying ==> (event matches LockEvent::Tried(Ok(_)) ==> next == Locking::<
            Error,
        >::Finished(Ok(true))),
        locking is Trying ==> (event matches LockEvent::Tried(Err(error)) ==> (error.kind
            == ErrorKind::WouldBlock <==> next is Pausing)),
        locking is Trying ==> (event matches LockEvent::Tried(Err(error)) ==> error.kind
            != ErrorKind::WouldBlock ==> (next matches Locking::Finished(Err(failure)) && failure@
            == seq![CauseView::Message("cache lock failed"@), error@])),
        locking is Pausing && event is Paused ==> next@ == start@,
{
    if let LockEvent::Tried(Err(error)) = event {
        assert(in_context("cache lock failed"@, seq![error@]) =~= seq![
            CauseView::Message("cache lock failed"@),
            error@,
        ]);
    }
}

/// Whether an event answers what acquiring a gate needs.
pub open spec fn answers_gate(action: GateAction, event: GateEvent<IoError, Error>) -> bool {
    match action {
        GateAction::Open => event is Opened,
        GateAction::Lock { .. } => event is Locked,
        GateAction::Inspect => event is Inspected,
        GateAction::Finish => false,
    }
}

/// Acquiring a gate moves on with every answer to what it needs, and with
/// nothing else; it needs nothing more exactly when it is finished. Whether it
/// waits never changes.
pub proof fn acquiring_a_gate_moves_on_with_each_answer(
    gate: Gate,
    action: GateAction,
    event: GateEvent<IoError, Error>,
    path: &str,
    next: Gate,
)
    requires
        call_ensures(Gate::action, (&gate,), action),
        call_ensures(Gate::step, (gate, event, path), next),
    ensures
        answers_gate(action, event) <==> next@.progress != gate@.progress,
        !answers_gate(action, event) ==> next@ == gate@,
        action is Finish <==> gate.progress is Finished,
        next.wait == gate.wait,
        action matches GateAction::Lock { wait } ==> wait == gate.wait,
{
}

/// A gate is acquired once its file is opened, locked and found to have a name.
/// A file without one is opened anew, as long as there are attempts left; a
/// lock that was not obtained ends it as it is, and so does a failure.
pub proof fn a_gate_is_acquired_once_its_file_has_a_name(
    gate: Gate,
    event: GateEvent<IoError, Error>,
    path: &str,
    next: Gate,
    wait: bool,
    start: Gate,
)
    requires
        call_ensures(acquire_gate, (wait,), start),
        call_ensures(Gate::step, (gate, event, path), next),
    ensures
        start.wait == wait && start.left == 100 && start.progress is Opening,
        gate.progress is Opening ==> (event matches GateEvent::Opened(Ok(_)) ==> next.progress is
            Locking && next.left == gate.left - 1),
        !(gate.progress is Opening) ==> next.left == gate.left,
        gate.progress is Locking && event == GateEvent::<IoError, Error>::Locked(Ok(true))
            ==> next.progress is Inspecting,
        gate.progress is Locking && event == GateEvent::<IoError, Error>::Locked(Ok(false))
            ==> next.progress == GateProgress::<Error>::Finished(Ok(false)),
        gate.progress is Locking ==> (event matches GateEvent::Locked(Err(error)) ==> (
        next.progress matches GateProgress::Finished(Err(kept)) && kept@ == error@)),
        gate.progress is Inspecting ==> (event matches GateEvent::Inspected(Ok(links)) ==> (links > 0
            <==> next.progress == GateProgress::<Error>::Finished(Ok(true))) && (links == 0
            && gate.left > 0 <==> next.progress is Opening) && (links == 0 && gate.left == 0 ==> (
        next.progress matches GateProgress::Finished(Err(error)) && error@ == seq![
            CauseView::Message(
                "key lock "@ + path@ + " kept being removed while being locked"@,
            ),
        ]))),
        gate.progress is Opening ==> (event matches GateEvent::Opened(Err(error)) ==> (
        next.progress matches GateProgress::Finished(Err(failure)) && failure@ == seq![
            CauseView::Message("open key lock"@),
            error@,
        ])),
        gate.progress is Inspecting ==> (event matches GateEvent::Inspected(Err(error)) ==> (
        next.progress matches GateProgress::Finished(Err(failure)) && failure@ == seq![
            CauseView::Message("inspect key lock"@),
            error@,
        ])),
{
    if let GateEvent::Opened(Err(error)) = event {
        assert(in_context("open key lock"@, seq![error@]) =~= seq![
            CauseView::Message("open key lock"@),
            error@,
        ]);
    }
    if let GateEvent::Inspected(Err(error)) = event {
        assert(in_context("inspect key lock"@, seq![error@]) =~= seq![
            CauseView::Message("inspect key lock"@),
            error@,
        ]);
    }
}

} // verus!
