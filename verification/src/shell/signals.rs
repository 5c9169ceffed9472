//! Signals to this process: the word that records them, and waiting for work
//! that a signal may cut short.

use crate::time::Duration;
use vstd::prelude::*;

verus! {

/// Set once an execution is published, when signals stop counting against it.
pub const SEALED: i32 = 0x1_0000;

/// Whether `signal` fits below the seal.
pub open spec fn is_signal(signal: int) -> bool {
    0 <= signal < SEALED
}

/// The state after `signal` arrived: it replaces an earlier one, and the seal
/// stays as it was.
pub fn arrived(state: i32, signal: i32) -> (next: i32)
    ensures
        next == (state & SEALED) | signal,
{
    (state & SEALED) | signal
}

/// The signal that a state holds, 0 for none.
pub fn received(state: i32) -> (signal: i32)
    ensures
        signal == state & !SEALED,
{
    state & !SEALED
}

/// The state with the seal set, and the signal that came before it. This
/// orders cancellation against the decision to publish: later signals affect
/// only this caller's delivery, even while publication finishes.
pub fn seal_execution(state: i32) -> (sealed: (i32, i32))
    ensures
        sealed == (state | SEALED, state & !SEALED),
{
    (state | SEALED, state & !SEALED)
}

/// Takes the signal that is still to be forwarded, 0 for none, so that each is
/// forwarded once.
pub fn take_pending(pending: &mut i32) -> (signal: i32)
    ensures
        signal == *old(pending),
        *final(pending) == 0,
{
    let signal = *pending;
    *pending = 0;
    signal
}

/// A signal is read back as it arrived, whether or not the execution is
/// sealed, and the seal survives every signal.
pub proof fn the_last_signal_is_received(state: i32, signal: i32)
    requires
        is_signal(signal as int),
    ensures
        ((state & SEALED) | signal) & !SEALED == signal,
        ((state & SEALED) | signal) & SEALED == state & SEALED,
{
    assert(((state & 0x1_0000) | signal) & !0x1_0000 == signal) by (bit_vector)
        requires
            0 <= signal < 0x1_0000,
    ;
    assert(((state & 0x1_0000) | signal) & 0x1_0000 == state & 0x1_0000) by (bit_vector)
        requires
            0 <= signal < 0x1_0000,
    ;
}

/// Sealing keeps the signal that is already there.
pub proof fn sealing_keeps_the_signal(state: i32)
    ensures
        (state | SEALED) & !SEALED == state & !SEALED,
        (state | SEALED) & SEALED == SEALED,
{
    assert((state | 0x1_0000) & !0x1_0000 == state & !0x1_0000) by (bit_vector);
    assert((state | 0x1_0000) & 0x1_0000 == 0x1_0000) by (bit_vector);
}

/// How a wait ended.
#[derive(Debug)]
pub enum Waited<T> {
    Done(T),
    Interrupted(i32),
    /// Every sender went away without sending.
    Closed,
}

/// Why nothing was received.
#[derive(Clone, Copy, Debug, PartialEq, Eq, Structural)]
pub enum Missed {
    Timeout,
    Disconnected,
}

/// Where a wait stands.
#[derive(Debug)]
pub enum Progress<T> {
    /// About to look for a signal.
    Checking,
    /// Receiving for one poll.
    Receiving,
    /// The work ended; about to look for a signal once more.
    Confirming(Waited<T>),
    /// A signal arrived; receiving for the grace.
    Lingering,
    /// The grace ran out; about to look which signal to report.
    Expired,
    Finished(Waited<T>),
}

/// What a wait needs next.
#[derive(Clone, Copy, Debug, PartialEq, Eq)]
pub enum WaitAction {
    /// Look which signal was received.
    Sample,
    /// Receive for at most this long.
    Receive(Duration),
    Finish,
}

/// The answer to an action.
#[derive(Debug)]
pub enum WaitEvent<T> {
    Signal(i32),
    Received(Result<T, Missed>),
}

/// A wait for work. A signal ends it at once, or leaves `grace` for the work
/// to complete, counted from when the wait sees the signal.
#[derive(Debug)]
pub struct Waiting<T> {
    pub grace: Option<Duration>,
    pub progress: Progress<T>,
}

/// What was received, unless the time ran out.
pub open spec fn settled<T>(received: Result<T, Missed>) -> Option<Waited<T>> {
    match received {
        Ok(value) => Some(Waited::Done(value)),
        Err(Missed::Timeout) => None,
        Err(Missed::Disconnected) => Some(Waited::Closed),
    }
}

fn settle<T>(received: Result<T, Missed>) -> (waited: Option<Waited<T>>)
    ensures
        waited == settled(received),
{
    match received {
        Ok(value) => Some(Waited::Done(value)),
        Err(Missed::Timeout) => None,
        Err(Missed::Disconnected) => Some(Waited::Closed),
    }
}

/// Where a wait stands after `event`. An event that does not answer the last
/// action changes nothing.
pub open spec fn waited_on<T>(
    grace: Option<Duration>,
    progress: Progress<T>,
    event: WaitEvent<T>,
) -> Progress<T> {
    match (progress, event) {
        (Progress::Checking, WaitEvent::Signal(signal)) => if signal == 0 {
            Progress::Receiving
        } else if grace is Some {
            Progress::Lingering
        } else {
            Progress::Finished(Waited::Interrupted(signal))
        },
        (Progress::Receiving, WaitEvent::Received(received)) => match settled(received) {
            None => Progress::Checking,
            Some(waited) => if grace is Some {
                Progress::Finished(waited)
            } else {
                Progress::Confirming(waited)
            },
        },
        (Progress::Confirming(waited), WaitEvent::Signal(signal)) => if signal == 0 {
            Progress::Finished(waited)
        } else {
            Progress::Finished(Waited::Interrupted(signal))
        },
        (Progress::Lingering, WaitEvent::Received(received)) => match settled(received) {
            None => Progress::Expired,
            Some(waited) => Progress::Finished(waited),
        },
        (Progress::Expired, WaitEvent::Signal(signal)) => Progress::Finished(
            Waited::Interrupted(signal),
        ),
        _ => progress,
    }
}

/// Waits unless a signal arrives first. A signal that arrives by the time the
/// work completes still wins, so a caller never reports a result with an exit
/// status that ignores it. The caller returns right after an interruption, so
/// a worker blocked on an output consumer that stopped reading must not
/// prevent cancellation or keep the process alive.
pub fn wait<T>() -> (waiting: Waiting<T>)
    ensures
        waiting == (Waiting::<T> { grace: None, progress: Progress::Checking }),
{
    Waiting { grace: None, progress: Progress::Checking }
}

/// Like [`wait`], but a signal still leaves `grace` for the work to complete,
/// counted from when the wait sees the signal. Completion within it wins, for
/// work whose result does not depend on the signal.
pub fn wait_with_grace<T>(grace: Duration) -> (waiting: Waiting<T>)
    ensures
        waiting == (Waiting::<T> { grace: Some(grace), progress: Progress::Checking }),
{
    Waiting { grace: Some(grace), progress: Progress::Checking }
}

impl<T> Waiting<T> {
    pub open spec fn wants(self) -> WaitAction {
        match self.progress {
            Progress::Checking | Progress::Confirming(_) | Progress::Expired => WaitAction::Sample,
            Progress::Receiving => WaitAction::Receive(Duration { secs: 0, nanos: 10_000_000 }),
            Progress::Lingering => match self.grace {
                Some(grace) => WaitAction::Receive(grace),
                None => WaitAction::Receive(Duration { secs: 0, nanos: 0 }),
            },
            Progress::Finished(_) => WaitAction::Finish,
        }
    }

    /// What the wait needs next.
    pub fn action(&self) -> (action: WaitAction)
        ensures
            action == self.wants(),
    {
        match &self.progress {
            Progress::Checking | Progress::Confirming(_) | Progress::Expired => WaitAction::Sample,
            // Completion wakes immediately; the timeout only bounds signal latency.
            Progress::Receiving => WaitAction::Receive(Duration::new(0, 10_000_000)),
            Progress::Lingering => match self.grace {
                Some(grace) => WaitAction::Receive(grace),
                None => WaitAction::Receive(Duration::new(0, 0)),
            },
            Progress::Finished(_) => WaitAction::Finish,
        }
    }

    /// The wait after the answer to its last action.
    pub fn step(self, event: WaitEvent<T>) -> (next: Waiting<T>)
        ensures
            next.grace == self.grace,
            next.progress == waited_on(self.grace, self.progress, event),
    {
        let grace = self.grace;
        let progress = match (self.progress, event) {
            (Progress::Checking, WaitEvent::Signal(signal)) => if signal == 0 {
                Progress::Receiving
            } else if grace.is_some() {
                Progress::Lingering
            } else {
                Progress::Finished(Waited::Interrupted(signal))
            },
            (Progress::Receiving, WaitEvent::Received(received)) => match settle(received) {
                None => Progress::Checking,
                // With a grace, completion wins over any signal.
                Some(waited) => if grace.is_some() {
                    Progress::Finished(waited)
                } else {
                    Progress::Confirming(waited)
                },
            },
            (Progress::Confirming(waited), WaitEvent::Signal(signal)) => if signal == 0 {
                Progress::Finished(waited)
            } else {
                Progress::Finished(Waited::Interrupted(signal))
            },
            (Progress::Lingering, WaitEvent::Received(received)) => match settle(received) {
                None => Progress::Expired,
                Some(waited) => Progress::Finished(waited),
            },
            // A later signal may have replaced the one that started the grace.
            (Progress::Expired, WaitEvent::Signal(signal)) => Progress::Finished(
                Waited::Interrupted(signal),
            ),
            (progress, _) => progress,
        };
        Waiting { grace, progress }
    }
}

/// The progress of a wait after `events`, from its start.
pub open spec fn waited_through<T>(grace: Option<Duration>, events: Seq<WaitEvent<T>>) -> Progress<T>
    decreases events.len(),
{
    if events.len() == 0 {
        Progress::Checking
    } else {
        waited_on(grace, waited_through(grace, events.drop_last()), events.last())
    }
}

/// Whether `event` brought the end of the work that `waited` tells of.
pub open spec fn brought<T>(event: WaitEvent<T>, waited: Waited<T>) -> bool {
    event matches WaitEvent::Received(received) && settled(received) == Some(waited)
}

/// Whether `event` says that no signal was received.
pub open spec fn is_quiet<T>(event: WaitEvent<T>) -> bool {
    event == WaitEvent::<T>::Signal(0)
}

/// Whether `event` says that `signal` was received.
pub open spec fn is_found<T>(event: WaitEvent<T>, signal: i32) -> bool {
    event == WaitEvent::<T>::Signal(signal)
}

/// Without a grace, a wait ends with the work's own result only after it has
/// looked for a signal once the work had ended, and found none; otherwise it
/// reports the signal that it found.
pub proof fn a_signal_wins_even_as_the_work_completes<T>(events: Seq<WaitEvent<T>>)
    ensures
        match waited_through(None, events) {
            Progress::Finished(Waited::Interrupted(signal)) => signal != 0 && exists|looked: int|
                0 <= looked < events.len() && #[trigger] is_found(events[looked], signal),
            Progress::Finished(waited) => exists|done: int, looked: int|
                0 <= done < looked < events.len() && #[trigger] brought(events[done], waited)
                    && #[trigger] is_quiet(events[looked]),
            Progress::Confirming(waited) => !(waited is Interrupted) && exists|done: int|
                0 <= done < events.len() && #[trigger] brought(events[done], waited),
            Progress::Lingering | Progress::Expired => false,
            _ => true,
        },
    decreases events.len(),
{
    if events.len() > 0 {
        let before = events.drop_last();
        let last = events.len() - 1;
        a_signal_wins_even_as_the_work_completes(before);
        if let WaitEvent::Signal(signal) = events[last] {
            assert(is_found(events[last], signal));
        }
        match (waited_through(None, before), events[last]) {
            (Progress::Finished(Waited::Interrupted(signal)), _) => {
                let looked = choose|looked: int|
                    0 <= looked < before.len() && #[trigger] is_found(before[looked], signal);
                assert(is_found(events[looked], signal));
            },
            (Progress::Confirming(waited), _) => {
                let done = choose|done: int|
                    0 <= done < before.len() && #[trigger] brought(before[done], waited);
                assert(brought(events[done], waited));
                assert(events[last] == WaitEvent::<T>::Signal(0) ==> is_quiet(events[last]));
            },
            (Progress::Receiving, WaitEvent::Received(received)) => {
                if settled(received) is Some {
                    assert(brought(events[last], settled(received)->0));
                }
            },
            (Progress::Finished(waited), _) => {
                if !(waited is Interrupted) {
                    let (done, looked) = choose|done: int, looked: int|
                        0 <= done < looked < before.len() && #[trigger] brought(
                            before[done],
                            waited,
                        ) && #[trigger] is_quiet(before[looked]);
                    assert(brought(events[done], waited));
                    assert(is_quiet(events[looked]));
                }
            },
            _ => {},
        }
    }
}

/// With a grace, work that completes while the wait receives always wins, and
/// a signal is reported only after the whole grace has passed without it.
pub proof fn a_signal_leaves_the_grace_for_the_work<T>(
    grace: Duration,
    progress: Progress<T>,
    event: WaitEvent<T>,
)
    requires
        !(progress is Finished),
        !(progress is Confirming),
    ensures
        !(waited_on(Some(grace), progress, event) is Confirming),
        forall|value: T|
            #![trigger waited_on(Some(grace), progress, WaitEvent::Received(Ok(value)))]
            (progress is Receiving || progress is Lingering) ==> waited_on(
                Some(grace),
                progress,
                WaitEvent::Received(Ok(value)),
            ) == Progress::Finished(Waited::Done(value)),
        waited_on(Some(grace), progress, event) matches Progress::Finished(
            Waited::Interrupted(_),
        ) ==> progress is Expired,
        waited_on(Some(grace), progress, event) is Expired && !(progress is Expired) ==> {
            &&& progress is Lingering
            &&& (Waiting { grace: Some(grace), progress }).wants() == WaitAction::Receive(grace)
            &&& event == WaitEvent::<T>::Received(Err(Missed::Timeout))
        },
{
}

/// A signal that arrives is the one that is received next, whether or not the
/// execution is sealed; a later one takes its place. The seal stays as it was.
pub proof fn the_latest_signal_is_received(
    state: i32,
    signal: i32,
    later: i32,
    once: i32,
    twice: i32,
    first: i32,
    second: i32,
)
    requires
        is_signal(signal as int),
        is_signal(later as int),
        call_ensures(arrived, (state, signal), once),
        call_ensures(arrived, (once, later), twice),
        call_ensures(received, (once,), first),
        call_ensures(received, (twice,), second),
    ensures
        first == signal,
        second == later,
        once & SEALED == state & SEALED,
        twice & SEALED == state & SEALED,
{
    the_last_signal_is_received(state, signal);
    the_last_signal_is_received(once, later);
}

/// Sealing tells the signal that came before it, keeps it to be received, and
/// marks the state; a signal that comes later is received all the same.
pub proof fn sealing_tells_the_signal_before_it(
    state: i32,
    before: i32,
    sealed: (i32, i32),
    after: i32,
    later: i32,
    next: i32,
    last: i32,
)
    requires
        is_signal(later as int),
        call_ensures(received, (state,), before),
        call_ensures(seal_execution, (state,), sealed),
        call_ensures(received, (sealed.0,), after),
        call_ensures(arrived, (sealed.0, later), next),
        call_ensures(received, (next,), last),
    ensures
        sealed.1 == before,
        after == before,
        sealed.0 & SEALED == SEALED,
        last == later,
        next & SEALED == SEALED,
        state == 0 ==> before == 0,
{
    sealing_keeps_the_signal(state);
    the_last_signal_is_received(sealed.0, later);
    assert(0i32 & !0x1_0000i32 == 0) by (bit_vector);
}

/// A signal is forwarded once: it is taken as it is, and is then gone.
pub proof fn a_signal_is_taken_once(pending: &mut i32, signal: i32)
    requires
        call_ensures(take_pending, (pending,), signal),
    ensures
        signal == *old(pending),
        *final(pending) == 0,
{
}

/// Whether an event answers what a wait needs.
pub open spec fn answers_wait<T>(action: WaitAction, event: WaitEvent<T>) -> bool {
    match action {
        WaitAction::Sample => event is Signal,
        WaitAction::Receive(_) => event is Received,
        WaitAction::Finish => false,
    }
}

/// A wait moves on with every answer to what it needs, and with nothing else; it
/// needs nothing more exactly when it is finished, and its grace never changes.
pub proof fn a_wait_moves_on_with_each_answer<T>(
    waiting: Waiting<T>,
    action: WaitAction,
    event: WaitEvent<T>,
    next: Waiting<T>,
)
    requires
        call_ensures(Waiting::<T>::action, (&waiting,), action),
        call_ensures(Waiting::<T>::step, (waiting, event), next),
    ensures
        answers_wait(action, event) <==> next.progress != waiting.progress,
        action is Finish <==> waiting.progress is Finished,
        next.grace == waiting.grace,
{
}

/// Work that completes is what the wait ends with, value and all, unless a
/// signal is found: without a grace after one more look, with one at once.
pub proof fn completed_work_is_returned<T>(
    value: T,
    grace: Duration,
    plain: Waiting<T>,
    confirmed: Waiting<T>,
    graced: Waiting<T>,
    lingered: Waiting<T>,
)
    requires
        call_ensures(
            Waiting::<T>::step,
            (
                Waiting { grace: None, progress: Progress::Receiving },
                WaitEvent::Received(Ok(value)),
            ),
            plain,
        ),
        call_ensures(Waiting::<T>::step, (plain, WaitEvent::Signal(0)), confirmed),
        call_ensures(
            Waiting::<T>::step,
            (
                Waiting { grace: Some(grace), progress: Progress::Receiving },
                WaitEvent::Received(Ok(value)),
            ),
            graced,
        ),
        call_ensures(
            Waiting::<T>::step,
            (
                Waiting { grace: Some(grace), progress: Progress::Lingering },
                WaitEvent::Received(Ok(value)),
            ),
            lingered,
        ),
    ensures
        !(plain.progress is Finished),
        confirmed.progress == Progress::Finished(Waited::Done(value)),
        graced.progress == Progress::Finished(Waited::Done(value)),
        lingered.progress == Progress::Finished(Waited::Done(value)),
{
}

/// Where each answer leads a wait. Without a signal it receives for one poll at
/// a time; without a grace a signal ends it, also one that is found as the work
/// ends; with a grace the work still has that long, and then the signal that is
/// found last is reported. Senders that are gone end it as such.
pub proof fn a_wait_ends_with_its_work_or_a_signal<T>(
    waiting: Waiting<T>,
    event: WaitEvent<T>,
    next: Waiting<T>,
    action: WaitAction,
)
    requires
        call_ensures(Waiting::<T>::step, (waiting, event), next),
        call_ensures(Waiting::<T>::action, (&next,), action),
    ensures
        waiting.progress is Checking && event == WaitEvent::<T>::Signal(0) ==> action
            == WaitAction::Receive(Duration { secs: 0, nanos: 10_000_000 }),
        waiting.progress is Checking ==> (event matches WaitEvent::Signal(signal) ==> signal != 0
            ==> (waiting.grace is None ==> next.progress == Progress::<T>::Finished(
            Waited::Interrupted(signal),
        )) && (waiting.grace matches Some(grace) ==> action == WaitAction::Receive(grace))),
        waiting.progress is Receiving && event == WaitEvent::<T>::Received(Err(Missed::Timeout))
            ==> next.progress is Checking,
        waiting.progress is Receiving && event == WaitEvent::<T>::Received(
            Err(Missed::Disconnected),
        ) ==> next.progress == if waiting.grace is Some {
            Progress::<T>::Finished(Waited::Closed)
        } else {
            Progress::<T>::Confirming(Waited::Closed)
        },
        waiting.progress matches Progress::Confirming(waited) ==> (event matches WaitEvent::Signal(
            signal,
        ) ==> next.progress == if signal == 0 {
            Progress::Finished(waited)
        } else {
            Progress::Finished(Waited::Interrupted(signal))
        }),
        waiting.progress is Lingering && event == WaitEvent::<T>::Received(Err(Missed::Timeout))
            ==> action is Sample && !(next.progress is Finished),
        waiting.progress is Lingering && event == WaitEvent::<T>::Received(
            Err(Missed::Disconnected),
        ) ==> next.progress == Progress::<T>::Finished(Waited::Closed),
        waiting.progress is Expired ==> (event matches WaitEvent::Signal(signal) ==> next.progress
            == Progress::<T>::Finished(Waited::Interrupted(signal))),
{
}

/// A wait starts with a look for a signal, with the grace that it was given.
pub proof fn a_wait_starts_with_a_look<T>(grace: Duration, plain: Waiting<T>, graced: Waiting<T>)
    requires
        call_ensures(wait::<T>, (), plain),
        call_ensures(wait_with_grace::<T>, (grace,), graced),
    ensures
        plain.grace is None && plain.progress is Checking,
        graced.grace == Some(grace) && graced.progress is Checking,
{
}

} // verus!
