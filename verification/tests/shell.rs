use cacheexec::cli::{
    cache_directory, diagnostic, error_grace, exit_code, print_error, suggests_separator,
    PrintAction, TOOL_ERROR,
};
use cacheexec::domain::execution::{Outcome, Saving, Votes, CODES};
use cacheexec::domain::message::{Decision, Saved};
use cacheexec::domain::policy::{Reason, Request};
use cacheexec::domain::record::{self, Record};
use cacheexec::domain::shared::{
    completed_detail, failure_detail, parse, pending, Published, COMPLETED, DETAIL_OFFSET, FAILED,
    PENDING, TAG_OFFSET,
};
use cacheexec::error::{Error, ErrorKind, IoError};
use cacheexec::shell::active::{commit, publish_failure, stage, Change, Step};
use cacheexec::shell::cleanup::{self, print_summary, Cleanup, Scan, SweepAction, SweepEvent};
use cacheexec::shell::lock::{
    acquire_gate, lock, try_lock, unlock, Gate, GateAction, GateEvent, GateProgress, LockAction,
    LockEvent, Locking,
};
use cacheexec::shell::owner::{own, Owner, OwnerAction, OwnerEvent, OwnerState};
use cacheexec::shell::replay::replay_bytes;
use cacheexec::shell::runner::{
    capture, execute, exited_without_reaping, outcome, start_failed, Captured, Delivery,
    DeliveryAction, DeliveryEvent, Ended, RunAction, RunEvent, Supervision, Supervisor, Worker,
};
use cacheexec::shell::sharing::{
    join, replay, run, vote, Caller, CallerAction, CallerEvent, CallerState, JoinAction, JoinEvent,
    Joiner, Next,
};
use cacheexec::shell::signals::{
    self, take_pending, Missed, Progress, WaitAction, WaitEvent, Waited, Waiting, SEALED,
};
use cacheexec::shell::store::{self, SaveStep, Stored};
use cacheexec::shell::verbose::{safe_destination, writes, Verbose};
use cacheexec::time::{Duration, SystemTime};
use std::cell::Cell;
use std::sync::mpsc::{self, Receiver, RecvTimeoutError};
use std::time::Instant;

fn io(kind: ErrorKind) -> IoError {
    IoError {
        kind,
        text: "it broke".to_owned(),
    }
}

fn broken() -> Error {
    Error::from_io(io(ErrorKind::Other))
}

fn std_duration(span: Duration) -> std::time::Duration {
    std::time::Duration::new(span.secs, span.nanos)
}

/// Waits for `done`, with `received` in place of the process's signals.
fn wait_with<T>(
    done: &Receiver<T>,
    received: impl Fn() -> i32,
    grace: Option<Duration>,
) -> Waited<T> {
    let mut waiting: Waiting<T> = match grace {
        Some(grace) => signals::wait_with_grace(grace),
        None => signals::wait(),
    };
    loop {
        let event = match waiting.action() {
            WaitAction::Sample => WaitEvent::Signal(received()),
            WaitAction::Receive(limit) => WaitEvent::Received(
                match done.recv_timeout(std_duration(limit)) {
                    Ok(value) => Ok(value),
                    Err(RecvTimeoutError::Timeout) => Err(Missed::Timeout),
                    Err(RecvTimeoutError::Disconnected) => Err(Missed::Disconnected),
                },
            ),
            WaitAction::Finish => match waiting.progress {
                Progress::Finished(waited) => return waited,
                _ => unreachable!(),
            },
        };
        waiting = waiting.step(event);
    }
}

#[test]
fn a_signal_wins_even_as_the_work_completes() {
    let (sender, done) = mpsc::channel();
    sender.send(7).unwrap();
    assert!(matches!(wait_with(&done, || 0, None), Waited::Done(7)));

    sender.send(7).unwrap();
    let calls = Cell::new(0);
    let arrives_with_completion = || {
        calls.set(calls.get() + 1);
        if calls.get() > 1 {
            15
        } else {
            0
        }
    };
    assert!(matches!(
        wait_with(&done, arrives_with_completion, None),
        Waited::Interrupted(15)
    ));

    sender.send(7).unwrap();
    assert!(matches!(
        wait_with(&done, || 2, None),
        Waited::Interrupted(2)
    ));
}

#[test]
fn dropped_senders_close_the_wait_unless_a_signal_arrived() {
    let (sender, done) = mpsc::channel::<()>();
    drop(sender);
    assert!(matches!(wait_with(&done, || 0, None), Waited::Closed));
    let calls = Cell::new(0);
    let arrives_with_closing = || {
        calls.set(calls.get() + 1);
        if calls.get() > 1 {
            15
        } else {
            0
        }
    };
    assert!(matches!(
        wait_with(&done, arrives_with_closing, None),
        Waited::Interrupted(15)
    ));
}

#[test]
fn a_signal_leaves_the_grace_for_the_work_to_complete() {
    let grace = Some(Duration::from_secs(5));
    let (sender, done) = mpsc::channel();
    // The work completes while the wait lingers.
    let mut waiting: Waiting<i32> = signals::wait_with_grace(Duration::from_secs(5));
    waiting = waiting.step(WaitEvent::Signal(15));
    assert!(matches!(waiting.action(), WaitAction::Receive(limit) if limit == Duration::from_secs(5)));
    waiting = waiting.step(WaitEvent::Received(Ok(7)));
    assert!(matches!(
        waiting.progress,
        Progress::Finished(Waited::Done(7))
    ));

    sender.send(7).unwrap();
    assert!(matches!(wait_with(&done, || 15, grace), Waited::Done(7)));

    sender.send(7).unwrap();
    let calls = Cell::new(0);
    let arrives_with_completion = || {
        calls.set(calls.get() + 1);
        if calls.get() > 1 {
            15
        } else {
            0
        }
    };
    assert!(matches!(
        wait_with(&done, arrives_with_completion, grace),
        Waited::Done(7)
    ));

    drop(sender);
    assert!(matches!(wait_with(&done, || 15, grace), Waited::Closed));
}

#[test]
fn a_signal_interrupts_the_wait_once_the_grace_expires() {
    let grace = Duration::from_millis(30);
    let (_sender, done) = mpsc::channel::<()>();
    let started = Instant::now();
    assert!(matches!(
        wait_with(&done, || 15, Some(grace)),
        Waited::Interrupted(15)
    ));
    let waited = started.elapsed();
    assert!(
        waited >= std_duration(grace) && waited < std::time::Duration::from_secs(5),
        "{waited:?}"
    );

    // A signal that arrives during the wait also gets the whole grace.
    let calls = Cell::new(0);
    let arrives_later = || {
        calls.set(calls.get() + 1);
        if calls.get() > 2 {
            15
        } else {
            0
        }
    };
    let started = Instant::now();
    assert!(matches!(
        wait_with(&done, arrives_later, Some(grace)),
        Waited::Interrupted(15)
    ));
    let waited = started.elapsed();
    // The signal is seen after two 10ms polls, and the grace counts from then.
    assert!(
        waited >= std_duration(grace) + std::time::Duration::from_millis(20)
            && waited < std::time::Duration::from_secs(5),
        "{waited:?}"
    );

    // The interruption reports the signal received when the grace expires.
    let calls = Cell::new(0);
    let replaced = || {
        calls.set(calls.get() + 1);
        if calls.get() > 1 {
            15
        } else {
            2
        }
    };
    assert!(matches!(
        wait_with(&done, replaced, Some(Duration::from_millis(1))),
        Waited::Interrupted(15)
    ));
}

#[test]
fn without_a_signal_the_grace_wait_is_a_plain_wait() {
    let grace = Some(Duration::from_secs(0));
    let (sender, done) = mpsc::channel();
    sender.send(7).unwrap();
    assert!(matches!(wait_with(&done, || 0, grace), Waited::Done(7)));
    drop(sender);
    assert!(matches!(wait_with(&done, || 0, grace), Waited::Closed));
}

#[test]
fn the_seal_survives_signals_and_hides_none() {
    let state = signals::arrived(0, 15);
    assert_eq!(signals::received(state), 15);
    let state = signals::arrived(state, 2);
    let (state, before) = signals::seal_execution(state);
    assert_eq!((before, signals::received(state)), (2, 2));
    let state = signals::arrived(state, 15);
    assert_eq!(state, SEALED | 15);
    assert_eq!(signals::received(state), 15);
    assert_eq!(signals::seal_execution(0), (SEALED, 0));
    let mut pending = 15;
    assert_eq!(take_pending(&mut pending), 15);
    assert_eq!(take_pending(&mut pending), 0);
}

/// Acquires a gate whose files have these link counts, one for each time it is
/// opened, and counts how often that happens.
fn gate_with(wait: bool, busy: bool, links: impl Fn(usize) -> u64) -> (Gate, usize) {
    let mut gate = acquire_gate(wait);
    let mut opens = 0;
    loop {
        let event = match gate.action() {
            GateAction::Open => {
                opens += 1;
                GateEvent::Opened(Ok(()))
            }
            GateAction::Lock { wait: waits } => {
                assert_eq!(waits, wait);
                GateEvent::Locked(Ok(!busy))
            }
            GateAction::Inspect => GateEvent::Inspected(Ok(links(opens))),
            GateAction::Finish => return (gate, opens),
        };
        gate = gate.step(event, "\"key.lock\"");
    }
}

#[test]
fn a_gate_unlinked_while_waiting_is_replaced_by_the_current_one() {
    let (gate, opens) = gate_with(true, false, |opens| u64::from(opens > 1));
    assert_eq!(opens, 2);
    assert!(matches!(gate.progress, GateProgress::Finished(Ok(true))));
}

#[test]
fn a_gate_unlinked_without_replacement_is_recreated() {
    let (gate, opens) = gate_with(false, false, |opens| u64::from(opens > 1));
    assert_eq!(opens, 2);
    assert!(matches!(gate.progress, GateProgress::Finished(Ok(true))));
}

#[test]
fn a_gate_that_is_never_linked_is_an_error() {
    let (gate, opens) = gate_with(false, false, |_| 0);
    assert_eq!(opens, 100);
    let GateProgress::Finished(Err(error)) = gate.progress else {
        panic!("not an error");
    };
    assert!(error.render().contains("kept being removed"));
    assert_eq!(
        error.render(),
        "key lock \"key.lock\" kept being removed while being locked"
    );
}

#[test]
fn a_busy_gate_is_skipped_without_waiting() {
    let (gate, opens) = gate_with(false, true, |_| 1);
    assert_eq!(opens, 1);
    assert!(matches!(gate.progress, GateProgress::Finished(Ok(false))));
}

#[test]
fn a_gate_that_cannot_be_opened_or_inspected_is_an_error() {
    let gate = acquire_gate(true).step(GateEvent::Opened(Err(io(ErrorKind::Other))), "p");
    let GateProgress::Finished(Err(error)) = gate.progress else {
        panic!("not an error");
    };
    assert_eq!(error.render(), "open key lock: it broke");
    let gate = acquire_gate(true)
        .step(GateEvent::Opened(Ok(())), "p")
        .step(GateEvent::Locked(Ok(true)), "p")
        .step(GateEvent::Inspected(Err(io(ErrorKind::Other))), "p");
    let GateProgress::Finished(Err(error)) = gate.progress else {
        panic!("not an error");
    };
    assert_eq!(error.render(), "inspect key lock: it broke");
}

#[test]
fn a_busy_lock_is_no_error() {
    assert!(try_lock(Ok(())).unwrap());
    assert!(!try_lock(Err(io(ErrorKind::WouldBlock))).unwrap());
    let error = try_lock(Err(io(ErrorKind::Other))).unwrap_err();
    assert_eq!(error.render(), "cache lock failed: it broke");
    assert!(unlock(Ok(())).is_ok());
    let error = unlock(Err(io(ErrorKind::Other))).unwrap_err();
    assert_eq!(error.render(), "release cache lock: it broke");
}

#[test]
fn only_an_interruptible_wait_for_a_lock_sees_signals() {
    let locking = lock(true);
    assert_eq!(locking.action(), LockAction::Sample);
    let locking = locking.step(true, LockEvent::Signal(0));
    assert_eq!(locking.action(), LockAction::Try);
    let locking = locking.step(true, LockEvent::Tried(Err(io(ErrorKind::WouldBlock))));
    assert_eq!(locking.action(), LockAction::Pause);
    let locking = locking.step(true, LockEvent::Paused);
    let locking = locking.step(true, LockEvent::Signal(15));
    assert!(matches!(locking, Locking::Finished(Ok(false))));

    let locking = lock(false);
    assert_eq!(locking.action(), LockAction::Try);
    let locking = locking
        .step(false, LockEvent::Tried(Err(io(ErrorKind::WouldBlock))))
        .step(false, LockEvent::Paused);
    assert_eq!(locking.action(), LockAction::Try);
    let locking = locking.step(false, LockEvent::Tried(Ok(())));
    assert!(matches!(locking, Locking::Finished(Ok(true))));
}

/// Makes a change to a file, unless it is read-only.
fn change(file: &mut Vec<u8>, step: &Step, read_only: bool) -> Result<(), Error> {
    if read_only {
        return Err(step.failed(io(ErrorKind::Other)));
    }
    match &step.change {
        Change::SetLen(len) => file.resize(*len as usize, 0),
        Change::Write { offset, bytes } => {
            let (start, end) = (*offset as usize, *offset as usize + bytes.len());
            if file.len() < end {
                file.resize(end, 0);
            }
            file[start..end].copy_from_slice(bytes);
        }
    }
    Ok(())
}

#[test]
fn a_failure_that_cannot_be_published_keeps_its_message() {
    let mut file = vec![0; DETAIL_OFFSET as usize];
    let message = "child already completed with exit code 7; could not save result";
    let reporting = || -> OwnerState {
        Owner::Reporting {
            error: Error::new(message),
            invalidated: true,
            text: message.to_owned(),
        }
    };
    let OwnerAction::PublishFailure { saved, detail } = reporting().action() else {
        panic!("not about to publish");
    };
    assert_eq!(saved, Saved::No);
    // Every write fails, including the first one.
    let steps = publish_failure(detail);
    let failed = change(&mut file, &steps[0], true).unwrap_err();
    let Owner::Finished {
        result: Err(error), ..
    } = reporting().step(OwnerEvent::Done(Err(failed)), "\"r\"")
    else {
        panic!("not finished");
    };
    assert!(error.render().starts_with(message), "{}", error.render());
    assert_eq!(file, [0; DETAIL_OFFSET as usize]);

    for step in &steps {
        change(&mut file, step, false).unwrap();
    }
    assert_eq!(file[TAG_OFFSET as usize], FAILED);
    assert_eq!(file[DETAIL_OFFSET as usize], 1);
    assert_eq!(&file[DETAIL_OFFSET as usize + 1..], message.as_bytes());
}

#[test]
fn a_staged_result_is_visible_only_after_the_commit() {
    let mut file = pending();
    file[7] = 1;
    file.extend(b"an older and longer detail");
    let record = record(5, 7, b"out");
    let detail = completed_detail(Saving::Saved, &record).unwrap();
    for step in &stage(detail) {
        change(&mut file, step, false).unwrap();
    }
    assert!(matches!(
        parse(&file[TAG_OFFSET as usize..]).unwrap(),
        Published::Unfinished
    ));
    change(&mut file, &commit(), false).unwrap();
    assert_eq!(file[TAG_OFFSET as usize], COMPLETED);
    assert_eq!(file[7], 1);
    let Published::Completed { saving, record } = parse(&file[TAG_OFFSET as usize..]).unwrap()
    else {
        panic!("not completed");
    };
    assert_eq!((saving, record.code), (Saving::Saved, 7));
}

#[test]
fn steps_fail_in_their_context() {
    let steps = stage(vec![1]);
    let text = |step: &Step| step.failed(io(ErrorKind::Other)).render();
    assert_eq!(text(&steps[0]), "it broke");
    assert_eq!(text(&steps[1]), "write shared result: it broke");
    assert_eq!(text(&commit()), "commit shared result: it broke");
}

fn at(secs: u64) -> SystemTime {
    SystemTime::unix_epoch()
        .checked_add(Duration::from_secs(secs))
        .unwrap()
}

fn record(secs: u64, code: i32, stdout: &[u8]) -> Record {
    Record {
        completed: at(secs),
        code,
        stdout: stdout.to_vec(),
        stderr: vec![],
    }
}

fn request(refresh: bool) -> Request {
    Request {
        command: vec![b"true".to_vec()],
        ttl: Duration::from_secs(5),
        refresh,
        include_codes: None,
        exclude_codes: None,
    }
}

/// What a saved result holds after `steps`, if it held `saved` before.
fn saved_by(mut saved: Option<Vec<u8>>, steps: &[SaveStep<Vec<u8>>]) -> Option<Vec<u8>> {
    let mut temporary = None;
    for step in steps {
        match step {
            SaveStep::CreateTemporary => temporary = Some(vec![]),
            SaveStep::Write(bytes) => temporary.as_mut().unwrap().extend(bytes),
            SaveStep::Sync => {}
            SaveStep::Rename => saved = temporary.take(),
        }
    }
    saved
}

/// How an owner ended, what it saved last, what its waiters read, and what it
/// did on the way.
struct Owned {
    line: Option<String>,
    result: Result<i32, Error>,
    saved: Option<Vec<u8>>,
    shared: Vec<u8>,
    actions: Vec<String>,
    failed: Option<Saved>,
}

/// Owns an execution. `signal` is received from the given look for signals on,
/// and `fails` names an action that fails.
fn owned(
    executed: Result<Outcome, Error>,
    votes: Votes,
    signal: (usize, i32),
    fails: &str,
) -> Owned {
    let mut owner = own();
    let mut executed = Some(executed);
    let mut owned = Owned {
        line: None,
        result: Ok(0),
        saved: None,
        shared: pending(),
        actions: vec![],
        failed: None,
    };
    let mut looks = 0;
    loop {
        let action = owner.action();
        let name = format!("{action:?}");
        let name = name.split(['(', ' ']).next().unwrap().to_owned();
        let done = if name == fails { Err(broken()) } else { Ok(()) };
        owned.actions.push(name);
        let event = match action {
            OwnerAction::Execute => OwnerEvent::Executed(executed.take().unwrap()),
            OwnerAction::ReadVotes => OwnerEvent::Votes(done.map(|()| votes)),
            OwnerAction::Sample | OwnerAction::Seal => {
                looks += 1;
                OwnerEvent::Signal(if looks >= signal.0 { signal.1 } else { 0 })
            }
            OwnerAction::Invalidate => {
                if done.is_ok() {
                    owned.saved = None;
                }
                OwnerEvent::Done(done)
            }
            OwnerAction::Save(steps) => {
                let carried_out = if done.is_ok() { steps.len() } else { 3 };
                owned.saved = saved_by(owned.saved.take(), &steps[..carried_out]);
                OwnerEvent::Done(done)
            }
            OwnerAction::Stage(detail) => {
                for step in &stage(detail) {
                    change(&mut owned.shared, step, false).unwrap();
                }
                OwnerEvent::Done(done)
            }
            OwnerAction::Commit => {
                if done.is_ok() {
                    change(&mut owned.shared, &commit(), false).unwrap();
                }
                OwnerEvent::Done(done)
            }
            OwnerAction::PublishFailure { saved, detail } => {
                owned.failed = Some(saved);
                for step in &publish_failure(detail) {
                    change(&mut owned.shared, step, false).unwrap();
                }
                OwnerEvent::Done(done)
            }
            OwnerAction::RemoveMarker => OwnerEvent::Removed(done.map_err(|_| io(ErrorKind::Other))),
            OwnerAction::Deliver(code) => OwnerEvent::Delivered {
                result: done.map(|()| code),
                signal: 0,
            },
            OwnerAction::Finish => match owner {
                Owner::Finished { line, result } => {
                    owned.line = line;
                    owned.result = result;
                    return owned;
                }
                _ => unreachable!(),
            },
            _ => OwnerEvent::Done(done),
        };
        owner = owner.step(event, "\"r\"");
    }
}

fn exited(code: i32) -> Result<Outcome, Error> {
    Ok(Outcome::new(
        at(5),
        Some(code),
        None,
        0,
        b"out".to_vec(),
        b"err".to_vec(),
    ))
}

#[test]
fn an_owner_saves_and_shares_an_allowed_result() {
    let owned = owned(exited(7), [1; CODES], (99, 0), "");
    assert_eq!(owned.result.unwrap(), 7);
    assert_eq!(owned.line.unwrap(), "completed exit=7 saved=yes");
    let saved = record::decode(&owned.saved.unwrap()).unwrap();
    assert_eq!((saved.code, &saved.stdout[..]), (7, &b"out"[..]));
    let Published::Completed { saving, record } =
        parse(&owned.shared[TAG_OFFSET as usize..]).unwrap()
    else {
        panic!("not completed");
    };
    assert_eq!(saving, Saving::Saved);
    assert_eq!((record.code, &record.stderr[..]), (7, &b"err"[..]));
    assert_eq!(
        owned.actions,
        [
            "Execute",
            "LockGate",
            "ReadVotes",
            "Sample",
            "Save",
            "Sample",
            "Stage",
            "Sample",
            "RemoveMarker",
            "Seal",
            "Commit",
            "UnlockActive",
            "UnlockGate",
            "Deliver",
            "Finish"
        ]
    );
}

#[test]
fn an_owner_shares_an_excluded_result_without_saving_it() {
    let owned = owned(exited(7), [0; CODES], (99, 0), "");
    assert_eq!(owned.result.unwrap(), 7);
    assert_eq!(
        owned.line.unwrap(),
        "completed exit=7 saved=no reason=participant-policy"
    );
    assert!(owned.saved.is_none());
    assert!(!owned.actions.contains(&"Save".to_owned()));
    assert!(matches!(
        parse(&owned.shared[TAG_OFFSET as usize..]).unwrap(),
        Published::Completed {
            saving: Saving::Excluded,
            ..
        }
    ));
}

#[test]
fn a_signal_to_the_owner_reaches_everyone_whenever_it_is_seen() {
    for look in 1..=4 {
        let owned = owned(exited(0), [1; CODES], (look, 15), "");
        assert_eq!(owned.result.unwrap(), 143);
        assert_eq!(
            owned.line.unwrap(),
            "interrupted exit=143 saved=no reason=interrupted"
        );
        assert!(owned.saved.is_none());
        let Published::Completed { saving, record } =
            parse(&owned.shared[TAG_OFFSET as usize..]).unwrap()
        else {
            panic!("not completed");
        };
        assert_eq!((saving, record.code), (Saving::Interrupted, 143));
        assert_eq!(record.stdout, b"out");
    }
}

#[test]
fn a_failed_save_is_shared_as_a_failure() {
    let owned = owned(exited(7), [1; CODES], (99, 0), "Save");
    let text = "child already completed with exit code 7: could not save result \"r\": it broke";
    assert_eq!(owned.result.unwrap_err().render(), text);
    assert!(owned.line.is_none());
    assert_eq!(owned.failed, Some(Saved::No));
    let Published::Failed {
        invalidated,
        message,
    } = parse(&owned.shared[TAG_OFFSET as usize..]).unwrap()
    else {
        panic!("not failed");
    };
    assert_eq!((invalidated, &message[..]), (true, text));
    assert_eq!(
        owned
            .actions
            .iter()
            .filter(|action| *action == "Execute")
            .count(),
        1
    );
}

#[test]
fn no_failure_after_the_execution_leaves_a_result() {
    for fails in ["ReadVotes", "Save", "Stage", "RemoveMarker", "Commit"] {
        let owned = owned(exited(7), [1; CODES], (99, 0), fails);
        let text = owned.result.unwrap_err().render();
        assert!(
            text.starts_with("child already completed with exit code 7: "),
            "{text}"
        );
        assert!(owned.saved.is_none(), "{fails}");
        assert!(matches!(
            parse(&owned.shared[TAG_OFFSET as usize..]).unwrap(),
            Published::Failed {
                invalidated: true,
                ..
            }
        ));
    }
}

#[test]
fn a_failed_start_is_shared_and_saves_nothing() {
    let error = start_failed("\"./missing\"", io(ErrorKind::NotFound));
    let owned = owned(Err(error), [1; CODES], (99, 0), "Invalidate");
    let text = "could not start \"./missing\": it broke";
    assert_eq!(owned.result.unwrap_err().render(), text);
    assert_eq!(owned.failed, Some(Saved::Unknown));
    let Published::Failed {
        invalidated,
        message,
    } = parse(&owned.shared[TAG_OFFSET as usize..]).unwrap()
    else {
        panic!("not failed");
    };
    assert!(!invalidated);
    assert_eq!(
        message,
        format!("{text}; could not invalidate result: it broke")
    );
}

#[test]
fn a_lost_lock_or_delivery_fails_the_owner_alone() {
    let lost = owned(exited(7), [1; CODES], (99, 0), "LockGate");
    assert_eq!(lost.result.unwrap_err().render(), "it broke");
    assert_eq!(lost.shared[TAG_OFFSET as usize], PENDING);
    let undelivered = owned(exited(7), [1; CODES], (99, 0), "Deliver");
    assert_eq!(undelivered.result.unwrap_err().render(), "it broke");
    assert_eq!(
        undelivered.line.unwrap(),
        "failed saved=yes reason=delivery-failure"
    );
    assert_eq!(undelivered.shared[TAG_OFFSET as usize], COMPLETED);
    assert!(undelivered.saved.is_some());
}

#[test]
fn a_completion_before_the_epoch_fails_the_execution() {
    let completed = at(0).checked_sub(Duration::from_nanos(1)).unwrap();
    let early = || Ok(Outcome::new(completed, Some(7), None, 0, vec![], vec![]));
    let saved = owned(early(), [1; CODES], (99, 0), "");
    assert_eq!(
        saved.result.unwrap_err().render(),
        "child already completed with exit code 7: could not save result \"r\": \
         second time provided was later than self"
    );
    let shared = owned(early(), [0; CODES], (99, 0), "");
    assert_eq!(
        shared.result.unwrap_err().render(),
        "child already completed with exit code 7: second time provided was later than self"
    );
}

/// Runs a caller that finds `saved`, with these answers about the lock and an
/// execution in progress, and lists what it did.
fn called(
    request: &Request,
    gate: bool,
    active: Option<bool>,
    saved: Result<Option<Record>, Error>,
    fails: &str,
) -> (Next<Record, String, Error>, Vec<String>) {
    let mut caller: CallerState = run();
    let mut saved = Some(saved);
    let mut actions = vec![];
    loop {
        let action = caller.action();
        let name = format!("{action:?}");
        let name = name.split(['(', ' ']).next().unwrap().to_owned();
        let done = if name == fails { Err(broken()) } else { Ok(()) };
        actions.push(name);
        let event = match action {
            CallerAction::AcquireGate => CallerEvent::Gate(done.map(|()| gate)),
            CallerAction::Sample => CallerEvent::Signal(15),
            CallerAction::OpenActive => CallerEvent::Opened(match active {
                Some(_) => Ok(()),
                None => Err(io(ErrorKind::NotFound)),
            }),
            CallerAction::TryActive => CallerEvent::Locked(Ok(active == Some(false))),
            CallerAction::TryNew => CallerEvent::Locked(done.map(|()| fails != "Busy")),
            CallerAction::Load => CallerEvent::Loaded {
                saved: saved.take().unwrap(),
                now: at(105),
            },
            CallerAction::WriteNew(bytes) => {
                assert_eq!(bytes, pending());
                CallerEvent::Filed(done.map_err(|_| io(ErrorKind::Other)))
            }
            CallerAction::RemoveAbandoned | CallerAction::CreateActive => {
                CallerEvent::Filed(done.map_err(|_| io(ErrorKind::Other)))
            }
            CallerAction::Announce { decision, age } => {
                let index = actions.len() - 1;
                actions[index] = format!("{decision:?} {age:?}");
                CallerEvent::Done(done)
            }
            CallerAction::Finish => match caller {
                Caller::Finished(next) => return (next, actions),
                _ => unreachable!(),
            },
            _ => CallerEvent::Done(done),
        };
        caller = caller.step(event, request, "\"a\"");
    }
}

#[test]
fn a_fresh_result_is_replayed_and_left_alone() {
    let saved = Ok(Some(record(100, 7, b"out")));
    let (next, actions) = called(&request(false), true, None, saved, "");
    let Next::Replay { record, saved } = next else {
        panic!("not a hit");
    };
    assert_eq!((record.code, saved), (7, Saved::Reused));
    assert_eq!(
        actions,
        [
            "AcquireGate",
            "OpenActive",
            "Load",
            "UnlockGate",
            "Hit Some(Ok(5000000000))",
            "Finish"
        ]
    );
}

#[test]
fn a_refresh_removes_the_old_result_before_it_runs() {
    let saved = Ok(Some(record(106, 7, b"out")));
    let (next, actions) = called(&request(true), true, Some(false), saved, "");
    assert!(matches!(next, Next::Own));
    assert_eq!(
        actions,
        [
            "AcquireGate",
            "OpenActive",
            "TryActive",
            "RemoveAbandoned",
            "Load",
            "Invalidate",
            "CreateActive",
            "TryNew",
            "WriteNew",
            "Vote",
            "UnlockGate",
            "Run(Refresh) Some(Err(1000000000))",
            "Finish"
        ]
    );
}

#[test]
fn an_execution_in_progress_is_joined_without_looking_at_results() {
    let (next, actions) = called(&request(true), true, Some(true), Ok(None), "");
    assert!(matches!(next, Next::Join));
    assert_eq!(
        actions,
        [
            "AcquireGate",
            "OpenActive",
            "TryActive",
            "Vote",
            "UnlockGate",
            "Join None",
            "Finish"
        ]
    );
}

#[test]
fn a_signal_while_waiting_for_the_key_ends_the_caller() {
    let (next, _) = called(&request(false), false, None, Ok(None), "");
    let Next::Return { line, result } = next else {
        panic!("not returned");
    };
    assert_eq!(result.unwrap(), 143);
    assert_eq!(
        line.unwrap(),
        "interrupted exit=143 saved=unknown reason=interrupted"
    );
}

#[test]
fn a_caller_fails_without_running_when_storage_does() {
    for (fails, text) in [
        ("AcquireGate", "it broke"),
        ("RemoveAbandoned", "remove abandoned execution: it broke"),
        ("Invalidate", "it broke"),
        ("CreateActive", "create active execution \"a\": it broke"),
        ("TryNew", "it broke"),
        ("WriteNew", "it broke"),
        ("Vote", "it broke"),
        ("UnlockGate", "it broke"),
    ] {
        let (next, _) = called(&request(false), true, Some(false), Ok(None), fails);
        let Next::Return { line, result } = next else {
            panic!("not returned");
        };
        assert!(line.is_none());
        assert_eq!(result.unwrap_err().render(), text, "{fails}");
    }
    let (next, actions) = called(&request(true), true, None, Err(broken()), "");
    assert!(matches!(next, Next::Return { result: Err(_), .. }));
    assert!(!actions.contains(&"Invalidate".to_owned()));
    let (next, _) = called(&request(false), true, None, Ok(None), "Busy");
    let Next::Return {
        result: Err(error), ..
    } = next
    else {
        panic!("not returned");
    };
    assert_eq!(error.render(), "new execution unexpectedly locked");
    let caller = run()
        .step(CallerEvent::Gate(Ok(true)), &request(false), "a")
        .step(
            CallerEvent::Opened(Err(io(ErrorKind::Other))),
            &request(false),
            "a",
        );
    let Caller::Finished(Next::Return {
        result: Err(error), ..
    }) = caller
    else {
        panic!("not returned");
    };
    assert_eq!(error.render(), "open active execution: it broke");
}

/// Joins an execution whose file holds these bytes from its tag on.
fn joined(from_tag: &[u8]) -> Next<Record, String, Error> {
    let mut joiner = join();
    loop {
        let event = match joiner.action() {
            JoinAction::Lock => JoinEvent::Locked(Ok(true)),
            JoinAction::Read => JoinEvent::Read(Ok(from_tag.to_vec())),
            JoinAction::Unlock => JoinEvent::Unlocked(Ok(())),
            JoinAction::Sample => unreachable!(),
            JoinAction::Finish => match joiner {
                Joiner::Finished(next) => return next,
                _ => unreachable!(),
            },
        };
        joiner = joiner.step(event);
    }
}

#[test]
fn a_waiter_gets_what_the_owner_published() {
    let mut bytes = vec![COMPLETED];
    bytes.extend(completed_detail(Saving::Excluded, &record(5, 7, b"out")).unwrap());
    let Next::Replay { record, saved } = joined(&bytes) else {
        panic!("not replayed");
    };
    assert_eq!((record.code, &record.stdout[..]), (7, &b"out"[..]));
    assert_eq!(saved, Saved::Execution(Saving::Excluded));

    let mut bytes = vec![FAILED];
    bytes.extend(failure_detail(true, "disk full"));
    let Next::Return { line, result } = joined(&bytes) else {
        panic!("not returned");
    };
    assert_eq!(line.unwrap(), "failed saved=no reason=failure");
    assert_eq!(
        result.unwrap_err().render(),
        "shared execution failed: disk full"
    );

    let Next::Return { line, result } = joined(&[PENDING, 1, 2]) else {
        panic!("not returned");
    };
    assert!(line.is_none());
    assert_eq!(
        result.unwrap_err().render(),
        "execution owner disappeared before publishing a complete result; command not retried"
    );
    assert!(matches!(
        joined(&[COMPLETED]),
        Next::Return { result: Err(_), .. }
    ));
}

#[test]
fn a_signal_to_a_waiter_ends_only_its_wait() {
    let joiner = join()
        .step(JoinEvent::Locked(Ok(false)))
        .step(JoinEvent::Signal(2));
    let Joiner::Finished(Next::Return { line, result }) = joiner else {
        panic!("not returned");
    };
    assert_eq!(result.unwrap(), 130);
    assert_eq!(
        line.unwrap(),
        "interrupted exit=130 saved=unknown reason=waiter-interrupted"
    );
}

#[test]
fn a_replay_reports_how_it_ended() {
    let (line, result) = replay(7, Saved::Reused, Waited::Done(Ok(())), 0);
    assert_eq!(line, "completed exit=7 saved=no reason=reused");
    assert_eq!(result.unwrap(), 7);
    let (line, result) = replay(7, Saved::Reused, Waited::Interrupted(15), 15);
    assert_eq!(line, "interrupted exit=143 saved=no reason=reused");
    assert_eq!(result.unwrap(), 143);
    let closed = Error::from_io(io(ErrorKind::BrokenPipe)).context("replay stdout");
    let (line, result) = replay(7, Saved::Reused, Waited::Done(Err(closed)), 0);
    assert_eq!(line, "output-closed exit=7 saved=no reason=reused");
    assert_eq!(result.unwrap(), 7);
    let (line, result) = replay(7, Saved::Reused, Waited::Closed, 0);
    assert_eq!(line, "failed saved=no reason=reused reason=replay-failure");
    assert_eq!(result.unwrap_err().render(), "replay worker panicked");
}

#[test]
fn a_failed_stream_is_named() {
    let fine = || (Ok(()), Ok(()));
    let text = |stdout, stderr| replay_bytes(stdout, stderr).unwrap_err().render();
    assert!(replay_bytes(fine(), fine()).is_ok());
    let failed = || Err(io(ErrorKind::Other));
    assert_eq!(text((failed(), Ok(())), fine()), "replay stdout: it broke");
    assert_eq!(text((Ok(()), failed()), fine()), "flush stdout: it broke");
    assert_eq!(text(fine(), (failed(), Ok(()))), "replay stderr: it broke");
    let closed = (Err(io(ErrorKind::BrokenPipe)), Ok(()));
    assert_eq!(text(closed, (Ok(()), failed())), "flush stderr: it broke");
}

#[test]
fn a_vote_is_added_to_those_that_were_read() {
    let mut found: Votes = [0; CODES];
    found[3] = 1;
    let mut only = request(false);
    only.include_codes = Some(vec![7]);
    let votes = vote(Ok(found), &only).unwrap();
    assert_eq!((votes[3], votes[7], votes[8]), (1, 1, 0));
    let error = vote(Err(io(ErrorKind::Other)), &only).unwrap_err();
    assert_eq!(error.render(), "read active execution policies: it broke");
}

#[test]
fn what_is_saved_is_loaded_and_nothing_else() {
    let steps = store::save(&record(5, 7, b"out")).unwrap();
    let bytes = saved_by(None, &steps).unwrap();
    let loaded = store::load(Ok(bytes.clone()), "\"r\"").unwrap().unwrap();
    assert_eq!((loaded.code, &loaded.stdout[..]), (7, &b"out"[..]));
    assert!(store::load(Err(io(ErrorKind::NotFound)), "\"r\"")
        .unwrap()
        .is_none());
    let other = b"CEXEC999 written by another version".to_vec();
    assert!(store::load(Ok(other.clone()), "\"r\"").unwrap().is_none());
    assert!(matches!(
        store::read(Ok(other), "\"r\"").unwrap(),
        Some(Stored::OtherVersion)
    ));
    let error = store::load(Err(io(ErrorKind::Other)), "\"r\"").unwrap_err();
    assert_eq!(error.render(), "read cached result \"r\": it broke");
    let mut corrupt = bytes;
    corrupt[45] ^= 1;
    assert_eq!(
        store::load(Ok(corrupt), "\"r\"").unwrap_err().render(),
        "corrupt cached result \"r\". Recovery: stop all cacheexec invocations using this cache \
         directory, remove only this .result file, then retry; keep .lock and .active files: \
         checksum mismatch"
    );
}

#[test]
fn a_save_shows_the_old_result_until_the_new_one_is_complete() {
    let record = record(5, 7, b"out");
    let steps = store::save(&record).unwrap();
    for old in [None, Some(b"old".to_vec())] {
        for done in 0..steps.len() {
            assert_eq!(saved_by(old.clone(), &steps[..done]), old);
        }
        assert_eq!(
            saved_by(old, &steps),
            Some(record::encode(&record).unwrap())
        );
    }
    let mut early = record;
    early.completed = at(0).checked_sub(Duration::from_nanos(1)).unwrap();
    assert_eq!(
        store::save(&early).unwrap_err().render(),
        "second time provided was later than self"
    );
}

#[test]
fn a_missing_result_is_gone_too() {
    assert!(store::invalidate(Ok(()), "\"r\"").is_ok());
    assert!(store::invalidate(Err(io(ErrorKind::NotFound)), "\"r\"").is_ok());
    let error = store::invalidate(Err(io(ErrorKind::Other)), "\"r\"").unwrap_err();
    assert_eq!(
        error.render(),
        "invalidate previous cached result \"r\": it broke"
    );
}

#[test]
fn an_invocation_says_once_how_it_ended() {
    let mut diagnostic = Verbose::new(true);
    assert_eq!(
        diagnostic
            .decision(
                Decision::Run(Reason::Missing),
                None,
                Duration::from_secs(3600),
                "\"/c\"",
                "k"
            )
            .unwrap(),
        "\ncacheexec: verbose: run reason=missing ttl=1h key=k cache-dir=\"/c\"\n"
    );
    assert_eq!(
        diagnostic.finish("done").unwrap(),
        "\ncacheexec: verbose: done\n"
    );
    assert_eq!(diagnostic.finish("again"), None);
    assert_eq!(diagnostic.failed(Saved::Unknown), None);
    let mut failing = Verbose::new(true);
    assert_eq!(
        failing.failed(Saved::No).unwrap(),
        "\ncacheexec: verbose: failed saved=no reason=failure\n"
    );
    let mut quiet = Verbose::new(false);
    assert_eq!(
        quiet.decision(Decision::Hit, None, Duration::from_secs(1), "d", "k"),
        None
    );
    assert_eq!(quiet.finish("done"), None);
}

#[test]
fn diagnostics_avoid_limited_files() {
    assert!(safe_destination(Some(false), None));
    assert!(safe_destination(Some(true), Some(true)));
    assert!(!safe_destination(Some(true), Some(false)));
    assert!(!safe_destination(Some(true), None));
    assert!(!safe_destination(None, Some(true)));
}

#[test]
fn diagnostics_need_a_request_and_a_safe_duplicate() {
    assert!(writes(true, true, Some(false), None));
    assert!(writes(true, true, Some(true), Some(true)));
    assert!(!writes(false, true, Some(false), None));
    assert!(!writes(true, false, Some(false), None));
    assert!(!writes(true, true, None, None));
    assert!(!writes(true, true, Some(true), Some(false)));
    let mut silent = Verbose::new(writes(true, false, None, None));
    assert_eq!(silent.failed(Saved::Unknown), None);
}

#[test]
fn output_is_saved_as_it_is_forwarded() {
    let mut saved = vec![];
    let mut forwarded = vec![];
    for read in [
        Ok(b"\xff\0".to_vec()),
        Err(io(ErrorKind::Interrupted)),
        Ok(b"out".to_vec()),
    ] {
        match capture(&mut saved, read) {
            Captured::Forward(bytes) => forwarded.extend(bytes),
            Captured::Again => {}
            _ => panic!("ended early"),
        }
    }
    assert!(matches!(capture(&mut saved, Ok(vec![])), Captured::End));
    assert_eq!(saved, b"\xff\0out");
    assert_eq!(saved, forwarded);
    let Captured::Failed(error) = capture(&mut saved, Err(io(ErrorKind::Other))) else {
        panic!("not failed");
    };
    assert_eq!(error.render(), "it broke");
}

#[test]
fn an_interrupted_look_for_the_child_finds_nothing() {
    assert!(exited_without_reaping(Ok(42)).unwrap());
    assert!(!exited_without_reaping(Ok(0)).unwrap());
    assert!(!exited_without_reaping(Err(io(ErrorKind::Interrupted))).unwrap());
    assert!(exited_without_reaping(Err(io(ErrorKind::Other))).is_err());
}

#[test]
fn a_child_is_reaped_after_its_output_and_keeps_its_completion_time() {
    let mut run: Supervisor<i32, IoError> = execute();
    let mut actions = vec![];
    // A signal arrives first; the child ends in the second round, and its
    // output one round later.
    let mut signals = vec![0, 0, 15];
    let mut probes = vec![true, false];
    let mut drained = vec![true, false];
    let mut clock = 5;
    loop {
        let action = run.action();
        actions.push(action);
        let event = match action {
            RunAction::TakePending => RunEvent::Signal(signals.pop().unwrap()),
            RunAction::Probe => RunEvent::Probed(Ok(probes.pop().unwrap())),
            RunAction::ReadClock => {
                clock += 1;
                RunEvent::Time(at(clock))
            }
            RunAction::CheckDrained => RunEvent::Drained(drained.pop().unwrap()),
            RunAction::Reap => RunEvent::Reaped(Ok(7)),
            RunAction::Forward(_) | RunAction::Pause => RunEvent::Done,
            RunAction::Finish => break,
        };
        run = run.step(event);
    }
    assert_eq!(
        actions,
        [
            RunAction::TakePending,
            RunAction::Forward(15),
            RunAction::Probe,
            RunAction::Pause,
            RunAction::TakePending,
            RunAction::Probe,
            RunAction::ReadClock,
            RunAction::CheckDrained,
            RunAction::Pause,
            RunAction::TakePending,
            RunAction::CheckDrained,
            RunAction::Reap,
            RunAction::Finish
        ]
    );
    assert_eq!(run.completed, Some(at(6)));
    assert!(matches!(run.at, Supervision::Finished(Ok(7))));
    let failed: Supervisor<i32, IoError> = execute()
        .step(RunEvent::Signal(0))
        .step(RunEvent::Probed(Err(io(ErrorKind::Other))));
    assert!(matches!(failed.at, Supervision::Finished(Err(_))));
}

fn ended(code: Option<i32>, signal: Option<i32>) -> Result<Ended, IoError> {
    Ok(Ended {
        code,
        signal,
        text: "exit status: 7".to_owned(),
    })
}

fn returned(bytes: &[u8]) -> Worker<Vec<u8>, Error> {
    Worker::Returned(Ok(bytes.to_vec()))
}

#[test]
fn an_execution_needs_a_status_both_outputs_and_a_time() {
    let time = Some(at(5));
    let done = outcome(ended(Some(7), None), 0, returned(b"o"), returned(b"e"), time).unwrap();
    assert_eq!((done.code(), done.reusable()), (7, true));
    assert_eq!(done.record().stdout, b"o");
    assert_eq!(done.record().stderr, b"e");
    let killed = outcome(ended(None, Some(15)), 0, returned(b""), returned(b""), time).unwrap();
    assert_eq!((killed.code(), killed.reusable()), (143, false));
    let trapped = outcome(ended(Some(0), None), 2, returned(b""), returned(b""), time).unwrap();
    assert_eq!((trapped.code(), trapped.reusable()), (130, false));

    let text = |status, stdout, stderr, time| {
        outcome(status, 0, stdout, stderr, time)
            .unwrap_err()
            .render()
    };
    assert_eq!(
        text(
            Err(io(ErrorKind::Other)),
            returned(b""),
            returned(b""),
            time
        ),
        "wait for child: it broke"
    );
    let failed = || Worker::Returned(Err(broken()));
    assert_eq!(
        text(ended(Some(7), None), failed(), returned(b""), time),
        "child already completed with exit status: 7; output transfer failed: it broke"
    );
    assert_eq!(
        text(ended(Some(7), None), Worker::Panicked, failed(), time),
        "child already completed with exit status: 7; output transfer failed: \
         stdout worker panicked"
    );
    assert_eq!(
        text(ended(Some(7), None), returned(b""), Worker::Panicked, time),
        "child already completed with exit status: 7; output transfer failed: \
         stderr worker panicked"
    );
    assert_eq!(
        text(ended(Some(7), None), returned(b""), returned(b""), None),
        "missing child completion time"
    );
}

#[test]
fn a_delivery_ends_with_its_writers_or_a_signal() {
    let delivery = Delivery::finish();
    assert_eq!(delivery.action(), DeliveryAction::Sample);
    let delivery = delivery.step(DeliveryEvent::Signal(0), 7);
    assert_eq!(delivery.action(), DeliveryAction::CheckWriters);
    let delivery = delivery.step(DeliveryEvent::Ended(false), 7);
    assert_eq!(delivery.action(), DeliveryAction::Pause);
    let delivery = delivery
        .step(DeliveryEvent::Paused, 7)
        .step(DeliveryEvent::Signal(0), 7)
        .step(DeliveryEvent::Ended(true), 7);
    assert_eq!(delivery.action(), DeliveryAction::Sample);
    let collect = |out, err| {
        let delivery = Delivery::finish()
            .step(DeliveryEvent::Signal(0), 7)
            .step(DeliveryEvent::Ended(true), 7)
            .step(DeliveryEvent::Signal(0), 7)
            .step(DeliveryEvent::Collected(out, err), 7);
        match delivery {
            Delivery::Finished(result) => result,
            _ => panic!("not finished"),
        }
    };
    let fine = || Worker::Returned(Ok(()));
    assert_eq!(collect(fine(), fine()).unwrap(), 7);
    assert_eq!(
        collect(fine(), Worker::Returned(Err(broken())))
            .unwrap_err()
            .render(),
        "child already completed with exit code 7; output transfer failed: it broke"
    );
    assert_eq!(
        collect(Worker::Panicked, fine()).unwrap_err().render(),
        "child already completed with exit code 7; output transfer failed: output writer panicked"
    );
    let delivery = delivery.step(DeliveryEvent::Signal(15), 7);
    assert!(matches!(delivery, Delivery::Finished(Ok(143))));
}

fn key(digit: &str) -> String {
    digit.repeat(64)
}

fn scanned() -> Scan {
    let mut scan = Scan::new();
    for name in [
        format!("{}.lock", key("b")),
        format!("{}.result", key("a")),
        "unrelated".to_owned(),
        format!("{}.active", key("b")),
        format!("{}.lock", key("0")),
    ] {
        scan = scan.entry(&name);
    }
    scan
}

/// Cleans up, with a saved result that completed at `secs` for every key that
/// is not busy, and lists what is removed.
fn cleaned(
    scan: Scan,
    age: Option<Duration>,
    secs: u64,
    busy: &str,
    fails: Option<SweepAction>,
) -> (Cleanup, Vec<String>) {
    let mut cleanup = cleanup::run(scan, age, at(100));
    let mut removed = vec![];
    loop {
        let Some(key) = cleanup.key().map(|key| key[..1].to_owned()) else {
            assert_eq!(cleanup.action(), SweepAction::Finish);
            return (cleanup, removed);
        };
        let action = cleanup.action();
        let done = if fails == Some(action) {
            Err(io(ErrorKind::Other))
        } else {
            Ok(())
        };
        let event = match action {
            SweepAction::AcquireGate => SweepEvent::Gate(Ok(true)),
            SweepAction::OpenActive => SweepEvent::Opened(if key == "b" {
                Ok(())
            } else {
                Err(io(ErrorKind::NotFound))
            }),
            SweepAction::TryActive => SweepEvent::Locked(Ok(busy != key)),
            SweepAction::Read => SweepEvent::Read(match &key[..] {
                "0" => Ok(None),
                "a" => Ok(Some(Stored::OtherVersion)),
                _ => Ok(Some(Stored::Current(record(secs, 0, b"")))),
            }),
            SweepAction::ReadModified => SweepEvent::Time(done.map(|()| at(secs))),
            SweepAction::Finish => unreachable!(),
            _ => {
                removed.push(format!("{key} {action:?}"));
                SweepEvent::Done(done)
            }
        };
        cleanup = cleanup.step(event);
    }
}

#[test]
fn cleanup_goes_through_each_key_once_in_order() {
    let (cleanup, removed) = cleaned(scanned(), None, 100, "", None);
    assert_eq!(
        removed,
        [
            "0 RemoveGate",
            "a RemoveResult",
            "a RemoveGate",
            "b RemoveAbandoned",
            "b RemoveResult",
            "b RemoveGate"
        ]
    );
    assert_eq!(
        cleanup.conclude().unwrap(),
        "removed=2 abandoned=1 skipped=0 failed=0"
    );
}

#[test]
fn cleanup_keeps_recent_results_and_busy_keys() {
    let age = Some(Duration::from_secs(5));
    let (cleanup, removed) = cleaned(scanned(), age, 95, "b", None);
    assert_eq!(removed, ["0 RemoveGate"]);
    assert_eq!(
        cleanup.conclude().unwrap(),
        "removed=0 abandoned=0 skipped=1 failed=0"
    );
    let (cleanup, _) = cleaned(scanned(), age, 94, "", None);
    assert_eq!(
        cleanup.conclude().unwrap(),
        "removed=2 abandoned=1 skipped=0 failed=0"
    );
}

#[test]
fn cleanup_reports_what_it_could_not_do() {
    let fails = Some(SweepAction::RemoveResult);
    let (cleanup, _) = cleaned(scanned().failed("unreadable"), None, 90, "", fails);
    assert_eq!(
        cleanup.conclude().unwrap_err().render(),
        format!(
            "cache cleanup partially applied (removed=0 abandoned=1 skipped=0 failed=3): \
             scan cache entry: unreadable; {}: delete cached result: it broke; \
             {}: delete cached result: it broke",
            key("a"),
            key("b")
        )
    );
    for (action, context) in [
        (SweepAction::RemoveAbandoned, "remove abandoned execution"),
        (SweepAction::ReadModified, "read result modification time"),
        (SweepAction::RemoveGate, "remove idle key lock"),
    ] {
        let (cleanup, _) = cleaned(scanned(), None, 90, "", Some(action));
        let text = cleanup.conclude().unwrap_err().render();
        assert!(text.contains(&format!(": {context}: it broke")), "{text}");
    }
}

#[test]
fn a_summary_that_nobody_reads_is_no_error() {
    assert!(print_summary(Ok(()), "removed=0").is_ok());
    assert!(print_summary(Err(io(ErrorKind::BrokenPipe)), "removed=0").is_ok());
    let error = print_summary(Err(io(ErrorKind::Other)), "removed=0").unwrap_err();
    assert_eq!(
        error.render(),
        "print cleanup summary (removed=0): it broke"
    );
    assert!(cleanup::directory(Ok(())).unwrap());
    assert!(!cleanup::directory(Err(io(ErrorKind::NotFound))).unwrap());
    let error = cleanup::directory(Err(io(ErrorKind::Other))).unwrap_err();
    assert_eq!(error.render(), "scan cache directory: it broke");
}

/// Prints a diagnostic, by a thread if one can be started. What that thread
/// writes is seen only once it is waited for.
fn printed(error: &Error, spawn: impl Fn() -> bool) -> Vec<String> {
    let mut written = vec![];
    let mut by_thread = None;
    let mut printing = print_error();
    loop {
        let carried_out = match printing.action() {
            PrintAction::Spawn => {
                let started = spawn();
                if started {
                    by_thread = Some(diagnostic(error));
                }
                started
            }
            PrintAction::WriteInline => {
                written.push(diagnostic(error));
                true
            }
            PrintAction::Wait(grace) => {
                assert_eq!(grace, error_grace());
                written.extend(by_thread.take());
                true
            }
            PrintAction::Finish => return written,
        };
        printing = printing.step(carried_out);
    }
}

#[test]
fn the_diagnostic_is_written_inline_when_no_thread_starts() {
    let written = printed(&Error::new("boom"), || false);
    assert_eq!(written, ["cacheexec: boom"]);
}

#[test]
fn the_diagnostic_thread_is_waited_for() {
    let written = printed(&Error::new("boom"), || true);
    assert_eq!(written, ["cacheexec: boom"]);
    assert_eq!(error_grace(), Duration::from_millis(200));
}

#[test]
fn tool_errors_have_their_own_exit_status() {
    assert_eq!(exit_code(&Ok(7)), 7);
    assert_eq!(exit_code(&Err(broken())), TOOL_ERROR);
    assert_eq!(TOOL_ERROR, 125);
}

#[test]
fn only_a_misplaced_command_suggests_the_separator() {
    assert!(suggests_separator(true, Some("echo")));
    assert!(suggests_separator(true, Some("")));
    assert!(!suggests_separator(true, Some("--refersh")));
    assert!(!suggests_separator(false, Some("echo")));
    assert!(!suggests_separator(true, None));
}

#[test]
fn only_an_absolute_xdg_directory_is_used() {
    let some = |s: &str| Some(s.as_bytes().to_vec());
    let directory = |xdg, home| cache_directory(xdg, home);
    assert_eq!(
        directory(some("/x"), some("/h")).unwrap(),
        b"/x/cacheexec"
    );
    assert_eq!(
        directory(some("x"), some("/h")).unwrap(),
        b"/h/.cache/cacheexec"
    );
    assert_eq!(
        directory(some("x"), None).unwrap_err().render(),
        "neither an absolute XDG_CACHE_HOME nor HOME is set; supply --cache-dir"
    );
}
