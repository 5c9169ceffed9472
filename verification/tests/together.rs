use cacheexec::domain::execution::{Outcome, Saving, Votes, CODES};
use cacheexec::domain::message::Saved;
use cacheexec::domain::policy::Request;
use cacheexec::domain::record::{self, Record};
use cacheexec::domain::shared::TAG_OFFSET;
use cacheexec::error::{Error, ErrorKind, IoError};
use cacheexec::shell::active::{commit, stage, Change, Step};
use cacheexec::shell::cleanup::{self, Scan, SweepAction, SweepEvent};
use cacheexec::shell::owner::{own, Owner, OwnerAction, OwnerEvent};
use cacheexec::shell::sharing::{
    join, run, vote, Caller, CallerAction, CallerEvent, JoinAction, JoinEvent, Joiner, Next,
};
use cacheexec::shell::store::SaveStep;
use cacheexec::time::{Duration, SystemTime};

/// The files of one key, and whether the execution's file is linked and locked.
struct Key {
    file: Vec<u8>,
    linked: bool,
    locked: bool,
    result: Option<Vec<u8>>,
}

fn at(secs: u64) -> SystemTime {
    SystemTime::unix_epoch()
        .checked_add(Duration::from_secs(secs))
        .unwrap()
}

fn request(include_codes: Vec<u8>) -> Request {
    Request {
        command: vec![b"true".to_vec()],
        ttl: Duration::from_secs(5),
        refresh: false,
        include_codes: Some(include_codes),
        exclude_codes: None,
    }
}

fn votes(key: &Key) -> Votes {
    let mut votes = [0; CODES];
    votes.copy_from_slice(&key.file[..CODES]);
    votes
}

fn write(key: &mut Key, step: &Step) {
    match &step.change {
        Change::SetLen(len) => key.file.resize(*len as usize, 0),
        Change::Write { offset, bytes } => {
            let (start, end) = (*offset as usize, *offset as usize + bytes.len());
            if key.file.len() < end {
                key.file.resize(end, 0);
            }
            key.file[start..end].copy_from_slice(bytes);
        }
    }
}

/// A whole call, with nobody else taking a step in between.
fn call(key: &mut Key, request: &Request) -> Next<Record, String, Error> {
    let mut caller = run();
    loop {
        let event = match caller.action() {
            CallerAction::AcquireGate => CallerEvent::Gate(Ok(true)),
            CallerAction::OpenActive => CallerEvent::Opened(if key.linked {
                Ok(())
            } else {
                Err(IoError {
                    kind: ErrorKind::NotFound,
                    text: String::new(),
                })
            }),
            CallerAction::TryActive | CallerAction::TryNew => {
                let free = !key.locked;
                key.locked = true;
                CallerEvent::Locked(Ok(free))
            }
            CallerAction::RemoveAbandoned => {
                (key.linked, key.locked) = (false, false);
                CallerEvent::Filed(Ok(()))
            }
            CallerAction::Load => CallerEvent::Loaded {
                saved: Ok(key
                    .result
                    .as_ref()
                    .map(|bytes| record::decode(bytes).unwrap())),
                now: at(7),
            },
            CallerAction::Invalidate => {
                key.result = None;
                CallerEvent::Done(Ok(()))
            }
            CallerAction::CreateActive => {
                assert!(!key.linked);
                (key.linked, key.locked) = (true, false);
                key.file = vec![];
                CallerEvent::Filed(Ok(()))
            }
            CallerAction::WriteNew(bytes) => {
                key.file = bytes;
                CallerEvent::Filed(Ok(()))
            }
            CallerAction::Vote => {
                let cast = vote(Ok(votes(key)), request).unwrap();
                key.file[..CODES].copy_from_slice(&cast);
                CallerEvent::Done(Ok(()))
            }
            CallerAction::UnlockGate | CallerAction::Announce { .. } => CallerEvent::Done(Ok(())),
            CallerAction::Sample => unreachable!(),
            CallerAction::Finish => match caller {
                Caller::Finished(next) => return next,
                _ => unreachable!(),
            },
        };
        caller = caller.step(event, request, "\"a\"");
    }
}

/// Executes and publishes a command that ends with `code`.
fn execute(key: &mut Key, code: i32) -> i32 {
    let mut owner = own();
    loop {
        let event = match owner.action() {
            OwnerAction::Execute => OwnerEvent::Executed(Ok(Outcome::new(
                at(5),
                Some(code),
                None,
                0,
                b"out".to_vec(),
                vec![],
            ))),
            OwnerAction::ReadVotes => OwnerEvent::Votes(Ok(votes(key))),
            OwnerAction::Sample | OwnerAction::Seal => OwnerEvent::Signal(0),
            OwnerAction::Save(steps) => {
                let mut temporary = vec![];
                for step in steps {
                    match step {
                        SaveStep::CreateTemporary | SaveStep::Sync => {}
                        SaveStep::Write(bytes) => temporary = bytes,
                        SaveStep::Rename => key.result = Some(temporary.clone()),
                    }
                }
                OwnerEvent::Done(Ok(()))
            }
            OwnerAction::Stage(detail) => {
                for step in &stage(detail) {
                    write(key, step);
                }
                OwnerEvent::Done(Ok(()))
            }
            OwnerAction::RemoveMarker => {
                key.linked = false;
                OwnerEvent::Removed(Ok(()))
            }
            OwnerAction::Commit => {
                write(key, &commit());
                OwnerEvent::Done(Ok(()))
            }
            OwnerAction::UnlockActive => {
                key.locked = false;
                OwnerEvent::Done(Ok(()))
            }
            OwnerAction::LockGate | OwnerAction::UnlockGate => OwnerEvent::Done(Ok(())),
            OwnerAction::Deliver(code) => OwnerEvent::Delivered {
                result: Ok(code),
                signal: 0,
            },
            OwnerAction::Finish => match owner {
                Owner::Finished { result, .. } => return result.unwrap(),
                _ => unreachable!(),
            },
            _ => panic!("the execution failed"),
        };
        owner = owner.step(event, "\"r\"");
    }
}

fn wait(key: &Key) -> Next<Record, String, Error> {
    let mut joiner = join();
    loop {
        let event = match joiner.action() {
            JoinAction::Lock => JoinEvent::Locked(Ok(!key.locked)),
            JoinAction::Read => JoinEvent::Read(Ok(key.file[TAG_OFFSET as usize..].to_vec())),
            JoinAction::Unlock => JoinEvent::Unlocked(Ok(())),
            JoinAction::Sample => unreachable!(),
            JoinAction::Finish => match joiner {
                Joiner::Finished(next) => return next,
                _ => unreachable!(),
            },
        };
        joiner = joiner.step(event);
    }
}

fn new_key() -> Key {
    Key {
        file: vec![],
        linked: false,
        locked: false,
        result: None,
    }
}

#[test]
fn one_execution_serves_all_and_any_of_them_can_have_it_saved() {
    let mut key = new_key();
    assert!(matches!(call(&mut key, &request(vec![0])), Next::Own));
    assert!(matches!(call(&mut key, &request(vec![7])), Next::Join));
    assert!(matches!(call(&mut key, &request(vec![1])), Next::Join));
    assert_eq!(execute(&mut key, 7), 7);
    for _ in 0..2 {
        let Next::Replay { record, saved } = wait(&key) else {
            panic!("nothing to replay");
        };
        assert_eq!((record.code, &record.stdout[..]), (7, &b"out"[..]));
        assert_eq!(saved, Saved::Execution(Saving::Saved));
    }
    assert!(matches!(
        call(&mut key, &request(vec![7])),
        Next::Replay {
            saved: Saved::Reused,
            ..
        }
    ));
    assert!(matches!(call(&mut key, &request(vec![0])), Next::Own));
}

#[test]
fn an_abandoned_execution_is_reclaimed_by_the_next_call() {
    let mut key = new_key();
    assert!(matches!(call(&mut key, &request(vec![0])), Next::Own));
    // The owner dies, and its locks end with it.
    key.locked = false;
    assert!(matches!(
        wait(&key),
        Next::Return { result: Err(_), .. }
    ));
    assert!(matches!(call(&mut key, &request(vec![0])), Next::Own));
    assert_eq!(execute(&mut key, 0), 0);
    assert!(key.result.is_some());
}

#[test]
fn a_cleanup_skips_a_key_whose_command_is_executed() {
    let mut key = new_key();
    assert!(matches!(call(&mut key, &request(vec![0])), Next::Own));
    let scan = Scan::new().entry(&format!("{}.active", "a".repeat(64)));
    let mut cleanup = cleanup::run(scan, None, at(9));
    while cleanup.key().is_some() {
        let event = match cleanup.action() {
            SweepAction::AcquireGate => SweepEvent::Gate(Ok(true)),
            SweepAction::OpenActive => {
                assert!(key.linked);
                SweepEvent::Opened(Ok(()))
            }
            SweepAction::TryActive => SweepEvent::Locked(Ok(!key.locked)),
            action => panic!("{action:?}"),
        };
        cleanup = cleanup.step(event);
    }
    assert_eq!(
        cleanup.conclude().unwrap(),
        "removed=0 abandoned=0 skipped=1 failed=0"
    );
}
