use cacheexec::domain::cleanup::{disposal, old_enough, summary_line, Disposal};
use cacheexec::domain::delivery::{
    classify, delivery_result, output_closed, reader_closed, Ending,
};
use cacheexec::domain::execution::{
    add_vote, is_reportable, signal_code, Outcome, Saving, Votes, CODES,
};
use cacheexec::domain::key::{key, key_bytes};
use cacheexec::domain::location::{
    absolute_only, default_cache_dir, entry_names, key_of_entry,
};
use cacheexec::domain::message::{
    decision, decision_with, failed, finished, interrupted, Age, Decision, Failure, Saved, Wait,
};
use cacheexec::domain::policy::{Reason, Request};
use cacheexec::domain::record::{self, other_version, Record, RecordError};
use cacheexec::domain::shared::{
    completed_detail, failure_detail, parse, pending, Published, COMPLETED, DETAIL_OFFSET, FAILED,
    PENDING, TAG_OFFSET,
};
use cacheexec::error::{Error, ErrorKind, IoError};
use cacheexec::time::{Duration, SystemTime};

fn at(secs: u64) -> SystemTime {
    SystemTime::unix_epoch()
        .checked_add(Duration::from_secs(secs))
        .unwrap()
}

fn later(time: SystemTime, span: Duration) -> SystemTime {
    time.checked_add(span).unwrap()
}

fn sooner(time: SystemTime, span: Duration) -> SystemTime {
    time.checked_sub(span).unwrap()
}

fn request(include_codes: Option<Vec<u8>>, exclude_codes: Option<Vec<u8>>) -> Request {
    Request {
        command: vec![b"true".to_vec()],
        ttl: Duration::from_secs(5),
        refresh: false,
        include_codes,
        exclude_codes,
    }
}

fn outcome(exit_code: Option<i32>, exit_signal: Option<i32>, interrupted: i32) -> Outcome {
    Outcome::new(
        SystemTime::unix_epoch(),
        exit_code,
        exit_signal,
        interrupted,
        vec![],
        vec![],
    )
}

fn record(completed: SystemTime, code: i32, stdout: &[u8], stderr: &[u8]) -> Record {
    Record {
        completed,
        code,
        stdout: stdout.to_vec(),
        stderr: stderr.to_vec(),
    }
}

fn hit_boundary() {
    let record = record(at(100), 0, b"", b"");
    let ttl = Duration::from_secs(5);
    assert!(record.fresh(ttl, later(record.completed, ttl)));
    assert!(!record.fresh(
        ttl,
        later(later(record.completed, ttl), Duration::from_nanos(1))
    ));
    assert!(!record.fresh(ttl, SystemTime::unix_epoch()));
}

#[test]
fn cache_ttl_boundary_and_future_clock() {
    hit_boundary();
}

#[test]
fn record_ttl_boundary_and_future_clock() {
    hit_boundary();
}

#[test]
fn cleanup_strict_completion_age_boundary() {
    let completed = at(100);
    let age = Duration::from_secs(5);
    assert!(!old_enough(completed, Some(age), later(completed, age)));
    assert!(old_enough(
        completed,
        Some(age),
        later(later(completed, age), Duration::from_nanos(1))
    ));
    assert!(!old_enough(completed, Some(age), SystemTime::unix_epoch()));
    assert!(old_enough(completed, None, SystemTime::unix_epoch()));
}

#[test]
fn a_key_without_a_result_loses_only_its_lock_file() {
    let now = at(100);
    let age = Some(Duration::from_secs(5));
    assert_eq!(disposal(None, age, now), Disposal::Gate);
    assert_eq!(
        disposal(Some(sooner(now, Duration::from_secs(6))), age, now),
        Disposal::ResultAndGate
    );
    assert_eq!(
        disposal(Some(sooner(now, Duration::from_secs(5))), age, now),
        Disposal::Keep
    );
}

#[test]
fn a_summary_lists_all_counts() {
    assert_eq!(
        summary_line(10, 0, 3, 256),
        "removed=10 abandoned=0 skipped=3 failed=256"
    );
}

fn write_failed(kind: ErrorKind) -> Result<(), Error> {
    Err(Error::from_io(IoError {
        kind,
        text: "failed".to_owned(),
    })
    .context("write"))
}

fn closed_readers() {
    let closed = || write_failed(ErrorKind::BrokenPipe);
    let other = || write_failed(ErrorKind::Other);
    let is_closed = |result: Result<(), Error>| output_closed(&result.unwrap_err());
    assert!(delivery_result(Ok(()), Ok(())).is_ok());
    assert!(is_closed(delivery_result(closed(), Ok(()))));
    assert!(is_closed(delivery_result(Ok(()), closed())));
    assert!(is_closed(delivery_result(closed(), closed())));
    assert!(!is_closed(delivery_result(closed(), other())));
    assert!(!is_closed(delivery_result(other(), closed())));
    assert!(!is_closed(delivery_result(Ok(()), other())));
}

#[test]
fn delivery_a_closed_reader_never_hides_another_failure() {
    closed_readers();
}

#[test]
fn runner_a_closed_reader_never_hides_another_failure() {
    closed_readers();
}

#[test]
fn only_a_broken_pipe_is_a_closed_reader() {
    for (kind, closed) in [
        (ErrorKind::BrokenPipe, true),
        (ErrorKind::NotFound, false),
        (ErrorKind::WouldBlock, false),
        (ErrorKind::Interrupted, false),
        (ErrorKind::Other, false),
    ] {
        let text = String::new();
        assert_eq!(reader_closed(&IoError { kind, text }), closed);
    }
    assert!(!output_closed(&Error::new("Broken pipe")));
}

#[test]
fn a_closed_reader_keeps_the_code_of_the_command() {
    let closed = || write_failed(ErrorKind::BrokenPipe).map(|()| 0);
    let other = || write_failed(ErrorKind::Other).map(|()| 0);
    assert_eq!(
        classify(Ok(3), 3, 0, false).unwrap(),
        (3, Ending::Completed)
    );
    assert_eq!(
        classify(Ok(143), 143, 0, true).unwrap(),
        (143, Ending::Interrupted)
    );
    assert_eq!(
        classify(closed(), 3, 0, false).unwrap(),
        (3, Ending::OutputClosed)
    );
    assert_eq!(
        classify(closed(), 143, 0, true).unwrap(),
        (143, Ending::Interrupted)
    );
    assert_eq!(
        classify(closed(), 3, 15, false).unwrap(),
        (143, Ending::Interrupted)
    );
    assert_eq!(
        classify(Ok(3), 3, 2, false).unwrap(),
        (130, Ending::Interrupted)
    );
    let error = classify(other(), 3, 15, false).unwrap_err();
    assert_eq!(error.render(), "write: failed");
}

#[test]
fn a_received_signal_overrides_how_the_child_ended() {
    let normal = outcome(Some(7), None, 0);
    assert_eq!((normal.code(), normal.reusable()), (7, true));
    let killed = outcome(None, Some(9), 0);
    assert_eq!((killed.code(), killed.reusable()), (137, false));
    let interrupted = outcome(Some(7), None, 15);
    assert_eq!((interrupted.code(), interrupted.reusable()), (143, false));
}

#[test]
fn a_child_without_a_code_or_a_signal_counts_as_signalled() {
    let lost = outcome(None, None, 0);
    assert_eq!((lost.code(), lost.reusable()), (128, false));
    assert_eq!(signal_code(2), 130);
    assert!(is_reportable(64) && is_reportable(i32::MAX - 128));
    assert!(!is_reportable(i32::MAX - 127));
}

#[test]
fn saving_follows_the_merged_votes() {
    let request = |include_codes| Request {
        command: vec![b"true".to_vec()],
        ttl: Duration::from_secs(0),
        refresh: false,
        include_codes,
        exclude_codes: None,
    };
    let mut votes: Votes = [0; 256];
    add_vote(&mut votes, &request(Some(vec![0])));
    add_vote(&mut votes, &request(Some(vec![7])));
    assert_eq!(
        Saving::of(&outcome(Some(0), None, 0), &votes),
        Saving::Saved
    );
    assert_eq!(
        Saving::of(&outcome(Some(7), None, 0), &votes),
        Saving::Saved
    );
    assert_eq!(
        Saving::of(&outcome(Some(1), None, 0), &votes),
        Saving::Excluded
    );
    assert_eq!(
        Saving::of(&outcome(Some(0), None, 2), &votes),
        Saving::Interrupted
    );
    // Codes outside 0..=255 have no vote and are never saved.
    for code in [-1, 256] {
        assert_eq!(
            Saving::of(&outcome(Some(code), None, 0), &[1; CODES]),
            Saving::Excluded
        );
    }
}

#[test]
fn votes_only_add_up() {
    let mut once: Votes = [0; CODES];
    add_vote(&mut once, &request(None, Some(vec![1, 255])));
    let mut twice = once;
    add_vote(&mut twice, &request(None, Some(vec![1, 255])));
    assert_eq!(once, twice);
    for code in 0..CODES {
        assert_eq!(once[code], u8::from(code != 1 && code != 255));
    }
    let mut forward = once;
    add_vote(&mut forward, &request(Some(vec![1]), None));
    let mut backward: Votes = [0; CODES];
    add_vote(&mut backward, &request(Some(vec![1]), None));
    add_vote(&mut backward, &request(None, Some(vec![1, 255])));
    assert_eq!(forward, backward);
    assert_eq!((forward[1], forward[255]), (1, 0));
}

#[test]
fn interrupting_reports_only_observable_changes() {
    let mut outcome = outcome(Some(7), None, 0);
    assert!(outcome.interrupt(15));
    assert_eq!((outcome.code(), outcome.reusable()), (143, false));
    assert!(!outcome.interrupt(15));
    assert!(outcome.interrupt(2));
    assert_eq!(outcome.code(), 130);
    assert!(!outcome.interrupt(0));
    assert_eq!(outcome.code(), 130);
}

#[test]
fn interrupting_a_reusable_result_with_its_own_code_is_a_change() {
    // The child exited 143 by itself, so only reusability changes.
    let mut exited = outcome(Some(143), None, 0);
    assert!(exited.interrupt(15));
    assert_eq!((exited.code(), exited.reusable()), (143, false));
    // Killed by the same signal, the child's result is already final.
    let mut killed = outcome(None, Some(15), 0);
    assert!(!killed.interrupt(15));
}

#[test]
fn saving_statuses_survive_their_bytes() {
    for (saving, byte, text) in [
        (Saving::Saved, 1, "yes"),
        (Saving::Excluded, 2, "no reason=participant-policy"),
        (Saving::Interrupted, 3, "no reason=interrupted"),
    ] {
        assert_eq!(saving.code(), byte);
        assert_eq!(Saving::decode(byte).unwrap(), saving);
        assert_eq!(saving.describe(), text);
    }
    for byte in [0, 4, 255] {
        let error = Saving::decode(byte).unwrap_err();
        assert_eq!(error.render(), "invalid shared saving status");
    }
}

#[test]
fn xdg_cache_home_wins_and_empty_values_are_unset() {
    let some = |s: &str| Some(s.as_bytes().to_vec());
    assert_eq!(
        default_cache_dir(some("/x"), some("/h")),
        some("/x/cacheexec")
    );
    assert_eq!(
        default_cache_dir(some(""), some("/h")),
        some("/h/.cache/cacheexec")
    );
    assert_eq!(default_cache_dir(some("/x"), None), some("/x/cacheexec"));
    assert_eq!(default_cache_dir(None, some("")), None);
    assert_eq!(default_cache_dir(None, None), None);
}

#[test]
fn a_relative_xdg_cache_home_is_unset() {
    let some = |s: &str| Some(s.as_bytes().to_vec());
    assert_eq!(
        default_cache_dir(some("rel"), some("/h")),
        some("/h/.cache/cacheexec")
    );
    assert_eq!(default_cache_dir(some("rel"), None), None);
    assert_eq!(
        default_cache_dir(None, some("h")),
        some("h/.cache/cacheexec")
    );
}

#[test]
fn a_directory_is_joined_with_one_separator() {
    let some = |s: &str| Some(s.as_bytes().to_vec());
    assert_eq!(default_cache_dir(some("/x/"), None), some("/x/cacheexec"));
    assert_eq!(
        default_cache_dir(None, some("/")),
        some("/.cache/cacheexec")
    );
    assert_eq!(absolute_only(some("/x")), some("/x"));
    assert_eq!(absolute_only(some("x/y")), None);
    assert_eq!(absolute_only(some("")), None);
    assert_eq!(absolute_only(None), None);
}

#[test]
fn only_lowercase_sha256_keys_with_known_extensions_are_entries() {
    let key = "0123456789abcdef".repeat(4);
    for extension in ["result", "active", "lock"] {
        assert_eq!(key_of_entry(&format!("{key}.{extension}")), Some(&key[..]));
    }
    assert_eq!(key_of_entry(&format!("{key}.tmp")), None);
    assert_eq!(key_of_entry(&format!("{}.lock", key.to_uppercase())), None);
    assert_eq!(key_of_entry(&format!("{}.lock", &key[1..])), None);
    assert_eq!(key_of_entry(&format!("{}.lock", "g".repeat(64))), None);
    assert_eq!(key_of_entry(&key), None);
}

#[test]
fn names_that_only_look_like_entries_are_passed_over() {
    let key = "0123456789abcdef".repeat(4);
    assert_eq!(key_of_entry(""), None);
    assert_eq!(key_of_entry(&format!("{key}.lock.result")), None);
    assert_eq!(key_of_entry(&format!("{key}lock")), None);
    assert_eq!(key_of_entry(&format!("{}é.lock", &key[2..])), None);
}

#[test]
fn keys_tell_arguments_directories_and_extra_keys_apart() {
    let argv = |args: &[&str]| -> Vec<Vec<u8>> {
        args.iter().map(|arg| arg.as_bytes().to_vec()).collect()
    };
    let first = key(&argv(&["echo", "a b", "c"]), b"/tmp", None);
    assert_eq!(
        first,
        "41ab381476676f731876bcf7808ef4792c2d819116ff57979f10dbd58fab579b"
    );
    assert_eq!(
        key(&argv(&["echo", "a", "b c"]), b"/tmp", None),
        "24dff48b9fe96eae4eb4ca46f62e7fa76a8efebd845676c7718d80417f65ee82"
    );
    assert_eq!(
        key(&argv(&["echo", "a b", "c"]), b"/tmp", Some(b"x")),
        "8a726ff28c3d9c6499b7498bb2d29330cc611e02ec25aa2d93ae4e05c75280c0"
    );
    assert_ne!(key(&argv(&["echo", "a b", "c"]), b"/", None), first);
    assert_ne!(key(&argv(&["echo", "a b", "c"]), b"/tmp", Some(b"")), first);
    assert_eq!(key_of_entry(&format!("{first}.result")), Some(&first[..]));
}

#[test]
fn the_entries_of_a_key_are_found_to_be_its_own() {
    let key = key(&[b"ls".to_vec()], b"/", None);
    let (lock, active, result) = entry_names(&key);
    assert_eq!(lock, format!("{key}.lock"));
    assert_eq!(active, format!("{key}.active"));
    assert_eq!(result, format!("{key}.result"));
    for name in [lock, active, result] {
        assert_eq!(key_of_entry(&name), Some(&key[..]));
    }
}

#[test]
fn what_is_hashed_has_the_length_of_every_field() {
    let bytes = key_bytes(&[b"ls".to_vec()], b"/", Some(b"k"));
    let mut expected = b"cacheexec-key-v1".to_vec();
    expected.extend([1, 0, 0, 0, 0, 0, 0, 0, b'/']);
    expected.extend([8, 0, 0, 0, 0, 0, 0, 0, 1, 0, 0, 0, 0, 0, 0, 0]);
    expected.extend([2, 0, 0, 0, 0, 0, 0, 0, b'l', b's']);
    expected.extend([1, 0, 0, 0, 0, 0, 0, 0, 1]);
    expected.extend([1, 0, 0, 0, 0, 0, 0, 0, b'k']);
    assert_eq!(bytes, expected);
}

#[test]
fn a_decision_shows_a_future_result_as_a_negative_age() {
    let seconds = format!("{}", std::time::Duration::from_millis(1500).as_secs_f64());
    let line = |age| decision(Decision::Hit, age, Duration::from_secs(300), "\"/c\"", "k");
    assert_eq!(
        line(Some(Age::Past(seconds.clone()))),
        r#"hit age=1.5s ttl=5m key=k cache-dir="/c""#
    );
    assert_eq!(
        line(Some(Age::Future(seconds))),
        r#"hit age=-1.5s ttl=5m key=k cache-dir="/c""#
    );
    assert_eq!(line(None), r#"hit ttl=5m key=k cache-dir="/c""#);
    assert_eq!(
        decision(
            Decision::Run(Reason::Missing),
            None,
            Duration::from_secs(1),
            "\"/c\"",
            "k"
        ),
        r#"run reason=missing ttl=1s key=k cache-dir="/c""#
    );
}

#[test]
fn every_decision_and_reason_has_its_text() {
    for (decision, text) in [
        (Decision::Join, "join"),
        (Decision::Run(Reason::Refresh), "run reason=refresh"),
        (
            Decision::Run(Reason::FutureTimestamp),
            "run reason=future-timestamp",
        ),
        (Decision::Run(Reason::Expired), "run reason=expired"),
        (Decision::Run(Reason::Policy), "run reason=policy"),
    ] {
        assert_eq!(
            decision_with(decision, None, "TTL", "DIR", "KEY"),
            format!("{text} ttl=TTL key=KEY cache-dir=DIR")
        );
    }
    let line = decision(
        Decision::Join,
        None,
        Duration::new(5400, 500_000_000),
        "d",
        "k",
    );
    assert_eq!(line, "join ttl=1h 30m 500ms key=k cache-dir=d");
}

#[test]
fn endings_saved_statuses_and_failures_have_their_labels() {
    assert_eq!(
        finished(Ending::OutputClosed, 7, Saved::Execution(Saving::Excluded)),
        "output-closed exit=7 saved=no reason=participant-policy"
    );
    assert_eq!(
        finished(
            Ending::Interrupted,
            143,
            Saved::Execution(Saving::Interrupted)
        ),
        "interrupted exit=143 saved=no reason=interrupted"
    );
    assert_eq!(
        finished(Ending::Completed, 0, Saved::Reused),
        "completed exit=0 saved=no reason=reused"
    );
    assert_eq!(
        failed(Saved::Execution(Saving::Saved), Failure::Delivery),
        "failed saved=yes reason=delivery-failure"
    );
    assert_eq!(
        failed(Saved::Reused, Failure::Replay),
        "failed saved=no reason=reused reason=replay-failure"
    );
    assert_eq!(
        failed(Saved::after_failure(true), Failure::Execution),
        "failed saved=no reason=failure"
    );
    assert_eq!(
        failed(Saved::after_failure(false), Failure::Execution),
        "failed saved=unknown reason=failure"
    );
    assert_eq!(
        interrupted(130, Wait::Execution),
        "interrupted exit=130 saved=unknown reason=waiter-interrupted"
    );
    assert_eq!(
        interrupted(130, Wait::Key),
        "interrupted exit=130 saved=unknown reason=interrupted"
    );
}

#[test]
fn only_an_interrupted_execution_labels_its_deliveries_interrupted() {
    assert!(Saved::Execution(Saving::Interrupted).interrupted());
    for saved in [
        Saved::Execution(Saving::Saved),
        Saved::Execution(Saving::Excluded),
        Saved::Reused,
        Saved::No,
        Saved::Unknown,
    ] {
        assert!(!saved.interrupted());
    }
}

#[test]
fn codes_may_be_negative_in_a_line() {
    assert_eq!(
        finished(Ending::Completed, i32::MIN, Saved::Unknown),
        "completed exit=-2147483648 saved=unknown"
    );
}

#[test]
fn only_another_three_digit_version_is_another_format() {
    assert!(!other_version(b"CEXEC001"));
    assert!(other_version(b"CEXEC002"));
    assert!(other_version(b"CEXEC999 and more"));
    for bytes in [&b"CEXEC00x"[..], b"CEXEC00", b"cexec002", b"XEXEC002"] {
        assert!(!other_version(bytes), "{bytes:?}");
    }
}

fn reason_priority() {
    let now = at(100);
    for refresh in [false, true] {
        for missing in [false, true] {
            for future in [false, true] {
                for expired in [false, true] {
                    for excluded in [false, true] {
                        let request = Request {
                            command: vec![b"true".to_vec()],
                            ttl: Duration::from_secs(5),
                            refresh,
                            include_codes: None,
                            exclude_codes: excluded.then_some(vec![0]),
                        };
                        let record = record(
                            if future {
                                later(now, Duration::from_secs(1))
                            } else if expired {
                                sooner(now, Duration::from_secs(6))
                            } else {
                                sooner(now, Duration::from_secs(5))
                            },
                            0,
                            b"",
                            b"",
                        );
                        let expected = if refresh {
                            Some("refresh")
                        } else if missing {
                            Some("missing")
                        } else if future {
                            Some("future-timestamp")
                        } else if expired {
                            Some("expired")
                        } else if excluded {
                            Some("policy")
                        } else {
                            None
                        };
                        assert_eq!(
                            request
                                .reason((!missing).then_some(&record), now)
                                .map(|reason| reason.text()),
                            expected
                        );
                    }
                }
            }
        }
    }
}

#[test]
fn request_reason_priority_and_ttl_boundary() {
    reason_priority();
}

#[test]
fn verbose_reason_priority_and_ttl_boundary() {
    reason_priority();
}

#[test]
fn each_policy_selects_its_codes() {
    let all = request(None, None);
    assert!(all.allows(0) && all.allows(255));
    assert!(!all.allows(-1) && !all.allows(256));
    let only = request(Some(vec![0, 1]), None);
    assert!(only.allows(0) && only.allows(1) && !only.allows(2));
    let except = request(None, Some(vec![2, 3]));
    assert!(except.allows(0) && !except.allows(2) && !except.allows(3));
    assert!(!request(Some(vec![]), None).allows(0));
}

#[test]
fn a_zero_limit_reuses_only_at_the_same_instant() {
    let mut request = request(None, None);
    request.ttl = Duration::from_secs(0);
    let record = record(at(100), 0, b"", b"");
    assert_eq!(request.reason(Some(&record), at(100)), None);
    assert_eq!(
        request.reason(Some(&record), later(at(100), Duration::from_nanos(1))),
        Some(Reason::Expired)
    );
}

fn stored() -> (Record, Vec<u8>) {
    let record = record(
        later(at(1), Duration::from_millis(500)),
        7,
        b"out",
        b"er",
    );
    let mut bytes = b"CEXEC001".to_vec();
    bytes.extend(1_500_000_000_u128.to_le_bytes());
    bytes.extend(7_i32.to_le_bytes());
    bytes.extend(3_u64.to_le_bytes());
    bytes.extend(2_u64.to_le_bytes());
    bytes.extend(b"outer");
    (record, bytes)
}

#[test]
fn a_result_is_stored_with_its_digest() {
    let (record, mut bytes) = stored();
    assert_eq!(record::encode_body(&record).unwrap(), bytes);
    bytes.extend([
        0xb3, 0xb3, 0x03, 0x90, 0x15, 0x45, 0x40, 0x1a, 0x49, 0x28, 0x3c, 0xd4, 0x11, 0x36, 0x93,
        0x1b, 0x07, 0x12, 0x24, 0xc8, 0x14, 0xfb, 0x63, 0x8c, 0xbd, 0xdc, 0x26, 0xa0, 0xb8, 0x05,
        0xfd, 0x91,
    ]);
    assert_eq!(record::encode(&record).unwrap(), bytes);
    let read = record::decode(&bytes).unwrap();
    assert_eq!(read.completed, record.completed);
    assert_eq!(read.code, 7);
    assert_eq!((&read.stdout[..], &read.stderr[..]), (&b"out"[..], &b"er"[..]));
}

#[test]
fn a_stored_result_survives_any_output() {
    for (stdout, stderr) in [(&b""[..], &b""[..]), (b"\xff\0out", b"\xfeerr"), (b"", b"x")] {
        let record = record(at(7), 255, stdout, stderr);
        let read = record::decode(&record::encode(&record).unwrap()).unwrap();
        assert_eq!((&read.stdout[..], &read.stderr[..]), (stdout, stderr));
        assert_eq!((read.code, read.completed), (255, at(7)));
    }
}

#[test]
fn bytes_that_are_no_result_have_their_errors() {
    let digest = [9; 32];
    let with_digest = |body: &[u8]| {
        let mut bytes = body.to_vec();
        bytes.extend(digest);
        record::decode_with(&bytes, &digest).unwrap_err()
    };
    let (_, body) = stored();
    assert_eq!(
        record::decode(b"").unwrap_err(),
        RecordError::InvalidHeader
    );
    assert_eq!(with_digest(&body[..43]), RecordError::InvalidHeader);
    let mut version = body.clone();
    version[7] = b'2';
    assert_eq!(with_digest(&version), RecordError::InvalidHeader);
    let mut bytes = body.clone();
    bytes.extend([8; 32]);
    assert_eq!(
        record::decode_with(&bytes, &digest).unwrap_err(),
        RecordError::ChecksumMismatch
    );
    assert_eq!(
        record::decode(&bytes).unwrap_err(),
        RecordError::ChecksumMismatch
    );
    let mut time = body.clone();
    time[8..24].copy_from_slice(&u128::MAX.to_le_bytes());
    assert_eq!(with_digest(&time), RecordError::OutOfRange);
    time[8..24].copy_from_slice(&(u128::from(u64::MAX) * 1_000_000_000).to_le_bytes());
    assert_eq!(with_digest(&time), RecordError::InvalidTimestamp);
    for code in [-1_i32, 256] {
        let mut codes = body.clone();
        codes[24..28].copy_from_slice(&code.to_le_bytes());
        assert_eq!(with_digest(&codes), RecordError::InvalidExitCode);
    }
    for lengths in [(3_u64, 3_u64), (u64::MAX, 6)] {
        let mut cut = body.clone();
        cut[28..36].copy_from_slice(&lengths.0.to_le_bytes());
        cut[36..44].copy_from_slice(&lengths.1.to_le_bytes());
        assert_eq!(with_digest(&cut), RecordError::InvalidLengths);
    }
}

#[test]
fn a_completion_before_the_epoch_cannot_be_stored() {
    let record = record(
        sooner(at(0), Duration::from_nanos(1)),
        0,
        b"",
        b"",
    );
    let error = record::encode(&record).unwrap_err();
    assert_eq!(error, RecordError::BeforeEpoch);
    assert_eq!(error.text(), "second time provided was later than self");
    assert!(completed_detail(Saving::Saved, &record).is_err());
}

#[test]
fn a_new_execution_is_pending_after_its_votes() {
    let bytes = pending();
    assert_eq!(bytes.len() as u64, DETAIL_OFFSET);
    assert!(matches!(
        parse(&bytes[TAG_OFFSET as usize..]).unwrap(),
        Published::Unfinished
    ));
}

#[test]
fn a_completed_result_round_trips() {
    let record = record(SystemTime::unix_epoch(), 7, b"out", b"err");
    let mut bytes = vec![COMPLETED];
    bytes.extend(completed_detail(Saving::Excluded, &record).unwrap());
    let Published::Completed { saving, record } = parse(&bytes).unwrap() else {
        panic!("not completed");
    };
    assert_eq!(saving, Saving::Excluded);
    assert_eq!((record.code, &record.stdout[..]), (7, &b"out"[..]));
}

#[test]
fn a_failure_round_trips() {
    for invalidated in [false, true] {
        let mut bytes = vec![FAILED];
        bytes.extend(failure_detail(invalidated, "disk full"));
        let Published::Failed {
            invalidated: parsed,
            message,
        } = parse(&bytes).unwrap()
        else {
            panic!("not failed");
        };
        assert_eq!((parsed, &message[..]), (invalidated, "disk full"));
    }
}

#[test]
fn a_failure_that_is_no_text_is_still_shown() {
    let Published::Failed {
        invalidated,
        message,
    } = parse(&[FAILED, 2, b'a', 0xff, b'b']).unwrap()
    else {
        panic!("not failed");
    };
    assert_eq!((invalidated, &message[..]), (false, "a\u{fffd}b"));
}

#[test]
fn a_pending_or_missing_tag_is_unfinished() {
    for bytes in [&[][..], &[PENDING], &[PENDING, 1, 2]] {
        assert!(matches!(parse(bytes).unwrap(), Published::Unfinished));
    }
}

#[test]
fn a_tag_without_its_detail_is_an_error() {
    assert!(parse(&[COMPLETED]).is_err());
    assert!(parse(&[FAILED]).is_err());
    assert!(parse(&[COMPLETED, 9]).is_err());
}

#[test]
fn a_broken_publication_says_what_is_wrong() {
    let text = |bytes: &[u8]| parse(bytes).unwrap_err().render();
    assert_eq!(text(&[COMPLETED]), "missing shared saving status");
    assert_eq!(text(&[FAILED]), "missing shared failure status");
    assert_eq!(text(&[COMPLETED, 9]), "invalid shared saving status");
    assert_eq!(text(&[COMPLETED, 1]), "invalid header");
}
