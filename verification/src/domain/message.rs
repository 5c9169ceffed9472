//! The `--verbose` diagnostic lines, without their framing.

use crate::domain::delivery::Ending;
use crate::domain::execution::Saving;
use crate::domain::policy::Reason;
use crate::text::{signed_decimal, signed_decimal_text};
use crate::time::{Duration, NANOS_PER_SEC};
use vstd::prelude::*;

verus! {

/// How a caller will obtain its result.
#[derive(Clone, Copy, Debug, PartialEq, Eq, Structural)]
pub enum Decision {
    Hit,
    Join,
    Run(Reason),
}

impl Decision {
    pub open spec fn says(self) -> Seq<char> {
        match self {
            Decision::Hit => "hit"@,
            Decision::Join => "join"@,
            Decision::Run(reason) => "run reason="@ + reason.says(),
        }
    }

    fn text(self) -> (text: String)
        ensures
            text@ == self.says(),
    {
        match self {
            Decision::Hit => "hit".to_owned(),
            Decision::Join => "join".to_owned(),
            Decision::Run(reason) => {
                let mut text = "run reason=".to_owned();
                text.append(reason.text());
                text
            },
        }
    }
}

/// How far a saved result's completion lies from now, in seconds as a decimal
/// number.
#[derive(Debug)]
pub enum Age {
    Past(String),
    Future(String),
}

impl Age {
    pub open spec fn says(self) -> Seq<char> {
        match self {
            Age::Past(seconds) => " age="@ + seconds@ + "s"@,
            Age::Future(seconds) => " age=-"@ + seconds@ + "s"@,
        }
    }

    fn text(&self) -> (text: String)
        ensures
            text@ == self.says(),
    {
        match self {
            Age::Past(seconds) => {
                let mut text = " age=".to_owned();
                text.append(seconds.as_str());
                text.append("s");
                text
            },
            Age::Future(seconds) => {
                let mut text = " age=-".to_owned();
                text.append(seconds.as_str());
                text.append("s");
                text
            },
        }
    }
}

/// A span of time as people write it, such as `5m` or `1h 30m`.
pub uninterp spec fn span_text(secs: u64, nanos: u32) -> Seq<char>;

/// `humantime::format_duration`: the text depends on the span alone. What it
/// looks like is left to that crate, which promises no exact form.
#[verifier::external_body]
fn format_duration(secs: u64, nanos: u32) -> (text: String)
    requires
        nanos < NANOS_PER_SEC,
    ensures
        text@ == span_text(secs, nanos),
{
    format!("{}", humantime::format_duration(std::time::Duration::new(secs, nanos)))
}

/// The line for a decision, given the text of the caller's limit.
pub open spec fn decision_line(
    decision: Decision,
    age: Option<Age>,
    ttl: Seq<char>,
    directory: Seq<char>,
    key: Seq<char>,
) -> Seq<char> {
    decision.says() + match age {
        Some(age) => age.says(),
        None => Seq::empty(),
    } + " ttl="@ + ttl + " key="@ + key + " cache-dir="@ + directory
}

/// The line for a decision, given the text of the caller's limit.
pub fn decision_with(
    decision: Decision,
    age: Option<Age>,
    ttl: &str,
    directory: &str,
    key: &str,
) -> (line: String)
    ensures
        line@ == decision_line(decision, age, ttl@, directory@, key@),
{
    let mut line = decision.text();
    match &age {
        Some(age) => {
            line.append(age.text().as_str());
        },
        None => {
            assert(line@ =~= line@ + Seq::<char>::empty());
        },
    }
    line.append(" ttl=");
    line.append(ttl);
    line.append(" key=");
    line.append(key);
    line.append(" cache-dir=");
    line.append(directory);
    line
}

/// `age` is the saved result's age, or how far in the future it completed;
/// `directory` is the cache directory as it is to be shown.
pub fn decision(
    action: Decision,
    age: Option<Age>,
    ttl: Duration,
    directory: &str,
    key: &str,
) -> (line: String)
    requires
        ttl.nanos < NANOS_PER_SEC,
    ensures
        line@ == decision_line(action, age, span_text(ttl.secs, ttl.nanos), directory@, key@),
{
    let ttl = format_duration(ttl.secs, ttl.nanos);
    decision_with(action, age, ttl.as_str(), directory, key)
}

/// What became of the result an invocation delivered.
#[derive(Clone, Copy, Debug, PartialEq, Eq, Structural)]
pub enum Saved {
    /// The status an execution's owner decided for its result.
    Execution(Saving),
    /// Replayed from an existing saved result.
    Reused,
    /// The saved result for the key is gone.
    No,
    Unknown,
}

impl Saved {
    /// What the `saved=` label says.
    pub open spec fn says(self) -> Seq<char> {
        match self {
            Saved::Execution(saving) => saving.says(),
            Saved::Reused => "no reason=reused"@,
            Saved::No => "no"@,
            Saved::Unknown => "unknown"@,
        }
    }

    /// After a failed execution the saved result is gone only if it was
    /// invalidated.
    pub fn after_failure(invalidated: bool) -> (saved: Saved)
        ensures
            saved == (if invalidated {
                Saved::No
            } else {
                Saved::Unknown
            }),
    {
        if invalidated {
            Saved::No
        } else {
            Saved::Unknown
        }
    }

    /// Whether the execution that produced the result was interrupted, which
    /// labels every delivery of it as interrupted.
    pub fn interrupted(self) -> (interrupted: bool)
        ensures
            interrupted == (self == Saved::Execution(Saving::Interrupted)),
    {
        matches!(self, Saved::Execution(Saving::Interrupted))
    }

    fn label(self) -> (text: &'static str)
        ensures
            text@ == self.says(),
    {
        match self {
            Saved::Execution(saving) => saving.describe(),
            Saved::Reused => "no reason=reused",
            Saved::No => "no",
            Saved::Unknown => "unknown",
        }
    }
}

/// The name of an ending.
pub open spec fn ending_name(ending: Ending) -> Seq<char> {
    match ending {
        Ending::Completed => "completed"@,
        Ending::OutputClosed => "output-closed"@,
        Ending::Interrupted => "interrupted"@,
    }
}

/// The line for an invocation that delivered its result.
pub open spec fn finished_line(ending: Ending, code: int, saved: Saved) -> Seq<char> {
    ending_name(ending) + " exit="@ + signed_decimal(code) + " saved="@ + saved.says()
}

pub fn finished(ending: Ending, code: i32, saved: Saved) -> (line: String)
    ensures
        line@ == finished_line(ending, code as int, saved),
{
    let mut line = match ending {
        Ending::Completed => "completed".to_owned(),
        Ending::OutputClosed => "output-closed".to_owned(),
        Ending::Interrupted => "interrupted".to_owned(),
    };
    line.append(" exit=");
    line.append(signed_decimal_text(code).as_str());
    line.append(" saved=");
    line.append(saved.label());
    line
}

/// Where a caller was waiting when a signal stopped it.
#[derive(Clone, Copy, Debug, PartialEq, Eq, Structural)]
pub enum Wait {
    /// For the key's lock.
    Key,
    /// For another caller's execution of the same key.
    Execution,
}

/// The line for a caller that a signal stopped while it waited.
pub open spec fn interrupted_line(code: int, wait: Wait) -> Seq<char> {
    "interrupted exit="@ + signed_decimal(code) + " saved=unknown reason="@ + match wait {
        Wait::Key => "interrupted"@,
        Wait::Execution => "waiter-interrupted"@,
    }
}

pub fn interrupted(code: i32, wait: Wait) -> (line: String)
    ensures
        line@ == interrupted_line(code as int, wait),
{
    let mut line = "interrupted exit=".to_owned();
    line.append(signed_decimal_text(code).as_str());
    line.append(" saved=unknown reason=");
    line.append(
        match wait {
            Wait::Key => "interrupted",
            Wait::Execution => "waiter-interrupted",
        },
    );
    line
}

/// Which step of an invocation failed.
#[derive(Clone, Copy, Debug, PartialEq, Eq, Structural)]
pub enum Failure {
    Execution,
    Delivery,
    Replay,
}

/// The line for an invocation that failed.
pub open spec fn failed_line(saved: Saved, failure: Failure) -> Seq<char> {
    "failed saved="@ + saved.says() + " reason="@ + match failure {
        Failure::Execution => "failure"@,
        Failure::Delivery => "delivery-failure"@,
        Failure::Replay => "replay-failure"@,
    }
}

pub fn failed(saved: Saved, failure: Failure) -> (line: String)
    ensures
        line@ == failed_line(saved, failure),
{
    let mut line = "failed saved=".to_owned();
    line.append(saved.label());
    line.append(" reason=");
    line.append(
        match failure {
            Failure::Execution => "failure",
            Failure::Delivery => "delivery-failure",
            Failure::Replay => "replay-failure",
        },
    );
    line
}

/// The line of an invocation that delivered its result shows how it ended, its
/// exit code, whatever that is, and what became of its result.
pub proof fn the_last_line_shows_the_exit_code(
    ending: Ending,
    code: i32,
    saved: Saved,
    line: String,
)
    requires
        call_ensures(finished, (ending, code, saved), line),
    ensures
        line@ == (match ending {
            Ending::Completed => "completed"@,
            Ending::OutputClosed => "output-closed"@,
            Ending::Interrupted => "interrupted"@,
        }) + " exit="@ + signed_decimal(code as int) + " saved="@ + saved.says(),
{
}

/// What is said of the saved result is said for each case in its own words, and
/// `yes` only of a result that was saved.
pub proof fn what_became_of_a_result_is_said(saved: Saved)
    ensures
        saved == Saved::Execution(Saving::Saved) <==> saved.says() == "yes"@,
        saved == Saved::Execution(Saving::Excluded) <==> saved.says()
            == "no reason=participant-policy"@,
        saved == Saved::Execution(Saving::Interrupted) <==> saved.says()
            == "no reason=interrupted"@,
        saved == Saved::Reused <==> saved.says() == "no reason=reused"@,
        saved == Saved::No <==> saved.says() == "no"@,
        saved == Saved::Unknown <==> saved.says() == "unknown"@,
{
    reveal_strlit("yes");
    reveal_strlit("no reason=participant-policy");
    reveal_strlit("no reason=interrupted");
    reveal_strlit("no reason=reused");
    reveal_strlit("no");
    reveal_strlit("unknown");
    assert("yes"@.len() == 3 && "no reason=participant-policy"@.len() == 28
        && "no reason=interrupted"@.len() == 21 && "no reason=reused"@.len() == 16 && "no"@.len()
        == 2 && "unknown"@.len() == 7);
}

/// After a failed execution the saved result is said to be gone exactly if it
/// was removed; and a result counts as interrupted exactly if its execution was.
pub proof fn a_failure_says_whether_the_result_is_gone(
    invalidated: bool,
    after: Saved,
    saved: Saved,
    is_interrupted: bool,
)
    requires
        call_ensures(Saved::after_failure, (invalidated,), after),
        call_ensures(Saved::interrupted, (saved,), is_interrupted),
    ensures
        invalidated ==> after == Saved::No,
        !invalidated ==> after == Saved::Unknown,
        is_interrupted <==> saved == Saved::Execution(Saving::Interrupted),
{
}

/// The line of a caller that a signal stopped shows its exit status and what it
/// was waiting for; that of one that failed shows what became of the saved
/// result and which step failed.
pub proof fn the_line_of_an_end_without_a_result_says_why(
    code: i32,
    wait: Wait,
    stopped: String,
    saved: Saved,
    failure: Failure,
    lost: String,
)
    requires
        call_ensures(interrupted, (code, wait), stopped),
        call_ensures(failed, (saved, failure), lost),
    ensures
        stopped@ == "interrupted exit="@ + signed_decimal(code as int) + " saved=unknown reason="@
            + (if wait == Wait::Key {
            "interrupted"@
        } else {
            "waiter-interrupted"@
        }),
        lost@ == "failed saved="@ + saved.says() + " reason="@ + (if failure == Failure::Execution {
            "failure"@
        } else if failure == Failure::Delivery {
            "delivery-failure"@
        } else {
            "replay-failure"@
        }),
{
}

/// The line of a decision says how the result is obtained, and why if the
/// command has to run, how old the saved result is or how far in the future,
/// and the limit, the key and the cache directory.
pub proof fn the_line_of_a_decision_says_everything(
    decision: Decision,
    age: Option<Age>,
    ttl: &str,
    directory: &str,
    key: &str,
    line: String,
)
    requires
        call_ensures(decision_with, (decision, age, ttl, directory, key), line),
    ensures
        ({
            let obtained = match decision {
                Decision::Hit => "hit"@,
                Decision::Join => "join"@,
                Decision::Run(reason) => "run reason="@ + reason.says(),
            };
            let old = match age {
                Some(Age::Past(seconds)) => " age="@ + seconds@ + "s"@,
                Some(Age::Future(seconds)) => " age=-"@ + seconds@ + "s"@,
                None => Seq::empty(),
            };
            line@ == obtained + old + " ttl="@ + ttl@ + " key="@ + key@ + " cache-dir="@
                + directory@
        }),
{
}

/// The limit in the line of a decision is the whole span, in seconds and
/// nanoseconds, as it is written for people.
pub proof fn the_limit_is_written_for_people(
    action: Decision,
    age: Option<Age>,
    ttl: Duration,
    directory: &str,
    key: &str,
    line: String,
    text: &str,
    with: String,
)
    requires
        text@ == span_text(ttl.secs, ttl.nanos),
        call_ensures(decision, (action, age, ttl, directory, key), line),
        call_ensures(decision_with, (action, age, text, directory, key), with),
    ensures
        line@ == with@,
{
}

} // verus!
