//! What cleanup removes, and how it reports that.

use crate::text::{decimal, decimal_text};
use crate::time::{Duration, SystemTime};
use vstd::prelude::*;

verus! {

/// What cleanup removes for an idle key.
#[derive(Clone, Copy, Debug, PartialEq, Eq, Structural)]
pub enum Disposal {
    Keep,
    /// No result is left, so only the key's lock file goes.
    Gate,
    ResultAndGate,
}

/// Whether a result that completed at `completed` is strictly older than
/// `limit` at `now`. Without a limit every result is.
pub open spec fn outlived(completed: int, limit: Option<Duration>, now: int) -> bool {
    match limit {
        Some(limit) => now - completed > limit@,
        None => true,
    }
}

/// What cleanup removes for an idle key whose result completed at `completed`,
/// if it has one.
pub open spec fn disposed(completed: Option<int>, limit: Option<Duration>, now: int) -> Disposal {
    match completed {
        None => Disposal::Gate,
        Some(completed) => if outlived(completed, limit, now) {
            Disposal::ResultAndGate
        } else {
            Disposal::Keep
        },
    }
}

/// The point in time as a number, if there is one.
pub open spec fn viewed(time: Option<SystemTime>) -> Option<int> {
    match time {
        Some(time) => Some(time@),
        None => None,
    }
}

/// `completed` is the completion time of the key's result, if it has one.
pub fn disposal(completed: Option<SystemTime>, age: Option<Duration>, now: SystemTime) -> (disposal:
    Disposal)
    ensures
        disposal == disposed(viewed(completed), age, now@),
{
    match completed {
        None => Disposal::Gate,
        Some(completed) => if old_enough(completed, age, now) {
            Disposal::ResultAndGate
        } else {
            Disposal::Keep
        },
    }
}

/// Whether a result that completed at `completed` is strictly older than
/// `age`. Without `age` every result qualifies; one completed in the future
/// never qualifies for a limit.
pub fn old_enough(completed: SystemTime, age: Option<Duration>, now: SystemTime) -> (old: bool)
    ensures
        old == outlived(completed@, age, now@),
{
    match age {
        None => true,
        Some(limit) => match now.duration_since(completed) {
            Ok(age) => age > limit.as_nanos(),
            Err(_) => false,
        },
    }
}

/// The counts of one cleanup.
pub open spec fn summary(removed: nat, abandoned: nat, skipped: nat, failed: nat) -> Seq<char> {
    "removed="@ + decimal(removed) + " abandoned="@ + decimal(abandoned) + " skipped="@ + decimal(
        skipped,
    ) + " failed="@ + decimal(failed)
}

pub fn summary_line(removed: usize, abandoned: usize, skipped: usize, failed: usize) -> (line:
    String)
    ensures
        line@ == summary(removed as nat, abandoned as nat, skipped as nat, failed as nat),
{
    let mut line = "removed=".to_owned();
    line.append(decimal_text(removed as u64).as_str());
    line.append(" abandoned=");
    line.append(decimal_text(abandoned as u64).as_str());
    line.append(" skipped=");
    line.append(decimal_text(skipped as u64).as_str());
    line.append(" failed=");
    line.append(decimal_text(failed as u64).as_str());
    line
}

/// A result that is still reusable for some limit is never removed by a
/// cleanup with that limit, and the other way round: at every moment each
/// result that is not from the future is either fresh or old enough.
pub proof fn cleanup_keeps_what_is_fresh(completed: int, limit: Duration, now: int)
    ensures
        now >= completed ==> (crate::domain::record::is_fresh(completed, limit@, now) <==> disposed(
            Some(completed),
            Some(limit),
            now,
        ) == Disposal::Keep),
        now < completed ==> disposed(Some(completed), Some(limit), now) == Disposal::Keep,
{
}

/// Without a limit cleanup removes every result of an idle key.
pub proof fn cleanup_without_a_limit_removes_everything(completed: int, now: int)
    ensures
        disposed(Some(completed), None, now) == Disposal::ResultAndGate,
{
}

/// A result is old enough exactly if there is no limit, or if more time than
/// the limit has passed since it completed.
pub proof fn old_enough_is_strictly_older(
    completed: SystemTime,
    age: Option<Duration>,
    now: SystemTime,
    old: bool,
)
    requires
        call_ensures(old_enough, (completed, age, now), old),
    ensures
        old <==> age is None || now@ - completed@ > age->0.secs * 1_000_000_000 + age->0.nanos,
{
}

/// The result of an idle key is removed exactly if there is one that is old
/// enough, and the key's lock file exactly if no result is left.
pub proof fn a_lock_file_stays_as_long_as_its_result(
    completed: Option<SystemTime>,
    age: Option<Duration>,
    now: SystemTime,
    disposal: Disposal,
    old: bool,
)
    requires
        call_ensures(crate::domain::cleanup::disposal, (completed, age, now), disposal),
        completed matches Some(completed) ==> call_ensures(old_enough, (completed, age, now), old),
    ensures
        disposal == Disposal::ResultAndGate <==> completed is Some && old,
        disposal == Disposal::Gate <==> completed is None,
        disposal == Disposal::Keep <==> completed is Some && !old,
{
}

/// The summary shows each of the four counts under its name.
pub proof fn the_summary_shows_each_count(
    removed: usize,
    abandoned: usize,
    skipped: usize,
    failed: usize,
    line: String,
)
    requires
        call_ensures(summary_line, (removed, abandoned, skipped, failed), line),
    ensures
        line@ == "removed="@ + decimal(removed as nat) + " abandoned="@ + decimal(abandoned as nat)
            + " skipped="@ + decimal(skipped as nat) + " failed="@ + decimal(failed as nat),
{
}

} // verus!
