//! What one caller asks for, and whether a saved result satisfies it.

use crate::domain::record::{is_fresh, Record, RecordView};
use crate::time::{Duration, SystemTime};
use vstd::prelude::*;

verus! {

/// One caller's request to run a command or reuse its result.
#[derive(Debug)]
pub struct Request {
    /// The program and its arguments, each as its bytes.
    pub command: Vec<Vec<u8>>,
    pub ttl: Duration,
    pub refresh: bool,
    pub include_codes: Option<Vec<u8>>,
    pub exclude_codes: Option<Vec<u8>>,
}

/// Which exit codes a caller saves and reuses.
#[verifier::ext_equal]
pub struct Policy {
    pub only: Option<Seq<u8>>,
    pub except: Option<Seq<u8>>,
}

impl Policy {
    /// Whether the policy allows a result with exit code `code`: only a normal
    /// code, if only some are included one of those, and none that is excluded.
    pub open spec fn allows(self, code: int) -> bool {
        &&& 0 <= code <= 255
        &&& self.only matches Some(codes) ==> codes.contains(code as u8)
        &&& self.except matches Some(codes) ==> !codes.contains(code as u8)
    }
}

/// Why a command has to run instead of reusing a saved result.
#[derive(Clone, Copy, Debug, PartialEq, Eq, Structural)]
pub enum Reason {
    Refresh,
    Missing,
    FutureTimestamp,
    Expired,
    Policy,
}

impl Reason {
    pub open spec fn says(self) -> Seq<char> {
        match self {
            Reason::Refresh => "refresh"@,
            Reason::Missing => "missing"@,
            Reason::FutureTimestamp => "future-timestamp"@,
            Reason::Expired => "expired"@,
            Reason::Policy => "policy"@,
        }
    }

    pub fn text(self) -> (text: &'static str)
        ensures
            text@ == self.says(),
    {
        match self {
            Reason::Refresh => "refresh",
            Reason::Missing => "missing",
            Reason::FutureTimestamp => "future-timestamp",
            Reason::Expired => "expired",
            Reason::Policy => "policy",
        }
    }
}

fn has_code(codes: &Vec<u8>, code: u8) -> (found: bool)
    ensures
        found == codes@.contains(code),
{
    let mut i: usize = 0;
    while i < codes.len()
        invariant
            i <= codes@.len(),
            forall|j: int| 0 <= j < i ==> codes@[j] != code,
        decreases codes@.len() - i,
    {
        if codes[i] == code {
            assert(codes@[i as int] == code);
            return true;
        }
        i += 1;
    }
    false
}

/// The view of an optional record.
pub open spec fn viewed(record: Option<&Record>) -> Option<RecordView> {
    match record {
        Some(record) => Some(record@),
        None => None,
    }
}

impl Request {
    pub open spec fn policy(&self) -> Policy {
        Policy {
            only: match self.include_codes {
                Some(codes) => Some(codes@),
                None => None,
            },
            except: match self.exclude_codes {
                Some(codes) => Some(codes@),
                None => None,
            },
        }
    }

    /// Why this request needs a new execution at `now`, given the saved
    /// result. Reasons are reported in the order of their variants.
    pub open spec fn needs(&self, record: Option<RecordView>, now: int) -> Option<Reason> {
        if self.refresh {
            Some(Reason::Refresh)
        } else {
            match record {
                None => Some(Reason::Missing),
                Some(record) => if now < record.completed {
                    Some(Reason::FutureTimestamp)
                } else if now - record.completed > self.ttl@ {
                    Some(Reason::Expired)
                } else if !self.policy().allows(record.code) {
                    Some(Reason::Policy)
                } else {
                    None
                },
            }
        }
    }

    /// Whether this caller saves and reuses results with exit code `code`.
    pub fn allows(&self, code: i32) -> (allowed: bool)
        ensures
            allowed == self.policy().allows(code as int),
    {
        if code < 0 || code > 255 {
            return false;
        }
        let code = code as u8;
        let included = match &self.include_codes {
            Some(codes) => has_code(codes, code),
            None => true,
        };
        let excluded = match &self.exclude_codes {
            Some(codes) => has_code(codes, code),
            None => false,
        };
        included && !excluded
    }

    /// Why a new execution is required, or `None` when `record` is reusable.
    pub fn reason(&self, record: Option<&Record>, now: SystemTime) -> (reason: Option<Reason>)
        ensures
            reason == self.needs(viewed(record), now@),
    {
        if self.refresh {
            return Some(Reason::Refresh);
        }
        let record = match record {
            Some(record) => record,
            None => {
                return Some(Reason::Missing);
            },
        };
        if now.duration_since(record.completed).is_err() {
            return Some(Reason::FutureTimestamp);
        }
        if !record.fresh(self.ttl, now) {
            return Some(Reason::Expired);
        }
        if !self.allows(record.code) {
            return Some(Reason::Policy);
        }
        None
    }
}

/// A saved result is reused exactly when no refresh was asked for, it exists,
/// it is at most as old as the limit and not from the future, and this
/// caller's own policy allows its exit code.
pub proof fn reuse_needs_a_fresh_allowed_result(
    request: Request,
    record: Option<RecordView>,
    now: int,
)
    ensures
        request.needs(record, now) is None <==> {
            &&& !request.refresh
            &&& record matches Some(record)
            &&& is_fresh(record.completed, request.ttl@, now)
            &&& request.policy().allows(record.code)
        },
{
}

/// Without code lists every normal exit code is allowed, and no other.
pub proof fn all_normal_codes_are_allowed_by_default(code: int)
    ensures
        (Policy { only: None, except: None }).allows(code) <==> 0 <= code <= 255,
{
}

/// With a limit of zero a result is reused only at the very moment at which it
/// completed.
pub proof fn a_zero_limit_asks_for_a_new_execution(
    request: Request,
    record: RecordView,
    now: int,
)
    requires
        request.ttl@ == 0,
        request.needs(Some(record), now) is None,
    ensures
        now == record.completed,
{
}

/// Whoever may reuse a result may reuse it under a longer limit too.
pub proof fn a_longer_limit_keeps_hits(
    request: Request,
    longer: Request,
    record: RecordView,
    now: int,
)
    requires
        request.needs(Some(record), now) is None,
        longer.refresh == request.refresh,
        longer.policy() == request.policy(),
        request.ttl@ <= longer.ttl@,
    ensures
        longer.needs(Some(record), now) is None,
{
}

/// A caller allows an exit code exactly if it is a normal one, in the list of
/// those to include if there is one, and not in the list of those to exclude.
pub proof fn the_code_lists_decide_what_is_allowed(request: &Request, code: i32, allowed: bool)
    requires
        call_ensures(Request::allows, (request, code), allowed),
    ensures
        allowed <==> {
            &&& 0 <= code <= 255
            &&& request.include_codes is None || request.include_codes->0@.contains(code as u8)
            &&& request.exclude_codes is None || !request.exclude_codes->0@.contains(code as u8)
        },
{
}

/// A saved result spares an execution exactly if no refresh was asked for, it
/// is there, its age is between nothing and the limit, and the code lists allow
/// its exit code. Otherwise the reason is the first of these that does not
/// hold.
pub proof fn each_reason_says_what_is_missing(
    request: &Request,
    record: Option<&Record>,
    now: SystemTime,
    reason: Option<Reason>,
    allowed: bool,
)
    requires
        call_ensures(Request::reason, (request, record, now), reason),
        record matches Some(record) ==> call_ensures(Request::allows, (request, record.code), allowed),
    ensures
        reason == Some(Reason::Refresh) <==> request.refresh,
        reason == Some(Reason::Missing) <==> !request.refresh && record is None,
        reason == Some(Reason::FutureTimestamp) <==> !request.refresh && record is Some && now@
            < record->0.completed@,
        reason == Some(Reason::Expired) <==> !request.refresh && record is Some && now@
            - record->0.completed@ > request.ttl.secs * 1_000_000_000 + request.ttl.nanos,
        reason == Some(Reason::Policy) <==> !request.refresh && record is Some && 0 <= now@
            - record->0.completed@ <= request.ttl.secs * 1_000_000_000 + request.ttl.nanos
            && !allowed,
        reason is None <==> !request.refresh && record is Some && 0 <= now@ - record->0.completed@
            <= request.ttl.secs * 1_000_000_000 + request.ttl.nanos && allowed,
{
}

/// Each reason has its own name.
pub proof fn each_reason_has_its_own_name(reason: Reason, text: &'static str)
    requires
        call_ensures(Reason::text, (reason,), text),
    ensures
        reason == Reason::Refresh <==> text@ == "refresh"@,
        reason == Reason::Missing <==> text@ == "missing"@,
        reason == Reason::FutureTimestamp <==> text@ == "future-timestamp"@,
        reason == Reason::Expired <==> text@ == "expired"@,
        reason == Reason::Policy <==> text@ == "policy"@,
{
    reveal_strlit("refresh");
    reveal_strlit("missing");
    reveal_strlit("future-timestamp");
    reveal_strlit("expired");
    reveal_strlit("policy");
    assert("refresh"@[0] == 'r' && "missing"@[0] == 'm' && "future-timestamp"@[0] == 'f'
        && "expired"@[0] == 'e' && "policy"@[0] == 'p');
}

} // verus!
