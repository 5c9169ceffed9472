//! The result of one execution, and whether it is saved.

use crate::domain::policy::{Policy, Request};
use crate::domain::record::{Record, RecordView};
use crate::error::{message, Error};
use crate::time::SystemTime;
use vstd::prelude::*;

verus! {

/// The number of distinct normal exit codes.
pub const CODES: usize = 256;

/// One save-permission byte per exit code, set when any participant's policy
/// allows saving that code.
pub type Votes = [u8; CODES];

/// Whether some participant allowed saving a result with exit code `code`.
pub open spec fn voted(votes: Seq<u8>, code: int) -> bool {
    0 <= code < votes.len() && votes[code] != 0
}

/// Whether `128 + signal` is an exit status.
pub open spec fn reportable(signal: int) -> bool {
    i32::MIN <= signal <= i32::MAX - 128
}

/// Whether `128 + signal` is an exit status.
pub fn is_reportable(signal: i32) -> (is: bool)
    ensures
        is == reportable(signal as int),
{
    signal <= i32::MAX - 128
}

/// The exit status that reports an end caused by `signal`.
pub fn signal_code(signal: i32) -> (code: i32)
    requires
        reportable(signal as int),
    ensures
        code == 128 + signal,
{
    128 + signal
}

/// `votes` after one more participant with `policy`.
pub open spec fn with_vote(votes: Seq<u8>, policy: Policy) -> Seq<u8> {
    Seq::new(votes.len(), |code: int| if policy.allows(code) { votes[code] | 1 } else { votes[code] })
}

/// Adds a participant's save permissions.
pub fn add_vote(votes: &mut Votes, request: &Request)
    ensures
        final(votes)@ == with_vote(old(votes)@, request.policy()),
{
    let ghost before = votes@;
    let mut code: usize = 0;
    while code < CODES
        invariant
            code <= CODES,
            before.len() == CODES,
            votes@.len() == CODES,
            forall|i: int|
                0 <= i < code ==> #[trigger] votes@[i] == with_vote(before, request.policy())[i],
            forall|i: int| code <= i < CODES ==> #[trigger] votes@[i] == before[i],
        decreases CODES - code,
    {
        if request.allows(code as i32) {
            let vote = votes[code];
            votes[code] = vote | 1;
        }
        code += 1;
    }
    assert(votes@ =~= with_vote(before, request.policy()));
}

/// The result of one execution: what it left behind, and whether it may be
/// saved or labelled as the command's own result.
#[verifier::ext_equal]
pub struct OutcomeView {
    pub record: RecordView,
    pub reusable: bool,
}

impl OutcomeView {
    /// This outcome after `signal` interrupted it; 0 is no signal.
    pub open spec fn interrupted(self, signal: int) -> OutcomeView {
        if signal == 0 {
            self
        } else {
            OutcomeView {
                record: RecordView { code: 128 + signal, ..self.record },
                reusable: false,
            }
        }
    }

    /// What becomes of this outcome when the participants voted `votes`.
    pub open spec fn saving(self, votes: Seq<u8>) -> Saving {
        if !self.reusable {
            Saving::Interrupted
        } else if voted(votes, self.record.code) {
            Saving::Saved
        } else {
            Saving::Excluded
        }
    }
}

/// The exit code that a child leaves which ended with `exit_code` or by
/// `exit_signal`, in a process that received the signal `interrupted` (0 for
/// none).
pub open spec fn ended_with(exit_code: Option<i32>, exit_signal: Option<i32>, interrupted: int) -> int {
    if interrupted != 0 {
        128 + interrupted
    } else {
        match (exit_code, exit_signal) {
            (Some(code), _) => code as int,
            (None, Some(signal)) => 128 + signal,
            (None, None) => 128,
        }
    }
}

/// The result of one child execution, before it is saved or shared.
#[derive(Debug)]
pub struct Outcome {
    record: Record,
    /// Only a normal exit that no signal to this process interrupted may be
    /// saved or labelled as the command's own result.
    reusable: bool,
}

impl View for Outcome {
    type V = OutcomeView;

    closed spec fn view(&self) -> OutcomeView {
        OutcomeView { record: self.record@, reusable: self.reusable }
    }
}

impl Outcome {
    /// `exit_code` and `exit_signal` describe how the child ended; `interrupted`
    /// is the signal this process received (0 for none), which overrides both.
    pub fn new(
        completed: SystemTime,
        exit_code: Option<i32>,
        exit_signal: Option<i32>,
        interrupted: i32,
        stdout: Vec<u8>,
        stderr: Vec<u8>,
    ) -> (outcome: Outcome)
        requires
            reportable(interrupted as int),
            exit_signal matches Some(signal) ==> reportable(signal as int),
        ensures
            outcome@ == (OutcomeView {
                record: RecordView {
                    completed: completed@,
                    code: ended_with(exit_code, exit_signal, interrupted as int),
                    stdout: stdout@,
                    stderr: stderr@,
                },
                reusable: exit_code is Some && interrupted == 0,
            }),
    {
        let code: i32 = if interrupted != 0 {
            signal_code(interrupted)
        } else {
            match exit_code {
                Some(code) => code,
                None => match exit_signal {
                    Some(signal) => signal_code(signal),
                    None => signal_code(0),
                },
            }
        };
        Outcome {
            record: Record { completed, code, stdout, stderr },
            reusable: exit_code.is_some() && interrupted == 0,
        }
    }

    pub fn record(&self) -> (record: &Record)
        ensures
            record@ == self@.record,
    {
        &self.record
    }

    pub fn code(&self) -> (code: i32)
        ensures
            code == self@.record.code,
    {
        self.record.code
    }

    /// Whether this is a normal exit that no signal interrupted.
    pub fn reusable(&self) -> (reusable: bool)
        ensures
            reusable == self@.reusable,
    {
        self.reusable
    }

    /// Marks the outcome as interrupted by `signal`; 0 means no signal and
    /// changes nothing. Returns whether anything observable changed.
    pub fn interrupt(&mut self, signal: i32) -> (changed: bool)
        requires
            reportable(signal as int),
        ensures
            final(self)@ == old(self)@.interrupted(signal as int),
            changed == (final(self)@ != old(self)@),
    {
        if signal == 0 {
            return false;
        }
        let changed = self.code() != signal_code(signal) || self.reusable;
        self.record.code = signal_code(signal);
        self.reusable = false;
        proof {
            assert(self@ =~= old(self)@.interrupted(signal as int));
            if !changed {
                assert(self@ =~= old(self)@);
            }
        }
        changed
    }
}

/// Whether an outcome is saved, which decides both the save itself and the
/// `saved=` label that the owner and its waiters report.
#[derive(Clone, Copy, Debug, PartialEq, Eq, Structural)]
pub enum Saving {
    Saved,
    Excluded,
    Interrupted,
}

impl Saving {
    /// The byte that stands for this status in a shared file.
    pub open spec fn byte(self) -> u8 {
        match self {
            Saving::Saved => 1,
            Saving::Excluded => 2,
            Saving::Interrupted => 3,
        }
    }

    /// What the `saved=` label says for this status.
    pub open spec fn says(self) -> Seq<char> {
        match self {
            Saving::Saved => "yes"@,
            Saving::Excluded => "no reason=participant-policy"@,
            Saving::Interrupted => "no reason=interrupted"@,
        }
    }

    pub fn of(outcome: &Outcome, votes: &Votes) -> (saving: Saving)
        ensures
            saving == outcome@.saving(votes@),
    {
        let code = outcome.code();
        if !outcome.reusable {
            Saving::Interrupted
        } else if 0 <= code && code <= 255 && votes[code as usize] != 0 {
            Saving::Saved
        } else {
            Saving::Excluded
        }
    }

    /// The byte that stands for this status in a shared file.
    pub fn code(self) -> (byte: u8)
        ensures
            byte == self.byte(),
    {
        match self {
            Saving::Saved => 1,
            Saving::Excluded => 2,
            Saving::Interrupted => 3,
        }
    }

    pub fn decode(byte: u8) -> (saving: Result<Saving, Error>)
        ensures
            match saving {
                Ok(saving) => byte == saving.byte(),
                Err(error) => {
                    &&& byte == 0 || byte > 3
                    &&& error@ == message("invalid shared saving status"@)
                },
            },
    {
        match byte {
            1 => Ok(Saving::Saved),
            2 => Ok(Saving::Excluded),
            3 => Ok(Saving::Interrupted),
            _ => Err(Error::new("invalid shared saving status")),
        }
    }

    pub fn describe(self) -> (text: &'static str)
        ensures
            text@ == self.says(),
    {
        match self {
            Saving::Saved => "yes",
            Saving::Excluded => "no reason=participant-policy",
            Saving::Interrupted => "no reason=interrupted",
        }
    }
}

/// The votes of `participants`, merged in the order in which they joined.
pub open spec fn merged(participants: Seq<Policy>) -> Seq<u8>
    decreases participants.len(),
{
    if participants.len() == 0 {
        Seq::new(CODES as nat, |code: int| 0u8)
    } else {
        with_vote(merged(participants.drop_last()), participants.last())
    }
}

/// Each vote is a byte per code.
pub proof fn merged_len(participants: Seq<Policy>)
    ensures
        merged(participants).len() == CODES,
    decreases participants.len(),
{
    if participants.len() > 0 {
        merged_len(participants.drop_last());
    }
}

/// After a vote a code is allowed if it was before or the participant allows it.
pub proof fn a_vote_only_adds(votes: Seq<u8>, policy: Policy, code: int)
    requires
        votes.len() == CODES,
    ensures
        voted(with_vote(votes, policy), code) <==> voted(votes, code) || policy.allows(code),
{
    if 0 <= code < CODES {
        let vote = votes[code];
        assert(vote | 1 != 0) by (bit_vector);
    }
}

/// A code is saved exactly when the policy of at least one participant allows
/// it, whoever that is and whenever it joined.
pub proof fn any_participant_can_have_a_code_saved(participants: Seq<Policy>, code: int)
    ensures
        voted(merged(participants), code) <==> exists|i: int|
            0 <= i < participants.len() && (#[trigger] participants[i]).allows(code),
    decreases participants.len(),
{
    if participants.len() > 0 {
        let before = participants.drop_last();
        merged_len(before);
        any_participant_can_have_a_code_saved(before, code);
        a_vote_only_adds(merged(before), participants.last(), code);
        if exists|i: int| 0 <= i < participants.len() && (#[trigger] participants[i]).allows(code) {
            let i = choose|i: int|
                0 <= i < participants.len() && (#[trigger] participants[i]).allows(code);
            if i < before.len() {
                assert(before[i].allows(code));
            }
        }
        if exists|i: int| 0 <= i < before.len() && (#[trigger] before[i]).allows(code) {
            let i = choose|i: int| 0 <= i < before.len() && (#[trigger] before[i]).allows(code);
            assert(participants[i].allows(code));
        }
        if participants.last().allows(code) {
            assert(participants[participants.len() - 1].allows(code));
        }
    }
}

/// The order in which two participants vote does not matter.
pub proof fn votes_commute(votes: Seq<u8>, a: Policy, b: Policy)
    ensures
        with_vote(with_vote(votes, a), b) == with_vote(with_vote(votes, b), a),
{
    assert(with_vote(with_vote(votes, a), b) =~= with_vote(with_vote(votes, b), a));
}

/// Voting twice is voting once.
pub proof fn voting_twice_is_voting_once(votes: Seq<u8>, policy: Policy)
    ensures
        with_vote(with_vote(votes, policy), policy) == with_vote(votes, policy),
{
    let once = with_vote(votes, policy);
    assert forall|code: int| 0 <= code < votes.len() implies with_vote(once, policy)[code]
        == once[code] by {
        let vote = votes[code];
        assert((vote | 1) | 1 == vote | 1) by (bit_vector);
    }
    assert(with_vote(once, policy) =~= once);
}

/// An interrupted outcome is never saved, whatever the votes, and a second
/// interruption by the same signal changes nothing.
pub proof fn an_interrupted_outcome_is_never_saved(outcome: OutcomeView, signal: int, votes: Seq<u8>)
    requires
        signal != 0,
    ensures
        outcome.interrupted(signal).saving(votes) == Saving::Interrupted,
        outcome.interrupted(signal).interrupted(signal) == outcome.interrupted(signal),
{
}

/// Only a normal exit code is ever saved.
pub proof fn only_normal_codes_are_saved(outcome: OutcomeView, votes: Seq<u8>)
    requires
        votes.len() == CODES,
        outcome.saving(votes) == Saving::Saved,
    ensures
        outcome.reusable,
        0 <= outcome.record.code <= 255,
{
}

/// Different statuses have different bytes.
pub proof fn saving_bytes_differ(a: Saving, b: Saving)
    requires
        a.byte() == b.byte(),
    ensures
        a == b,
{
}

/// A result is saved exactly if it is the command's own normal end and the vote
/// for its exit code is set; it counts as interrupted exactly if it is not such
/// an end, whatever the votes.
pub proof fn a_result_is_saved_exactly_if_its_code_has_a_vote(
    outcome: &Outcome,
    votes: &Votes,
    saving: Saving,
)
    requires
        call_ensures(Saving::of, (outcome, votes), saving),
    ensures
        saving == Saving::Saved <==> outcome@.reusable && 0 <= outcome@.record.code <= 255
            && votes@[outcome@.record.code] != 0,
        saving == Saving::Interrupted <==> !outcome@.reusable,
{
}

/// The result of an execution is saved exactly if it is the command's own
/// normal end and the code lists of at least one participant allow its exit
/// code: it is in the list of those to include, if there is one, and not in the
/// list of those to exclude.
pub proof fn a_result_is_saved_exactly_if_a_participant_allows_it(
    outcome: OutcomeView,
    participants: Seq<Policy>,
)
    ensures
        outcome.saving(merged(participants)) == Saving::Saved <==> {
            &&& outcome.reusable
            &&& 0 <= outcome.record.code <= 255
            &&& exists|i: int|
                #![trigger participants[i]]
                {
                    let code = outcome.record.code as u8;
                    &&& 0 <= i < participants.len()
                    &&& participants[i].only is None || participants[i].only->0.contains(code)
                    &&& participants[i].except is None || !participants[i].except->0.contains(code)
                }
        },
{
    merged_len(participants);
    any_participant_can_have_a_code_saved(participants, outcome.record.code);
    let code = outcome.record.code;
    assert forall|i: int| 0 <= i < participants.len() && 0 <= code <= 255 implies (
    #[trigger] participants[i]).allows(code) == ((participants[i].only is None
        || participants[i].only->0.contains(code as u8)) && (participants[i].except is None
        || !participants[i].except->0.contains(code as u8))) by {}
}

/// A participant's vote sets the votes of all exit codes that its code lists
/// allow, and changes no other.
pub proof fn a_vote_is_for_the_codes_of_the_request(votes: &mut Votes, request: &Request)
    requires
        call_ensures(add_vote, (votes, request), ()),
    ensures
        forall|code: int|
            #![trigger final(votes)@[code]]
            0 <= code < 256 ==> if (request.include_codes is None
                || request.include_codes->0@.contains(code as u8)) && (request.exclude_codes is None
                || !request.exclude_codes->0@.contains(code as u8)) {
                final(votes)@[code] != 0
            } else {
                final(votes)@[code] == old(votes)@[code]
            },
        forall|code: int|
            #![trigger final(votes)@[code]]
            0 <= code < 256 && old(votes)@[code] != 0 ==> final(votes)@[code] != 0,
{
    assert forall|code: int| #![trigger final(votes)@[code]] 0 <= code < 256 implies {
        let policy = request.policy();
        &&& policy.allows(code) ==> final(votes)@[code] != 0
        &&& !policy.allows(code) ==> final(votes)@[code] == old(votes)@[code]
        &&& policy.allows(code) <==> (request.include_codes is None
            || request.include_codes->0@.contains(code as u8)) && (request.exclude_codes is None
            || !request.exclude_codes->0@.contains(code as u8))
    } by {
        let vote = old(votes)@[code];
        assert(vote | 1 != 0) by (bit_vector);
        assert(final(votes)@[code] == with_vote(old(votes)@, request.policy())[code]);
    }
}

/// An outcome holds what the child left: both outputs to the last byte, when it
/// completed, and its exit code. A signal to this process decides the exit code
/// before one that ended the child, and that before a normal end; only a normal
/// end without either may be reused.
pub proof fn an_outcome_holds_what_the_child_left(
    completed: SystemTime,
    exit_code: Option<i32>,
    exit_signal: Option<i32>,
    interrupted: i32,
    stdout: Vec<u8>,
    stderr: Vec<u8>,
    outcome: Outcome,
)
    requires
        reportable(interrupted as int),
        exit_signal matches Some(signal) ==> reportable(signal as int),
        call_ensures(
            Outcome::new,
            (completed, exit_code, exit_signal, interrupted, stdout, stderr),
            outcome,
        ),
    ensures
        outcome@.record.stdout == stdout@,
        outcome@.record.stderr == stderr@,
        outcome@.record.completed == completed@,
        interrupted != 0 ==> outcome@.record.code == 128 + interrupted,
        interrupted == 0 && exit_code is Some ==> outcome@.record.code == exit_code->0,
        interrupted == 0 && exit_code is None && exit_signal is Some ==> outcome@.record.code == 128
            + exit_signal->0,
        interrupted == 0 && exit_code is None && exit_signal is None ==> outcome@.record.code == 128,
        outcome@.reusable <==> exit_code is Some && interrupted == 0,
{
}

/// A signal takes over the exit code of an outcome and the right to reuse it,
/// and nothing else: the output and the completion time stay. No signal changes
/// nothing.
pub proof fn a_signal_takes_over_the_exit_code(outcome: &mut Outcome, signal: i32, changed: bool)
    requires
        reportable(signal as int),
        call_ensures(Outcome::interrupt, (outcome, signal), changed),
    ensures
        final(outcome)@.record.stdout == old(outcome)@.record.stdout,
        final(outcome)@.record.stderr == old(outcome)@.record.stderr,
        final(outcome)@.record.completed == old(outcome)@.record.completed,
        signal == 0 ==> final(outcome)@ == old(outcome)@ && !changed,
        signal != 0 ==> final(outcome)@.record.code == 128 + signal && !final(outcome)@.reusable,
        signal != 0 ==> (changed <==> old(outcome)@.reusable || old(outcome)@.record.code != 128
            + signal),
{
    if signal != 0 && !old(outcome)@.reusable && old(outcome)@.record.code == 128 + signal {
        assert(final(outcome)@ =~= old(outcome)@);
    }
}

/// What is asked of an outcome is what it holds.
pub proof fn an_outcome_tells_what_it_holds(
    outcome: &Outcome,
    record: &Record,
    code: i32,
    reusable: bool,
)
    requires
        call_ensures(Outcome::record, (outcome,), record),
        call_ensures(Outcome::code, (outcome,), code),
        call_ensures(Outcome::reusable, (outcome,), reusable),
    ensures
        record@ == outcome@.record,
        code == record.code,
        reusable == outcome@.reusable,
{
}

/// A saving status is read back from its byte, and no other byte is read as
/// one.
pub proof fn a_saving_status_is_read_back(
    saving: Saving,
    byte: u8,
    decoded: Result<Saving, Error>,
    other: u8,
    other_decoded: Result<Saving, Error>,
)
    requires
        call_ensures(Saving::code, (saving,), byte),
        call_ensures(Saving::decode, (byte,), decoded),
        call_ensures(Saving::decode, (other,), other_decoded),
    ensures
        decoded == Ok::<Saving, Error>(saving),
        other_decoded is Ok <==> 1 <= other <= 3,
{
}

/// Each saving status has its own label, which is `yes` exactly if the result is
/// saved.
pub proof fn only_a_saved_result_is_labelled_so(saving: Saving, text: &'static str)
    requires
        call_ensures(Saving::describe, (saving,), text),
    ensures
        saving == Saving::Saved <==> text@ == "yes"@,
        saving == Saving::Excluded <==> text@ == "no reason=participant-policy"@,
        saving == Saving::Interrupted <==> text@ == "no reason=interrupted"@,
{
    reveal_strlit("yes");
    reveal_strlit("no reason=participant-policy");
    reveal_strlit("no reason=interrupted");
    assert("yes"@.len() == 3 && "no reason=participant-policy"@.len() == 28
        && "no reason=interrupted"@.len() == 21);
}

/// The exit status of a signal is 128 more than the signal, for every signal
/// for which there is such a status.
pub proof fn a_signal_has_its_own_exit_status(signal: i32, is: bool, code: i32)
    requires
        call_ensures(is_reportable, (signal,), is),
        is ==> call_ensures(signal_code, (signal,), code),
    ensures
        is <==> signal + 128 <= i32::MAX,
        is ==> code - 128 == signal,
{
}

} // verus!
