//! How a delivery to standard output and standard error ended.

use crate::domain::execution::{reportable, signal_code};
use crate::error::{viewed, Cause, CauseView, Error, ErrorKind, IoError};
use vstd::prelude::*;

verus! {

/// Whether some cause of `error` is that a reader closed early.
pub open spec fn closed(error: Seq<CauseView>) -> bool {
    exists|i: int|
        0 <= i < error.len() && (#[trigger] error[i] matches CauseView::Io(kind, _) && kind
            == ErrorKind::BrokenPipe)
}

/// Both delivery results as one: a closed reader on stdout does not hide a
/// different failure on stderr, and otherwise the first failure is reported.
pub open spec fn combined(
    out: Result<(), Seq<CauseView>>,
    err: Result<(), Seq<CauseView>>,
) -> Result<(), Seq<CauseView>> {
    match (out, err) {
        (Ok(()), err) => err,
        (Err(out), Ok(())) => Err(out),
        (Err(out), Err(err)) => if closed(out) && !closed(err) {
            Err(err)
        } else {
            Err(out)
        },
    }
}

/// Combines the stdout and stderr delivery results. A reader that closed
/// early (EPIPE) on one stream must not hide a different failure on the other.
pub fn delivery_result(out: Result<(), Error>, err: Result<(), Error>) -> (result: Result<
    (),
    Error,
>)
    ensures
        viewed(result) == combined(viewed(out), viewed(err)),
{
    match out {
        Ok(()) => err,
        Err(out) => match err {
            Ok(()) => Err(out),
            Err(err) => if output_closed(&out) && !output_closed(&err) {
                Err(err)
            } else {
                Err(out)
            },
        },
    }
}

/// Whether some cause of `error` is that a reader closed early.
pub fn output_closed(error: &Error) -> (is_closed: bool)
    ensures
        is_closed == closed(error@),
{
    let mut i: usize = 0;
    while i < error.causes.len()
        invariant
            i <= error.causes@.len(),
            forall|j: int|
                0 <= j < i ==> !(#[trigger] error@[j] matches CauseView::Io(kind, _) && kind
                    == ErrorKind::BrokenPipe),
        decreases error.causes@.len() - i,
    {
        assert(error@[i as int] == error.causes@[i as int]@);
        if let Cause::Io(io) = &error.causes[i] {
            if reader_closed(io) {
                return true;
            }
        }
        i += 1;
    }
    false
}

/// Whether a write failed because its reader closed early, which callers treat
/// as the reader's choice to stop rather than a tool failure.
pub fn reader_closed(error: &IoError) -> (closed: bool)
    ensures
        closed == (error.kind == ErrorKind::BrokenPipe),
{
    matches!(error.kind, ErrorKind::BrokenPipe)
}

/// How an invocation that delivered its result ended.
#[derive(Clone, Copy, Debug, PartialEq, Eq, Structural)]
pub enum Ending {
    Completed,
    /// A reader closed before it had everything.
    OutputClosed,
    Interrupted,
}

/// The exit status of an invocation and how it ended, for the result of its
/// delivery, the exit code of the command, the signal that this process
/// received (0 for none) and whether the execution itself was interrupted.
pub open spec fn classified(
    outcome: Result<i32, Seq<CauseView>>,
    command_code: i32,
    signal: i32,
    interrupted: bool,
) -> Result<(i32, Ending), Seq<CauseView>> {
    match outcome {
        Err(error) if !closed(error) => Err(error),
        _ if signal != 0 => Ok(((128 + signal) as i32, Ending::Interrupted)),
        Ok(code) if interrupted => Ok((code, Ending::Interrupted)),
        Ok(code) => Ok((code, Ending::Completed)),
        Err(_) if interrupted => Ok((command_code, Ending::Interrupted)),
        Err(_) => Ok((command_code, Ending::OutputClosed)),
    }
}

/// What an invocation reports after its delivery. A closed reader keeps the
/// command's own exit code; any other failure of the delivery is an error.
pub fn classify(
    outcome: Result<i32, Error>,
    command_code: i32,
    signal: i32,
    interrupted: bool,
) -> (result: Result<(i32, Ending), Error>)
    requires
        reportable(signal as int),
    ensures
        viewed(result) == classified(viewed(outcome), command_code, signal, interrupted),
{
    let closed_early = match &outcome {
        Ok(_) => false,
        Err(error) => output_closed(error),
    };
    match outcome {
        Err(error) if !closed_early => Err(error),
        _ if signal != 0 => Ok((signal_code(signal), Ending::Interrupted)),
        Ok(code) => Ok(
            (
                code,
                if interrupted {
                    Ending::Interrupted
                } else {
                    Ending::Completed
                },
            ),
        ),
        Err(_) => Ok(
            (
                command_code,
                if interrupted {
                    Ending::Interrupted
                } else {
                    Ending::OutputClosed
                },
            ),
        ),
    }
}

/// The combined delivery fails exactly when one of the streams does, and then
/// counts as closed by its reader only if no stream failed otherwise.
pub proof fn a_closed_reader_never_hides_another_failure(
    out: Result<(), Seq<CauseView>>,
    err: Result<(), Seq<CauseView>>,
)
    ensures
        combined(out, err) is Ok <==> out is Ok && err is Ok,
        combined(out, err) matches Err(error) ==> (closed(error) <==> (out matches Err(
            out,
        ) ==> closed(out)) && (err matches Err(err) ==> closed(err))),
{
}

/// Unless a signal arrives, an invocation whose delivery did not fail, or only
/// because a reader closed, exits with the command's own code.
pub proof fn a_closed_reader_keeps_the_commands_code(
    outcome: Result<i32, Seq<CauseView>>,
    command_code: i32,
    interrupted: bool,
)
    requires
        outcome matches Ok(code) ==> code == command_code,
        outcome matches Err(error) ==> closed(error),
    ensures
        classified(outcome, command_code, 0, interrupted) matches Ok((code, ending)) && {
            &&& code == command_code
            &&& interrupted <==> ending == Ending::Interrupted
        },
{
}

/// A failure counts as closed by a reader exactly if one of its causes is a
/// broken pipe, wherever in the chain that stands.
pub proof fn a_broken_pipe_anywhere_is_a_closed_reader(error: &Error, is_closed: bool)
    requires
        call_ensures(output_closed, (error,), is_closed),
    ensures
        is_closed <==> exists|i: int|
            #![trigger error.causes@[i]]
            0 <= i < error.causes@.len() && (error.causes@[i] matches Cause::Io(io) && io.kind
                == ErrorKind::BrokenPipe),
{
    if is_closed {
        let i = choose|i: int|
            0 <= i < error@.len() && (#[trigger] error@[i] matches CauseView::Io(kind, _) && kind
                == ErrorKind::BrokenPipe);
        assert(error@[i] == error.causes@[i]@);
        assert(error.causes@[i] is Io);
    }
    if exists|i: int|
        #![trigger error.causes@[i]]
        0 <= i < error.causes@.len() && (error.causes@[i] matches Cause::Io(io) && io.kind
            == ErrorKind::BrokenPipe) {
        let i = choose|i: int|
            #![trigger error.causes@[i]]
            0 <= i < error.causes@.len() && (error.causes@[i] matches Cause::Io(io) && io.kind
                == ErrorKind::BrokenPipe);
        assert(error@[i] == error.causes@[i]@);
    }
}

/// Two deliveries fail together exactly if one of them does, with the failure
/// of one of them: that of stdout, unless a reader closed stdout early and
/// stderr failed otherwise.
pub proof fn one_of_two_failures_is_reported(
    out: Result<(), Error>,
    err: Result<(), Error>,
    result: Result<(), Error>,
    out_closed: bool,
    err_closed: bool,
)
    requires
        call_ensures(delivery_result, (out, err), result),
        out is Err ==> call_ensures(output_closed, (&out->Err_0,), out_closed),
        err is Err ==> call_ensures(output_closed, (&err->Err_0,), err_closed),
    ensures
        result is Ok <==> out is Ok && err is Ok,
        out is Err && err is Ok ==> result->Err_0@ == out->Err_0@,
        out is Ok && err is Err ==> result->Err_0@ == err->Err_0@,
        out is Err && err is Err && out_closed && !err_closed ==> result->Err_0@ == err->Err_0@,
        out is Err && err is Err && !(out_closed && !err_closed) ==> result->Err_0@ == out->Err_0@,
{
}

/// What was delivered without a signal keeps its exit code, whatever it is, and
/// says that the execution was interrupted exactly if it was.
pub proof fn a_delivered_result_keeps_its_exit_code(
    code: i32,
    command_code: i32,
    interrupted: bool,
    result: Result<(i32, Ending), Error>,
)
    requires
        call_ensures(classify, (Ok(code), command_code, 0i32, interrupted), result),
    ensures
        result is Ok && result->Ok_0.0 == code,
        result->Ok_0.1 == Ending::Interrupted <==> interrupted,
        result->Ok_0.1 == Ending::Completed <==> !interrupted,
{
}

/// A signal decides the exit status of every delivery that did not fail, or
/// failed only because a reader closed early.
pub proof fn a_signal_decides_the_exit_status(
    outcome: Result<i32, Error>,
    command_code: i32,
    signal: i32,
    interrupted: bool,
    result: Result<(i32, Ending), Error>,
    closed_early: bool,
)
    requires
        reportable(signal as int),
        signal != 0,
        outcome is Err ==> call_ensures(output_closed, (&outcome->Err_0,), closed_early)
            && closed_early,
        call_ensures(classify, (outcome, command_code, signal, interrupted), result),
    ensures
        result is Ok && result->Ok_0.0 == 128 + signal && result->Ok_0.1 == Ending::Interrupted,
{
}

/// A delivery whose reader closed early is no failure: it keeps the command's
/// own exit code. Every other failure is passed on as it is, signal or not.
pub proof fn only_a_closed_reader_is_forgiven(
    error: Error,
    command_code: i32,
    signal: i32,
    interrupted: bool,
    result: Result<(i32, Ending), Error>,
    closed_early: bool,
)
    requires
        reportable(signal as int),
        call_ensures(output_closed, (&error,), closed_early),
        call_ensures(classify, (Err(error), command_code, signal, interrupted), result),
    ensures
        result is Err <==> !closed_early,
        result is Err ==> result->Err_0@ == error@,
        result is Ok && signal == 0 ==> result->Ok_0.0 == command_code,
        result is Ok && signal == 0 ==> (result->Ok_0.1 == Ending::Interrupted <==> interrupted),
        result is Ok && signal == 0 ==> (result->Ok_0.1 == Ending::OutputClosed <==> !interrupted),
{
}

/// Only a broken pipe is a reader that closed early.
pub proof fn only_a_broken_pipe_is_a_closed_reader(error: &IoError, is_closed: bool)
    requires
        call_ensures(reader_closed, (error,), is_closed),
    ensures
        error.kind == ErrorKind::BrokenPipe ==> is_closed,
        error.kind != ErrorKind::BrokenPipe ==> !is_closed,
{
}

} // verus!
