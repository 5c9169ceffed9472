//! Replaying a saved or shared result.

use crate::domain::delivery::{combined, delivery_result};
use crate::domain::execution::{reportable, signal_code};
use crate::error::{in_context, message, CauseView, Error, IoError};
use crate::shell::signals::Waited;
use crate::shell::store::io_view;
use vstd::prelude::*;

verus! {

/// What replaying a result with exit code `code` comes to, given how the wait
/// for its delivery ended.
pub open spec fn written(code: i32, waited: Waited<Result<(), Error>>) -> Result<
    i32,
    Seq<CauseView>,
> {
    match waited {
        Waited::Done(Ok(())) => Ok(code),
        Waited::Done(Err(error)) => Err(error@),
        Waited::Interrupted(signal) => Ok((128 + signal) as i32),
        Waited::Closed => Err(message("replay worker panicked"@)),
    }
}

/// What replaying a result with exit code `code` comes to, given how the wait
/// for its delivery ended.
pub fn write(code: i32, waited: Waited<Result<(), Error>>) -> (result: Result<i32, Error>)
    requires
        waited matches Waited::Interrupted(signal) ==> reportable(signal as int),
    ensures
        crate::error::viewed(result) == written(code, waited),
{
    match waited {
        Waited::Done(Ok(())) => Ok(code),
        Waited::Done(Err(error)) => Err(error),
        Waited::Interrupted(signal) => Ok(signal_code(signal)),
        Waited::Closed => Err(Error::new("replay worker panicked")),
    }
}

/// A stream that a result is replayed to.
#[derive(Clone, Copy, Debug, PartialEq, Eq, Structural)]
pub enum Stream {
    Stdout,
    Stderr,
}

/// What writing to a stream and then flushing it comes to. It is flushed only
/// after everything was written.
pub open spec fn streamed(
    stream: Stream,
    wrote: Result<(), CauseView>,
    flushed: Result<(), CauseView>,
) -> Result<(), Seq<CauseView>> {
    match (wrote, flushed) {
        (Err(error), _) => Err(
            in_context(
                match stream {
                    Stream::Stdout => "replay stdout"@,
                    Stream::Stderr => "replay stderr"@,
                },
                seq![error],
            ),
        ),
        (Ok(()), Err(error)) => Err(
            in_context(
                match stream {
                    Stream::Stdout => "flush stdout"@,
                    Stream::Stderr => "flush stderr"@,
                },
                seq![error],
            ),
        ),
        (Ok(()), Ok(())) => Ok(()),
    }
}

fn stream_result(stream: Stream, wrote: Result<(), IoError>, flushed: Result<(), IoError>) -> (result:
    Result<(), Error>)
    ensures
        crate::error::viewed(result) == streamed(stream, io_view(wrote), io_view(flushed)),
{
    let (error, context) = match (wrote, flushed, stream) {
        (Err(error), _, Stream::Stdout) => (error, "replay stdout"),
        (Err(error), _, Stream::Stderr) => (error, "replay stderr"),
        (Ok(()), Err(error), Stream::Stdout) => (error, "flush stdout"),
        (Ok(()), Err(error), Stream::Stderr) => (error, "flush stderr"),
        (Ok(()), Ok(()), _) => {
            return Ok(());
        },
    };
    Err(Error::from_io(error).context(context))
}

/// What replaying both streams comes to, given how writing to and flushing
/// each went. Like live delivery, a failure on one stream does not stop the
/// other.
pub fn replay_bytes(
    stdout: (Result<(), IoError>, Result<(), IoError>),
    stderr: (Result<(), IoError>, Result<(), IoError>),
) -> (result: Result<(), Error>)
    ensures
        crate::error::viewed(result) == combined(
            streamed(Stream::Stdout, io_view(stdout.0), io_view(stdout.1)),
            streamed(Stream::Stderr, io_view(stderr.0), io_view(stderr.1)),
        ),
{
    delivery_result(
        stream_result(Stream::Stdout, stdout.0, stdout.1),
        stream_result(Stream::Stderr, stderr.0, stderr.1),
    )
}

/// A replay that is delivered to its end returns the exit code of the result
/// that is replayed, whatever it is.
pub proof fn a_replay_returns_the_exit_code_of_its_result(
    code: i32,
    delivered: Result<(), Error>,
    result: Result<i32, Error>,
)
    requires
        call_ensures(write, (code, Waited::Done(delivered)), result),
    ensures
        delivered is Ok ==> result == Ok::<i32, Error>(code),
        delivered is Err ==> result is Err && result->Err_0@ == delivered->Err_0@,
{
}

/// A replay that a signal cuts short returns that signal's exit status, and one
/// whose worker is gone fails: neither passes for the command's own end.
pub proof fn a_replay_cut_short_never_returns_the_exit_code(
    code: i32,
    signal: i32,
    stopped: Result<i32, Error>,
    lost: Result<i32, Error>,
)
    requires
        reportable(signal as int),
        call_ensures(write, (code, Waited::Interrupted(signal)), stopped),
        call_ensures(write, (code, Waited::Closed), lost),
    ensures
        stopped is Ok && stopped->Ok_0 == 128 + signal,
        lost is Err && lost->Err_0@ == seq![CauseView::Message("replay worker panicked"@)],
{
}

/// Both streams are replayed if and only if each was written and flushed. A
/// failure on one stream alone is the failure of the replay, and it says which
/// stream it was and which step.
pub proof fn a_replay_delivers_both_streams(
    stdout: (Result<(), IoError>, Result<(), IoError>),
    stderr: (Result<(), IoError>, Result<(), IoError>),
    result: Result<(), Error>,
)
    requires
        call_ensures(replay_bytes, (stdout, stderr), result),
    ensures
        result is Ok <==> stdout.0 is Ok && stdout.1 is Ok && stderr.0 is Ok && stderr.1 is Ok,
        stdout.0 is Err && stderr.0 is Ok && stderr.1 is Ok ==> result->Err_0@ == seq![
            CauseView::Message("replay stdout"@),
            stdout.0->Err_0@,
        ],
        stdout.0 is Ok && stdout.1 is Err && stderr.0 is Ok && stderr.1 is Ok ==> result->Err_0@
            == seq![CauseView::Message("flush stdout"@), stdout.1->Err_0@],
        stderr.0 is Err && stdout.0 is Ok && stdout.1 is Ok ==> result->Err_0@ == seq![
            CauseView::Message("replay stderr"@),
            stderr.0->Err_0@,
        ],
        stderr.0 is Ok && stderr.1 is Err && stdout.0 is Ok && stdout.1 is Ok ==> result->Err_0@
            == seq![CauseView::Message("flush stderr"@), stderr.1->Err_0@],
{
    if stdout.0 is Err {
        assert(in_context("replay stdout"@, seq![stdout.0->Err_0@]) =~= seq![
            CauseView::Message("replay stdout"@),
            stdout.0->Err_0@,
        ]);
    } else if stdout.1 is Err {
        assert(in_context("flush stdout"@, seq![stdout.1->Err_0@]) =~= seq![
            CauseView::Message("flush stdout"@),
            stdout.1->Err_0@,
        ]);
    }
    if stderr.0 is Err {
        assert(in_context("replay stderr"@, seq![stderr.0->Err_0@]) =~= seq![
            CauseView::Message("replay stderr"@),
            stderr.0->Err_0@,
        ]);
    } else if stderr.1 is Err {
        assert(in_context("flush stderr"@, seq![stderr.1->Err_0@]) =~= seq![
            CauseView::Message("flush stderr"@),
            stderr.1->Err_0@,
        ]);
    }
}

} // verus!
