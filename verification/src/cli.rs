//! The edges of the program: where results are kept, what a tool error prints,
//! and how the program exits.

use crate::domain::location::{default_cache_dir, default_directory, given, given_absolute};
use crate::error::{message, rendered, CauseView, Error};
use crate::time::Duration;
use vstd::prelude::*;

verus! {

/// The exit status of a tool error.
pub const TOOL_ERROR: i32 = 125;

/// Where results are kept, for these values of `XDG_CACHE_HOME` and `HOME`.
pub fn cache_directory(xdg_cache_home: Option<Vec<u8>>, home: Option<Vec<u8>>) -> (directory: Result<
    Vec<u8>,
    Error,
>)
    ensures
        match (default_directory(given_absolute(xdg_cache_home), given(home)), directory) {
            (Some(expected), Ok(directory)) => directory@ == expected,
            (None, Err(error)) => error@ == message(
                "neither an absolute XDG_CACHE_HOME nor HOME is set; supply --cache-dir"@,
            ),
            _ => false,
        },
{
    match default_cache_dir(xdg_cache_home, home) {
        Some(directory) => Ok(directory),
        None => Err(
            Error::new("neither an absolute XDG_CACHE_HOME nor HOME is set; supply --cache-dir"),
        ),
    }
}

/// Whether to suggest `--` before the command, for an argument error:
/// `unknown` tells whether it is about an unknown argument, and `argument` is
/// that argument. A misspelled option gets no such suggestion.
pub fn suggests_separator(unknown: bool, argument: Option<&str>) -> (suggests: bool)
    ensures
        suggests <==> unknown && (argument matches Some(argument) && !(argument@.len() > 0
            && argument@[0] == '-')),
{
    if !unknown {
        return false;
    }
    match argument {
        Some(argument) => !(argument.unicode_len() > 0 && argument.get_char(0) == '-'),
        None => false,
    }
}

/// The diagnostic of a tool error.
pub open spec fn diagnostic_line(error: Seq<CauseView>) -> Seq<char> {
    "cacheexec: "@ + rendered(error)
}

/// The diagnostic of a tool error.
pub fn diagnostic(error: &Error) -> (line: String)
    ensures
        line@ == diagnostic_line(error@),
{
    let mut line = "cacheexec: ".to_owned();
    line.append(error.render().as_str());
    line
}

/// The exit status of an invocation: what it returned, or that of a tool
/// error.
pub fn exit_code(outcome: &Result<i32, Error>) -> (code: i32)
    ensures
        code == match outcome {
            Ok(code) => *code,
            Err(_) => TOOL_ERROR,
        },
{
    match outcome {
        Ok(code) => *code,
        Err(_) => TOOL_ERROR,
    }
}

/// Where printing a diagnostic stands.
#[derive(Clone, Copy, Debug, PartialEq, Eq, Structural)]
pub enum Printing {
    /// Starting a thread that writes it.
    Starting,
    /// No thread started: writing it right here.
    Inline,
    /// Waiting for the thread.
    Waiting,
    Printed,
}

/// What printing a diagnostic needs next.
#[derive(Clone, Copy, Debug)]
pub enum PrintAction {
    /// Start a thread that writes the diagnostic.
    Spawn,
    /// Write the diagnostic without a thread.
    WriteInline,
    /// Wait until the thread ends, or for this long after a signal.
    Wait(Duration),
    Finish,
}

/// How long a signal still waits for the tool error diagnostic to be written.
/// The diagnostic is part of the exit code 125 contract, and a window of a few
/// milliseconds from the writer's spawn is lost on a loaded host; this only
/// delays exit when stderr is not being read.
pub fn error_grace() -> (grace: Duration)
    ensures
        grace == (Duration { secs: 0, nanos: 200_000_000 }),
{
    Duration::new(0, 200_000_000)
}

/// Starts to print the diagnostic of a tool error. Thread creation fails under
/// the same resource exhaustion that often caused the error, so when no thread
/// starts the diagnostic is written inline instead of lost; a signal cannot
/// cut that write short, which this double failure accepts.
pub fn print_error() -> (printing: Printing)
    ensures
        printing == Printing::Starting,
{
    Printing::Starting
}

impl Printing {
    pub open spec fn wants(self) -> PrintAction {
        match self {
            Printing::Starting => PrintAction::Spawn,
            Printing::Inline => PrintAction::WriteInline,
            Printing::Waiting => PrintAction::Wait(Duration { secs: 0, nanos: 200_000_000 }),
            Printing::Printed => PrintAction::Finish,
        }
    }

    /// What printing needs next.
    pub fn action(self) -> (action: PrintAction)
        ensures
            action == self.wants(),
    {
        match self {
            Printing::Starting => PrintAction::Spawn,
            Printing::Inline => PrintAction::WriteInline,
            Printing::Waiting => PrintAction::Wait(error_grace()),
            Printing::Printed => PrintAction::Finish,
        }
    }

    /// Printing after its last action, which was carried out or failed.
    pub open spec fn after(self, carried_out: bool) -> Printing {
        match self {
            Printing::Starting => if carried_out {
                Printing::Waiting
            } else {
                Printing::Inline
            },
            _ => Printing::Printed,
        }
    }

    /// Printing after its last action, which was carried out or failed.
    pub fn step(self, carried_out: bool) -> (next: Printing)
        ensures
            next == self.after(carried_out),
    {
        match self {
            Printing::Starting => if carried_out {
                Printing::Waiting
            } else {
                Printing::Inline
            },
            _ => Printing::Printed,
        }
    }
}

/// A diagnostic is never lost for want of a thread, and never written twice:
/// it is written by the thread if one starts, and inline exactly if none does.
pub proof fn the_diagnostic_is_written_once(started: bool, written: bool)
    ensures
        Printing::Starting.after(started).wants() is WriteInline <==> !started,
        Printing::Starting.after(started).after(written) == Printing::Printed,
{
}

/// An invocation exits with what it returned, whatever that is, and with 125
/// exactly if that is what it returned or it failed.
pub proof fn an_invocation_exits_with_what_it_returned(outcome: &Result<i32, Error>, code: i32)
    requires
        call_ensures(exit_code, (outcome,), code),
    ensures
        *outcome matches Ok(returned) ==> code == returned,
        *outcome is Err ==> code == 125,
{
}

/// The diagnostic of a tool error starts with the name of the tool and says the
/// whole failure.
pub proof fn a_tool_error_is_printed_in_full(error: &Error, line: String, text: String)
    requires
        call_ensures(diagnostic, (error,), line),
        call_ensures(Error::render, (error,), text),
    ensures
        line@ == "cacheexec: "@ + text@,
{
}

/// Where results are kept is the default directory if there is one, and an
/// error exactly if there is none.
pub proof fn without_a_directory_there_is_an_error(
    xdg_cache_home: Option<Vec<u8>>,
    home: Option<Vec<u8>>,
    found: Option<Vec<u8>>,
    directory: Result<Vec<u8>, Error>,
)
    requires
        call_ensures(default_cache_dir, (xdg_cache_home, home), found),
        call_ensures(cache_directory, (xdg_cache_home, home), directory),
    ensures
        directory is Ok <==> found is Some,
        directory is Ok ==> directory->Ok_0@ == found->0@,
        directory is Err ==> directory->Err_0@ == seq![
            CauseView::Message(
                "neither an absolute XDG_CACHE_HOME nor HOME is set; supply --cache-dir"@,
            ),
        ],
{
}

/// A `--` is suggested exactly for an unknown argument that does not look like
/// an option.
pub proof fn a_separator_is_suggested_for_a_command(
    unknown: bool,
    argument: Option<&str>,
    suggests: bool,
)
    requires
        call_ensures(suggests_separator, (unknown, argument), suggests),
    ensures
        suggests <==> unknown && argument is Some && (argument->0@.len() == 0 || argument->0@[0]
            != '-'),
{
}

/// A diagnostic is written by a thread, which is waited for as long as the
/// grace, or without one if none starts; after either, printing is over.
pub proof fn a_diagnostic_is_printed_one_way_or_the_other(
    start: Printing,
    started: bool,
    next: Printing,
    written: bool,
    end: Printing,
    spawn: PrintAction,
    second: PrintAction,
    third: PrintAction,
    grace: Duration,
)
    requires
        call_ensures(print_error, (), start),
        call_ensures(Printing::step, (start, started), next),
        call_ensures(Printing::step, (next, written), end),
        call_ensures(Printing::action, (start,), spawn),
        call_ensures(Printing::action, (next,), second),
        call_ensures(Printing::action, (end,), third),
        call_ensures(error_grace, (), grace),
    ensures
        spawn is Spawn,
        started ==> second == PrintAction::Wait(grace),
        !started ==> second is WriteInline,
        third is Finish,
        grace@ == 200_000_000,
{
}

} // verus!
