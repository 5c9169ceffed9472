//! Diagnostics of one invocation: which lines it writes, and how they are set
//! apart from the output of its command.

use crate::domain::message::{self, decision_line, failed_line, span_text, Age, Decision, Failure, Saved};
use crate::time::{Duration, NANOS_PER_SEC};
use vstd::prelude::*;

verus! {

/// The diagnostics of one invocation.
#[derive(Debug)]
pub struct Verbose {
    enabled: bool,
    finished: bool,
}

pub struct VerboseView {
    /// Whether diagnostics are written at all.
    pub enabled: bool,
    /// Whether the invocation has said how it ended.
    pub finished: bool,
}

impl View for Verbose {
    type V = VerboseView;

    closed spec fn view(&self) -> VerboseView {
        VerboseView { enabled: self.enabled, finished: self.finished }
    }
}

/// A message on a line of its own. It may be delivered after unterminated
/// child stderr, so it starts a new line itself.
pub open spec fn framed(message: Seq<char>) -> Seq<char> {
    "\ncacheexec: verbose: "@ + message + "\n"@
}

impl VerboseView {
    /// What is written for `message`.
    pub open spec fn emitted(self, message: Seq<char>) -> Option<Seq<char>> {
        if self.enabled {
            Some(framed(message))
        } else {
            None
        }
    }

    /// What is written when the invocation says how it ended: only the first
    /// time.
    pub open spec fn ended(self, message: Seq<char>) -> Option<Seq<char>> {
        if self.finished {
            None
        } else {
            self.emitted(message)
        }
    }
}

/// Whether diagnostics may be written to a file: `regular` tells whether it is
/// a regular one and `unlimited` whether file sizes have no limit, each if
/// that is known. An over-limit file write can deliver SIGXFSZ to another
/// thread, so diagnostics to regular files are dropped under a finite size
/// limit; checking only the current offset would race other writers.
pub fn safe_destination(regular: Option<bool>, unlimited: Option<bool>) -> (safe: bool)
    ensures
        safe <==> regular is Some && (regular == Some(true) ==> unlimited == Some(true)),
{
    match regular {
        None => false,
        Some(false) => true,
        Some(true) => match unlimited {
            Some(unlimited) => unlimited,
            None => false,
        },
    }
}

/// Whether diagnostics are written: they are asked for, standard error could be
/// duplicated, and the duplicate is safe to write to.
pub open spec fn may_write(
    enabled: bool,
    duplicated: bool,
    regular: Option<bool>,
    unlimited: Option<bool>,
) -> bool {
    &&& enabled
    &&& duplicated
    &&& regular is Some
    &&& regular == Some(true) ==> unlimited == Some(true)
}

/// Whether diagnostics are written, given whether they are asked for, whether
/// standard error could be duplicated, and what is known of the duplicate.
pub fn writes(
    enabled: bool,
    duplicated: bool,
    regular: Option<bool>,
    unlimited: Option<bool>,
) -> (writes: bool)
    ensures
        writes == may_write(enabled, duplicated, regular, unlimited),
{
    enabled && duplicated && safe_destination(regular, unlimited)
}

/// The text of a line, if there is one.
pub open spec fn viewed(line: Option<String>) -> Option<Seq<char>> {
    match line {
        Some(line) => Some(line@),
        None => None,
    }
}

impl Verbose {
    pub fn new(enabled: bool) -> (diagnostic: Verbose)
        ensures
            diagnostic@ == (VerboseView { enabled, finished: false }),
    {
        Verbose { enabled, finished: false }
    }

    fn emit(&self, message: &str) -> (line: Option<String>)
        ensures
            viewed(line) == self@.emitted(message@),
    {
        if !self.enabled {
            return None;
        }
        // A decision may be delivered after unterminated child stderr. Keep
        // every message on its own line without waiting for the child writer.
        let mut line = "\ncacheexec: verbose: ".to_owned();
        line.append(message);
        line.append("\n");
        Some(line)
    }

    /// What to write for a decision. `directory` is the cache directory as it
    /// is to be shown.
    pub fn decision(
        &self,
        decision: Decision,
        age: Option<Age>,
        ttl: Duration,
        directory: &str,
        key: &str,
    ) -> (line: Option<String>)
        requires
            ttl.nanos < NANOS_PER_SEC,
        ensures
            viewed(line) == self@.emitted(
                decision_line(decision, age, span_text(ttl.secs, ttl.nanos), directory@, key@),
            ),
    {
        if !self.enabled {
            return None;
        }
        self.emit(message::decision(decision, age, ttl, directory, key).as_str())
    }

    /// What to write when the invocation ends.
    pub fn finish(&mut self, message: &str) -> (line: Option<String>)
        ensures
            viewed(line) == old(self)@.ended(message@),
            final(self)@ == (VerboseView { finished: true, ..old(self)@ }),
    {
        if self.finished {
            return None;
        }
        self.finished = true;
        self.emit(message)
    }

    /// What to write when the execution failed.
    pub fn failed(&mut self, saved: Saved) -> (line: Option<String>)
        ensures
            viewed(line) == old(self)@.ended(failed_line(saved, Failure::Execution)),
            final(self)@ == (VerboseView { finished: true, ..old(self)@ }),
    {
        self.finish(message::failed(saved, Failure::Execution).as_str())
    }
}

/// The lines that a sequence of messages about how the invocation ended
/// writes.
pub open spec fn ends(diagnostic: VerboseView, messages: Seq<Seq<char>>) -> Seq<Seq<char>>
    decreases messages.len(),
{
    if messages.len() == 0 {
        Seq::empty()
    } else {
        let first = match diagnostic.ended(messages[0]) {
            Some(line) => seq![line],
            None => Seq::empty(),
        };
        first + ends(VerboseView { finished: true, ..diagnostic }, messages.drop_first())
    }
}

/// An invocation says at most once how it ended, and what it says first
/// stands. With diagnostics switched off it says nothing.
pub proof fn an_invocation_ends_once(diagnostic: VerboseView, messages: Seq<Seq<char>>)
    requires
        messages.len() > 0,
    ensures
        ends(diagnostic, messages) == if diagnostic.enabled && !diagnostic.finished {
            seq![framed(messages[0])]
        } else {
            Seq::empty()
        },
    decreases messages.len(),
{
    let after = VerboseView { finished: true, ..diagnostic };
    if messages.len() > 1 {
        an_invocation_ends_once(after, messages.drop_first());
    }
    assert(ends(after, messages.drop_first()) =~= Seq::empty());
    assert(ends(diagnostic, messages) =~= if diagnostic.enabled && !diagnostic.finished {
        seq![framed(messages[0])]
    } else {
        Seq::empty()
    });
}

/// Diagnostics that are not asked for, or that have no safe place to go, are
/// silent: no decision and no end of the invocation writes anything.
pub proof fn diagnostics_without_a_safe_destination_are_silent(
    enabled: bool,
    duplicated: bool,
    regular: Option<bool>,
    unlimited: Option<bool>,
    finished: bool,
    message: Seq<char>,
    messages: Seq<Seq<char>>,
)
    requires
        !enabled || !duplicated || regular is None || (regular == Some(true) && unlimited != Some(
            true,
        )),
    ensures
        ({
            let diagnostic = VerboseView {
                enabled: may_write(enabled, duplicated, regular, unlimited),
                finished,
            };
            &&& diagnostic.emitted(message) is None
            &&& diagnostic.ended(message) is None
            &&& ends(diagnostic, messages) == Seq::<Seq<char>>::empty()
        }),
{
    let diagnostic = VerboseView {
        enabled: may_write(enabled, duplicated, regular, unlimited),
        finished,
    };
    if messages.len() > 0 {
        an_invocation_ends_once(diagnostic, messages);
    }
}

/// Diagnostics go to anything but a regular file, and to a regular file only
/// without a limit on file sizes; what is not known is taken for the worse.
pub proof fn diagnostics_go_where_they_are_safe(
    enabled: bool,
    duplicated: bool,
    regular: Option<bool>,
    unlimited: Option<bool>,
    safe: bool,
    writes: bool,
)
    requires
        call_ensures(safe_destination, (regular, unlimited), safe),
        call_ensures(
            crate::shell::verbose::writes,
            (enabled, duplicated, regular, unlimited),
            writes,
        ),
    ensures
        safe <==> regular == Some(false) || (regular == Some(true) && unlimited == Some(true)),
        writes <==> enabled && duplicated && safe,
{
    if regular is Some {
        assert(regular == Some(regular->0));
    }
}

/// What an invocation says of its end is written exactly if diagnostics are
/// wanted and it has said nothing of its end before; it is the message on a
/// line of its own. Afterwards it has said it.
pub proof fn the_end_is_said_once_and_in_full(
    diagnostic: &mut Verbose,
    message: &str,
    line: Option<String>,
)
    requires
        call_ensures(Verbose::finish, (diagnostic, message), line),
    ensures
        line is Some <==> old(diagnostic)@.enabled && !old(diagnostic)@.finished,
        line is Some ==> line->0@ == "\ncacheexec: verbose: "@ + message@ + "\n"@,
        final(diagnostic)@.finished,
        final(diagnostic)@.enabled == old(diagnostic)@.enabled,
{
}

/// A failed execution is the end of an invocation too, and says what became of
/// the saved result.
pub proof fn a_failed_execution_is_said_once(
    diagnostic: &mut Verbose,
    saved: Saved,
    line: Option<String>,
)
    requires
        call_ensures(Verbose::failed, (diagnostic, saved), line),
    ensures
        line is Some <==> old(diagnostic)@.enabled && !old(diagnostic)@.finished,
        line is Some ==> line->0@ == "\ncacheexec: verbose: "@ + ("failed saved="@ + saved.says()
            + " reason="@ + "failure"@) + "\n"@,
        final(diagnostic)@.finished,
        final(diagnostic)@.enabled == old(diagnostic)@.enabled,
{
}

/// A decision is written exactly if diagnostics are wanted, whatever was said
/// before: what it is, the age of the saved result if there is one, the limit,
/// the key and the cache directory, on a line of its own.
pub proof fn a_decision_is_said_in_full(
    diagnostic: &Verbose,
    decision: Decision,
    age: Option<Age>,
    ttl: Duration,
    directory: &str,
    key: &str,
    line: Option<String>,
    enabled: bool,
    new: Verbose,
)
    requires
        call_ensures(Verbose::decision, (diagnostic, decision, age, ttl, directory, key), line),
        call_ensures(Verbose::new, (enabled,), new),
    ensures
        line is Some <==> diagnostic@.enabled,
        line is Some ==> line->0@ == "\ncacheexec: verbose: "@ + (decision.says() + (match age {
            Some(age) => age.says(),
            None => Seq::empty(),
        }) + " ttl="@ + span_text(ttl.secs, ttl.nanos) + " key="@ + key@ + " cache-dir="@
            + directory@) + "\n"@,
        new@.enabled == enabled && !new@.finished,
{
}

} // verus!
