//! Failures, from the outermost context down to what went wrong first.

use vstd::prelude::*;

verus! {

/// What a failed system call reported, as far as decisions depend on it.
#[derive(Clone, Copy, Debug, PartialEq, Eq, Structural)]
pub enum ErrorKind {
    NotFound,
    WouldBlock,
    Interrupted,
    BrokenPipe,
    Other,
}

/// A failed system call.
#[derive(Debug)]
pub struct IoError {
    pub kind: ErrorKind,
    pub text: String,
}

/// One link in the chain of causes of a failure.
#[derive(Debug)]
pub enum Cause {
    Message(String),
    Io(IoError),
}

/// A link in a chain of causes, with its text as characters.
pub enum CauseView {
    Message(Seq<char>),
    Io(ErrorKind, Seq<char>),
}

impl CauseView {
    /// What the link says.
    pub open spec fn text(self) -> Seq<char> {
        match self {
            CauseView::Message(text) => text,
            CauseView::Io(_, text) => text,
        }
    }
}

impl View for IoError {
    type V = CauseView;

    open spec fn view(&self) -> CauseView {
        CauseView::Io(self.kind, self.text@)
    }
}

impl View for Cause {
    type V = CauseView;

    open spec fn view(&self) -> CauseView {
        match self {
            Cause::Message(text) => CauseView::Message(text@),
            Cause::Io(error) => error@,
        }
    }
}

impl Cause {
    /// What this link says.
    fn text(&self) -> (text: &str)
        ensures
            text@ == self@.text(),
    {
        match self {
            Cause::Message(text) => text.as_str(),
            Cause::Io(error) => error.text.as_str(),
        }
    }
}

/// A failure with its chain of causes, the outermost context first.
#[derive(Debug)]
pub struct Error {
    pub causes: Vec<Cause>,
}

impl View for Error {
    type V = Seq<CauseView>;

    open spec fn view(&self) -> Seq<CauseView> {
        Seq::new(self.causes@.len(), |i: int| self.causes@[i]@)
    }
}

/// A failure that only says `text`.
pub open spec fn message(text: Seq<char>) -> Seq<CauseView> {
    seq![CauseView::Message(text)]
}

/// `error` with `text` as its outermost context.
pub open spec fn in_context(text: Seq<char>, error: Seq<CauseView>) -> Seq<CauseView> {
    message(text) + error
}

/// The texts of all links, each followed by `: ` and the next.
pub open spec fn rendered(error: Seq<CauseView>) -> Seq<char>
    decreases error.len(),
{
    if error.len() == 0 {
        Seq::empty()
    } else if error.len() == 1 {
        error[0].text()
    } else {
        rendered(error.drop_last()) + ": "@ + error.last().text()
    }
}

/// `result` with a failure in it replaced by its chain of causes.
pub open spec fn viewed<T>(result: Result<T, Error>) -> Result<T, Seq<CauseView>> {
    match result {
        Ok(value) => Ok(value),
        Err(error) => Err(error@),
    }
}

impl Error {
    /// A failure that only says `text`.
    pub fn new(text: &str) -> (error: Error)
        ensures
            error@ == message(text@),
    {
        let mut causes: Vec<Cause> = Vec::new();
        causes.push(Cause::Message(text.to_owned()));
        let error = Error { causes };
        assert(error@ =~= message(text@));
        error
    }

    /// The failure of a system call.
    pub fn from_io(io: IoError) -> (error: Error)
        ensures
            error@ == seq![io@],
    {
        let mut causes: Vec<Cause> = Vec::new();
        causes.push(Cause::Io(io));
        let error = Error { causes };
        assert(error@ =~= seq![io@]);
        error
    }

    /// This failure with `text` as its outermost context.
    pub fn context(self, text: &str) -> (error: Error)
        ensures
            error@ == in_context(text@, self@),
    {
        let mut causes = self.causes;
        causes.insert(0, Cause::Message(text.to_owned()));
        let error = Error { causes };
        assert(error@ =~= in_context(text@, self@));
        error
    }

    /// The texts of all links, from the outermost context to the first cause,
    /// joined by `: `.
    pub fn render(&self) -> (text: String)
        ensures
            text@ == rendered(self@),
    {
        let mut text = String::new();
        let mut done: usize = 0;
        while done < self.causes.len()
            invariant
                done <= self.causes@.len(),
                text@ == rendered(self@.take(done as int)),
            decreases self.causes@.len() - done,
        {
            proof {
                assert(self@.take(done + 1).drop_last() =~= self@.take(done as int));
                assert(text@ + self@[done as int].text() =~= self@[done as int].text() || done > 0);
            }
            if done > 0 {
                text.append(": ");
            }
            text.append(self.causes[done].text());
            done += 1;
        }
        assert(self@.take(done as int) =~= self@);
        text
    }
}

/// A context stands in front of the failure, which stays as it was.
pub proof fn a_context_stands_in_front(error: Error, text: &str, failure: Error)
    requires
        call_ensures(Error::context, (error, text), failure),
    ensures
        failure@.len() == error@.len() + 1,
        failure@[0] == CauseView::Message(text@),
        failure@.skip(1) == error@,
{
    assert(failure@.skip(1) =~= error@);
}

/// A failure that only says something has that as its one cause, and that of a
/// system call has the call's kind and text.
pub proof fn a_failure_keeps_its_cause(text: &str, said: Error, io: IoError, failed: Error)
    requires
        call_ensures(Error::new, (text,), said),
        call_ensures(Error::from_io, (io,), failed),
    ensures
        said@ == seq![CauseView::Message(text@)],
        failed@ == seq![CauseView::Io(io.kind, io.text@)],
{
}

/// What is printed of a failure in a context is the context, then `: `, then
/// what is printed of the failure: nothing of a chain of causes is left out.
pub proof fn a_failure_is_printed_in_full(context: Seq<char>, error: Seq<CauseView>)
    ensures
        rendered(seq![CauseView::Message(context)]) == context,
        forall|kind: ErrorKind, text: Seq<char>| #[trigger]
            rendered(seq![CauseView::Io(kind, text)]) == text,
        error.len() > 0 ==> rendered(seq![CauseView::Message(context)] + error) == context + ": "@
            + rendered(error),
    decreases error.len(),
{
    let whole = seq![CauseView::Message(context)] + error;
    if error.len() == 1 {
        assert(whole.drop_last() =~= seq![CauseView::Message(context)]);
        assert(whole.last() == error[0]);
        assert(rendered(seq![CauseView::Message(context)]) == context);
        assert(rendered(whole) =~= context + ": "@ + rendered(error));
    } else if error.len() > 1 {
        let before = error.drop_last();
        a_failure_is_printed_in_full(context, before);
        assert(whole.drop_last() =~= seq![CauseView::Message(context)] + before);
        assert(whole.last() == error.last());
        assert(rendered(whole) =~= context + ": "@ + rendered(error));
    }
}

/// Printing a failure and printing it in a context differ by just that context.
pub proof fn a_context_is_printed_in_front(
    error: Error,
    context: &str,
    inner: String,
    failure: Error,
    outer: String,
)
    requires
        error@.len() > 0,
        call_ensures(Error::render, (&error,), inner),
        call_ensures(Error::context, (error, context), failure),
        call_ensures(Error::render, (&failure,), outer),
    ensures
        outer@ == context@ + ": "@ + inner@,
{
    a_failure_is_printed_in_full(context@, error@);
}

} // verus!
