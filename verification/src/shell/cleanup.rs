//! Cleaning up the cache directory: which keys there are, what is removed of
//! each, and what is reported.

use crate::domain::cleanup::{
    disposal, disposed, outlived, summary, summary_line, viewed as time_viewed, Disposal,
};
use crate::domain::delivery::reader_closed;
use crate::domain::location::{
    an_entry_belongs_to_one_key, is_entry, is_key, is_key_digit, key_of_entry,
};
use crate::domain::record::RecordView;
use crate::error::{in_context, message, rendered, CauseView, Error, ErrorKind, IoError};
use crate::shell::store::{io_view, stored_view, Stored, StoredView};
use crate::text::between;
use crate::time::{Duration, SystemTime};
use vstd::prelude::*;
use vstd::utf8::{encode_utf8, encode_utf8_decode_utf8};

verus! {

/// Whether `a` comes before `b` in the order of bytes, the shorter first where
/// one begins with the other.
pub open spec fn precedes(a: Seq<u8>, b: Seq<u8>) -> bool
    decreases a.len(),
{
    if b.len() == 0 {
        false
    } else if a.len() == 0 {
        true
    } else {
        a[0] < b[0] || (a[0] == b[0] && precedes(a.drop_first(), b.drop_first()))
    }
}

/// Whether `keys` are in order, each once.
pub open spec fn in_order(keys: Seq<Seq<char>>) -> bool {
    forall|i: int, j: int|
        0 <= i < j < keys.len() ==> precedes(
            encode_utf8(#[trigger] keys[i]),
            encode_utf8(#[trigger] keys[j]),
        )
}

proof fn precedes_is_transitive(a: Seq<u8>, b: Seq<u8>, c: Seq<u8>)
    requires
        precedes(a, b),
        precedes(b, c),
    ensures
        precedes(a, c),
    decreases a.len(),
{
    if a.len() > 0 && a[0] == b[0] && b[0] == c[0] {
        precedes_is_transitive(a.drop_first(), b.drop_first(), c.drop_first());
    }
}

proof fn nothing_precedes_itself(a: Seq<u8>)
    ensures
        !precedes(a, a),
    decreases a.len(),
{
    if a.len() > 0 {
        nothing_precedes_itself(a.drop_first());
    }
}

/// Keys in order are all different, so that each is cleaned up once.
pub proof fn keys_in_order_are_different(keys: Seq<Seq<char>>)
    requires
        in_order(keys),
    ensures
        keys.no_duplicates(),
{
    assert forall|i: int, j: int| 0 <= i < keys.len() && 0 <= j < keys.len() && i != j implies keys[i]
        != keys[j] by {
        nothing_precedes_itself(encode_utf8(keys[i]));
        if i < j {
            assert(precedes(encode_utf8(keys[i]), encode_utf8(keys[j])));
        } else {
            assert(precedes(encode_utf8(keys[j]), encode_utf8(keys[i])));
        }
    }
}

/// How one text lies to another in the order of their bytes.
enum Place {
    Before,
    Same,
    After,
}

/// How `a` lies to `b` in the order of bytes.
fn place(a: &[u8], b: &[u8]) -> (place: Place)
    ensures
        match place {
            Place::Before => precedes(a@, b@),
            Place::Same => a@ == b@,
            Place::After => precedes(b@, a@),
        },
{
    let mut i: usize = 0;
    assert(a@.skip(0) =~= a@);
    assert(b@.skip(0) =~= b@);
    while i < a.len() && i < b.len()
        invariant
            i <= a@.len(),
            i <= b@.len(),
            a@.take(i as int) == b@.take(i as int),
            precedes(a@, b@) == precedes(a@.skip(i as int), b@.skip(i as int)),
            precedes(b@, a@) == precedes(b@.skip(i as int), a@.skip(i as int)),
        decreases a@.len() - i,
    {
        if a[i] < b[i] {
            return Place::Before;
        }
        if b[i] < a[i] {
            return Place::After;
        }
        proof {
            assert(a@.skip(i as int).drop_first() =~= a@.skip(i + 1));
            assert(b@.skip(i as int).drop_first() =~= b@.skip(i + 1));
            assert(a@.take(i + 1) =~= a@.take(i as int).push(a@[i as int]));
            assert(b@.take(i + 1) =~= b@.take(i as int).push(b@[i as int]));
        }
        i += 1;
    }
    if i < b.len() {
        Place::Before
    } else if i < a.len() {
        Place::After
    } else {
        assert(a@.take(i as int) =~= a@);
        assert(b@.take(i as int) =~= b@);
        Place::Same
    }
}

/// The texts as sequences of characters.
pub open spec fn texts(texts: Seq<String>) -> Seq<Seq<char>> {
    Seq::new(texts.len(), |i: int| texts[i]@)
}

/// Adds `key` in its place, unless it is there.
fn insert_key(keys: &mut Vec<String>, key: &str)
    requires
        in_order(texts(old(keys)@)),
    ensures
        in_order(texts(final(keys)@)),
        forall|other: Seq<char>|
            texts(final(keys)@).contains(other) <==> texts(old(keys)@).contains(other) || other
                == key@,
{
    let ghost before = texts(keys@);
    let ghost new = encode_utf8(key@);
    let mut at: usize = 0;
    while at < keys.len()
        invariant
            at <= keys@.len(),
            before == texts(keys@),
            keys@ == old(keys)@,
            in_order(before),
            new == encode_utf8(key@),
            forall|i: int| 0 <= i < at ==> precedes(encode_utf8(#[trigger] before[i]), new),
        ensures
            at < keys@.len() ==> precedes(new, encode_utf8(before[at as int])),
        decreases keys@.len() - at,
    {
        assert(before[at as int] == keys@[at as int]@);
        match place(keys[at].as_str().as_bytes(), key.as_bytes()) {
            Place::Before => {
                at += 1;
            },
            Place::Same => {
                proof {
                    encode_utf8_decode_utf8(before[at as int]);
                    encode_utf8_decode_utf8(key@);
                    assert(before[at as int] == key@);
                    assert(before.contains(key@));
                }
                return;
            },
            Place::After => {
                break;
            },
        }
    }
    keys.insert(at, key.to_owned());
    proof {
        let after = texts(keys@);
        assert(after =~= before.insert(at as int, key@));
        assert forall|i: int, j: int| 0 <= i < j < after.len() implies precedes(
            encode_utf8(#[trigger] after[i]),
            encode_utf8(#[trigger] after[j]),
        ) by {
            let old_i = if i < at { i } else { i - 1 };
            let old_j = if j < at { j } else { j - 1 };
            if i != at {
                assert(after[i] == before[old_i]);
            }
            if j != at {
                assert(after[j] == before[old_j]);
            }
            if i == at && j > at + 1 {
                assert(precedes(new, encode_utf8(before[at as int])));
                assert(precedes(encode_utf8(before[at as int]), encode_utf8(before[old_j])));
                precedes_is_transitive(
                    new,
                    encode_utf8(before[at as int]),
                    encode_utf8(before[old_j]),
                );
            }
        }
        assert forall|other: Seq<char>| after.contains(other) <==> before.contains(other) || other
            == key@ by {
            if before.contains(other) {
                let i = choose|i: int| 0 <= i < before.len() && before[i] == other;
                assert(after[if i < at { i } else { i + 1 }] == other);
            }
            assert(after[at as int] == key@);
            if after.contains(other) {
                let i = choose|i: int| 0 <= i < after.len() && after[i] == other;
                if i != at {
                    assert(before[if i < at { i } else { i - 1 }] == other);
                }
            }
        }
    }
}

/// What a scan of the cache directory has found.
#[derive(Debug)]
pub struct Scan {
    keys: Vec<String>,
    errors: Vec<String>,
}

pub struct ScanView {
    /// The keys that have an entry, in order, each once.
    pub keys: Seq<Seq<char>>,
    pub errors: Seq<Seq<char>>,
}

impl View for Scan {
    type V = ScanView;

    closed spec fn view(&self) -> ScanView {
        ScanView { keys: texts(self.keys@), errors: texts(self.errors@) }
    }
}

impl Scan {
    #[verifier::type_invariant]
    spec fn wf(self) -> bool {
        in_order(texts(self.keys@))
    }

    pub fn new() -> (scan: Scan)
        ensures
            scan@.keys == Seq::<Seq<char>>::empty(),
            scan@.errors == Seq::<Seq<char>>::empty(),
    {
        let scan = Scan { keys: Vec::new(), errors: Vec::new() };
        assert(scan@.keys =~= Seq::<Seq<char>>::empty());
        assert(scan@.errors =~= Seq::<Seq<char>>::empty());
        scan
    }

    /// The scan with one more entry, by its name. Entries that do not belong
    /// to a key are passed over.
    pub fn entry(self, name: &str) -> (next: Scan)
        ensures
            in_order(next@.keys),
            next@.errors == self@.errors,
            forall|key: Seq<char>|
                next@.keys.contains(key) <==> self@.keys.contains(key) || is_entry(name@, key),
            (forall|key: Seq<char>| !is_entry(name@, key)) ==> next@ == self@,
    {
        proof {
            use_type_invariant(&self);
        }
        let mut keys = self.keys;
        let errors = self.errors;
        if let Some(key) = key_of_entry(name) {
            insert_key(&mut keys, key);
            proof {
                an_entry_belongs_to_one_key(name@, key@);
            }
        }
        Scan { keys, errors }
    }

    /// The scan after an entry could not be read, for the reason in `why`.
    pub fn failed(self, why: &str) -> (next: Scan)
        ensures
            next@.keys == self@.keys,
            next@.errors == self@.errors.push("scan cache entry: "@ + why@),
    {
        proof {
            use_type_invariant(&self);
        }
        let ghost start = self@;
        let keys = self.keys;
        let mut errors = self.errors;
        let mut error = "scan cache entry: ".to_owned();
        error.append(why);
        errors.push(error);
        let next = Scan { keys, errors };
        assert(next@.errors =~= start.errors.push("scan cache entry: "@ + why@));
        next
    }
}

/// Whether there is a directory to scan, given what opening it came to.
pub fn directory(opened: Result<(), IoError>) -> (present: Result<bool, Error>)
    ensures
        crate::error::viewed(present) == match io_view(opened) {
            Ok(()) => Ok::<bool, Seq<CauseView>>(true),
            Err(CauseView::Io(ErrorKind::NotFound, _)) => Ok(false),
            Err(error) => Err(in_context("scan cache directory"@, seq![error])),
        },
{
    match opened {
        Ok(()) => Ok(true),
        Err(error) => {
            if matches!(error.kind, ErrorKind::NotFound) {
                return Ok(false);
            }
            Err(Error::from_io(error).context("scan cache directory"))
        },
    }
}

/// Where the cleanup of one key stands. `E` is a failure.
#[derive(Debug)]
pub enum SweepAt<E> {
    AcquiringGate,
    /// Opening the file of an execution.
    Opening,
    /// Trying to lock that file, which its owner keeps locked.
    Probing,
    /// Removing what a dead owner left.
    Reclaiming,
    /// Reading the saved result.
    Reading,
    /// Reading when a result in another format version was written.
    Dating,
    RemovingResult,
    RemovingGate,
    Swept,
    /// The key is busy.
    Skipped,
    Failed(E),
}

/// What the cleanup of one key needs next.
#[derive(Clone, Copy, Debug, PartialEq, Eq, Structural)]
pub enum SweepAction {
    /// Acquire the key's lock without waiting.
    AcquireGate,
    /// Open the file of an execution.
    OpenActive,
    /// Try to lock that file without waiting.
    TryActive,
    RemoveAbandoned,
    /// Read the saved result.
    Read,
    /// Read the modification time of the saved result.
    ReadModified,
    RemoveResult,
    /// Unlink the key's lock file while its lock is held. Callers waiting on
    /// the old inode see that it has no links left once they lock it, and
    /// reopen the path; checking the path alone would be racy.
    RemoveGate,
    Finish,
}

/// The answer to an action. `S` is what is saved and `I` the failure of a
/// system call.
#[derive(Debug)]
pub enum SweepEvent<S, I, E> {
    /// Whether the key's lock is held.
    Gate(Result<bool, E>),
    Opened(Result<(), I>),
    Locked(Result<bool, E>),
    Done(Result<(), I>),
    Read(Result<Option<S>, E>),
    Time(Result<SystemTime, I>),
}

/// The cleanup of one key.
#[derive(Debug)]
pub struct Sweep<E> {
    /// Whether what a dead owner left was removed.
    pub abandoned: bool,
    /// Whether the saved result was removed.
    pub removed: bool,
    pub at: SweepAt<E>,
}

pub type SweepView = Sweep<Seq<CauseView>>;

pub type SweepEventView = SweepEvent<StoredView, CauseView, Seq<CauseView>>;

pub open spec fn sweep_view(sweep: Sweep<Error>) -> SweepView {
    Sweep {
        abandoned: sweep.abandoned,
        removed: sweep.removed,
        at: match sweep.at {
            SweepAt::AcquiringGate => SweepAt::AcquiringGate,
            SweepAt::Opening => SweepAt::Opening,
            SweepAt::Probing => SweepAt::Probing,
            SweepAt::Reclaiming => SweepAt::Reclaiming,
            SweepAt::Reading => SweepAt::Reading,
            SweepAt::Dating => SweepAt::Dating,
            SweepAt::RemovingResult => SweepAt::RemovingResult,
            SweepAt::RemovingGate => SweepAt::RemovingGate,
            SweepAt::Swept => SweepAt::Swept,
            SweepAt::Skipped => SweepAt::Skipped,
            SweepAt::Failed(error) => SweepAt::Failed(error@),
        },
    }
}

pub open spec fn sweep_event(event: SweepEvent<Stored, IoError, Error>) -> SweepEventView {
    match event {
        SweepEvent::Gate(result) => SweepEvent::Gate(crate::error::viewed(result)),
        SweepEvent::Opened(result) => SweepEvent::Opened(io_view(result)),
        SweepEvent::Locked(result) => SweepEvent::Locked(crate::error::viewed(result)),
        SweepEvent::Done(result) => SweepEvent::Done(io_view(result)),
        SweepEvent::Read(result) => SweepEvent::Read(stored_view(result)),
        SweepEvent::Time(result) => SweepEvent::Time(io_view(result)),
    }
}

/// The start of the cleanup of one key.
pub open spec fn sweep_start() -> SweepView {
    Sweep { abandoned: false, removed: false, at: SweepAt::AcquiringGate }
}

pub open spec fn sweep_wants(sweep: SweepView) -> SweepAction {
    match sweep.at {
        SweepAt::AcquiringGate => SweepAction::AcquireGate,
        SweepAt::Opening => SweepAction::OpenActive,
        SweepAt::Probing => SweepAction::TryActive,
        SweepAt::Reclaiming => SweepAction::RemoveAbandoned,
        SweepAt::Reading => SweepAction::Read,
        SweepAt::Dating => SweepAction::ReadModified,
        SweepAt::RemovingResult => SweepAction::RemoveResult,
        SweepAt::RemovingGate => SweepAction::RemoveGate,
        SweepAt::Swept | SweepAt::Skipped | SweepAt::Failed(_) => SweepAction::Finish,
    }
}

/// What follows once it is known when the key's result completed, if it has
/// one.
pub open spec fn dispose_at(
    completed: Option<int>,
    age: Option<Duration>,
    now: int,
) -> SweepAt<Seq<CauseView>> {
    match disposed(completed, age, now) {
        Disposal::Keep => SweepAt::Swept,
        Disposal::Gate => SweepAt::RemovingGate,
        Disposal::ResultAndGate => SweepAt::RemovingResult,
    }
}

/// The failure of a system call in this context.
pub open spec fn sweep_failed(context: Seq<char>, error: CauseView) -> SweepAt<Seq<CauseView>> {
    SweepAt::Failed(in_context(context, seq![error]))
}

/// The cleanup of one key after `event`, with its age limit and the time it
/// counts from. An event that does not answer the last action changes nothing.
pub open spec fn swept(
    sweep: SweepView,
    event: SweepEventView,
    age: Option<Duration>,
    now: int,
) -> SweepView {
    let moved = |at: SweepAt<Seq<CauseView>>| Sweep { at, ..sweep };
    match (sweep.at, event) {
        (SweepAt::AcquiringGate, SweepEvent::Gate(result)) => moved(
            match result {
                Ok(true) => SweepAt::Opening,
                Ok(false) => SweepAt::Skipped,
                Err(error) => SweepAt::Failed(error),
            },
        ),
        (SweepAt::Opening, SweepEvent::Opened(result)) => moved(
            match result {
                Ok(()) => SweepAt::Probing,
                Err(CauseView::Io(ErrorKind::NotFound, _)) => SweepAt::Reading,
                Err(error) => sweep_failed("open active execution"@, error),
            },
        ),
        (SweepAt::Probing, SweepEvent::Locked(result)) => moved(
            match result {
                Ok(true) => SweepAt::Reclaiming,
                Ok(false) => SweepAt::Skipped,
                Err(error) => SweepAt::Failed(error),
            },
        ),
        (SweepAt::Reclaiming, SweepEvent::Done(result)) => match result {
            Ok(()) => Sweep { abandoned: true, removed: sweep.removed, at: SweepAt::Reading },
            Err(error) => moved(sweep_failed("remove abandoned execution"@, error)),
        },
        (SweepAt::Reading, SweepEvent::Read(result)) => moved(
            match result {
                Ok(Some(StoredView::Current(record))) => dispose_at(
                    Some(record.completed),
                    age,
                    now,
                ),
                Ok(Some(StoredView::OtherVersion)) => SweepAt::Dating,
                Ok(None) => dispose_at(None, age, now),
                Err(error) => SweepAt::Failed(error),
            },
        ),
        (SweepAt::Dating, SweepEvent::Time(result)) => moved(
            match result {
                Ok(modified) => dispose_at(Some(modified@), age, now),
                Err(error) => sweep_failed("read result modification time"@, error),
            },
        ),
        (SweepAt::RemovingResult, SweepEvent::Done(result)) => match result {
            Ok(()) => Sweep { abandoned: sweep.abandoned, removed: true, at: SweepAt::RemovingGate },
            Err(error) => moved(sweep_failed("delete cached result"@, error)),
        },
        (SweepAt::RemovingGate, SweepEvent::Done(result)) => moved(
            match result {
                Ok(()) => SweepAt::Swept,
                Err(error) => sweep_failed("remove idle key lock"@, error),
            },
        ),
        _ => sweep,
    }
}

fn dispose(completed: Option<SystemTime>, age: Option<Duration>, now: SystemTime) -> (at: SweepAt<
    Error,
>)
    ensures
        sweep_view(Sweep { abandoned: false, removed: false, at }).at == dispose_at(
            time_viewed(completed),
            age,
            now@,
        ),
{
    match disposal(completed, age, now) {
        Disposal::Keep => SweepAt::Swept,
        Disposal::Gate => SweepAt::RemovingGate,
        Disposal::ResultAndGate => SweepAt::RemovingResult,
    }
}

fn fail(context: &str, error: IoError) -> (at: SweepAt<Error>)
    ensures
        sweep_view(Sweep { abandoned: false, removed: false, at }).at == sweep_failed(
            context@,
            error@,
        ),
{
    SweepAt::Failed(Error::from_io(error).context(context))
}

/// Starts the cleanup of one key.
fn sweep() -> (sweep: Sweep<Error>)
    ensures
        sweep_view(sweep) == sweep_start(),
{
    Sweep { abandoned: false, removed: false, at: SweepAt::AcquiringGate }
}

impl Sweep<Error> {
    /// What the cleanup of the key needs next.
    fn action(&self) -> (action: SweepAction)
        ensures
            action == sweep_wants(sweep_view(*self)),
    {
        match &self.at {
            SweepAt::AcquiringGate => SweepAction::AcquireGate,
            SweepAt::Opening => SweepAction::OpenActive,
            SweepAt::Probing => SweepAction::TryActive,
            // Waiters retain open descriptors, so unlinking an abandoned name
            // cannot discard their generation or trigger a retry.
            SweepAt::Reclaiming => SweepAction::RemoveAbandoned,
            SweepAt::Reading => SweepAction::Read,
            // Results are written right after completion, so the modification
            // time stands in for an unreadable completion time.
            SweepAt::Dating => SweepAction::ReadModified,
            SweepAt::RemovingResult => SweepAction::RemoveResult,
            SweepAt::RemovingGate => SweepAction::RemoveGate,
            SweepAt::Swept | SweepAt::Skipped | SweepAt::Failed(_) => SweepAction::Finish,
        }
    }

    /// The cleanup of the key after the answer to its last action.
    fn step(
        self,
        event: SweepEvent<Stored, IoError, Error>,
        age: Option<Duration>,
        now: SystemTime,
    ) -> (next: Sweep<Error>)
        ensures
            sweep_view(next) == swept(sweep_view(self), sweep_event(event), age, now@),
    {
        let mut abandoned = self.abandoned;
        let mut removed = self.removed;
        let at = match (self.at, event) {
            (SweepAt::AcquiringGate, SweepEvent::Gate(result)) => match result {
                Ok(true) => SweepAt::Opening,
                Ok(false) => SweepAt::Skipped,
                Err(error) => SweepAt::Failed(error),
            },
            (SweepAt::Opening, SweepEvent::Opened(result)) => match result {
                Ok(()) => SweepAt::Probing,
                Err(error) => if matches!(error.kind, ErrorKind::NotFound) {
                    SweepAt::Reading
                } else {
                    fail("open active execution", error)
                },
            },
            (SweepAt::Probing, SweepEvent::Locked(result)) => match result {
                Ok(true) => SweepAt::Reclaiming,
                Ok(false) => SweepAt::Skipped,
                Err(error) => SweepAt::Failed(error),
            },
            (SweepAt::Reclaiming, SweepEvent::Done(result)) => match result {
                Ok(()) => {
                    abandoned = true;
                    SweepAt::Reading
                },
                Err(error) => fail("remove abandoned execution", error),
            },
            (SweepAt::Reading, SweepEvent::Read(result)) => match result {
                Ok(Some(Stored::Current(record))) => dispose(Some(record.completed), age, now),
                Ok(Some(Stored::OtherVersion)) => SweepAt::Dating,
                Ok(None) => dispose(None, age, now),
                Err(error) => SweepAt::Failed(error),
            },
            (SweepAt::Dating, SweepEvent::Time(result)) => match result {
                Ok(modified) => dispose(Some(modified), age, now),
                Err(error) => fail("read result modification time", error),
            },
            (SweepAt::RemovingResult, SweepEvent::Done(result)) => match result {
                Ok(()) => {
                    removed = true;
                    SweepAt::RemovingGate
                },
                Err(error) => fail("delete cached result", error),
            },
            (SweepAt::RemovingGate, SweepEvent::Done(result)) => match result {
                Ok(()) => SweepAt::Swept,
                Err(error) => fail("remove idle key lock", error),
            },
            (at, _) => at,
        };
        Sweep { abandoned, removed, at }
    }
}

/// What a cleanup has done so far.
#[verifier::ext_equal]
pub struct Tally {
    pub removed: nat,
    pub abandoned: nat,
    pub skipped: nat,
    pub errors: Seq<Seq<char>>,
}

/// One if `flag` is set.
pub open spec fn one_if(flag: bool) -> nat {
    if flag {
        1
    } else {
        0
    }
}

impl Tally {
    /// The tally after the cleanup of `key` ended with `sweep`.
    pub open spec fn with(self, key: Seq<char>, sweep: SweepView) -> Tally {
        Tally {
            removed: self.removed + one_if(sweep.removed),
            abandoned: self.abandoned + one_if(sweep.abandoned),
            skipped: self.skipped + one_if(sweep.at is Skipped),
            errors: match sweep.at {
                SweepAt::Failed(error) => self.errors.push(key + ": "@ + rendered(error)),
                _ => self.errors,
            },
        }
    }

    pub open spec fn summary(self) -> Seq<char> {
        summary(self.removed, self.abandoned, self.skipped, self.errors.len())
    }
}

/// Whether the cleanup of a key has ended.
pub open spec fn is_over(sweep: SweepView) -> bool {
    sweep.at is Swept || sweep.at is Skipped || sweep.at is Failed
}

/// The cleanup of all keys that were found, one after the other.
#[derive(Debug)]
pub struct Cleanup {
    age: Option<Duration>,
    now: SystemTime,
    keys: Vec<String>,
    next: usize,
    removed: usize,
    abandoned: usize,
    skipped: usize,
    errors: Vec<String>,
    sweep: Sweep<Error>,
}

pub struct CleanupView {
    pub age: Option<Duration>,
    pub now: int,
    pub keys: Seq<Seq<char>>,
    /// How many keys are done.
    pub next: int,
    pub tally: Tally,
    /// The cleanup of the next key.
    pub sweep: SweepView,
}

impl View for Cleanup {
    type V = CleanupView;

    closed spec fn view(&self) -> CleanupView {
        CleanupView {
            age: self.age,
            now: self.now@,
            keys: texts(self.keys@),
            next: self.next as int,
            tally: Tally {
                removed: self.removed as nat,
                abandoned: self.abandoned as nat,
                skipped: self.skipped as nat,
                errors: texts(self.errors@),
            },
            sweep: sweep_view(self.sweep),
        }
    }
}

impl CleanupView {
    /// The cleanup after `event`.
    pub open spec fn after(self, event: SweepEventView) -> CleanupView {
        if !(0 <= self.next < self.keys.len()) {
            self
        } else {
            let sweep = swept(self.sweep, event, self.age, self.now);
            if is_over(sweep) {
                CleanupView {
                    next: self.next + 1,
                    tally: self.tally.with(self.keys[self.next], sweep),
                    sweep: sweep_start(),
                    ..self
                }
            } else {
                CleanupView { sweep, ..self }
            }
        }
    }

    pub open spec fn wants(self) -> SweepAction {
        if self.next < self.keys.len() {
            sweep_wants(self.sweep)
        } else {
            SweepAction::Finish
        }
    }
}

/// The start of a cleanup of what was scanned.
pub open spec fn cleanup_start(scan: ScanView, age: Option<Duration>, now: int) -> CleanupView {
    CleanupView {
        age,
        now,
        keys: scan.keys,
        next: 0,
        tally: Tally { removed: 0, abandoned: 0, skipped: 0, errors: scan.errors },
        sweep: sweep_start(),
    }
}

/// Starts the cleanup of what was scanned: of all results, or of those
/// strictly older than `age` at `now`.
pub fn run(scan: Scan, age: Option<Duration>, now: SystemTime) -> (cleanup: Cleanup)
    ensures
        cleanup@ == cleanup_start(scan@, age, now@),
{
    Cleanup {
        age,
        now,
        keys: scan.keys,
        next: 0,
        removed: 0,
        abandoned: 0,
        skipped: 0,
        errors: scan.errors,
        sweep: sweep(),
    }
}

/// All errors, each but the last followed by `; `.
pub open spec fn listed(errors: Seq<Seq<char>>) -> Seq<char>
    decreases errors.len(),
{
    if errors.len() == 0 {
        Seq::empty()
    } else if errors.len() == 1 {
        errors[0]
    } else {
        listed(errors.drop_last()) + "; "@ + errors.last()
    }
}

fn list(errors: &Vec<String>) -> (text: String)
    ensures
        text@ == listed(texts(errors@)),
{
    let ghost all = texts(errors@);
    let mut text = String::new();
    let mut done: usize = 0;
    while done < errors.len()
        invariant
            done <= errors@.len(),
            all == texts(errors@),
            text@ == listed(all.take(done as int)),
        decreases errors@.len() - done,
    {
        proof {
            assert(all.take(done + 1).drop_last() =~= all.take(done as int));
            assert(text@ + all[done as int] =~= all[done as int] || done > 0);
        }
        if done > 0 {
            text.append("; ");
        }
        text.append(errors[done].as_str());
        done += 1;
    }
    assert(all.take(done as int) =~= all);
    text
}

impl Cleanup {
    #[verifier::type_invariant]
    spec fn wf(self) -> bool {
        &&& self.next <= self.keys@.len()
        &&& self.removed <= self.next
        &&& self.abandoned <= self.next
        &&& self.skipped <= self.next
    }

    /// The key that is being cleaned up.
    pub fn key(&self) -> (key: Option<&str>)
        ensures
            match key {
                Some(key) => 0 <= self@.next < self@.keys.len() && key@ == self@.keys[self@.next],
                None => self@.next >= self@.keys.len(),
            },
    {
        if self.next < self.keys.len() {
            Some(self.keys[self.next].as_str())
        } else {
            None
        }
    }

    /// What the cleanup needs next.
    pub fn action(&self) -> (action: SweepAction)
        ensures
            action == self@.wants(),
    {
        if self.next < self.keys.len() {
            self.sweep.action()
        } else {
            SweepAction::Finish
        }
    }

    /// The cleanup after the answer to its last action.
    pub fn step(self, event: SweepEvent<Stored, IoError, Error>) -> (next: Cleanup)
        ensures
            next@ == self@.after(sweep_event(event)),
    {
        proof {
            use_type_invariant(&self);
        }
        if self.next >= self.keys.len() {
            return self;
        }
        let ghost start = self@;
        let (age, now, keys, index) = (self.age, self.now, self.keys, self.next);
        let (removed, abandoned, skipped) = (self.removed, self.abandoned, self.skipped);
        let mut errors = self.errors;
        let sweep = self.sweep.step(event, age, now);
        let ghost seen = sweep_view(sweep);
        if !matches!(sweep.action(), SweepAction::Finish) {
            return Cleanup {
                age,
                now,
                keys,
                next: index,
                removed,
                abandoned,
                skipped,
                errors,
                sweep,
            };
        }
        let skipped = if matches!(sweep.at, SweepAt::Skipped) {
            skipped + 1
        } else {
            skipped
        };
        let removed = if sweep.removed {
            removed + 1
        } else {
            removed
        };
        let abandoned = if sweep.abandoned {
            abandoned + 1
        } else {
            abandoned
        };
        if let SweepAt::Failed(error) = sweep.at {
            let rendered = error.render();
            errors.push(between(keys[index].as_str(), ": ", rendered.as_str()));
        }
        let next = Cleanup {
            age,
            now,
            keys,
            next: index + 1,
            removed,
            abandoned,
            skipped,
            errors,
            sweep: self::sweep(),
        };
        assert(next@.tally =~= start.tally.with(start.keys[start.next], seen));
        next
    }

    /// What the cleanup reports at its end: its counts, or a failure with them
    /// if anything went wrong.
    pub fn conclude(&self) -> (result: Result<String, Error>)
        ensures
            match result {
                Ok(line) => self@.tally.errors.len() == 0 && line@ == self@.tally.summary(),
                Err(error) => self@.tally.errors.len() > 0 && error@ == message(
                    "cache cleanup partially applied ("@ + self@.tally.summary() + "): "@ + listed(
                        self@.tally.errors,
                    ),
                ),
            },
    {
        let line = summary_line(self.removed, self.abandoned, self.skipped, self.errors.len());
        if self.errors.len() == 0 {
            return Ok(line);
        }
        let mut text = between("cache cleanup partially applied (", line.as_str(), "): ");
        text.append(list(&self.errors).as_str());
        Err(Error::new(text.as_str()))
    }
}

/// What printing the summary comes to. A reader that closed early (e.g.
/// `| head`) chose to stop reading, and the deletions are already done, so
/// only other write failures are errors. Those still carry the counts, which
/// would otherwise be lost.
pub fn print_summary(printed: Result<(), IoError>, summary: &str) -> (result: Result<(), Error>)
    ensures
        match printed {
            Err(error) if error.kind != ErrorKind::BrokenPipe => result matches Err(failure)
                && failure@ == in_context(
                "print cleanup summary ("@ + summary@ + ")"@,
                seq![error@],
            ),
            _ => result is Ok,
        },
{
    match printed {
        Ok(()) => Ok(()),
        Err(error) => {
            if reader_closed(&error) {
                return Ok(());
            }
            Err(
                Error::from_io(error).context(
                    between("print cleanup summary (", summary, ")").as_str(),
                ),
            )
        },
    }
}

/// What the cleanup of one key has done so far, and what it has found.
pub struct SweepSteps {
    /// Whether it holds the key's lock.
    pub gate: bool,
    /// Whether a running execution, or another caller, holds the key.
    pub busy: bool,
    /// When the saved result completed, if there is one, once that is known.
    pub found: Option<Option<int>>,
    /// What it has removed.
    pub reclaimed: bool,
    pub result_removed: bool,
    pub gate_removed: bool,
}

/// The cleanup of a key starts with nothing.
pub open spec fn no_sweep_steps() -> SweepSteps {
    SweepSteps {
        gate: false,
        busy: false,
        found: None,
        reclaimed: false,
        result_removed: false,
        gate_removed: false,
    }
}

/// What the cleanup of a key has done after an action with this answer.
pub open spec fn sweep_stepped(
    steps: SweepSteps,
    action: SweepAction,
    event: SweepEventView,
) -> SweepSteps {
    match (action, event) {
        (SweepAction::AcquireGate, SweepEvent::Gate(Ok(held))) => SweepSteps {
            gate: held,
            busy: !held,
            ..steps
        },
        (SweepAction::TryActive, SweepEvent::Locked(Ok(held))) => SweepSteps {
            busy: !held,
            ..steps
        },
        (SweepAction::RemoveAbandoned, SweepEvent::Done(Ok(()))) => SweepSteps {
            reclaimed: true,
            ..steps
        },
        (SweepAction::Read, SweepEvent::Read(Ok(None))) => SweepSteps { found: Some(None), ..steps },
        (SweepAction::Read, SweepEvent::Read(Ok(Some(StoredView::Current(record))))) =>
            SweepSteps { found: Some(Some(record.completed)), ..steps },
        (SweepAction::ReadModified, SweepEvent::Time(Ok(modified))) => SweepSteps {
            found: Some(Some(modified@)),
            ..steps
        },
        (SweepAction::RemoveResult, SweepEvent::Done(Ok(()))) => SweepSteps {
            result_removed: true,
            ..steps
        },
        (SweepAction::RemoveGate, SweepEvent::Done(Ok(()))) => SweepSteps {
            gate_removed: true,
            ..steps
        },
        _ => steps,
    }
}

/// The cleanup of a key and what it has done after `events`, from its start.
pub open spec fn swept_through(age: Option<Duration>, now: int, events: Seq<SweepEventView>) -> (
    SweepView,
    SweepSteps,
)
    decreases events.len(),
{
    if events.len() == 0 {
        (sweep_start(), no_sweep_steps())
    } else {
        let (sweep, steps) = swept_through(age, now, events.drop_last());
        (
            swept(sweep, events.last(), age, now),
            sweep_stepped(steps, sweep_wants(sweep), events.last()),
        )
    }
}

/// Whether the saved result is one that this cleanup removes.
pub open spec fn is_old(steps: SweepSteps, age: Option<Duration>, now: int) -> bool {
    steps.found matches Some(Some(completed)) && outlived(completed, age, now)
}

/// How what the cleanup of a key has done agrees with where it stands.
pub open spec fn sweep_in_step(
    sweep: SweepView,
    steps: SweepSteps,
    age: Option<Duration>,
    now: int,
) -> bool {
    &&& sweep.abandoned == steps.reclaimed
    &&& sweep.removed == steps.result_removed
    &&& steps.reclaimed || steps.result_removed || steps.gate_removed ==> steps.gate && !steps.busy
    &&& steps.result_removed ==> is_old(steps, age, now)
    &&& steps.gate_removed ==> steps.found == Some(None::<int>) || steps.result_removed
    &&& match sweep.at {
        SweepAt::AcquiringGate => !steps.gate && !steps.busy && steps.found is None,
        SweepAt::Opening | SweepAt::Probing => {
            &&& steps.gate && !steps.busy
            &&& steps.found is None
            &&& !steps.reclaimed && !steps.result_removed && !steps.gate_removed
        },
        SweepAt::Reclaiming | SweepAt::Reading | SweepAt::Dating => {
            &&& steps.gate && !steps.busy
            &&& steps.found is None
            &&& !steps.result_removed && !steps.gate_removed
        },
        SweepAt::RemovingResult => {
            &&& steps.gate && !steps.busy && is_old(steps, age, now)
            &&& !steps.gate_removed
        },
        SweepAt::RemovingGate => {
            &&& steps.gate && !steps.busy
            &&& steps.found == Some(None::<int>) || steps.result_removed
        },
        SweepAt::Skipped => {
            &&& steps.busy
            &&& !steps.reclaimed && !steps.result_removed && !steps.gate_removed
        },
        SweepAt::Swept => {
            &&& steps.gate && !steps.busy
            &&& steps.found matches Some(Some(completed)) ==> (outlived(completed, age, now)
                <==> steps.result_removed)
            &&& steps.gate_removed <==> steps.found == Some(None::<int>) || steps.result_removed
        },
        SweepAt::Failed(_) => true,
    }
}

proof fn a_sweep_step_stays_in_step(
    sweep: SweepView,
    steps: SweepSteps,
    event: SweepEventView,
    age: Option<Duration>,
    now: int,
)
    requires
        sweep_in_step(sweep, steps, age, now),
    ensures
        sweep_in_step(
            swept(sweep, event, age, now),
            sweep_stepped(steps, sweep_wants(sweep), event),
            age,
            now,
        ),
{
}

/// Whatever happens, what the cleanup of a key has done agrees with where it
/// stands: it removes something only while it holds the key and no execution
/// is running, only results that are old enough, and the key's lock file only
/// when no result is left.
pub proof fn a_sweep_stays_in_step(age: Option<Duration>, now: int, events: Seq<SweepEventView>)
    ensures
        sweep_in_step(
            swept_through(age, now, events).0,
            swept_through(age, now, events).1,
            age,
            now,
        ),
    decreases events.len(),
{
    if events.len() > 0 {
        let before = events.drop_last();
        a_sweep_stays_in_step(age, now, before);
        let (sweep, steps) = swept_through(age, now, before);
        a_sweep_step_stays_in_step(sweep, steps, events.last(), age, now);
    }
}

/// A busy key is left alone: cleanup removes nothing of it and counts it as
/// skipped.
pub proof fn a_busy_key_is_left_alone(age: Option<Duration>, now: int, events: Seq<SweepEventView>)
    ensures
        ({
            let (sweep, steps) = swept_through(age, now, events);
            &&& sweep.at is Skipped ==> !steps.reclaimed && !steps.result_removed
                && !steps.gate_removed
            &&& steps.busy ==> !steps.reclaimed && !steps.result_removed && !steps.gate_removed
        }),
{
    a_sweep_stays_in_step(age, now, events);
}

/// A result is deleted only if it is strictly older than the limit, or if
/// there is no limit; one that cannot be read is never deleted.
pub proof fn only_old_results_are_deleted(
    age: Option<Duration>,
    now: int,
    events: Seq<SweepEventView>,
)
    ensures
        swept_through(age, now, events).1.result_removed ==> is_old(
            swept_through(age, now, events).1,
            age,
            now,
        ),
        swept_through(age, now, events).1.found is None ==> !swept_through(
            age,
            now,
            events,
        ).1.result_removed && !swept_through(age, now, events).1.gate_removed,
{
    a_sweep_stays_in_step(age, now, events);
}

/// The cleanup of a key that has ended: the key, and all events from the start
/// of its cleanup to its end.
pub struct EndedSweep {
    pub key: Seq<char>,
    pub events: Seq<SweepEventView>,
}

/// A cleanup after `events`, from its start; the keys whose cleanup has ended,
/// in that order; and the events since the last of them ended.
pub open spec fn cleaned(
    scan: ScanView,
    age: Option<Duration>,
    now: int,
    events: Seq<SweepEventView>,
) -> (CleanupView, Seq<EndedSweep>, Seq<SweepEventView>)
    decreases events.len(),
{
    if events.len() == 0 {
        (cleanup_start(scan, age, now), Seq::empty(), Seq::empty())
    } else {
        let (cleanup, ended, since) = cleaned(scan, age, now, events.drop_last());
        let next = cleanup.after(events.last());
        let at = swept_through(age, now, since.push(events.last())).0.at;
        if cleanup.wants() is Finish {
            (next, ended, since)
        } else if at is Swept || at is Skipped || at is Failed {
            let sweep = EndedSweep {
                key: cleanup.keys[cleanup.next],
                events: since.push(events.last()),
            };
            (next, ended.push(sweep), Seq::empty())
        } else {
            (next, ended, since.push(events.last()))
        }
    }
}

/// How many of `ended` satisfy `counts`.
pub open spec fn how_many(ended: Seq<EndedSweep>, counts: spec_fn(EndedSweep) -> bool) -> nat {
    ended.filter(counts).len()
}

/// A cleanup takes each key that was scanned in its order, and none twice: as
/// many keys are done as cleanups of a key have ended, each of which ran from
/// its start to its end. It needs nothing more exactly when all of them have.
pub proof fn every_scanned_key_is_cleaned_up(
    scan: ScanView,
    age: Option<Duration>,
    now: int,
    events: Seq<SweepEventView>,
)
    ensures
        ({
            let (cleanup, ended, since) = cleaned(scan, age, now, events);
            &&& cleanup.keys == scan.keys
            &&& cleanup.age == age && cleanup.now == now
            &&& cleanup.next == ended.len()
            &&& ended.len() <= scan.keys.len()
            &&& forall|i: int|
                #![trigger ended[i]]
                0 <= i < ended.len() ==> {
                    let at = swept_through(age, now, ended[i].events).0.at;
                    &&& ended[i].key == scan.keys[i]
                    &&& at is Swept || at is Skipped || at is Failed
                }
            &&& cleanup.wants() is Finish <==> ended.len() == scan.keys.len()
            &&& cleanup.sweep == swept_through(age, now, since).0
            &&& !(cleanup.sweep.at is Swept) && !(cleanup.sweep.at is Skipped) && !(
            cleanup.sweep.at is Failed)
        }),
    decreases events.len(),
{
    if events.len() > 0 {
        let before = events.drop_last();
        every_scanned_key_is_cleaned_up(scan, age, now, before);
        let (cleanup, ended, since) = cleaned(scan, age, now, before);
        let longer = since.push(events.last());
        assert(longer.drop_last() =~= since);
        assert(longer.last() == events.last());
    }
}

/// What a cleanup reports is what it did: it counts as removed the keys whose
/// result it removed, as abandoned those of which it removed what a dead owner
/// had left, and as skipped those that were busy; and for every key whose
/// cleanup failed there is one error, after those of the scan.
pub proof fn the_counts_tell_what_was_done(
    scan: ScanView,
    age: Option<Duration>,
    now: int,
    events: Seq<SweepEventView>,
)
    ensures
        ({
            let (cleanup, ended, since) = cleaned(scan, age, now, events);
            let tally = cleanup.tally;
            &&& tally.removed == how_many(
                ended,
                |sweep: EndedSweep| swept_through(age, now, sweep.events).1.result_removed,
            )
            &&& tally.abandoned == how_many(
                ended,
                |sweep: EndedSweep| swept_through(age, now, sweep.events).1.reclaimed,
            )
            &&& tally.skipped == how_many(
                ended,
                |sweep: EndedSweep| swept_through(age, now, sweep.events).0.at is Skipped,
            )
            &&& tally.errors.len() == scan.errors.len() + how_many(
                ended,
                |sweep: EndedSweep| swept_through(age, now, sweep.events).0.at is Failed,
            )
            &&& tally.errors.take(scan.errors.len() as int) == scan.errors
        }),
    decreases events.len(),
{
    let removed = |sweep: EndedSweep| swept_through(age, now, sweep.events).1.result_removed;
    let reclaimed = |sweep: EndedSweep| swept_through(age, now, sweep.events).1.reclaimed;
    let skipped = |sweep: EndedSweep| swept_through(age, now, sweep.events).0.at is Skipped;
    let failed = |sweep: EndedSweep| swept_through(age, now, sweep.events).0.at is Failed;
    reveal(Seq::filter);
    if events.len() > 0 {
        let before = events.drop_last();
        the_counts_tell_what_was_done(scan, age, now, before);
        every_scanned_key_is_cleaned_up(scan, age, now, before);
        let (cleanup, ended, since) = cleaned(scan, age, now, before);
        let longer = since.push(events.last());
        assert(longer.drop_last() =~= since);
        assert(longer.last() == events.last());
        a_sweep_stays_in_step(age, now, longer);
        let all = cleaned(scan, age, now, events).1;
        if all.len() > ended.len() {
            assert(all.drop_last() =~= ended);
            assert(all.last().events == longer);
        }
        let errors = cleaned(scan, age, now, events).0.tally.errors;
        assert(errors.take(scan.errors.len() as int) =~= cleanup.tally.errors.take(
            scan.errors.len() as int,
        ));
    } else {
        assert(scan.errors.take(scan.errors.len() as int) =~= scan.errors);
    }
}

/// An error of a cleanup names its key and says the whole failure; nothing that
/// was reported before is lost.
pub proof fn an_error_names_its_key(tally: Tally, key: Seq<char>, sweep: SweepView)
    ensures
        sweep.at matches SweepAt::Failed(error) ==> tally.with(key, sweep).errors
            == tally.errors.push(key + ": "@ + rendered(error)),
        !(sweep.at is Failed) ==> tally.with(key, sweep).errors == tally.errors,
        tally.with(key, sweep).removed - tally.removed == if sweep.removed { 1int } else { 0 },
        tally.with(key, sweep).abandoned - tally.abandoned == if sweep.abandoned { 1int } else { 0 },
        tally.with(key, sweep).skipped - tally.skipped == if sweep.at is Skipped { 1int } else { 0 },
{
}

/// Whether a cleanup with this limit removes a result that completed at
/// `completed`: there is no limit, or more time than that has passed.
pub open spec fn is_removable(completed: int, age: Option<Duration>, now: int) -> bool {
    age is None || now - completed > age->0.secs * 1_000_000_000 + age->0.nanos
}

/// The cleanup of an idle key, if nothing fails on the way, removes its result
/// if that is old enough, whatever the result is, and then the key's lock file;
/// a result that is not old enough stays, and so does the lock file.
pub proof fn an_idle_key_is_cleaned_up(
    age: Option<Duration>,
    now: int,
    text: Seq<char>,
    record: RecordView,
)
    ensures
        ({
            let step = |sweep: SweepView, event: SweepEventView| swept(sweep, event, age, now);
            let done = SweepEventView::Done(Ok(()));
            let opening = step(sweep_start(), SweepEvent::Gate(Ok(true)));
            let reading = step(
                opening,
                SweepEvent::Opened(Err(CauseView::Io(ErrorKind::NotFound, text))),
            );
            let found = step(reading, SweepEvent::Read(Ok(Some(StoredView::Current(record)))));
            let unsaved = step(found, done);
            let end = step(unsaved, done);
            &&& sweep_wants(sweep_start()) is AcquireGate
            &&& sweep_wants(opening) is OpenActive
            &&& sweep_wants(reading) is Read
            &&& is_removable(record.completed, age, now) ==> {
                &&& sweep_wants(found) is RemoveResult
                &&& sweep_wants(unsaved) is RemoveGate
                &&& end == (SweepView { abandoned: false, removed: true, at: SweepAt::Swept })
            }
            &&& !is_removable(record.completed, age, now) ==> found == (SweepView {
                abandoned: false,
                removed: false,
                at: SweepAt::Swept,
            })
        }),
{
}

/// A key without a result loses its lock file; a result in another format
/// version counts from when its file was last written.
pub proof fn a_key_without_a_readable_result_is_cleaned_up(
    age: Option<Duration>,
    now: int,
    modified: SystemTime,
    abandoned: bool,
)
    ensures
        ({
            let step = |sweep: SweepView, event: SweepEventView| swept(sweep, event, age, now);
            let done = SweepEventView::Done(Ok(()));
            let reading = SweepView { abandoned, removed: false, at: SweepAt::Reading };
            let gone = step(reading, SweepEvent::Read(Ok(None)));
            let dating = step(reading, SweepEvent::Read(Ok(Some(StoredView::OtherVersion))));
            let dated = step(dating, SweepEvent::Time(Ok(modified)));
            &&& sweep_wants(gone) is RemoveGate
            &&& step(gone, done) == (SweepView { abandoned, removed: false, at: SweepAt::Swept })
            &&& sweep_wants(dating) is ReadModified
            &&& is_removable(modified@, age, now) ==> sweep_wants(dated) is RemoveResult
            &&& is_removable(modified@, age, now) ==> step(step(dated, done), done) == (SweepView {
                abandoned,
                removed: true,
                at: SweepAt::Swept,
            })
            &&& !is_removable(modified@, age, now) ==> dated == (SweepView {
                abandoned,
                removed: false,
                at: SweepAt::Swept,
            })
        }),
{
}

/// A key that somebody holds, or whose command is being executed, is skipped.
/// What a dead owner left is removed and counted, and then the key is cleaned up
/// like any other.
pub proof fn a_dead_execution_is_removed_and_a_live_one_skipped(age: Option<Duration>, now: int)
    ensures
        ({
            let step = |sweep: SweepView, event: SweepEventView| swept(sweep, event, age, now);
            let opening = step(sweep_start(), SweepEvent::Gate(Ok(true)));
            let probing = step(opening, SweepEvent::Opened(Ok(())));
            let reclaiming = step(probing, SweepEvent::Locked(Ok(true)));
            let reading = step(reclaiming, SweepEvent::Done(Ok(())));
            &&& step(sweep_start(), SweepEvent::Gate(Ok(false))).at is Skipped
            &&& sweep_wants(probing) is TryActive
            &&& step(probing, SweepEvent::Locked(Ok(false))).at is Skipped
            &&& sweep_wants(reclaiming) is RemoveAbandoned
            &&& reading == (SweepView { abandoned: true, removed: false, at: SweepAt::Reading })
        }),
{
}

/// Every step of a cleanup that fails ends the cleanup of its key with that
/// failure, in the context of the step, and what was counted before stays.
pub proof fn a_failed_step_ends_the_cleanup_of_its_key(
    sweep: SweepView,
    event: SweepEventView,
    age: Option<Duration>,
    now: int,
)
    ensures
        sweep.at is AcquiringGate ==> (event matches SweepEvent::Gate(Err(error)) ==> swept(
            sweep,
            event,
            age,
            now,
        ) == (SweepView { at: SweepAt::Failed(error), ..sweep })),
        sweep.at is Probing ==> (event matches SweepEvent::Locked(Err(error)) ==> swept(
            sweep,
            event,
            age,
            now,
        ) == (SweepView { at: SweepAt::Failed(error), ..sweep })),
        sweep.at is Reading ==> (event matches SweepEvent::Read(Err(error)) ==> swept(
            sweep,
            event,
            age,
            now,
        ) == (SweepView { at: SweepAt::Failed(error), ..sweep })),
        sweep.at is Opening ==> (event matches SweepEvent::Opened(Err(CauseView::Io(kind, text)))
            ==> kind != ErrorKind::NotFound ==> failed_in(
            sweep,
            swept(sweep, event, age, now),
            "open active execution"@,
            CauseView::Io(kind, text),
        )),
        sweep.at is Reclaiming ==> (event matches SweepEvent::Done(Err(error)) ==> failed_in(
            sweep,
            swept(sweep, event, age, now),
            "remove abandoned execution"@,
            error,
        )),
        sweep.at is Dating ==> (event matches SweepEvent::Time(Err(error)) ==> failed_in(
            sweep,
            swept(sweep, event, age, now),
            "read result modification time"@,
            error,
        )),
        sweep.at is RemovingResult ==> (event matches SweepEvent::Done(Err(error)) ==> failed_in(
            sweep,
            swept(sweep, event, age, now),
            "delete cached result"@,
            error,
        )),
        sweep.at is RemovingGate ==> (event matches SweepEvent::Done(Err(error)) ==> failed_in(
            sweep,
            swept(sweep, event, age, now),
            "remove idle key lock"@,
            error,
        )),
{
    match event {
        SweepEvent::Opened(Err(error)) => {
            assert(in_context("open active execution"@, seq![error]) =~= seq![
                CauseView::Message("open active execution"@),
                error,
            ]);
        },
        SweepEvent::Time(Err(error)) => {
            assert(in_context("read result modification time"@, seq![error]) =~= seq![
                CauseView::Message("read result modification time"@),
                error,
            ]);
        },
        SweepEvent::Done(Err(error)) => {
            assert(in_context("remove abandoned execution"@, seq![error]) =~= seq![
                CauseView::Message("remove abandoned execution"@),
                error,
            ]);
            assert(in_context("delete cached result"@, seq![error]) =~= seq![
                CauseView::Message("delete cached result"@),
                error,
            ]);
            assert(in_context("remove idle key lock"@, seq![error]) =~= seq![
                CauseView::Message("remove idle key lock"@),
                error,
            ]);
        },
        _ => {},
    }
}

/// Whether the cleanup of a key has just failed, in this context.
pub open spec fn failed_in(
    before: SweepView,
    after: SweepView,
    context: Seq<char>,
    error: CauseView,
) -> bool {
    &&& after.abandoned == before.abandoned && after.removed == before.removed
    &&& after.at matches SweepAt::Failed(failure)
    &&& failure == seq![CauseView::Message(context), error]
}

/// Whether an event answers what the cleanup of a key needs.
pub open spec fn answers_sweep(action: SweepAction, event: SweepEventView) -> bool {
    match action {
        SweepAction::AcquireGate => event is Gate,
        SweepAction::OpenActive => event is Opened,
        SweepAction::TryActive => event is Locked,
        SweepAction::RemoveAbandoned | SweepAction::RemoveResult | SweepAction::RemoveGate =>
            event is Done,
        SweepAction::Read => event is Read,
        SweepAction::ReadModified => event is Time,
        SweepAction::Finish => false,
    }
}

/// The cleanup of a key moves on with every answer to what it needs, and with
/// nothing else; it needs nothing more exactly when it has ended.
pub proof fn a_sweep_moves_on_with_each_answer(
    sweep: SweepView,
    event: SweepEventView,
    age: Option<Duration>,
    now: int,
)
    ensures
        answers_sweep(sweep_wants(sweep), event) <==> swept(sweep, event, age, now).at != sweep.at,
        !answers_sweep(sweep_wants(sweep), event) ==> swept(sweep, event, age, now) == sweep,
        sweep_wants(sweep) is Finish <==> sweep.at is Swept || sweep.at is Skipped || sweep.at is
            Failed,
{
}

/// A cleanup asks for the steps of the key at which it is, names that key, and
/// goes to the next one, and no further, when the cleanup of that key has ended.
pub proof fn a_cleanup_takes_one_key_after_the_other(
    cleanup: Cleanup,
    key: Option<&str>,
    action: SweepAction,
    event: SweepEvent<Stored, IoError, Error>,
    next: Cleanup,
)
    requires
        0 <= cleanup@.next <= cleanup@.keys.len(),
        call_ensures(Cleanup::key, (&cleanup,), key),
        call_ensures(Cleanup::action, (&cleanup,), action),
        call_ensures(Cleanup::step, (cleanup, event), next),
    ensures
        key is None <==> cleanup@.next == cleanup@.keys.len(),
        key is Some ==> key->0@ == cleanup@.keys[cleanup@.next],
        key is Some ==> action == sweep_wants(cleanup@.sweep),
        key is None ==> action is Finish && next@ == cleanup@,
        next@.keys == cleanup@.keys && next@.age == cleanup@.age && next@.now == cleanup@.now,
        key is Some ==> {
            let at = swept(cleanup@.sweep, sweep_event(event), cleanup@.age, cleanup@.now).at;
            let over = at is Swept || at is Skipped || at is Failed;
            &&& over ==> next@.next == cleanup@.next + 1 && next@.sweep.at is AcquiringGate
            &&& over ==> !next@.sweep.removed && !next@.sweep.abandoned
            &&& !over ==> next@.next == cleanup@.next && next@.tally == cleanup@.tally
        },
{
}

/// A cleanup starts with the first of all keys that were scanned, with nothing
/// counted and the errors of the scan.
pub proof fn a_cleanup_starts_with_all_keys(
    scan: Scan,
    age: Option<Duration>,
    now: SystemTime,
    cleanup: Cleanup,
)
    requires
        call_ensures(run, (scan, age, now), cleanup),
    ensures
        cleanup@.keys == scan@.keys,
        cleanup@.next == 0,
        cleanup@.age == age && cleanup@.now == now@,
        cleanup@.tally.removed == 0 && cleanup@.tally.abandoned == 0 && cleanup@.tally.skipped == 0,
        cleanup@.tally.errors == scan@.errors,
        cleanup@.sweep.at is AcquiringGate && !cleanup@.sweep.removed && !cleanup@.sweep.abandoned,
{
}

/// A scan finds a key exactly if there is an entry that is named after it: 64
/// lowercase hexadecimal digits and one of the three endings. It never forgets
/// one.
pub proof fn a_scan_finds_the_keys_of_its_entries(
    scan: Scan,
    name: &str,
    next: Scan,
    key: Seq<char>,
)
    requires
        call_ensures(Scan::entry, (scan, name), next),
    ensures
        next@.keys.contains(key) <==> scan@.keys.contains(key) || ((name@ == key + ".result"@
            || name@ == key + ".active"@ || name@ == key + ".lock"@) && key.len() == 64
            && forall|i: int|
            0 <= i < 64 ==> '0' <= #[trigger] key[i] <= '9' || 'a' <= key[i] <= 'f'),
        next@.errors == scan@.errors,
{
    let digits = forall|i: int|
        0 <= i < 64 ==> '0' <= #[trigger] key[i] <= '9' || 'a' <= key[i] <= 'f';
    if is_key(key) {
        assert forall|i: int| 0 <= i < 64 implies '0' <= #[trigger] key[i] <= '9' || 'a' <= key[i]
            <= 'f' by {
            assert(is_key_digit(key[i]));
        }
    }
    assert(is_key(key) <==> key.len() == 64 && digits);
    assert(is_entry(name@, key) ==> next@.keys.contains(key));
    assert(next@.keys.contains(key) ==> scan@.keys.contains(key) || is_entry(name@, key));
    assert(scan@.keys.contains(key) ==> next@.keys.contains(key));
}

/// An entry that cannot be read is an error of the scan, and no key is lost by
/// it.
pub proof fn an_unreadable_entry_is_an_error(scan: Scan, why: &str, next: Scan, start: Scan)
    requires
        call_ensures(Scan::failed, (scan, why), next),
        call_ensures(Scan::new, (), start),
    ensures
        next@.keys == scan@.keys,
        next@.errors.len() == scan@.errors.len() + 1,
        next@.errors.last() == "scan cache entry: "@ + why@,
        next@.errors.drop_last() == scan@.errors,
        start@.keys.len() == 0 && start@.errors.len() == 0,
{
    assert(next@.errors.drop_last() =~= scan@.errors);
}

/// A cleanup reports its counts, and succeeds exactly if it has no errors;
/// otherwise it fails with the counts and all errors.
pub proof fn a_cleanup_succeeds_exactly_without_errors(
    cleanup: &Cleanup,
    result: Result<String, Error>,
)
    requires
        call_ensures(Cleanup::conclude, (cleanup,), result),
    ensures
        ({
            let tally = cleanup@.tally;
            let counts = "removed="@ + crate::text::decimal(tally.removed) + " abandoned="@
                + crate::text::decimal(tally.abandoned) + " skipped="@ + crate::text::decimal(
                tally.skipped,
            ) + " failed="@ + crate::text::decimal(tally.errors.len());
            &&& result is Ok <==> tally.errors.len() == 0
            &&& result is Ok ==> result->Ok_0@ == counts
            &&& result is Err ==> result->Err_0@ == seq![
                CauseView::Message(
                    "cache cleanup partially applied ("@ + counts + "): "@ + listed(tally.errors),
                ),
            ]
        }),
{
}

/// In a list of errors each one stands in full: the list of one error is that
/// error, and one more error follows the others after `; `.
pub proof fn a_list_of_errors_holds_each(errors: Seq<Seq<char>>, error: Seq<char>)
    ensures
        listed(seq![error]) == error,
        errors.len() > 0 ==> listed(errors.push(error)) == listed(errors) + "; "@ + error,
{
    assert(errors.push(error).drop_last() =~= errors);
}

/// A cache directory that is not there is no error, and there is nothing to
/// scan; every other failure to open it is one.
pub proof fn a_missing_directory_is_empty(opened: Result<(), IoError>, present: Result<bool, Error>)
    requires
        call_ensures(directory, (opened,), present),
    ensures
        opened is Ok <==> present == Ok::<bool, Error>(true),
        opened is Err && opened->Err_0.kind == ErrorKind::NotFound <==> present == Ok::<
            bool,
            Error,
        >(false),
        present is Err ==> present->Err_0@ == seq![
            CauseView::Message("scan cache directory"@),
            opened->Err_0@,
        ],
{
    if present is Err {
        assert(present->Err_0@ =~= seq![
            CauseView::Message("scan cache directory"@),
            opened->Err_0@,
        ]);
    }
}

/// A summary that could not be printed is an error, which holds the summary,
/// unless its reader closed early.
pub proof fn a_lost_summary_is_an_error(
    printed: Result<(), IoError>,
    summary: &str,
    result: Result<(), Error>,
)
    requires
        call_ensures(print_summary, (printed, summary), result),
    ensures
        result is Err <==> printed is Err && printed->Err_0.kind != ErrorKind::BrokenPipe,
        result is Err ==> result->Err_0@ == seq![
            CauseView::Message("print cleanup summary ("@ + summary@ + ")"@),
            printed->Err_0@,
        ],
{
    if result is Err {
        assert(result->Err_0@ =~= seq![
            CauseView::Message("print cleanup summary ("@ + summary@ + ")"@),
            printed->Err_0@,
        ]);
    }
}

} // verus!
