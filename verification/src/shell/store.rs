//! Saved results: what reading, removing or writing one comes to.

use crate::digest::digestible;
use crate::domain::record::{self, decoded, encoded, is_other_version, Record, RecordView};
use crate::error::{in_context, message, CauseView, Error, ErrorKind, IoError};
use crate::text::between;
use vstd::prelude::*;

verus! {

/// `result` with the failure of a system call in it replaced by its view.
pub open spec fn io_view<T>(result: Result<T, IoError>) -> Result<T, CauseView> {
    match result {
        Ok(value) => Ok(value),
        Err(error) => Err(error@),
    }
}

/// What a saved result turned out to be.
#[derive(Debug)]
pub enum Stored {
    Current(Record),
    /// Written in another format version, so this binary can neither reuse nor
    /// verify it. Callers treat it as absent rather than corrupt, keeping format
    /// upgrades and downgrades free of manual recovery.
    OtherVersion,
}

pub enum StoredView {
    Current(RecordView),
    OtherVersion,
}

impl View for Stored {
    type V = StoredView;

    open spec fn view(&self) -> StoredView {
        match self {
            Stored::Current(record) => StoredView::Current(record@),
            Stored::OtherVersion => StoredView::OtherVersion,
        }
    }
}

/// The failure to read a saved result that is none.
pub open spec fn corrupt(path: Seq<char>, why: Seq<char>) -> Seq<CauseView> {
    in_context(
        "corrupt cached result "@ + path
            + ". Recovery: stop all cacheexec invocations using this cache directory, remove only this .result file, then retry; keep .lock and .active files"@,
        message(why),
    )
}

/// What the bytes of a saved result, or the failure to read them, come to.
/// `path` is the file as it is to be shown.
pub open spec fn stored(found: Result<Seq<u8>, CauseView>, path: Seq<char>) -> Result<
    Option<StoredView>,
    Seq<CauseView>,
> {
    match found {
        Err(CauseView::Io(ErrorKind::NotFound, _)) => Ok(None),
        Err(error) => Err(in_context("read cached result "@ + path, seq![error])),
        Ok(bytes) => if is_other_version(bytes) {
            Ok(Some(StoredView::OtherVersion))
        } else {
            match decoded(bytes) {
                Ok(record) => Ok(Some(StoredView::Current(record))),
                Err(error) => Err(corrupt(path, error.says())),
            }
        },
    }
}

/// The bytes that were read, or why not.
pub open spec fn bytes_view(found: Result<Vec<u8>, IoError>) -> Result<Seq<u8>, CauseView> {
    match found {
        Ok(bytes) => Ok(bytes@),
        Err(error) => Err(error@),
    }
}

/// `result` with what it holds replaced by its view.
pub open spec fn stored_view(result: Result<Option<Stored>, Error>) -> Result<
    Option<StoredView>,
    Seq<CauseView>,
> {
    match result {
        Ok(Some(stored)) => Ok(Some(stored@)),
        Ok(None) => Ok(None),
        Err(error) => Err(error@),
    }
}

/// What is saved, given the bytes of the file or the failure to read them.
/// `path` is the file as it is to be shown.
pub fn read(found: Result<Vec<u8>, IoError>, path: &str) -> (result: Result<Option<Stored>, Error>)
    requires
        found matches Ok(bytes) ==> digestible(bytes@.len()),
    ensures
        stored_view(result) == stored(bytes_view(found), path@),
{
    let bytes = match found {
        Ok(bytes) => bytes,
        Err(error) => {
            if matches!(error.kind, ErrorKind::NotFound) {
                return Ok(None);
            }
            let mut context = "read cached result ".to_owned();
            context.append(path);
            return Err(Error::from_io(error).context(context.as_str()));
        },
    };
    if record::other_version(bytes.as_slice()) {
        return Ok(Some(Stored::OtherVersion));
    }
    match record::decode(bytes.as_slice()) {
        Ok(record) => Ok(Some(Stored::Current(record))),
        Err(error) => Err(
            Error::new(error.text()).context(
                between(
                    "corrupt cached result ",
                    path,
                    ". Recovery: stop all cacheexec invocations using this cache directory, remove only this .result file, then retry; keep .lock and .active files",
                ).as_str(),
            ),
        ),
    }
}

/// The saved result that may be reused. One in another format version counts
/// as absent.
pub open spec fn loaded(found: Result<Seq<u8>, CauseView>, path: Seq<char>) -> Result<
    Option<RecordView>,
    Seq<CauseView>,
> {
    match stored(found, path) {
        Ok(Some(StoredView::Current(record))) => Ok(Some(record)),
        Ok(_) => Ok(None),
        Err(error) => Err(error),
    }
}

/// `result` with what it holds replaced by its view.
pub open spec fn loaded_view(result: Result<Option<Record>, Error>) -> Result<
    Option<RecordView>,
    Seq<CauseView>,
> {
    match result {
        Ok(Some(record)) => Ok(Some(record@)),
        Ok(None) => Ok(None),
        Err(error) => Err(error@),
    }
}

/// The saved result that may be reused, given the bytes of the file or the
/// failure to read them.
pub fn load(found: Result<Vec<u8>, IoError>, path: &str) -> (result: Result<Option<Record>, Error>)
    requires
        found matches Ok(bytes) ==> digestible(bytes@.len()),
    ensures
        loaded_view(result) == loaded(bytes_view(found), path@),
{
    match read(found, path) {
        Ok(Some(Stored::Current(record))) => Ok(Some(record)),
        Ok(_) => Ok(None),
        Err(error) => Err(error),
    }
}

/// What removing a saved result comes to: one that is not there is gone too.
pub open spec fn invalidated(removed: Result<(), CauseView>, path: Seq<char>) -> Result<
    (),
    Seq<CauseView>,
> {
    match removed {
        Ok(()) => Ok(()),
        Err(CauseView::Io(ErrorKind::NotFound, _)) => Ok(()),
        Err(error) => Err(in_context("invalidate previous cached result "@ + path, seq![error])),
    }
}

/// Whether a saved result is gone, given what removing its file came to.
pub fn invalidate(removed: Result<(), IoError>, path: &str) -> (result: Result<(), Error>)
    ensures
        crate::error::viewed(result) == invalidated(io_view(removed), path@),
{
    match removed {
        Ok(()) => Ok(()),
        Err(error) => {
            if matches!(error.kind, ErrorKind::NotFound) {
                return Ok(());
            }
            let mut context = "invalidate previous cached result ".to_owned();
            context.append(path);
            Err(Error::from_io(error).context(context.as_str()))
        },
    }
}

/// A step of saving a result. `B` are bytes.
#[derive(Debug)]
pub enum SaveStep<B> {
    /// Create an empty temporary file in the directory of the saved result.
    CreateTemporary,
    /// Write all of these bytes to the temporary file.
    Write(B),
    /// Wait until the temporary file is stored for good.
    Sync,
    /// Rename the temporary file to the saved result, in whose place it comes
    /// at once.
    Rename,
}

pub open spec fn save_step(step: SaveStep<Vec<u8>>) -> SaveStep<Seq<u8>> {
    match step {
        SaveStep::CreateTemporary => SaveStep::CreateTemporary,
        SaveStep::Write(bytes) => SaveStep::Write(bytes@),
        SaveStep::Sync => SaveStep::Sync,
        SaveStep::Rename => SaveStep::Rename,
    }
}

/// The views of `steps`.
pub open spec fn save_steps(steps: Seq<SaveStep<Vec<u8>>>) -> Seq<SaveStep<Seq<u8>>> {
    Seq::new(steps.len(), |i: int| save_step(steps[i]))
}

/// The steps that save `bytes`.
pub open spec fn saving(bytes: Seq<u8>) -> Seq<SaveStep<Seq<u8>>> {
    seq![
        SaveStep::CreateTemporary,
        SaveStep::Write(bytes),
        SaveStep::Sync,
        SaveStep::Rename,
    ]
}

/// The content of the saved result and of the temporary file, each if it is
/// there.
#[verifier::ext_equal]
pub struct Disk {
    pub saved: Option<Seq<u8>>,
    pub temporary: Option<Seq<u8>>,
}

/// What there is after a step.
pub open spec fn saved_on(disk: Disk, step: SaveStep<Seq<u8>>) -> Disk {
    match step {
        SaveStep::CreateTemporary => Disk { temporary: Some(Seq::empty()), ..disk },
        SaveStep::Write(bytes) => Disk {
            temporary: match disk.temporary {
                Some(written) => Some(written + bytes),
                None => None,
            },
            ..disk
        },
        SaveStep::Sync => disk,
        SaveStep::Rename => Disk { saved: disk.temporary, temporary: None },
    }
}

/// What there is after several steps.
pub open spec fn saved_by(disk: Disk, steps: Seq<SaveStep<Seq<u8>>>) -> Disk
    decreases steps.len(),
{
    if steps.len() == 0 {
        disk
    } else {
        saved_on(saved_by(disk, steps.drop_last()), steps.last())
    }
}

/// Whether `during` is what there may be while a step is under way, or after
/// it has failed: of what it writes any part may be there, and a file is
/// renamed at once or not at all.
pub open spec fn is_amid(before: Disk, step: SaveStep<Seq<u8>>, during: Disk) -> bool {
    match step {
        SaveStep::CreateTemporary => during == before || during == saved_on(before, step),
        SaveStep::Write(bytes) => exists|part: int|
            0 <= part <= bytes.len() && during == saved_on(
                before,
                SaveStep::Write(#[trigger] bytes.take(part)),
            ),
        SaveStep::Sync | SaveStep::Rename => during == before,
    }
}

/// Whether `during` is what there may be after `done` of `steps`, with the next
/// one under way or failed.
pub open spec fn is_amid_steps(
    disk: Disk,
    steps: Seq<SaveStep<Seq<u8>>>,
    done: int,
    during: Disk,
) -> bool {
    &&& 0 <= done < steps.len()
    &&& is_amid(saved_by(disk, steps.take(done)), steps[done], during)
}

/// The steps that save a result.
pub fn save(record: &Record) -> (result: Result<Vec<SaveStep<Vec<u8>>>, Error>)
    requires
        record@.storable(),
    ensures
        match result {
            Ok(steps) => record@.completed >= 0 && save_steps(steps@) == saving(encoded(record@)),
            Err(error) => record@.completed < 0 && error@ == message(
                record::RecordError::BeforeEpoch.says(),
            ),
        },
{
    let bytes = match record::encode(record) {
        Ok(bytes) => bytes,
        Err(error) => {
            return Err(Error::new(error.text()));
        },
    };
    let mut steps: Vec<SaveStep<Vec<u8>>> = Vec::new();
    steps.push(SaveStep::CreateTemporary);
    steps.push(SaveStep::Write(bytes));
    steps.push(SaveStep::Sync);
    steps.push(SaveStep::Rename);
    assert(save_steps(steps@) =~= saving(encoded(record@)));
    Ok(steps)
}

/// After all steps of a save, the saved result holds exactly what was to be
/// saved, whatever it held before.
pub proof fn a_save_replaces_the_result(disk: Disk, bytes: Seq<u8>)
    ensures
        saved_by(disk, saving(bytes)) == (Disk { saved: Some(bytes), temporary: None }),
{
    reveal_with_fuel(saved_by, 5);
    let steps = saving(bytes);
    assert(steps.drop_last() =~= steps.take(3));
    assert(steps.take(3).drop_last() =~= steps.take(2));
    assert(steps.take(2).drop_last() =~= steps.take(1));
    assert(steps.take(1).drop_last() =~= Seq::empty());
    assert(Seq::<u8>::empty() + bytes =~= bytes);
}

/// Until the last step of a save has succeeded, the saved result is what it
/// was: a save that fails leaves the old content, or none if there was none,
/// and nobody ever sees a part of the new content in its place.
pub proof fn an_unfinished_save_changes_nothing(disk: Disk, bytes: Seq<u8>, done: int, during: Disk)
    requires
        is_amid_steps(disk, saving(bytes), done, during),
    ensures
        during.saved == disk.saved,
{
    reveal_with_fuel(saved_by, 4);
    let steps = saving(bytes);
    assert(steps.take(3).drop_last() =~= steps.take(2));
    assert(steps.take(2).drop_last() =~= steps.take(1));
    assert(steps.take(1).drop_last() =~= steps.take(0));
    assert(steps.take(0) =~= Seq::empty());
}

/// What a save leaves is loaded as the result that was saved.
pub proof fn what_a_save_leaves_is_loaded(disk: Disk, record: RecordView, path: Seq<char>)
    requires
        0 <= record.completed && crate::time::representable(record.completed),
        0 <= record.code <= 255,
        record.stdout.len() <= usize::MAX,
        record.stderr.len() <= usize::MAX,
    ensures
        saved_by(disk, saving(encoded(record))).saved matches Some(bytes) && loaded(
            Ok(bytes),
            path,
        ) == Ok::<Option<RecordView>, Seq<CauseView>>(Some(record)),
{
    a_save_replaces_the_result(disk, encoded(record));
    a_saved_result_is_loaded(record, path);
}

/// A result that was saved is loaded as it was.
pub proof fn a_saved_result_is_loaded(record: RecordView, path: Seq<char>)
    requires
        0 <= record.completed && crate::time::representable(record.completed),
        0 <= record.code <= 255,
        record.stdout.len() <= usize::MAX,
        record.stderr.len() <= usize::MAX,
    ensures
        loaded(Ok(encoded(record)), path) == Ok::<Option<RecordView>, Seq<CauseView>>(
            Some(record),
        ),
{
    record::a_stored_result_is_read_back(record);
    record::this_version_is_not_another(record);
}

/// A result is loaded only from bytes in this format, so anything else that is
/// found in its place is an error, except what another version of the format
/// has left, which is as good as absent.
pub proof fn what_is_not_a_result_is_an_error(bytes: Seq<u8>, path: Seq<char>)
    ensures
        is_other_version(bytes) ==> loaded(Ok(bytes), path) == Ok::<
            Option<RecordView>,
            Seq<CauseView>,
        >(None),
        !is_other_version(bytes) && decoded(bytes) is Err ==> loaded(Ok(bytes), path) is Err,
        loaded(Ok(bytes), path) matches Ok(Some(record)) ==> bytes == encoded(record),
{
    if decoded(bytes) is Ok {
        record::only_the_stored_form_is_read(bytes);
    }
}

/// What is loaded from a file is exactly the result whose stored form the file
/// holds. A file that is not there is a miss, and so is one in another format
/// version; anything else is an error, which names the file.
pub proof fn loading_gives_the_stored_result_or_an_error(
    found: Result<Vec<u8>, IoError>,
    path: &str,
    result: Result<Option<Record>, Error>,
)
    requires
        call_ensures(load, (found, path), result),
    ensures
        found is Ok && result is Ok && result->Ok_0 is Some ==> found->Ok_0@ == encoded(
            result->Ok_0->0@,
        ),
        found is Ok && result is Ok && result->Ok_0 is None ==> is_other_version(found->Ok_0@),
        found is Err && found->Err_0.kind == ErrorKind::NotFound <==> found is Err && result is Ok,
        found is Err && result is Ok ==> result->Ok_0 is None,
        found is Err && result is Err ==> result->Err_0@ == seq![
            CauseView::Message("read cached result "@ + path@),
            found->Err_0@,
        ],
        found is Ok && result is Err ==> result->Err_0@.len() == 2 && result->Err_0@[0]
            == CauseView::Message(
            "corrupt cached result "@ + path@
                + ". Recovery: stop all cacheexec invocations using this cache directory, remove only this .result file, then retry; keep .lock and .active files"@,
        ) && result->Err_0@[1] == CauseView::Message(decoded(found->Ok_0@)->Err_0.says()),
{
    if found is Ok {
        what_is_not_a_result_is_an_error(found->Ok_0@, path@);
    } else if result is Err {
        assert(result->Err_0@ =~= seq![
            CauseView::Message("read cached result "@ + path@),
            found->Err_0@,
        ]);
    }
}

/// Every result that can be saved is loaded from its stored form as it was: its
/// exit code, its completion time and every byte of its output.
pub proof fn every_saved_result_is_loaded_as_it_was(
    record: RecordView,
    bytes: Vec<u8>,
    path: &str,
    result: Result<Option<Record>, Error>,
)
    requires
        0 <= record.completed && crate::time::representable(record.completed),
        0 <= record.code <= 255,
        record.stdout.len() <= usize::MAX,
        record.stderr.len() <= usize::MAX,
        bytes@ == encoded(record),
        call_ensures(load, (Ok(bytes), path), result),
    ensures
        result is Ok && result->Ok_0 is Some,
        result->Ok_0->0.code == record.code,
        result->Ok_0->0.completed@ == record.completed,
        result->Ok_0->0.stdout@ == record.stdout,
        result->Ok_0->0.stderr@ == record.stderr,
{
    a_saved_result_is_loaded(record, path@);
}

/// Reading tells a result in another format version from one that is not
/// there; loading does not.
pub proof fn loading_is_reading_without_other_versions(
    found: Result<Vec<u8>, IoError>,
    path: &str,
    read: Result<Option<Stored>, Error>,
    loaded: Result<Option<Record>, Error>,
)
    requires
        call_ensures(crate::shell::store::read, (found, path), read),
        call_ensures(load, (found, path), loaded),
    ensures
        read is Err <==> loaded is Err,
        read is Err ==> read->Err_0@ == loaded->Err_0@,
        read is Ok ==> ((read->Ok_0 matches Some(Stored::Current(_))) <==> loaded->Ok_0 is Some),
        read matches Ok(Some(Stored::Current(record))) ==> record@ == loaded->Ok_0->0@,
        (read matches Ok(Some(Stored::OtherVersion))) <==> found is Ok && is_other_version(
            found->Ok_0@,
        ),
{
}

/// A saved result is gone exactly if its file was removed or was not there;
/// every other failure to remove it is an error, which names the file.
pub proof fn a_result_that_is_not_there_is_gone(
    removed: Result<(), IoError>,
    path: &str,
    result: Result<(), Error>,
)
    requires
        call_ensures(invalidate, (removed, path), result),
    ensures
        result is Ok <==> removed is Ok || removed->Err_0.kind == ErrorKind::NotFound,
        result is Err ==> result->Err_0@ == seq![
            CauseView::Message("invalidate previous cached result "@ + path@),
            removed->Err_0@,
        ],
{
    if result is Err {
        assert(result->Err_0@ =~= seq![
            CauseView::Message("invalidate previous cached result "@ + path@),
            removed->Err_0@,
        ]);
    }
}

/// A result is saved by writing its stored form, all of it, to a new temporary
/// file that is stored for good before it takes the place of the saved result.
/// Only a completion time before the epoch keeps it from being saved.
pub proof fn a_result_is_saved_whole(
    record: &Record,
    result: Result<Vec<SaveStep<Vec<u8>>>, Error>,
)
    requires
        call_ensures(save, (record,), result),
    ensures
        result is Ok <==> record@.completed >= 0,
        result is Ok ==> {
            let steps = result->Ok_0@;
            &&& steps.len() == 4
            &&& steps[0] is CreateTemporary
            &&& steps[1] is Write && steps[1]->Write_0@ == encoded(record@)
            &&& steps[2] is Sync
            &&& steps[3] is Rename
        },
{
    if result is Ok {
        let steps = result->Ok_0@;
        assert(save_steps(steps).len() == 4);
        assert(save_steps(steps)[0] == save_step(steps[0]));
        assert(save_steps(steps)[1] == save_step(steps[1]));
        assert(save_steps(steps)[2] == save_step(steps[2]));
        assert(save_steps(steps)[3] == save_step(steps[3]));
    }
}

} // verus!
