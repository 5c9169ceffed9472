//! Layout of a `.active` file, through which an execution's owner shares its
//! result with waiters: one save-permission byte per exit code (the
//! [`Votes`](crate::domain::execution::Votes)), then a state tag, a detail
//! byte, and the encoded record or failure message. The detail byte of a
//! completed execution is its [`Saving`] status.

use crate::bytes::push_all;
use crate::digest::digestible;
use crate::domain::execution::{merged, Saving, CODES};
use crate::domain::record::{self, decoded, encoded, Record, RecordError, RecordView};
use crate::error::{message, CauseView, Error};
use crate::time::representable;
use vstd::prelude::*;
use vstd::utf8::{
    decode_utf8, encode_utf8, encode_utf8_decode_utf8, encode_utf8_valid_utf8, valid_utf8,
};

verus! {

pub const TAG_OFFSET: u64 = 256;

pub const DETAIL_OFFSET: u64 = 257;

pub const PENDING: u8 = 2;

pub const COMPLETED: u8 = 3;

pub const FAILED: u8 = 4;

/// What an execution's owner has published.
#[derive(Debug)]
pub enum Published {
    Completed { saving: Saving, record: Record },
    Failed {
        /// Whether the owner removed the saved result for this key.
        invalidated: bool,
        message: String,
    },
    /// The owner ended without committing a tag.
    Unfinished,
}

pub enum PublishedView {
    Completed { saving: Saving, record: RecordView },
    Failed { invalidated: bool, message: Seq<char> },
    Unfinished,
}

impl View for Published {
    type V = PublishedView;

    open spec fn view(&self) -> PublishedView {
        match self {
            Published::Completed { saving, record } => PublishedView::Completed {
                saving: *saving,
                record: record@,
            },
            Published::Failed { invalidated, message } => PublishedView::Failed {
                invalidated: *invalidated,
                message: message@,
            },
            Published::Unfinished => PublishedView::Unfinished,
        }
    }
}

/// The text of `bytes`, in which every part that is not UTF-8 has become a
/// replacement character.
pub uninterp spec fn lossy(bytes: Seq<u8>) -> Seq<char>;

/// `String::from_utf8_lossy`: the text depends on the bytes alone, and valid
/// UTF-8 keeps its characters.
#[verifier::external_body]
fn lossy_text(bytes: &[u8]) -> (text: String)
    ensures
        text@ == lossy(bytes@),
        valid_utf8(bytes@) ==> text@ == decode_utf8(bytes@),
{
    String::from_utf8_lossy(bytes).into_owned()
}

/// A new execution's file: no votes yet, and nothing published.
pub fn pending() -> (bytes: Vec<u8>)
    ensures
        bytes@ == Seq::new(CODES as nat, |i: int| 0u8).push(PENDING),
{
    let mut bytes: Vec<u8> = Vec::new();
    while bytes.len() < CODES
        invariant
            bytes@.len() <= CODES,
            forall|i: int| 0 <= i < bytes@.len() ==> bytes@[i] == 0,
        decreases CODES - bytes@.len(),
    {
        bytes.push(0);
    }
    bytes.push(PENDING);
    assert(bytes@ =~= Seq::new(CODES as nat, |i: int| 0u8).push(PENDING));
    bytes
}

/// What the bytes of a file from its tag on publish.
pub open spec fn parsed(from_tag: Seq<u8>) -> Result<PublishedView, Seq<CauseView>> {
    if from_tag.len() == 0 {
        Ok(PublishedView::Unfinished)
    } else if from_tag[0] == COMPLETED {
        if from_tag.len() == 1 {
            Err(message("missing shared saving status"@))
        } else if from_tag[1] == 0 || from_tag[1] > 3 {
            Err(message("invalid shared saving status"@))
        } else {
            match decoded(from_tag.skip(2)) {
                Ok(record) => Ok(
                    PublishedView::Completed {
                        saving: if from_tag[1] == 1 {
                            Saving::Saved
                        } else if from_tag[1] == 2 {
                            Saving::Excluded
                        } else {
                            Saving::Interrupted
                        },
                        record,
                    },
                ),
                Err(error) => Err(message(error.says())),
            }
        }
    } else if from_tag[0] == FAILED {
        if from_tag.len() == 1 {
            Err(message("missing shared failure status"@))
        } else {
            Ok(
                PublishedView::Failed {
                    invalidated: from_tag[1] == 1,
                    message: lossy(from_tag.skip(2)),
                },
            )
        }
    } else {
        Ok(PublishedView::Unfinished)
    }
}

/// `result` with what it holds replaced by its view.
pub open spec fn viewed(result: Result<Published, Error>) -> Result<
    PublishedView,
    Seq<CauseView>,
> {
    match result {
        Ok(published) => Ok(published@),
        Err(error) => Err(error@),
    }
}

/// Parses the bytes from [`TAG_OFFSET`] to the end of the file.
pub fn parse(from_tag: &[u8]) -> (result: Result<Published, Error>)
    requires
        digestible(from_tag@.len()),
    ensures
        viewed(result) == parsed(from_tag@),
        // A published failure is read back as its owner described it.
        forall|invalidated: bool, text: Seq<char>|
            from_tag@ == seq![FAILED] + #[trigger] failure_bytes(invalidated, text) ==> viewed(
                result,
            ) == Ok::<PublishedView, Seq<CauseView>>(
                PublishedView::Failed { invalidated, message: text },
            ),
{
    proof {
        assert forall|invalidated: bool, text: Seq<char>|
            from_tag@ == seq![FAILED] + #[trigger] failure_bytes(
                invalidated,
                text,
            ) implies from_tag@.skip(2) == encode_utf8(text) && valid_utf8(from_tag@.skip(2))
            && decode_utf8(from_tag@.skip(2)) == text && from_tag@[0] == FAILED && from_tag@.len()
            >= 2 && (from_tag@[1] == 1 <==> invalidated) by {
            assert(from_tag@.skip(2) =~= encode_utf8(text));
            encode_utf8_valid_utf8(text);
            encode_utf8_decode_utf8(text);
        }
    }
    if from_tag.len() == 0 {
        return Ok(Published::Unfinished);
    }
    let tag = from_tag[0];
    if tag == COMPLETED {
        if from_tag.len() == 1 {
            return Err(Error::new("missing shared saving status"));
        }
        let saving = match Saving::decode(from_tag[1]) {
            Ok(saving) => saving,
            Err(error) => {
                return Err(error);
            },
        };
        let encoded = from_tag.split_at(2).1;
        assert(encoded@ =~= from_tag@.skip(2));
        match record::decode(encoded) {
            Ok(record) => Ok(Published::Completed { saving, record }),
            Err(error) => Err(Error::new(error.text())),
        }
    } else if tag == FAILED {
        if from_tag.len() == 1 {
            return Err(Error::new("missing shared failure status"));
        }
        let text = from_tag.split_at(2).1;
        assert(text@ =~= from_tag@.skip(2));
        Ok(Published::Failed { invalidated: from_tag[1] == 1, message: lossy_text(text) })
    } else {
        Ok(Published::Unfinished)
    }
}

/// The bytes after the tag of a completed execution.
pub open spec fn completed_bytes(saving: Saving, record: RecordView) -> Seq<u8> {
    seq![saving.byte()] + encoded(record)
}

/// The bytes after the tag of a failed execution.
pub open spec fn failure_bytes(invalidated: bool, message: Seq<char>) -> Seq<u8> {
    seq![if invalidated { 1u8 } else { 0u8 }] + encode_utf8(message)
}

/// The bytes from [`DETAIL_OFFSET`] that describe a completed execution.
pub fn completed_detail(saving: Saving, record: &Record) -> (result: Result<Vec<u8>, RecordError>)
    requires
        record@.storable(),
    ensures
        match result {
            Ok(bytes) => {
                &&& record@.completed >= 0
                &&& bytes@ == completed_bytes(saving, record@)
            },
            Err(error) => {
                &&& record@.completed < 0
                &&& error == RecordError::BeforeEpoch
            },
        },
{
    let mut bytes: Vec<u8> = Vec::new();
    bytes.push(saving.code());
    match record::encode_into(&mut bytes, record) {
        Ok(()) => {
            assert(bytes@ =~= completed_bytes(saving, record@));
            Ok(bytes)
        },
        Err(error) => Err(error),
    }
}

/// The bytes from [`DETAIL_OFFSET`] that describe a failed execution.
pub fn failure_detail(invalidated: bool, message: &str) -> (bytes: Vec<u8>)
    ensures
        bytes@ == failure_bytes(invalidated, message@),
{
    let mut bytes: Vec<u8> = Vec::new();
    bytes.push(if invalidated { 1 } else { 0 });
    push_all(&mut bytes, message.as_bytes());
    assert(bytes@ =~= failure_bytes(invalidated, message@));
    bytes
}

/// A committed result is read back by every waiter as its owner published it.
pub proof fn a_completed_result_is_read_back(saving: Saving, record: RecordView)
    requires
        0 <= record.completed && representable(record.completed),
        0 <= record.code <= 255,
        record.stdout.len() <= usize::MAX,
        record.stderr.len() <= usize::MAX,
    ensures
        parsed(seq![COMPLETED] + completed_bytes(saving, record)) == Ok::<
            PublishedView,
            Seq<CauseView>,
        >(PublishedView::Completed { saving, record }),
{
    let from_tag = seq![COMPLETED] + completed_bytes(saving, record);
    record::a_stored_result_is_read_back(record);
    assert(from_tag.skip(2) =~= encoded(record));
}

/// What follows the tag of an execution that has not committed is never read,
/// so a staged detail stays invisible until its tag is written.
pub proof fn a_staged_detail_is_invisible(detail: Seq<u8>)
    ensures
        parsed(seq![PENDING] + detail) == Ok::<PublishedView, Seq<CauseView>>(
            PublishedView::Unfinished,
        ),
{
}

/// The file of a new execution publishes nothing and holds nobody's vote.
pub proof fn a_new_execution_is_unfinished(bytes: Seq<u8>)
    requires
        bytes == Seq::new(CODES as nat, |i: int| 0u8).push(PENDING),
    ensures
        bytes.len() == DETAIL_OFFSET,
        bytes.take(TAG_OFFSET as int) == merged(Seq::empty()),
        parsed(bytes.skip(TAG_OFFSET as int)) == Ok::<PublishedView, Seq<CauseView>>(
            PublishedView::Unfinished,
        ),
{
    assert(bytes.take(TAG_OFFSET as int) =~= merged(Seq::empty()));
}

/// A new execution's file holds no vote for any exit code and the tag of an
/// execution that has published nothing.
pub proof fn a_new_file_holds_no_vote_and_no_result(bytes: Vec<u8>)
    requires
        call_ensures(pending, (), bytes),
    ensures
        bytes@.len() == 257,
        forall|i: int| 0 <= i < 256 ==> bytes@[i] == 0,
        bytes@[256] == 2,
{
}

/// What an owner writes behind the tag of a completed execution is read by its
/// waiters, once the tag is there, as exactly that: the saving status and the
/// result, for every exit code from 0 to 255.
pub proof fn a_completed_execution_is_shared_as_it_is(
    saving: Saving,
    record: &Record,
    detail: Result<Vec<u8>, RecordError>,
    from_tag: &[u8],
    read: Result<Published, Error>,
)
    requires
        record@.storable(),
        0 <= record.code <= 255,
        representable(record.completed@),
        record.stdout@.len() <= usize::MAX,
        record.stderr@.len() <= usize::MAX,
        call_ensures(completed_detail, (saving, record), detail),
        detail is Ok ==> from_tag@ == seq![3u8] + detail->Ok_0@,
        call_ensures(parse, (from_tag,), read),
    ensures
        detail is Ok <==> record.completed@ >= 0,
        detail is Ok ==> {
            &&& read matches Ok(Published::Completed { saving: kept, record: shared })
            &&& kept == saving
            &&& shared.code == record.code
            &&& shared.completed@ == record.completed@
            &&& shared.stdout@ == record.stdout@
            &&& shared.stderr@ == record.stderr@
        },
{
    if detail is Ok {
        a_completed_result_is_read_back(saving, record@);
    }
}

/// What an owner writes behind the tag of a failed execution is read by its
/// waiters as exactly that: the whole message, and whether the saved result is
/// gone.
pub proof fn a_failed_execution_is_shared_as_it_is(
    invalidated: bool,
    message: &str,
    detail: Vec<u8>,
    from_tag: &[u8],
    read: Result<Published, Error>,
)
    requires
        call_ensures(failure_detail, (invalidated, message), detail),
        from_tag@ == seq![4u8] + detail@,
        call_ensures(parse, (from_tag,), read),
    ensures
        read matches Ok(Published::Failed { invalidated: gone, message: text }) && gone
            == invalidated && text@ == message@,
        detail@ == seq![if invalidated { 1u8 } else { 0u8 }] + encode_utf8(message@),
{
}

/// Nothing is read of an execution without the tag of a completed or a failed
/// one, whatever else its file holds; and a result is read only from the tag of
/// a completed execution, a saving status and the stored form of that result.
pub proof fn only_a_tagged_file_publishes(from_tag: &[u8], read: Result<Published, Error>)
    requires
        call_ensures(parse, (from_tag,), read),
    ensures
        (read matches Ok(Published::Unfinished)) <==> from_tag@.len() == 0 || (from_tag@[0] != 3
            && from_tag@[0] != 4),
        read matches Ok(Published::Completed { saving, record }) ==> {
            &&& from_tag@.len() >= 2 && from_tag@[0] == 3
            &&& from_tag@[1] == 1 <==> saving == Saving::Saved
            &&& from_tag@[1] == 2 <==> saving == Saving::Excluded
            &&& from_tag@[1] == 3 <==> saving == Saving::Interrupted
            &&& from_tag@.skip(2) == encoded(record@)
        },
        read matches Ok(Published::Failed { invalidated, message }) ==> {
            &&& from_tag@.len() >= 2 && from_tag@[0] == 4
            &&& invalidated <==> from_tag@[1] == 1
        },
        from_tag@.len() >= 2 && from_tag@[0] == 4 ==> (read matches Ok(Published::Failed { .. })),
        from_tag@.len() == 1 && (from_tag@[0] == 3 || from_tag@[0] == 4) ==> read is Err,
        from_tag@.len() >= 2 && from_tag@[0] == 3 && !(1 <= from_tag@[1] <= 3) ==> read is Err,
{
    if let Ok(Published::Completed { saving, record }) = read {
        record::only_the_stored_form_is_read(from_tag@.skip(2));
    }
}

} // verus!
