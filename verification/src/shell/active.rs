//! How an owner changes its execution's file, step by step.

use crate::domain::shared::{COMPLETED, DETAIL_OFFSET, FAILED, TAG_OFFSET};
use crate::error::{in_context, CauseView, Error, IoError};
use vstd::prelude::*;

verus! {

/// A change to a file. `B` are bytes.
#[derive(Debug)]
pub enum Change<B> {
    /// Cut the file off at this length, or fill it up with zeros.
    SetLen(u64),
    /// Write all of `bytes` at `offset`.
    Write { offset: u64, bytes: B },
}

/// A change, and the context of its failure.
#[derive(Debug)]
pub struct Step {
    pub change: Change<Vec<u8>>,
    pub context: Option<&'static str>,
}

impl View for Change<Vec<u8>> {
    type V = Change<Seq<u8>>;

    open spec fn view(&self) -> Change<Seq<u8>> {
        match self {
            Change::SetLen(len) => Change::SetLen(*len),
            Change::Write { offset, bytes } => Change::Write { offset: *offset, bytes: bytes@ },
        }
    }
}

/// The file after a change.
pub open spec fn changed(file: Seq<u8>, change: Change<Seq<u8>>) -> Seq<u8> {
    match change {
        Change::SetLen(len) => Seq::new(
            len as nat,
            |i: int|
                if i < file.len() {
                    file[i]
                } else {
                    0u8
                },
        ),
        Change::Write { offset, bytes } => {
            let end = offset + bytes.len();
            Seq::new(
                if end > file.len() {
                    end as nat
                } else {
                    file.len()
                },
                |i: int|
                    if offset <= i < end {
                        bytes[i - offset]
                    } else if i < file.len() {
                        file[i]
                    } else {
                        0u8
                    },
            )
        },
    }
}

/// The file after several changes.
pub open spec fn changed_by(file: Seq<u8>, changes: Seq<Change<Seq<u8>>>) -> Seq<u8>
    decreases changes.len(),
{
    if changes.len() == 0 {
        file
    } else {
        changed(changed_by(file, changes.drop_last()), changes.last())
    }
}

/// The part of a change that may have happened when it fails: any part of what
/// it writes.
pub open spec fn is_part_of(part: Change<Seq<u8>>, change: Change<Seq<u8>>) -> bool {
    match (part, change) {
        (Change::SetLen(a), Change::SetLen(b)) => a == b,
        (
            Change::Write { offset: a, bytes: part },
            Change::Write { offset: b, bytes },
        ) => a == b && part.len() <= bytes.len() && part == bytes.take(part.len() as int),
        _ => false,
    }
}

/// Whether `broken` is what a file may hold after one of `changes` failed:
/// those before it have happened, it has happened in part or not at all, and
/// those after it have not.
pub open spec fn broke_off(file: Seq<u8>, changes: Seq<Change<Seq<u8>>>, broken: Seq<u8>) -> bool {
    exists|done: int|
        0 <= done < changes.len() && #[trigger] broke_off_at(file, changes, done, broken)
}

pub open spec fn broke_off_at(
    file: Seq<u8>,
    changes: Seq<Change<Seq<u8>>>,
    done: int,
    broken: Seq<u8>,
) -> bool {
    let before = changed_by(file, changes.take(done));
    ||| broken == before
    ||| exists|part: Change<Seq<u8>>| #[trigger]
        is_part_of(part, changes[done]) && broken == changed(before, part)
}

/// The views of the changes that `steps` make.
pub open spec fn changes(steps: Seq<Step>) -> Seq<Change<Seq<u8>>> {
    Seq::new(steps.len(), |i: int| steps[i].change@)
}

/// Replacing everything behind the tag.
pub open spec fn staging(detail: Seq<u8>) -> Seq<Change<Seq<u8>>> {
    seq![Change::SetLen(DETAIL_OFFSET), Change::Write { offset: DETAIL_OFFSET, bytes: detail }]
}

/// Writing the tag.
pub open spec fn tagging(tag: u8) -> Change<Seq<u8>> {
    Change::Write { offset: TAG_OFFSET, bytes: seq![tag] }
}

fn tag_with(tag: u8, context: Option<&'static str>) -> (step: Step)
    ensures
        step.change@ == tagging(tag),
        step.context == context,
{
    let mut bytes: Vec<u8> = Vec::new();
    bytes.push(tag);
    let step = Step { change: Change::Write { offset: TAG_OFFSET, bytes }, context };
    assert(bytes@ =~= seq![tag]);
    step
}

/// The steps that put `detail` behind the tag, where waiters do not look yet.
pub fn stage(detail: Vec<u8>) -> (steps: Vec<Step>)
    ensures
        changes(steps@) == staging(detail@),
        steps@[0].context is None,
        steps@[1].context matches Some(context) && context@ == "write shared result"@,
{
    let mut steps: Vec<Step> = Vec::new();
    steps.push(Step { change: Change::SetLen(DETAIL_OFFSET), context: None });
    steps.push(
        Step {
            change: Change::Write { offset: DETAIL_OFFSET, bytes: detail },
            context: Some("write shared result"),
        },
    );
    assert(changes(steps@) =~= staging(detail@));
    steps
}

/// The step that publishes what is staged.
pub fn commit() -> (step: Step)
    ensures
        step.change@ == tagging(COMPLETED),
        step.context matches Some(context) && context@ == "commit shared result"@,
{
    tag_with(COMPLETED, Some("commit shared result"))
}

/// The steps that publish a failed execution to waiters. An error is useful
/// even if storage cannot be synchronized. If publishing fails, the tag stays
/// pending, never a successful result.
pub fn publish_failure(detail: Vec<u8>) -> (steps: Vec<Step>)
    ensures
        changes(steps@) == staging(detail@).push(tagging(FAILED)),
        forall|i: int| 0 <= i < steps@.len() ==> (#[trigger] steps@[i]).context is None,
{
    let mut steps: Vec<Step> = Vec::new();
    steps.push(Step { change: Change::SetLen(DETAIL_OFFSET), context: None });
    steps.push(
        Step {
            change: Change::Write { offset: DETAIL_OFFSET, bytes: detail },
            context: None,
        },
    );
    steps.push(tag_with(FAILED, None));
    assert(changes(steps@) =~= staging(detail@).push(tagging(FAILED)));
    steps
}

impl Step {
    /// What the failure of this step says.
    pub open spec fn fails_with(self, error: CauseView) -> Seq<CauseView> {
        match self.context {
            Some(context) => in_context(context@, seq![error]),
            None => seq![error],
        }
    }

    /// The failure of this step.
    pub fn failed(&self, error: IoError) -> (failure: Error)
        ensures
            failure@ == self.fails_with(error@),
    {
        match self.context {
            Some(context) => Error::from_io(error).context(context),
            None => Error::from_io(error),
        }
    }
}

/// After staging, the votes and the tag are what they were, and nothing but
/// the new detail follows them.
pub proof fn staging_replaces_the_detail(file: Seq<u8>, detail: Seq<u8>)
    requires
        file.len() >= DETAIL_OFFSET,
    ensures
        changed_by(file, staging(detail)) == file.take(DETAIL_OFFSET as int) + detail,
{
    reveal_with_fuel(changed_by, 3);
    let steps = staging(detail);
    assert(steps.drop_last() =~= seq![steps[0]]);
    assert(steps.drop_last().drop_last() =~= Seq::empty());
    assert(changed_by(file, steps) =~= file.take(DETAIL_OFFSET as int) + detail);
}

/// Committing after staging leaves a file whose votes are what they were and
/// in which waiters read exactly what was staged.
pub proof fn a_commit_publishes_what_was_staged(file: Seq<u8>, detail: Seq<u8>)
    requires
        file.len() >= DETAIL_OFFSET,
    ensures
        ({
            let published = changed(changed_by(file, staging(detail)), tagging(COMPLETED));
            &&& published.take(TAG_OFFSET as int) == file.take(TAG_OFFSET as int)
            &&& published.skip(TAG_OFFSET as int) == seq![COMPLETED] + detail
        }),
{
    staging_replaces_the_detail(file, detail);
    let published = changed(changed_by(file, staging(detail)), tagging(COMPLETED));
    assert(published.take(TAG_OFFSET as int) =~= file.take(TAG_OFFSET as int));
    assert(published.skip(TAG_OFFSET as int) =~= seq![COMPLETED] + detail);
}

/// A failure that was published is what waiters read.
pub proof fn a_published_failure_is_read(file: Seq<u8>, detail: Seq<u8>)
    requires
        file.len() >= DETAIL_OFFSET,
    ensures
        changed_by(file, staging(detail).push(tagging(FAILED))).skip(TAG_OFFSET as int) == seq![
            FAILED,
        ] + detail,
{
    staging_replaces_the_detail(file, detail);
    let steps = staging(detail).push(tagging(FAILED));
    assert(steps.drop_last() =~= staging(detail));
    assert(changed_by(file, steps).skip(TAG_OFFSET as int) =~= seq![FAILED] + detail);
}

/// Wherever staging, or the publication of a failure, breaks off, the votes
/// stay as they were, and the tag is either what it was or that of a failure:
/// a broken publication never looks like a result.
pub proof fn a_broken_publication_is_never_a_result(
    file: Seq<u8>,
    detail: Seq<u8>,
    broken: Seq<u8>,
)
    requires
        file.len() >= DETAIL_OFFSET,
        broke_off(file, staging(detail).push(tagging(FAILED)), broken),
    ensures
        broken.len() >= DETAIL_OFFSET,
        broken.take(TAG_OFFSET as int) == file.take(TAG_OFFSET as int),
        broken[TAG_OFFSET as int] == file[TAG_OFFSET as int] || broken[TAG_OFFSET as int] == FAILED,
{
    let steps = staging(detail).push(tagging(FAILED));
    let done = choose|done: int|
        0 <= done < steps.len() && #[trigger] broke_off_at(file, steps, done, broken);
    let before = changed_by(file, steps.take(done));
    reveal_with_fuel(changed_by, 3);
    assert(steps.take(0) =~= Seq::empty());
    assert(steps.take(1) =~= seq![steps[0]]);
    assert(steps.take(1).drop_last() =~= Seq::empty());
    assert(steps.take(2) =~= staging(detail));
    staging_replaces_the_detail(file, detail);
    assert(broken.take(TAG_OFFSET as int) =~= file.take(TAG_OFFSET as int));
}

/// Whatever an execution's file held behind its tag, staging leaves the votes
/// and the tag as they were, and behind them exactly the new detail.
pub proof fn what_is_staged_stands_behind_the_tag(
    file: Seq<u8>,
    detail: Vec<u8>,
    steps: Vec<Step>,
)
    requires
        file.len() >= 257,
        call_ensures(stage, (detail,), steps),
    ensures
        changed_by(file, changes(steps@)).len() == 257 + detail@.len(),
        changed_by(file, changes(steps@)).take(257) == file.take(257),
        changed_by(file, changes(steps@)).skip(257) == detail@,
{
    staging_replaces_the_detail(file, detail@);
    assert((file.take(257) + detail@).take(257) =~= file.take(257));
    assert((file.take(257) + detail@).skip(257) =~= detail@);
}

/// A commit writes the tag of a completed execution, and changes nothing else.
pub proof fn a_commit_changes_only_the_tag(file: Seq<u8>, step: Step)
    requires
        file.len() >= 257,
        call_ensures(commit, (), step),
    ensures
        changed(file, step.change@) == file.update(256, 3u8),
        step.context is Some && step.context->0@ == "commit shared result"@,
{
    assert(changed(file, step.change@) =~= file.update(256, 3u8));
}

/// A published failure leaves the votes as they were, the tag of a failed
/// execution, and behind it exactly its detail.
pub proof fn a_failure_is_written_behind_its_own_tag(
    file: Seq<u8>,
    detail: Vec<u8>,
    steps: Vec<Step>,
)
    requires
        file.len() >= 257,
        call_ensures(publish_failure, (detail,), steps),
    ensures
        changed_by(file, changes(steps@)) == file.take(256) + seq![4u8] + detail@,
{
    staging_replaces_the_detail(file, detail@);
    assert(changes(steps@).drop_last() =~= staging(detail@));
    assert(changed_by(file, changes(steps@)) =~= file.take(256) + seq![4u8] + detail@);
}

/// The failure of a step is that of the system call, in the context of the step
/// if it has one.
pub proof fn a_failed_change_keeps_its_cause(step: &Step, error: IoError, failure: Error)
    requires
        call_ensures(Step::failed, (step, error), failure),
    ensures
        step.context matches Some(context) ==> failure@ == seq![
            CauseView::Message(context@),
            error@,
        ],
        step.context is None ==> failure@ == seq![error@],
{
    if step.context is Some {
        assert(failure@ =~= seq![CauseView::Message(step.context->0@), error@]);
    }
}

} // verus!
