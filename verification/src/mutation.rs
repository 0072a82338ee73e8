//! Create, update and delete: input is examined, a rejected input leaves a
//! notice, and every outcome has its answer.

use crate::listing::{outcome_of, pending_after, ListingRoute, OutcomeView};
use crate::notices::NoticeQueue;
use crate::paginator::PageIndexView;
use crate::reply::{canonical_location, canonical_target, Reply, ReplyView, StorageError};
use vstd::prelude::*;

verus! {

/// What validation found in the input of a mutation.
#[derive(Clone, Debug, PartialEq, Eq)]
pub struct ValidationReport {
    /// One entry for each field that failed.
    pub field_errors: Vec<String>,
    /// The failures in words, for the user.
    pub summary: String,
}

impl ValidationReport {
    /// Whether the input is rejected: some field failed.
    pub open spec fn rejects(&self) -> bool {
        self.field_errors@.len() > 0
    }
}

/// How a mutation ended.
#[derive(Clone, Debug, PartialEq, Eq)]
pub enum MutationOutcome {
    /// The record was written.
    Done,
    /// The input was rejected; nothing was written. It carries the notice.
    ValidationFailed(String),
    /// The record to change does not exist.
    NotFound,
    /// Storage failed otherwise.
    Failed(StorageError),
}

/// What a `MutationOutcome` stands for.
pub enum MutationOutcomeView {
    Done,
    ValidationFailed(Seq<char>),
    NotFound,
    Failed(StorageError),
}

impl View for MutationOutcome {
    type V = MutationOutcomeView;

    open spec fn view(&self) -> MutationOutcomeView {
        match *self {
            MutationOutcome::Done => MutationOutcomeView::Done,
            MutationOutcome::ValidationFailed(notice) => MutationOutcomeView::ValidationFailed(
                notice@,
            ),
            MutationOutcome::NotFound => MutationOutcomeView::NotFound,
            MutationOutcome::Failed(error) => MutationOutcomeView::Failed(error),
        }
    }
}

/// How a storage answer ends a mutation.
pub open spec fn stored_outcome(stored: Result<(), StorageError>) -> MutationOutcomeView {
    match stored {
        Ok(_) => MutationOutcomeView::Done,
        Err(StorageError::NotFound) => MutationOutcomeView::NotFound,
        Err(error) => MutationOutcomeView::Failed(error),
    }
}

/// The answer to an outcome: success and rejected input both lead to the
/// canonical first page of `resource`; a missing record and any other
/// storage failure are a server error.
pub open spec fn answer_of(outcome: MutationOutcomeView, resource: Seq<char>) -> ReplyView {
    match outcome {
        MutationOutcomeView::Done => ReplyView::Redirect(canonical_location(resource, None)),
        MutationOutcomeView::ValidationFailed(_) => ReplyView::Redirect(
            canonical_location(resource, None),
        ),
        MutationOutcomeView::NotFound => ReplyView::ServerError(StorageError::NotFound),
        MutationOutcomeView::Failed(error) => ReplyView::ServerError(error),
    }
}

/// The notices that wait after an outcome: a rejected input adds its notice
/// behind those that waited; nothing else touches them.
pub open spec fn pending_after_mutation(
    outcome: MutationOutcomeView,
    pending: Seq<Seq<char>>,
) -> Seq<Seq<char>> {
    match outcome {
        MutationOutcomeView::ValidationFailed(notice) => pending.push(notice),
        _ => pending,
    }
}

/// Examines the input of a mutation before anything is written. A rejected
/// input ends the mutation with its summary as the notice; an accepted one
/// gives nothing, and the record is to be written.
pub fn examine(report: ValidationReport) -> (rejection: Option<MutationOutcome>)
    ensures
        report.rejects() ==> (rejection matches Some(outcome) && outcome@
            == MutationOutcomeView::ValidationFailed(report.summary@)),
        !report.rejects() ==> rejection is None,
{
    if report.field_errors.len() > 0 {
        Some(MutationOutcome::ValidationFailed(report.summary))
    } else {
        None
    }
}

/// Turns the answer of the storage write into the mutation's outcome.
pub fn stored(result: Result<(), StorageError>) -> (outcome: MutationOutcome)
    ensures
        outcome@ == stored_outcome(result),
{
    match result {
        Ok(_) => MutationOutcome::Done,
        Err(StorageError::NotFound) => MutationOutcome::NotFound,
        Err(error) => MutationOutcome::Failed(error),
    }
}

/// Answers a finished mutation on `resource`.
pub fn answer(outcome: &MutationOutcome, resource: &str) -> (reply: Reply)
    ensures
        reply@ == answer_of(outcome@, resource@),
{
    match outcome {
        MutationOutcome::Done => Reply::Redirect(canonical_target(resource, &None)),
        MutationOutcome::ValidationFailed(_) => Reply::Redirect(canonical_target(resource, &None)),
        MutationOutcome::NotFound => Reply::ServerError(StorageError::NotFound),
        MutationOutcome::Failed(error) => Reply::ServerError(*error),
    }
}

/// Answers a finished mutation on `resource`, and leaves the notice of a
/// rejected input in `notices` for the next listing.
pub fn respond(outcome: MutationOutcome, resource: &str, notices: &mut NoticeQueue) -> (reply:
    Reply)
    ensures
        reply@ == answer_of(outcome@, resource@),
        final(notices)@ == pending_after_mutation(outcome@, old(notices)@),
{
    let reply = answer(&outcome, resource);
    match outcome {
        MutationOutcome::ValidationFailed(notice) => {
            notices.attach(notice);
        },
        _ => {},
    }
    reply
}

/// A notice that a rejected mutation leaves is shown by exactly the next
/// render: that render shows it behind the notices that waited before, and
/// the render after it shows no notice at all. A request that fails before
/// it renders takes nothing from the queue.
pub proof fn lemma_notice_shown_once<T>(
    pending: Seq<Seq<char>>,
    notice: Seq<char>,
    route: ListingRoute,
    first_index: PageIndexView,
    first_items: Seq<T>,
    second_index: PageIndexView,
    second_items: Seq<T>,
    error: StorageError,
)
    ensures
        ({
            let waiting = pending_after_mutation(
                MutationOutcomeView::ValidationFailed(notice),
                pending,
            );
            let first = outcome_of(route, first_index, Ok(first_items), waiting);
            let left = pending_after(Ok(first_items), waiting);
            let second = outcome_of(route, second_index, Ok(second_items), left);
            &&& first matches OutcomeView::Ready { listing: first_listing, .. }
            &&& second matches OutcomeView::Ready { listing: second_listing, .. }
            &&& first_listing.notices == pending.push(notice)
            &&& first_listing.notices.contains(notice)
            &&& !second_listing.notices.contains(notice)
            &&& second_listing.notices.len() == 0
            &&& pending_after(Err::<Seq<T>, StorageError>(error), waiting) == waiting
        }),
{
    let waiting = pending.push(notice);
    assert(waiting[pending.len() as int] == notice);
}

} // verus!
