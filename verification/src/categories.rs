//! The administrative endpoints for categories: what each one decides
//! before and after the storage calls that its caller performs.

use crate::gate::{access_of, authorize, Access};
use crate::listing::{open_listing, ListingRoute, Opening, PageRequest, PageSize};
use crate::mutation::{
    answer, answer_of, respond, examine, stored, stored_outcome, MutationOutcomeView,
    ValidationReport,
};
use crate::notices::NoticeQueue;
use crate::reply::{landing_location, landing_page, Reply, ReplyView, StorageError};
use vstd::prelude::*;

verus! {

/// The resource of the category listing.
pub open spec fn categories_resource() -> Seq<char> {
    "admin/categories"@
}

/// The template of the category listing.
pub open spec fn categories_template() -> Seq<char> {
    "admin_category_table"@
}

/// The template of the form for a new category.
pub open spec fn new_category_template() -> Seq<char> {
    "new_category"@
}

/// The template of the form that edits a category.
pub open spec fn edit_category_template() -> Seq<char> {
    "update_category"@
}

/// What the session gate lets a request for a page of `template` do:
/// render it with a session, go to the landing page without one.
pub open spec fn gated_page(session_present: bool, template: Seq<char>) -> ReplyView {
    match access_of(session_present) {
        Access::Authorized => ReplyView::Render(template),
        Access::Unauthorized => ReplyView::Redirect(landing_location()),
    }
}

/// What a mutation does after its input was examined.
#[derive(Clone, Debug, PartialEq, Eq)]
pub enum MutationStep {
    /// The input is accepted: write the record, then report the result.
    Write,
    /// The input is rejected: answer with this reply and write nothing.
    Answer(Reply),
}

/// The step that follows the examination of `report`.
pub open spec fn step_of(report: ValidationReport) -> Option<ReplyView> {
    if report.rejects() {
        Some(
            answer_of(
                MutationOutcomeView::ValidationFailed(report.summary@),
                categories_resource(),
            ),
        )
    } else {
        None
    }
}

/// The notices that wait after the examination of `report`.
pub open spec fn pending_after_examination(
    report: ValidationReport,
    pending: Seq<Seq<char>>,
) -> Seq<Seq<char>> {
    if report.rejects() {
        pending.push(report.summary@)
    } else {
        pending
    }
}

impl MutationStep {
    /// The reply that the step answers with, if it answers.
    pub open spec fn answer(&self) -> Option<ReplyView> {
        match *self {
            MutationStep::Write => None,
            MutationStep::Answer(reply) => Some(reply@),
        }
    }
}

/// Reads the total out of the rows that a count query returned: the value of
/// the first row. No row, a first row without a readable value, and a
/// negative value are storage errors.
pub fn get_pagination_for_all_categories_list(rows: &Vec<Option<i64>>) -> (total: Result<
    u64,
    StorageError,
>)
    ensures
        rows@.len() == 0 ==> total == Err::<u64, StorageError>(StorageError::NoCountRow),
        rows@.len() > 0 ==> total == (match rows@[0] {
            Some(count) => if count >= 0 {
                Ok(count as u64)
            } else {
                Err(StorageError::UnreadableCount)
            },
            None => Err(StorageError::UnreadableCount),
        }),
{
    if rows.len() == 0 {
        return Err(StorageError::NoCountRow);
    }
    match rows[0] {
        Some(count) => {
            if count >= 0 {
                Ok(count as u64)
            } else {
                Err(StorageError::UnreadableCount)
            }
        },
        None => Err(StorageError::UnreadableCount),
    }
}

/// Opens the listing of all categories at `page`. Without a session the
/// request is sent to the landing page and no query is made.
pub fn get_all_categories<S>(user: &Option<S>, page: i32, page_size: PageSize) -> (opening:
    Opening)
    ensures
        user is None ==> (opening matches Opening::Denied(location) && location@
            == landing_location()),
        user is Some ==> (opening matches Opening::Admitted(start) && start.request()
            == (PageRequest { requested_page: page, page_size, filter: None })
            && start.route().resource@ == categories_resource() && start.route().template@
            == categories_template()),
{
    let access = authorize(user);
    let request = PageRequest { requested_page: page, page_size, filter: None };
    let route = ListingRoute {
        resource: "admin/categories".to_owned(),
        template: "admin_category_table".to_owned(),
    };
    open_listing(request, route, access)
}

/// Shows the form for a new category to a request with a session.
pub fn new_category<S>(user: &Option<S>) -> (reply: Reply)
    ensures
        reply@ == gated_page(user is Some, new_category_template()),
{
    match authorize(user) {
        Access::Authorized => Reply::Render("new_category".to_owned()),
        Access::Unauthorized => Reply::Redirect(landing_page()),
    }
}

/// Shows the form that edits a category to a request with a session.
pub fn edit_category<S>(user: &Option<S>) -> (reply: Reply)
    ensures
        reply@ == gated_page(user is Some, edit_category_template()),
{
    match authorize(user) {
        Access::Authorized => Reply::Render("update_category".to_owned()),
        Access::Unauthorized => Reply::Redirect(landing_page()),
    }
}

/// Examines the input of a new category. Rejected input leaves its summary
/// as a notice and is answered with a redirect to the first page of the
/// listing; accepted input is to be written.
pub fn create_category(report: ValidationReport, notices: &mut NoticeQueue) -> (step: MutationStep)
    ensures
        step.answer() == step_of(report),
        final(notices)@ == pending_after_examination(report, old(notices)@),
{
    match examine(report) {
        Some(outcome) => MutationStep::Answer(respond(outcome, "admin/categories", notices)),
        None => MutationStep::Write,
    }
}

/// Examines the input of a change to a category, as `create_category` does
/// for a new one.
pub fn update_category(report: ValidationReport, notices: &mut NoticeQueue) -> (step: MutationStep)
    ensures
        step.answer() == step_of(report),
        final(notices)@ == pending_after_examination(report, old(notices)@),
{
    match examine(report) {
        Some(outcome) => MutationStep::Answer(respond(outcome, "admin/categories", notices)),
        None => MutationStep::Write,
    }
}

/// Answers a create or an update once storage wrote the record or failed:
/// a written record leads to the first page of the listing, a missing record
/// and any other failure are a server error. No notice is touched.
pub fn category_written(result: Result<(), StorageError>, notices: &mut NoticeQueue) -> (reply:
    Reply)
    ensures
        reply@ == answer_of(stored_outcome(result), categories_resource()),
        final(notices)@ == old(notices)@,
{
    respond(stored(result), "admin/categories", notices)
}

/// Answers a delete once storage removed the record or failed: a removed
/// record leads to the first page of the listing, a missing record and any
/// other failure are a server error.
pub fn destroy_category(result: Result<(), StorageError>) -> (reply: Reply)
    ensures
        reply@ == answer_of(stored_outcome(result), categories_resource()),
{
    answer(&stored(result), "admin/categories")
}

} // verus!
