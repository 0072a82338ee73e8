//! What a handler answers with, and the redirect targets that answers name.

use vstd::prelude::*;

verus! {

/// Why a storage collaborator could not answer.
#[derive(Clone, Copy, Debug, PartialEq, Eq)]
pub enum StorageError {
    /// The query or the connection failed.
    QueryFailed,
    /// A count query answered without a row.
    NoCountRow,
    /// The count row held no value that is a count.
    UnreadableCount,
    /// The record that a mutation names does not exist.
    NotFound,
}

/// Answer of a handler that shows no listing.
#[derive(Clone, Debug, PartialEq, Eq)]
pub enum Reply {
    /// Send the client to this location; no body is rendered.
    Redirect(String),
    /// Render the template of this name.
    Render(String),
    /// Answer with a generic server error.
    ServerError(StorageError),
}

/// What a `Reply` stands for.
pub enum ReplyView {
    Redirect(Seq<char>),
    Render(Seq<char>),
    ServerError(StorageError),
}

impl View for Reply {
    type V = ReplyView;

    open spec fn view(&self) -> ReplyView {
        match *self {
            Reply::Redirect(location) => ReplyView::Redirect(location@),
            Reply::Render(template) => ReplyView::Render(template@),
            Reply::ServerError(error) => ReplyView::ServerError(error),
        }
    }
}

/// Location of the public landing page.
pub open spec fn landing_location() -> Seq<char> {
    "/"@
}

/// Location of the login page.
pub open spec fn login_location() -> Seq<char> {
    "/login"@
}

/// Location of page 1 of a resource, within a filter where one is given:
/// `/{resource}/page/1` or `/{resource}/{filter}/page/1`.
pub open spec fn canonical_location(resource: Seq<char>, filter: Option<Seq<char>>) -> Seq<char> {
    match filter {
        Some(key) => "/"@ + resource + "/"@ + key + "/page/1"@,
        None => "/"@ + resource + "/page/1"@,
    }
}

/// The text of an optional filter key.
pub open spec fn filter_text(filter: Option<String>) -> Option<Seq<char>> {
    match filter {
        Some(key) => Some(key@),
        None => None,
    }
}

/// The landing page's location, `/`.
pub fn landing_page() -> (location: String)
    ensures
        location@ == landing_location(),
{
    "/".to_owned()
}

/// The login page's location, `/login`.
pub fn login_page() -> (location: String)
    ensures
        location@ == login_location(),
{
    "/login".to_owned()
}

/// The canonical redirect target: page 1 of `resource`, within `filter`
/// where one is given.
pub fn canonical_target(resource: &str, filter: &Option<String>) -> (location: String)
    ensures
        location@ == canonical_location(resource@, filter_text(*filter)),
{
    let mut location: String = "/".to_owned();
    location.append(resource);
    match filter {
        Some(key) => {
            location.append("/");
            location.append(key.as_str());
        },
        None => {},
    }
    location.append("/page/1");
    location
}

} // verus!
