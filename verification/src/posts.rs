//! The administrative endpoints for posts: the listing of one category's
//! posts and the page of a single post.

use crate::categories::categories_resource;
use crate::gate::authorize;
use crate::listing::{open_listing, ListingRoute, Opening, PageRequest, PageSize};
use crate::reply::landing_location;
use crate::routing::{number_of, parse_number};
use vstd::prelude::*;

verus! {

/// The template of the listing of one category's posts.
pub open spec fn category_posts_template() -> Seq<char> {
    "admin_separate_categories"@
}

/// The template of the page of a single post.
pub open spec fn single_post_template() -> Seq<char> {
    "admin_single_post"@
}

/// The page of one post: which post to fetch and how to render it.
#[derive(Clone, Debug, PartialEq, Eq)]
pub struct PostPage {
    /// Identifier of the post; 0 where the path named none.
    pub id: i32,
    /// Name of the template.
    pub template: String,
}

/// Opens the listing of the posts of `category` at `page`. Without a
/// session the request is sent to the landing page and no query is made.
pub fn get_category_posts_a<S>(
    user: &Option<S>,
    category: String,
    page: i32,
    page_size: PageSize,
) -> (opening: Opening)
    ensures
        user is None ==> (opening matches Opening::Denied(location) && location@
            == landing_location()),
        user is Some ==> (opening matches Opening::Admitted(start) && start.request()
            == (PageRequest { requested_page: page, page_size, filter: Some(category) })
            && start.route().resource@ == categories_resource() && start.route().template@
            == category_posts_template()),
{
    let access = authorize(user);
    let request = PageRequest { requested_page: page, page_size, filter: Some(category) };
    let route = ListingRoute {
        resource: "admin/categories".to_owned(),
        template: "admin_separate_categories".to_owned(),
    };
    open_listing(request, route, access)
}

/// Reads the post's identifier out of the path segment. A segment that
/// writes no number stands for post 0.
pub fn show_post(path: &str) -> (page: PostPage)
    ensures
        page.id == number_of(path@),
        page.template@ == single_post_template(),
{
    PostPage { id: parse_number(path), template: "admin_single_post".to_owned() }
}

} // verus!
