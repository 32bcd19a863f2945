//! The feeds of posts that the interface shows, and the request that each
//! of them reads its posts with.

use vstd::prelude::*;
use vstd::string::*;
use crate::endpoints::{Operation, RouterEndpoint};
use crate::enums::{ListingType, SortType};
use crate::instance::Instance;
use crate::json::JsonTree;
use crate::payload::Payload;
use crate::query::query_text;
use crate::records::{GetPersonDetails, GetPosts};
use crate::text::str_equal;
use crate::url::{api_url_builder, query_or_endpoint, url_text, ApiUrlConstructor};

verus! {

/// The number of posts on a page of a feed.
pub const FEED_PAGE_SIZE: i32 = 20;

/// Where a feed takes its posts from.
#[derive(Clone, Copy, Debug, PartialEq, Eq, Structural)]
pub enum FeedSource {
    /// The posts of the instance, by the listing that the reader chose.
    Home,
    /// The posts of one community.
    Community,
    /// The posts of one person.
    User,
}

/// The request that a feed reads its posts with.
#[derive(Clone, Debug, PartialEq)]
pub enum FeedRequest {
    Posts(GetPosts),
    Person(GetPersonDetails),
}

impl FeedSource {
    /// The name of the page that shows the feed.
    pub open spec fn route_text(self) -> Seq<char> {
        match self {
            FeedSource::Home => "home"@,
            FeedSource::Community => "community"@,
            FeedSource::User => "user"@,
        }
    }

    /// The feed of a page, if the page shows one.
    pub open spec fn parse(route: Seq<char>) -> Option<FeedSource> {
        if route == "home"@ {
            Some(FeedSource::Home)
        } else if route == "community"@ {
            Some(FeedSource::Community)
        } else if route == "user"@ {
            Some(FeedSource::User)
        } else {
            None
        }
    }

    /// The operation that the feed reads its posts with.
    pub open spec fn operation_of(self) -> Operation {
        match self {
            FeedSource::Home => Operation::GetPosts,
            FeedSource::Community => Operation::GetPosts,
            FeedSource::User => Operation::GetPersonDetails,
        }
    }

    /// The feed of a page. A page that shows no feed gives `None`.
    pub fn from_route(route: &str) -> (res: Option<FeedSource>)
        ensures
            res == Self::parse(route@),
    {
        if str_equal(route, RouterEndpoint::HOME) {
            Some(FeedSource::Home)
        } else if str_equal(route, RouterEndpoint::COMMUNITY) {
            Some(FeedSource::Community)
        } else if str_equal(route, RouterEndpoint::USER) {
            Some(FeedSource::User)
        } else {
            None
        }
    }

    /// The name of the page that shows the feed.
    pub fn route(&self) -> (res: &'static str)
        ensures
            res@ == self.route_text(),
    {
        match self {
            FeedSource::Home => RouterEndpoint::HOME,
            FeedSource::Community => RouterEndpoint::COMMUNITY,
            FeedSource::User => RouterEndpoint::USER,
        }
    }

    /// The operation that the feed reads its posts with.
    pub fn operation(&self) -> (res: Operation)
        ensures
            res == self.operation_of(),
    {
        match self {
            FeedSource::Home => Operation::GetPosts,
            FeedSource::Community => Operation::GetPosts,
            FeedSource::User => Operation::GetPersonDetails,
        }
    }

    /// The page of a feed is found again from its name.
    pub proof fn lemma_parse_route(source: FeedSource)
        ensures
            Self::parse(source.route_text()) == Some(source),
    {
        reveal_strlit("home");
        reveal_strlit("community");
        reveal_strlit("user");
        assert("home"@.len() == 4 && "home"@[0] == 'h');
        assert("community"@.len() == 9);
        assert("user"@.len() == 4 && "user"@[0] == 'u');
    }
}

/// The tree of the request of a feed: a page of `FEED_PAGE_SIZE` posts in
/// the order `sort`; for the home feed from the listing `listing`, for the
/// feed of a community from the community `name`, for the feed of a person
/// from the person `name`.
pub open spec fn feed_tree(
    source: FeedSource,
    page: i32,
    listing: ListingType,
    sort: SortType,
    name: Seq<char>,
) -> JsonTree {
    let limit = Some(JsonTree::Int(FEED_PAGE_SIZE as int));
    let page = Some(JsonTree::Int(page as int));
    let sort = Some(sort.tree());
    let name = Some(JsonTree::Str(name));
    match source {
        FeedSource::Home => JsonTree::Object(
            GetPosts::members(
                None,
                None,
                None,
                limit,
                page,
                None,
                None,
                sort,
                Some(listing.tree()),
            ),
        ),
        FeedSource::Community => JsonTree::Object(
            GetPosts::members(None, None, name, limit, page, None, None, sort, None),
        ),
        FeedSource::User => JsonTree::Object(
            GetPersonDetails::members(None, None, limit, page, None, None, sort, name),
        ),
    }
}

/// The request of a feed. `name` is the community of the feed of a
/// community and the person of the feed of a person; the home feed does not
/// read it, and only the home feed reads `listing`.
pub fn feed_request(
    source: FeedSource,
    page: i32,
    listing: ListingType,
    sort: SortType,
    name: &str,
) -> (res: FeedRequest)
    ensures
        match res {
            FeedRequest::Posts(form) => source != FeedSource::User && form.tree() == feed_tree(
                source,
                page,
                listing,
                sort,
                name@,
            ),
            FeedRequest::Person(form) => source == FeedSource::User && form.tree() == feed_tree(
                source,
                page,
                listing,
                sort,
                name@,
            ),
        },
{
    match source {
        FeedSource::Home => FeedRequest::Posts(
            GetPosts {
                auth: None,
                community_id: None,
                community_name: None,
                limit: Some(FEED_PAGE_SIZE),
                page: Some(page),
                post_id: None,
                saved_only: None,
                sort: Some(sort),
                type_: Some(listing),
            },
        ),
        FeedSource::Community => FeedRequest::Posts(
            GetPosts {
                auth: None,
                community_id: None,
                community_name: Some(name.to_owned()),
                limit: Some(FEED_PAGE_SIZE),
                page: Some(page),
                post_id: None,
                saved_only: None,
                sort: Some(sort),
                type_: None,
            },
        ),
        FeedSource::User => FeedRequest::Person(
            GetPersonDetails {
                auth: None,
                community_id: None,
                limit: Some(FEED_PAGE_SIZE),
                page: Some(page),
                person_id: None,
                saved_only: None,
                sort: Some(sort),
                username: Some(name.to_owned()),
            },
        ),
    }
}

/// The URL that a feed reads its posts from.
pub fn feed_url(
    instance: &Instance,
    source: FeedSource,
    page: i32,
    listing: ListingType,
    sort: SortType,
    name: &str,
) -> (out: String)
    ensures
        out@ == url_text(
            instance.url@,
            instance.api_version@,
            source.operation_of().path_text(),
            query_or_endpoint(
                query_text(feed_tree(source, page, listing, sort, name@)),
                source.operation_of().path_text(),
            ),
        ),
{
    let constructor = ApiUrlConstructor::for_operation(source.operation());
    match feed_request(source, page, listing, sort, name) {
        FeedRequest::Posts(form) => api_url_builder(instance, &constructor, &form),
        FeedRequest::Person(form) => api_url_builder(instance, &constructor, &form),
    }
}

} // verus!
