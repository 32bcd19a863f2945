use lemmy_api::endpoints::{HttpVerb, Operation};
use lemmy_api::enums::{ListingType, SortType};
use lemmy_api::feed::{feed_request, feed_url, FeedRequest, FeedSource, FEED_PAGE_SIZE};
use lemmy_api::instance::Instance;
use lemmy_api::records::{GetPersonDetails, GetPosts};
use lemmy_api::url::ApiUrlConstructor;

fn s(text: &str) -> String {
    text.to_string()
}

fn instance() -> Instance {
    Instance { url: s("https://example.test"), api_version: s("v3"), ..Instance::default() }
}

#[test]
fn every_feed_is_found_from_its_page() {
    for source in [FeedSource::Home, FeedSource::Community, FeedSource::User] {
        assert_eq!(FeedSource::from_route(source.route()), Some(source));
    }
    assert_eq!(FeedSource::from_route("home"), Some(FeedSource::Home));
    assert_eq!(FeedSource::from_route("community"), Some(FeedSource::Community));
    assert_eq!(FeedSource::from_route("user"), Some(FeedSource::User));
}

#[test]
fn a_page_without_a_feed_has_none() {
    assert_eq!(FeedSource::from_route("settings"), None);
    assert_eq!(FeedSource::from_route(""), None);
    assert_eq!(FeedSource::from_route("Home"), None);
    assert_eq!(FeedSource::from_route("users"), None);
}

#[test]
fn a_feed_reads_from_its_operation() {
    assert_eq!(FeedSource::Home.operation(), Operation::GetPosts);
    assert_eq!(FeedSource::Community.operation(), Operation::GetPosts);
    assert_eq!(FeedSource::User.operation(), Operation::GetPersonDetails);
}

#[test]
fn the_home_feed_asks_by_listing() {
    assert_eq!(FEED_PAGE_SIZE, 20);
    assert_eq!(
        feed_request(FeedSource::Home, 3, ListingType::Local, SortType::Hot, "ignored"),
        FeedRequest::Posts(GetPosts {
            limit: Some(20),
            page: Some(3),
            sort: Some(SortType::Hot),
            type_: Some(ListingType::Local),
            ..GetPosts::default()
        })
    );
}

#[test]
fn the_feed_of_a_community_asks_by_its_name() {
    assert_eq!(
        feed_request(FeedSource::Community, 1, ListingType::All, SortType::Active, "main"),
        FeedRequest::Posts(GetPosts {
            community_name: Some(s("main")),
            limit: Some(20),
            page: Some(1),
            sort: Some(SortType::Active),
            type_: None,
            ..GetPosts::default()
        })
    );
}

#[test]
fn the_feed_of_a_person_asks_by_their_name() {
    assert_eq!(
        feed_request(FeedSource::User, 2, ListingType::All, SortType::New, "ada"),
        FeedRequest::Person(GetPersonDetails {
            limit: Some(20),
            page: Some(2),
            sort: Some(SortType::New),
            username: Some(s("ada")),
            ..GetPersonDetails::default()
        })
    );
}

#[test]
fn the_url_of_a_feed_holds_its_request() {
    assert_eq!(
        feed_url(&instance(), FeedSource::Home, 1, ListingType::All, SortType::Active, ""),
        "https://example.test/api/v3/post/list?limit=20&page=1&sort=Active&type_=All"
    );
    assert_eq!(
        feed_url(&instance(), FeedSource::Community, 2, ListingType::All, SortType::TopDay, "rust lang"),
        "https://example.test/api/v3/post/list?community_name=rust+lang&limit=20&page=2&sort=TopDay"
    );
    assert_eq!(
        feed_url(&instance(), FeedSource::User, 1, ListingType::All, SortType::New, "ada"),
        "https://example.test/api/v3/user?limit=20&page=1&sort=New&username=ada"
    );
}

#[test]
fn an_operation_leads_to_its_path_and_verb() {
    assert_eq!(Operation::GetPosts.path(), "post/list");
    assert_eq!(Operation::GetPosts.verb(), HttpVerb::Get);
    assert_eq!(Operation::GetComments.path(), "comment/list");
    assert_eq!(Operation::GetUnreadRegistrationApplicationCount.path(), "admin/registration_application/count");
    assert_eq!(Operation::CreatePost.path(), "post");
    assert_eq!(Operation::CreatePost.verb(), HttpVerb::Post);
    assert_eq!(Operation::Login.path(), "user/login");
    assert_eq!(Operation::Login.verb(), HttpVerb::Post);
    assert_eq!(Operation::EditPost.path(), "post");
    assert_eq!(Operation::EditPost.verb(), HttpVerb::Put);
    assert_eq!(Operation::SaveUserSettings.path(), "user/save_user_settings");
    assert_eq!(Operation::SaveUserSettings.verb(), HttpVerb::Put);
}

#[test]
fn a_constructor_for_an_operation_holds_its_path() {
    let c = ApiUrlConstructor::for_operation(Operation::GetSite);
    assert_eq!(c, ApiUrlConstructor { endpoint: s("site"), id: None, params: None });
}
