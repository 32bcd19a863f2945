use lemmy_api::actors::{
    community_icon, community_link, community_name, person_avatar, person_link, person_name,
    qualified, DEFAULT_AVATAR, DEFAULT_COMMUNITY_ICON,
};
use lemmy_api::enums::{ListingType, ModlogActionType, SortType};
use lemmy_api::instance::{asset_path, Instance};
use lemmy_api::pages::{
    comments_request, communities_page_request, communities_request, community_request,
    federated_instances_request, mod_log_entries, mod_log_request, next_page, page_number,
    person_request, post_request, previous_page, site_request, trending_communities_request,
};
use lemmy_api::query::to_query;
use lemmy_api::records::{
    Community, GetComments, GetModlogResponse, ListCommunities, ModAddView, ModBanView,
    ModLockPostView, Person,
};
use lemmy_api::text::{decimal, parse_i32};

fn owned(text: &str) -> String {
    text.to_string()
}

fn community(name: &str, local: bool, actor_id: &str) -> Community {
    Community { name: owned(name), local, actor_id: owned(actor_id), ..Community::default() }
}

fn person(name: &str, local: bool, actor_id: &str) -> Person {
    Person { name: owned(name), local, actor_id: owned(actor_id), ..Person::default() }
}

#[test]
fn integers_are_read_from_digits() {
    assert_eq!(parse_i32("0"), Some(0));
    assert_eq!(parse_i32("7"), Some(7));
    assert_eq!(parse_i32("42"), Some(42));
    assert_eq!(parse_i32("-42"), Some(-42));
    assert_eq!(parse_i32("+42"), Some(42));
    assert_eq!(parse_i32("007"), Some(7));
    assert_eq!(parse_i32("-0"), Some(0));
    assert_eq!(parse_i32("2147483647"), Some(2147483647));
    assert_eq!(parse_i32("-2147483648"), Some(-2147483648));
    assert_eq!(parse_i32("00000000000000000002147483647"), Some(2147483647));
}

#[test]
fn what_is_no_integer_is_not_read() {
    assert_eq!(parse_i32(""), None);
    assert_eq!(parse_i32("-"), None);
    assert_eq!(parse_i32("+"), None);
    assert_eq!(parse_i32("+-1"), None);
    assert_eq!(parse_i32("--1"), None);
    assert_eq!(parse_i32("1-"), None);
    assert_eq!(parse_i32(" 1"), None);
    assert_eq!(parse_i32("1 "), None);
    assert_eq!(parse_i32("1.0"), None);
    assert_eq!(parse_i32("1e3"), None);
    assert_eq!(parse_i32("0x10"), None);
    assert_eq!(parse_i32("one"), None);
    assert_eq!(parse_i32("\u{661}"), None);
    assert_eq!(parse_i32("1\u{e9}"), None);
}

#[test]
fn an_integer_that_does_not_fit_is_not_read() {
    assert_eq!(parse_i32("2147483648"), None);
    assert_eq!(parse_i32("-2147483649"), None);
    assert_eq!(parse_i32("99999999999999999999999999"), None);
    assert_eq!(parse_i32("-99999999999999999999999999"), None);
    assert_eq!(parse_i32("21474836470"), None);
}

#[test]
fn reading_agrees_with_the_standard_library() {
    let samples = [
        "12", "-12", "+12", "", "-", "a", "1a", "2147483647", "2147483648", "-2147483648",
        "-2147483649", "0012", "١٢", " 12", "12\n",
    ];
    for sample in samples {
        assert_eq!(parse_i32(sample), sample.parse::<i32>().ok());
    }
}

#[test]
fn what_is_written_is_read_back() {
    let samples: [i32; 9] = [0, 1, -1, 9, 10, -10, 12345, i32::MAX, i32::MIN];
    for n in samples {
        assert_eq!(parse_i32(&decimal(n as i64)), Some(n));
    }
}

#[test]
fn the_page_is_the_number_in_the_query() {
    assert_eq!(page_number(Some("3")), 3);
    assert_eq!(page_number(Some("1")), 1);
    assert_eq!(page_number(Some("-2")), -2);
}

#[test]
fn the_page_is_the_first_where_the_query_names_none() {
    assert_eq!(page_number(None), 1);
    assert_eq!(page_number(Some("")), 1);
    assert_eq!(page_number(Some("two")), 1);
    assert_eq!(page_number(Some("99999999999")), 1);
}

#[test]
fn the_links_lead_to_the_pages_beside() {
    assert_eq!(previous_page(3), Some(owned("?page=2")));
    assert_eq!(previous_page(2), Some(owned("?page=1")));
    assert_eq!(previous_page(1), None);
    assert_eq!(previous_page(0), None);
    assert_eq!(previous_page(-5), None);
    assert_eq!(next_page(1), Some(owned("?page=2")));
    assert_eq!(next_page(9), Some(owned("?page=10")));
    assert_eq!(next_page(-1), Some(owned("?page=0")));
    assert_eq!(next_page(i32::MAX - 1), Some(owned("?page=2147483647")));
    assert_eq!(next_page(i32::MAX), None);
}

#[test]
fn a_local_actor_goes_by_its_name() {
    assert_eq!(community_name(&community("main", true, "https://example.test/c/main")), "main");
    assert_eq!(community_link(&community("main", true, "whatever")), "/community/main");
    assert_eq!(person_name(&person("ada", true, "https://example.test/u/ada")), "ada");
    assert_eq!(person_link(&person("ada", true, "")), "/user/ada");
}

#[test]
fn an_actor_from_elsewhere_goes_by_name_and_host() {
    let rust = community("rust", false, "https://programming.dev/c/rust");
    assert_eq!(community_name(&rust), "rust@programming.dev");
    assert_eq!(community_link(&rust), "/community/rust@programming.dev");
    let ada = person("ada", false, "https://lemmy.world/u/ada");
    assert_eq!(person_name(&ada), "ada@lemmy.world");
    assert_eq!(person_link(&ada), "/user/ada@lemmy.world");
}

#[test]
fn the_host_is_what_stands_before_the_last_marker() {
    let odd = person("u", false, "https://a.test/u/b/u/c");
    assert_eq!(person_name(&odd), "u@a.test/u/b");
    let later = person("u", false, "see https://a.test/u/b");
    assert_eq!(person_name(&later), "u@a.test");
}

#[test]
fn an_address_of_another_form_shows_no_host() {
    let kbin = person("ada", false, "https://kbin.social/m/ada");
    assert_eq!(person_name(&kbin), "ada@error.com");
    assert_eq!(person_link(&kbin), "/user/ada@error.com");
    let plain = community("rust", false, "http://programming.dev/c/rust");
    assert_eq!(community_name(&plain), "rust@error.com");
    let swapped = community("rust", false, "https://programming.dev/u/rust");
    assert_eq!(community_link(&swapped), "/community/rust@error.com");
    assert_eq!(community_name(&community("rust", false, "")), "rust@error.com");
}

#[test]
fn a_name_is_qualified_by_what_was_read() {
    assert_eq!(qualified("ada", true, &Some(owned("a.test"))), "ada");
    assert_eq!(qualified("ada", false, &Some(owned("a.test"))), "ada@a.test");
    assert_eq!(qualified("ada", false, &Some(owned(""))), "ada@");
    assert_eq!(qualified("ada", false, &None), "ada@error.com");
    assert_eq!(qualified("", false, &None), "@error.com");
}

#[test]
fn a_picture_that_is_missing_has_a_stand_in() {
    let mut ada = person("ada", true, "");
    assert_eq!(person_avatar(&ada), DEFAULT_AVATAR);
    assert_eq!(person_avatar(&ada), "/static/default_assets/default-profile.png");
    ada.avatar = Some(owned("https://example.test/ada.png"));
    assert_eq!(person_avatar(&ada), "https://example.test/ada.png");
    let mut main = community("main", true, "");
    assert_eq!(community_icon(&main), DEFAULT_COMMUNITY_ICON);
    assert_eq!(community_icon(&main), "/static/default_assets/default-community.png");
    main.icon = Some(owned("i.png"));
    assert_eq!(community_icon(&main), "i.png");
}

#[test]
fn the_comments_of_a_post_are_asked_for_by_post_and_community() {
    let local = community("main", true, "https://example.test/c/main");
    assert_eq!(
        comments_request(9, &local),
        GetComments { community_name: Some(owned("main")), post_id: Some(9), ..GetComments::default() }
    );
    let remote = community("rust", false, "https://programming.dev/c/rust");
    let form = comments_request(9, &remote);
    assert_eq!(form.community_name, Some(owned("rust@programming.dev")));
    assert_eq!(to_query(&form), Ok(owned("community_name=rust%40programming.dev&post_id=9")));
}

#[test]
fn each_page_has_its_request() {
    assert_eq!(to_query(&post_request(5)), Ok(owned("id=5")));
    assert_eq!(to_query(&community_request("main")), Ok(owned("name=main")));
    assert_eq!(to_query(&site_request()), Ok(owned("")));
    assert_eq!(to_query(&person_request("ada")), Ok(owned("username=ada")));
    assert_eq!(to_query(&federated_instances_request()), Ok(owned("")));
    assert_eq!(to_query(&mod_log_request(4)), Ok(owned("limit=3&page=4")));
    assert_eq!(
        to_query(&trending_communities_request()),
        Ok(owned("limit=10&page=1&sort=TopMonth&type_=Local"))
    );
    assert_eq!(
        to_query(&communities_page_request(2)),
        Ok(owned("limit=50&page=2&sort=TopMonth&type_=Local"))
    );
    assert_eq!(
        communities_request(7, 3),
        ListCommunities {
            auth: None,
            limit: Some(7),
            page: Some(3),
            show_nsfw: None,
            sort: Some(SortType::TopMonth),
            type_: Some(ListingType::Local),
        }
    );
}

#[test]
fn the_moderation_log_is_listed_kind_after_kind() {
    let log = GetModlogResponse {
        added: vec![ModAddView::default(), ModAddView::default()],
        banned: vec![ModBanView::default()],
        locked_posts: vec![ModLockPostView::default(), ModLockPostView::default()],
        ..GetModlogResponse::default()
    };
    assert_eq!(
        mod_log_entries(&log),
        vec![
            (ModlogActionType::ModAdd, 0),
            (ModlogActionType::ModAdd, 1),
            (ModlogActionType::ModBan, 0),
            (ModlogActionType::ModLockPost, 0),
            (ModlogActionType::ModLockPost, 1),
        ]
    );
    assert_eq!(mod_log_entries(&GetModlogResponse::default()), vec![]);
}

#[test]
fn the_logo_goes_by_what_the_instance_says_of_it() {
    let mut instance = Instance {
        name: owned("Example"),
        slogan: owned("links for all"),
        logo_name: owned("logo.png"),
        logo_text_name: owned("logo-text.png"),
        no_logo_text: true,
        ..Instance::default()
    };
    assert_eq!(instance.logo_source(), "logo.png");
    assert_eq!(instance.name_beside_logo(), "Example");
    instance.no_logo_text = false;
    assert_eq!(instance.logo_source(), "logo-text.png");
    assert_eq!(instance.name_beside_logo(), "");
    assert_eq!(instance.title(), "Example: links for all");
    assert_eq!(asset_path(instance.logo_source()), "/assets/logo-text.png");
    assert_eq!(asset_path("favicon.ico"), "/assets/favicon.ico");
}

#[test]
fn an_instance_gives_its_base_and_version() {
    let instance = Instance {
        url: owned("https://example.test"),
        api_version: owned("v3"),
        ..Instance::default()
    };
    assert_eq!(instance.base_url_and_version(), ("https://example.test", "v3"));
}
