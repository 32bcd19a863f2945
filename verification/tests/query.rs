use lemmy_api::enums::{ListingType, SortType};
use lemmy_api::error::ApiError;
use lemmy_api::instance::Instance;
use lemmy_api::json::JsonValue;
use lemmy_api::payload::Payload;
use lemmy_api::query::{flatten, to_query};
use lemmy_api::records::{
    CreateCommunity, GetCommentsResponse, GetComment, GetPersonDetails, GetPosts, GetSite, Login,
};
use lemmy_api::endpoints::GetEndpoint;
use lemmy_api::url::{api_url_builder, compose_url, url_with_query, ApiUrlConstructor};

fn s(text: &str) -> String {
    text.to_string()
}

fn instance() -> Instance {
    Instance { url: s("https://example.test"), api_version: s("v3"), ..Instance::default() }
}

fn endpoint(path: &str) -> ApiUrlConstructor {
    ApiUrlConstructor { endpoint: path.to_string(), id: None, params: None }
}

#[test]
fn list_posts_with_only_the_page_set_is_exactly_the_page() {
    let form = GetPosts { page: Some(2), ..GetPosts::default() };
    assert_eq!(to_query(&form), Ok(s("page=2")));
}

#[test]
fn absent_optional_fields_leave_no_key_behind() {
    let form = GetPosts::default();
    assert_eq!(form.to_json(), JsonValue::Object(vec![]));
    assert_eq!(to_query(&form), Ok(s("")));
    let form = GetComment { auth: None, id: 5 };
    assert_eq!(form.to_json(), JsonValue::Object(vec![(s("id"), JsonValue::Int(5))]));
    assert_eq!(to_query(&form), Ok(s("id=5")));
}

#[test]
fn fields_are_written_in_the_order_of_the_record() {
    let form = GetPosts {
        auth: None,
        community_id: None,
        community_name: None,
        limit: Some(20),
        page: Some(1),
        post_id: None,
        saved_only: Some(false),
        sort: Some(SortType::Active),
        type_: Some(ListingType::All),
    };
    assert_eq!(
        to_query(&form),
        Ok(s("limit=20&page=1&saved_only=false&sort=Active&type_=All"))
    );
}

#[test]
fn keys_and_values_are_escaped() {
    let form = GetPosts {
        community_name: Some(s("rust & verus=100%/caf\u{e9}")),
        ..GetPosts::default()
    };
    assert_eq!(
        to_query(&form),
        Ok(s("community_name=rust+%26+verus%3D100%25%2Fcaf%C3%A9"))
    );
    let form = GetPersonDetails { username: Some(s("a_b-c.d*e~f")), ..GetPersonDetails::default() };
    assert_eq!(to_query(&form), Ok(s("username=a_b-c.d*e%7Ef")));
}

#[test]
fn negative_numbers_and_booleans_are_written_as_text() {
    let form = GetPosts { community_id: Some(-3), saved_only: Some(true), ..GetPosts::default() };
    assert_eq!(to_query(&form), Ok(s("community_id=-3&saved_only=true")));
}

#[test]
fn an_array_is_written_as_one_pair_for_each_item() {
    let form = CreateCommunity {
        auth: s("t"),
        discussion_languages: Some(vec![1, 2, 37]),
        name: s("n"),
        title: s("T t"),
        ..CreateCommunity::default()
    };
    assert_eq!(
        to_query(&form),
        Ok(s("auth=t&discussion_languages=1&discussion_languages=2&discussion_languages=37&name=n&title=T+t"))
    );
    let form = CreateCommunity { discussion_languages: Some(vec![]), ..CreateCommunity::default() };
    assert_eq!(to_query(&form), Ok(s("auth=&name=&title=")));
}

#[test]
fn an_empty_list_leaves_no_key_behind() {
    let form = GetCommentsResponse { comments: vec![] };
    assert_eq!(to_query(&form), Ok(s("")));
}

#[test]
fn a_record_that_holds_records_has_no_query_string() {
    let nested = lemmy_api::records::CommunityBlockView::default();
    assert_eq!(to_query(&nested), Err(ApiError::Serialize));
    let list = GetCommentsResponse { comments: vec![lemmy_api::records::CommentView::default()] };
    assert_eq!(to_query(&list), Err(ApiError::Serialize));
}

#[test]
fn flatten_gives_the_pairs_of_an_object() {
    let v = JsonValue::Object(vec![
        (s("a"), JsonValue::Int(1)),
        (s("b"), JsonValue::Null),
        (s("c"), JsonValue::Array(vec![JsonValue::Str(s("x")), JsonValue::Null, JsonValue::Bool(true)])),
        (s("d"), JsonValue::Number(s("1.5"))),
    ]);
    assert_eq!(
        flatten(&v),
        Ok(vec![(s("a"), s("1")), (s("c"), s("x")), (s("c"), s("true")), (s("d"), s("1.5"))])
    );
}

#[test]
fn flatten_refuses_what_is_not_flat() {
    assert_eq!(flatten(&JsonValue::Null), Err(ApiError::Serialize));
    assert_eq!(flatten(&JsonValue::Int(1)), Err(ApiError::Serialize));
    assert_eq!(flatten(&JsonValue::Array(vec![])), Err(ApiError::Serialize));
    let nested = JsonValue::Object(vec![(s("a"), JsonValue::Object(vec![]))]);
    assert_eq!(flatten(&nested), Err(ApiError::Serialize));
    let deep = JsonValue::Object(vec![(s("a"), JsonValue::Array(vec![JsonValue::Array(vec![])]))]);
    assert_eq!(flatten(&deep), Err(ApiError::Serialize));
    let late = JsonValue::Object(vec![
        (s("a"), JsonValue::Int(1)),
        (s("b"), JsonValue::Array(vec![JsonValue::Int(1), JsonValue::Object(vec![])])),
    ]);
    assert_eq!(flatten(&late), Err(ApiError::Serialize));
}

#[test]
fn url_is_base_api_version_endpoint_and_query() {
    assert_eq!(
        compose_url("https://example.test", "v3", "post/list", "page=1&limit=20"),
        "https://example.test/api/v3/post/list?page=1&limit=20"
    );
    assert_eq!(compose_url("", "", "", ""), "/api//?");
}

#[test]
fn url_with_a_query_uses_the_query() {
    assert_eq!(
        url_with_query("https://example.test", "v3", "post/list", &Ok(s("page=1&limit=20"))),
        "https://example.test/api/v3/post/list?page=1&limit=20"
    );
}

#[test]
fn url_without_a_query_repeats_the_endpoint() {
    assert_eq!(
        url_with_query("https://example.test", "v3", "post/list", &Err(ApiError::Serialize)),
        "https://example.test/api/v3/post/list?post/list"
    );
}

#[test]
fn builder_writes_the_record_into_the_url() {
    let form = GetPosts { limit: Some(20), page: Some(1), ..GetPosts::default() };
    assert_eq!(
        api_url_builder(&instance(), &endpoint(GetEndpoint::GET_POSTS), &form),
        "https://example.test/api/v3/post/list?limit=20&page=1"
    );
    let form = GetSite { auth: None };
    assert_eq!(
        api_url_builder(&instance(), &endpoint(GetEndpoint::GET_SITE), &form),
        "https://example.test/api/v3/site?"
    );
    let form = Login { password: s("p w"), totp_2fa_token: None, username_or_email: s("a@b.c") };
    assert_eq!(
        api_url_builder(&instance(), &endpoint("user/login"), &form),
        "https://example.test/api/v3/user/login?password=p+w&username_or_email=a%40b.c"
    );
}

#[test]
fn builder_falls_back_to_the_endpoint() {
    let nested = lemmy_api::records::CommunityBlockView::default();
    assert_eq!(
        api_url_builder(&instance(), &endpoint("community/block"), &nested),
        "https://example.test/api/v3/community/block?community/block"
    );
}

#[test]
fn constructor_defaults_to_nothing() {
    let c = ApiUrlConstructor::default();
    assert_eq!(c.endpoint, "");
    assert_eq!(c.id, None);
    assert_eq!(c.params, None);
}
