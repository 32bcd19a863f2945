use lemmy_api::enums::SubscribedType;
use lemmy_api::json::JsonValue;
use lemmy_api::json_text::parse_json;
use lemmy_api::payload::{object, optional, put, put_optional, required, Payload};
use lemmy_api::records::{
    CaptchaResponse, Comment, CommentAggregates, CommentView, Community, CommunityJoinResponse,
    FederatedInstances, GetCaptchaResponse, GetCommentsResponse, GetFederatedInstancesResponse,
    GetPosts, Instance, Person, Post, SiteMetadata, UploadImageResponse,
};

fn s(text: &str) -> String {
    text.to_string()
}

fn tree(text: &str) -> JsonValue {
    parse_json(text).expect("the text of the test is JSON")
}

fn comment_view() -> CommentView {
    CommentView {
        comment: Comment {
            ap_id: s("https://example.test/comment/9"),
            content: s("first"),
            creator_id: 4,
            deleted: false,
            distinguished: false,
            id: 9,
            language_id: 37,
            local: true,
            path: s("0.9"),
            post_id: 2,
            published: s("2023-07-01T10:00:00"),
            removed: false,
            updated: None,
        },
        community: Community {
            actor_id: s("https://example.test/c/main"),
            id: 1,
            name: s("main"),
            title: s("Main"),
            published: s("2023-01-01T00:00:00"),
            icon: Some(s("https://example.test/icon.png")),
            ..Community::default()
        },
        counts: CommentAggregates {
            child_count: 0,
            downvotes: 1,
            hot_rank: 12,
            id: 9,
            published: s("2023-07-01T10:00:00"),
            score: 2,
            upvotes: 3,
        },
        creator: Person { id: 4, name: s("ada"), local: true, ..Person::default() },
        creator_banned_from_community: false,
        creator_blocked: false,
        my_vote: Some(-1),
        post: Post { id: 2, name: s("a post"), ..Post::default() },
        saved: true,
        subscribed: SubscribedType::Pending,
    }
}

#[test]
fn a_body_of_another_shape_is_not_the_list_of_comments() {
    let v = tree("{\"unexpected\": \"shape\"}");
    assert_eq!(GetCommentsResponse::from_json(&v), None);
}

#[test]
fn an_empty_list_of_comments_is_read() {
    let v = tree("{\"comments\": []}");
    assert_eq!(GetCommentsResponse::from_json(&v), Some(GetCommentsResponse { comments: vec![] }));
}

#[test]
fn a_missing_optional_field_reads_as_absent() {
    let v = tree("{\"domain\": \"example.test\", \"id\": 3, \"published\": \"2023-01-01\"}");
    assert_eq!(
        Instance::from_json(&v),
        Some(Instance {
            domain: s("example.test"),
            id: 3,
            published: s("2023-01-01"),
            software: None,
            updated: None,
            version: None,
        })
    );
}

#[test]
fn a_null_optional_field_reads_as_absent() {
    let v = tree(
        "{\"domain\": \"example.test\", \"id\": 3, \"published\": \"2023-01-01\", \"software\": null, \"version\": \"0.18\"}",
    );
    assert_eq!(
        Instance::from_json(&v),
        Some(Instance {
            domain: s("example.test"),
            id: 3,
            published: s("2023-01-01"),
            software: None,
            updated: None,
            version: Some(s("0.18")),
        })
    );
}

#[test]
fn a_missing_mandatory_field_is_refused() {
    let v = tree("{\"domain\": \"example.test\", \"published\": \"2023-01-01\"}");
    assert_eq!(Instance::from_json(&v), None);
    let v = tree("{\"id\": 3, \"published\": \"2023-01-01\"}");
    assert_eq!(Instance::from_json(&v), None);
    let v = tree("{}");
    assert_eq!(Instance::from_json(&v), None);
}

#[test]
fn a_null_mandatory_field_is_refused() {
    let v = tree("{\"domain\": null, \"id\": 3, \"published\": \"2023-01-01\"}");
    assert_eq!(Instance::from_json(&v), None);
}

#[test]
fn a_field_of_another_type_is_refused() {
    let v = tree("{\"domain\": \"example.test\", \"id\": \"3\", \"published\": \"2023-01-01\"}");
    assert_eq!(Instance::from_json(&v), None);
    let v = tree("{\"domain\": \"example.test\", \"id\": 3.5, \"published\": \"2023-01-01\"}");
    assert_eq!(Instance::from_json(&v), None);
    let v = tree(
        "{\"domain\": \"example.test\", \"id\": 3, \"published\": \"2023-01-01\", \"version\": 18}",
    );
    assert_eq!(Instance::from_json(&v), None);
    let v = tree("{\"joined\": 1}");
    assert_eq!(CommunityJoinResponse::from_json(&v), None);
}

#[test]
fn an_integer_outside_32_bits_is_refused() {
    let v = tree("{\"domain\": \"d\", \"id\": 2147483647, \"published\": \"p\"}");
    assert_eq!(Instance::from_json(&v).map(|i| i.id), Some(2147483647));
    let v = tree("{\"domain\": \"d\", \"id\": 2147483648, \"published\": \"p\"}");
    assert_eq!(Instance::from_json(&v), None);
    let v = tree("{\"domain\": \"d\", \"id\": -2147483648, \"published\": \"p\"}");
    assert_eq!(Instance::from_json(&v).map(|i| i.id), Some(-2147483648));
    let v = tree("{\"domain\": \"d\", \"id\": -2147483649, \"published\": \"p\"}");
    assert_eq!(Instance::from_json(&v), None);
}

#[test]
fn members_that_no_field_asks_for_are_passed_over() {
    let v = tree("{\"joined\": true, \"since\": \"yesterday\", \"by\": {\"id\": 1}}");
    assert_eq!(CommunityJoinResponse::from_json(&v), Some(CommunityJoinResponse { joined: true }));
}

#[test]
fn what_is_no_object_is_no_record() {
    assert_eq!(SiteMetadata::from_json(&tree("null")), None);
    assert_eq!(SiteMetadata::from_json(&tree("[]")), None);
    assert_eq!(SiteMetadata::from_json(&tree("\"x\"")), None);
    assert_eq!(SiteMetadata::from_json(&tree("{}")), Some(SiteMetadata::default()));
}

#[test]
fn an_invalid_wire_string_is_refused() {
    let mut written = comment_view().to_json();
    if let JsonValue::Object(members) = &mut written {
        for member in members.iter_mut() {
            if member.0 == "subscribed" {
                member.1 = JsonValue::Str(s("Maybe"));
            }
        }
    }
    assert_eq!(CommentView::from_json(&written), None);
}

#[test]
fn a_nested_record_is_read_with_its_own_rules() {
    let v = tree("{\"ok\": {\"png\": \"p\", \"uuid\": \"u\", \"wav\": \"w\"}}");
    assert_eq!(
        GetCaptchaResponse::from_json(&v),
        Some(GetCaptchaResponse {
            ok: Some(CaptchaResponse { png: s("p"), uuid: s("u"), wav: s("w") })
        })
    );
    let v = tree("{\"ok\": {\"png\": \"p\", \"uuid\": \"u\"}}");
    assert_eq!(GetCaptchaResponse::from_json(&v), None);
    let v = tree("{}");
    assert_eq!(GetCaptchaResponse::from_json(&v), Some(GetCaptchaResponse { ok: None }));
}

#[test]
fn a_list_is_read_item_by_item() {
    let v = tree(
        "{\"files\": [{\"delete_token\": \"d1\", \"file\": \"f1\"}, {\"delete_token\": \"d2\", \"file\": \"f2\"}], \"msg\": \"ok\"}",
    );
    let read = UploadImageResponse::from_json(&v).expect("the record is complete");
    assert_eq!(read.files.len(), 2);
    assert_eq!(read.files[0].file, "f1");
    assert_eq!(read.files[1].delete_token, "d2");
    assert_eq!(read.msg, "ok");
    assert_eq!(read.url, None);
    let v = tree("{\"files\": [{\"delete_token\": \"d1\", \"file\": \"f1\"}, {\"file\": \"f2\"}], \"msg\": \"ok\"}");
    assert_eq!(UploadImageResponse::from_json(&v), None);
    let v = tree("{\"files\": {}, \"msg\": \"ok\"}");
    assert_eq!(UploadImageResponse::from_json(&v), None);
}

#[test]
fn a_record_is_written_field_by_field_in_order() {
    let r = Instance {
        domain: s("example.test"),
        id: 3,
        published: s("2023-01-01"),
        software: Some(s("lemmy")),
        updated: None,
        version: None,
    };
    assert_eq!(
        r.to_json(),
        JsonValue::Object(vec![
            (s("domain"), JsonValue::Str(s("example.test"))),
            (s("id"), JsonValue::Int(3)),
            (s("published"), JsonValue::Str(s("2023-01-01"))),
            (s("software"), JsonValue::Str(s("lemmy"))),
        ])
    );
}

#[test]
fn what_is_written_reads_back_as_itself() {
    let view = comment_view();
    assert_eq!(CommentView::from_json(&view.to_json()), Some(view.clone()));
    let list = GetCommentsResponse { comments: vec![view.clone(), CommentView::default(), view] };
    assert_eq!(GetCommentsResponse::from_json(&list.to_json()), Some(list));
    let form = GetPosts { page: Some(2), ..GetPosts::default() };
    assert_eq!(GetPosts::from_json(&form.to_json()), Some(form));
    let federated = GetFederatedInstancesResponse {
        federated_instances: Some(FederatedInstances {
            allowed: vec![],
            blocked: vec![Instance { domain: s("spam.test"), id: 8, ..Instance::default() }],
            linked: vec![Instance::default(), Instance::default()],
        }),
    };
    assert_eq!(GetFederatedInstancesResponse::from_json(&federated.to_json()), Some(federated));
}

#[test]
fn an_absent_field_does_not_come_back_as_an_empty_one() {
    let form = GetPosts { community_name: None, page: Some(2), ..GetPosts::default() };
    let read = GetPosts::from_json(&form.to_json()).expect("what was written can be read");
    assert_eq!(read.community_name, None);
    let form = GetPosts { community_name: Some(s("")), ..GetPosts::default() };
    let read = GetPosts::from_json(&form.to_json()).expect("what was written can be read");
    assert_eq!(read.community_name, Some(s("")));
}

#[test]
fn scalars_are_written_and_read_as_themselves() {
    assert_eq!(true.to_json(), JsonValue::Bool(true));
    assert_eq!((-5i32).to_json(), JsonValue::Int(-5));
    assert_eq!(s("x").to_json(), JsonValue::Str(s("x")));
    assert_eq!(vec![1i32, 2].to_json(), JsonValue::Array(vec![JsonValue::Int(1), JsonValue::Int(2)]));
    assert_eq!(bool::from_json(&JsonValue::Bool(false)), Some(false));
    assert_eq!(bool::from_json(&JsonValue::Int(0)), None);
    assert_eq!(i32::from_json(&JsonValue::Int(7)), Some(7));
    assert_eq!(i32::from_json(&JsonValue::Number(s("7.0"))), None);
    assert_eq!(i32::from_json(&JsonValue::Str(s("7"))), None);
    assert_eq!(String::from_json(&JsonValue::Str(s("7"))), Some(s("7")));
    assert_eq!(String::from_json(&JsonValue::Null), None);
    assert_eq!(
        Vec::<String>::from_json(&JsonValue::Array(vec![JsonValue::Str(s("a")), JsonValue::Int(1)])),
        None
    );
    assert_eq!(Vec::<i32>::from_json(&JsonValue::Array(vec![])), Some(vec![]));
}

#[test]
fn the_field_policy_reads_mandatory_and_optional_members() {
    let v = tree("{\"a\": 1, \"b\": null, \"c\": \"x\"}");
    assert_eq!(required::<i32>(&v, "a"), Some(1));
    assert_eq!(required::<i32>(&v, "b"), None);
    assert_eq!(required::<i32>(&v, "c"), None);
    assert_eq!(required::<i32>(&v, "d"), None);
    assert_eq!(optional::<i32>(&v, "a"), Some(Some(1)));
    assert_eq!(optional::<i32>(&v, "b"), Some(None));
    assert_eq!(optional::<i32>(&v, "c"), None);
    assert_eq!(optional::<i32>(&v, "d"), Some(None));
}

#[test]
fn the_field_policy_writes_present_members_only() {
    let mut members: Vec<(String, JsonValue)> = Vec::new();
    put(&mut members, "a", &1i32);
    put_optional::<i32>(&mut members, "b", &None);
    put_optional(&mut members, "c", &Some(s("x")));
    assert_eq!(
        object(members),
        JsonValue::Object(vec![(s("a"), JsonValue::Int(1)), (s("c"), JsonValue::Str(s("x")))])
    );
}
