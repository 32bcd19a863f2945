use lemmy_api::error::ApiError;
use lemmy_api::json::JsonValue;
use lemmy_api::json_text::parse_json;
use lemmy_api::payload::Payload;
use lemmy_api::policy::{DecodePolicy, FieldDefault};
use lemmy_api::records::{CommentAggregates, UploadImageResponse};
use lemmy_api::transport::{api_get, api_get_with, decode_body_with, decode_tree_with, HttpReply};

fn text(value: &str) -> String {
    value.to_string()
}

fn default_at(path: &[&str], value: JsonValue) -> FieldDefault {
    FieldDefault { path: path.iter().map(|key| key.to_string()).collect(), value }
}

fn parsed(body: &str) -> JsonValue {
    parse_json(body).expect("the text of the test is JSON")
}

const COUNTS_WITHOUT_RANK: &str =
    "{\"child_count\": 1, \"downvotes\": 2, \"id\": 3, \"published\": \"p\", \"score\": 4, \"upvotes\": 5}";

#[test]
fn a_default_stands_in_for_a_missing_member() {
    let filled = default_at(&["hot_rank"], JsonValue::Int(0)).apply(&parsed("{\"id\": 3}"));
    assert_eq!(filled.get("hot_rank"), Some(&JsonValue::Int(0)));
    assert_eq!(filled.get("id"), Some(&JsonValue::Int(3)));
    assert_eq!(
        filled,
        JsonValue::Object(vec![(text("id"), JsonValue::Int(3)), (text("hot_rank"), JsonValue::Int(0))])
    );
}

#[test]
fn a_default_stands_in_for_a_null_member() {
    let filled =
        default_at(&["hot_rank"], JsonValue::Int(0)).apply(&parsed("{\"hot_rank\": null, \"id\": 3}"));
    assert_eq!(
        filled,
        JsonValue::Object(vec![(text("hot_rank"), JsonValue::Int(0)), (text("id"), JsonValue::Int(3))])
    );
}

#[test]
fn a_default_leaves_what_is_there() {
    let v = parsed("{\"hot_rank\": 12, \"id\": 3}");
    assert_eq!(default_at(&["hot_rank"], JsonValue::Int(0)).apply(&v), v);
    let v = parsed("{\"hot_rank\": \"high\"}");
    assert_eq!(default_at(&["hot_rank"], JsonValue::Int(0)).apply(&v), v);
}

#[test]
fn a_default_without_a_path_changes_nothing() {
    let v = parsed("{\"id\": 3}");
    assert_eq!(default_at(&[], JsonValue::Int(0)).apply(&v), v);
}

#[test]
fn a_path_goes_through_records_and_lists() {
    let v = parsed("{\"files\": [{\"file\": \"a\"}, {\"file\": \"b\", \"delete_token\": \"t\"}], \"msg\": \"ok\"}");
    let filled = default_at(&["files", "delete_token"], JsonValue::Str(text(""))).apply(&v);
    let first = JsonValue::Object(vec![
        (text("file"), JsonValue::Str(text("a"))),
        (text("delete_token"), JsonValue::Str(text(""))),
    ]);
    let second = JsonValue::Object(vec![
        (text("delete_token"), JsonValue::Str(text("t"))),
        (text("file"), JsonValue::Str(text("b"))),
    ]);
    assert_eq!(
        filled,
        JsonValue::Object(vec![
            (text("files"), JsonValue::Array(vec![first, second])),
            (text("msg"), JsonValue::Str(text("ok"))),
        ])
    );
    let read = UploadImageResponse::from_json(&filled).expect("every file has its token now");
    assert_eq!(read.files[0].delete_token, "");
    assert_eq!(read.files[1].delete_token, "t");
    assert_eq!(UploadImageResponse::from_json(&v), None);
}

#[test]
fn a_path_does_not_make_the_records_on_its_way() {
    let v = parsed("{\"msg\": \"ok\"}");
    assert_eq!(default_at(&["files", "delete_token"], JsonValue::Str(text(""))).apply(&v), v);
    let v = parsed("{\"files\": 3}");
    assert_eq!(default_at(&["files", "delete_token"], JsonValue::Str(text(""))).apply(&v), v);
}

#[test]
fn what_is_no_object_is_left_alone() {
    for body in ["3", "\"x\"", "null", "true", "[1, 2]"] {
        let v = parsed(body);
        assert_eq!(default_at(&["a"], JsonValue::Int(0)).apply(&v), v);
    }
}

#[test]
fn the_strict_policy_changes_nothing() {
    let v = parsed(COUNTS_WITHOUT_RANK);
    assert_eq!(DecodePolicy::strict().apply(&v), v);
    assert_eq!(DecodePolicy::strict().defaults.len(), 0);
}

#[test]
fn defaults_are_filled_in_one_after_the_other() {
    let policy = DecodePolicy {
        defaults: vec![
            default_at(&["a"], JsonValue::Int(1)),
            default_at(&["b"], JsonValue::Int(2)),
            default_at(&["a"], JsonValue::Int(3)),
        ],
    };
    assert_eq!(policy.apply(&parsed("{}")), parsed("{\"a\": 1, \"b\": 2}"));
}

#[test]
fn a_mandatory_field_with_a_default_may_be_missing() {
    let reply = HttpReply::Answered { status: 200, body: text(COUNTS_WITHOUT_RANK) };
    assert_eq!(
        api_get::<CommentAggregates>(&reply),
        Err(ApiError::Decode(text(COUNTS_WITHOUT_RANK)))
    );
    let policy = DecodePolicy { defaults: vec![default_at(&["hot_rank"], JsonValue::Int(0))] };
    let expected = CommentAggregates {
        child_count: 1,
        downvotes: 2,
        hot_rank: 0,
        id: 3,
        published: text("p"),
        score: 4,
        upvotes: 5,
    };
    assert_eq!(api_get_with::<CommentAggregates>(&reply, &policy), Ok(expected.clone()));
    assert_eq!(decode_body_with::<CommentAggregates>(COUNTS_WITHOUT_RANK, &policy), Ok(expected.clone()));
    assert_eq!(
        decode_tree_with::<CommentAggregates>(&Some(parsed(COUNTS_WITHOUT_RANK)), "b", &policy),
        Ok(expected)
    );
}

#[test]
fn a_default_of_the_wrong_type_does_not_help() {
    let policy = DecodePolicy { defaults: vec![default_at(&["hot_rank"], JsonValue::Str(text("0")))] };
    assert_eq!(
        decode_body_with::<CommentAggregates>(COUNTS_WITHOUT_RANK, &policy),
        Err(ApiError::Decode(text(COUNTS_WITHOUT_RANK)))
    );
}

#[test]
fn a_policy_does_not_change_the_other_errors() {
    let policy = DecodePolicy { defaults: vec![default_at(&["hot_rank"], JsonValue::Int(0))] };
    assert_eq!(
        api_get_with::<CommentAggregates>(&HttpReply::Failed, &policy),
        Err(ApiError::Transport)
    );
    assert_eq!(
        api_get_with::<CommentAggregates>(&HttpReply::Answered { status: 503, body: text("busy") }, &policy),
        Err(ApiError::HttpStatus(503, text("busy")))
    );
    assert_eq!(
        api_get_with::<CommentAggregates>(&HttpReply::Answered { status: 200, body: text("busy") }, &policy),
        Err(ApiError::Decode(text("busy")))
    );
    assert_eq!(
        decode_tree_with::<CommentAggregates>(&None, "busy", &policy),
        Err(ApiError::Decode(text("busy")))
    );
}
