use lemmy_api::error::ApiError;
use lemmy_api::json::JsonValue;
use lemmy_api::operations::{
    get_comment, get_comments, get_federated_instances, get_mod_log, get_person_details,
    get_post, get_posts, get_site, list_communities,
};
use lemmy_api::payload::Payload;
use lemmy_api::records::{
    CommentResponse, CommunityJoinResponse, GetCommentsResponse, GetFederatedInstancesResponse,
    GetModlogResponse, GetPersonDetailsResponse, GetPostResponse, GetPostsResponse,
    GetSiteResponse, ListCommunitiesResponse, PostView,
};
use lemmy_api::transport::{
    api_get, decode_body, decode_tree, settle, snippet, HttpReply, RequestAction, RequestEvent,
    RequestState, SNIPPET_LIMIT,
};

fn s(text: &str) -> String {
    text.to_string()
}

fn answered(status: u16, body: &str) -> HttpReply {
    HttpReply::Answered { status, body: body.to_string() }
}

fn quoted(text: &str, out: &mut String) {
    out.push('"');
    for c in text.chars() {
        match c {
            '"' => out.push_str("\\\""),
            '\\' => out.push_str("\\\\"),
            '\n' => out.push_str("\\n"),
            other => out.push(other),
        }
    }
    out.push('"');
}

fn write(v: &JsonValue, out: &mut String) {
    match v {
        JsonValue::Null => out.push_str("null"),
        JsonValue::Bool(b) => out.push_str(if *b { "true" } else { "false" }),
        JsonValue::Int(i) => out.push_str(&i.to_string()),
        JsonValue::Number(text) => out.push_str(text),
        JsonValue::Str(text) => quoted(text, out),
        JsonValue::Array(items) => {
            out.push('[');
            for (i, item) in items.iter().enumerate() {
                if i > 0 {
                    out.push(',');
                }
                write(item, out);
            }
            out.push(']');
        }
        JsonValue::Object(members) => {
            out.push('{');
            for (i, member) in members.iter().enumerate() {
                if i > 0 {
                    out.push(',');
                }
                quoted(&member.0, out);
                out.push(':');
                write(&member.1, out);
            }
            out.push('}');
        }
    }
}

fn body_of<T: Payload>(record: &T) -> String {
    let mut out = String::new();
    write(&record.to_json(), &mut out);
    out
}

#[test]
fn a_body_of_another_shape_is_a_decode_error() {
    let body = "{\"unexpected\": \"shape\"}";
    assert_eq!(
        api_get::<GetCommentsResponse>(&answered(200, body)),
        Err(ApiError::Decode(s(body)))
    );
    assert_eq!(get_comments(&answered(200, body)), Err(ApiError::Decode(s(body))));
}

#[test]
fn a_body_that_is_not_json_is_a_decode_error() {
    assert_eq!(
        api_get::<GetCommentsResponse>(&answered(200, "<html>busy</html>")),
        Err(ApiError::Decode(s("<html>busy</html>")))
    );
    assert_eq!(api_get::<GetCommentsResponse>(&answered(200, "")), Err(ApiError::Decode(s(""))));
}

#[test]
fn no_reply_is_a_transport_error() {
    assert_eq!(api_get::<GetCommentsResponse>(&HttpReply::Failed), Err(ApiError::Transport));
    assert_eq!(get_posts(&HttpReply::Failed), Err(ApiError::Transport));
}

#[test]
fn a_status_outside_the_200s_is_a_status_error() {
    assert_eq!(
        api_get::<GetCommentsResponse>(&answered(404, "{\"error\": \"couldnt_find_post\"}")),
        Err(ApiError::HttpStatus(404, s("{\"error\": \"couldnt_find_post\"}")))
    );
    assert_eq!(
        api_get::<GetCommentsResponse>(&answered(500, "")),
        Err(ApiError::HttpStatus(500, s("")))
    );
    assert_eq!(
        api_get::<GetCommentsResponse>(&answered(199, "{\"comments\": []}")),
        Err(ApiError::HttpStatus(199, s("{\"comments\": []}")))
    );
    assert_eq!(
        api_get::<GetCommentsResponse>(&answered(300, "{\"comments\": []}")),
        Err(ApiError::HttpStatus(300, s("{\"comments\": []}")))
    );
}

#[test]
fn a_status_in_the_200s_is_read() {
    let expected = Ok(GetCommentsResponse { comments: vec![] });
    assert_eq!(api_get::<GetCommentsResponse>(&answered(200, "{\"comments\": []}")), expected);
    assert_eq!(api_get::<GetCommentsResponse>(&answered(204, "{\"comments\": []}")), expected);
    assert_eq!(api_get::<GetCommentsResponse>(&answered(299, "{\"comments\": []}")), expected);
}

#[test]
fn a_long_body_is_cut_in_the_error() {
    let long = "x".repeat(SNIPPET_LIMIT + 100);
    assert_eq!(snippet(&long), "x".repeat(SNIPPET_LIMIT));
    assert_eq!(
        api_get::<GetCommentsResponse>(&answered(200, &long)),
        Err(ApiError::Decode("x".repeat(SNIPPET_LIMIT)))
    );
    let exact = "y".repeat(SNIPPET_LIMIT);
    assert_eq!(snippet(&exact), exact);
    assert_eq!(snippet(""), "");
}

#[test]
fn a_body_is_cut_between_characters() {
    let long = "\u{e9}".repeat(SNIPPET_LIMIT + 1);
    assert_eq!(snippet(&long), "\u{e9}".repeat(SNIPPET_LIMIT));
}

#[test]
fn decode_tree_reads_the_tree_it_is_given() {
    let v = JsonValue::Object(vec![(s("joined"), JsonValue::Bool(true))]);
    assert_eq!(
        decode_tree::<CommunityJoinResponse>(&Some(v), "the body"),
        Ok(CommunityJoinResponse { joined: true })
    );
    let v = JsonValue::Object(vec![(s("joined"), JsonValue::Null)]);
    assert_eq!(
        decode_tree::<CommunityJoinResponse>(&Some(v), "the body"),
        Err(ApiError::Decode(s("the body")))
    );
    assert_eq!(
        decode_tree::<CommunityJoinResponse>(&None, "the body"),
        Err(ApiError::Decode(s("the body")))
    );
}

#[test]
fn decode_body_reads_the_text() {
    assert_eq!(
        decode_body::<CommunityJoinResponse>(" { \"joined\" : false } "),
        Ok(CommunityJoinResponse { joined: false })
    );
    assert_eq!(
        decode_body::<CommunityJoinResponse>("{\"joined\": \"no\"}"),
        Err(ApiError::Decode(s("{\"joined\": \"no\"}")))
    );
}

#[test]
fn each_operation_reads_its_own_record() {
    let posts = GetPostsResponse { posts: vec![PostView::default(), PostView::default()] };
    assert_eq!(get_posts(&answered(200, &body_of(&posts))), Ok(posts));
    let post = GetPostResponse::default();
    assert_eq!(get_post(&answered(200, &body_of(&post))), Ok(post));
    let comment = CommentResponse::default();
    assert_eq!(get_comment(&answered(200, &body_of(&comment))), Ok(comment));
    let comments = GetCommentsResponse::default();
    assert_eq!(get_comments(&answered(200, &body_of(&comments))), Ok(comments));
    let communities = ListCommunitiesResponse::default();
    assert_eq!(list_communities(&answered(200, &body_of(&communities))), Ok(communities));
    let federated = GetFederatedInstancesResponse::default();
    assert_eq!(get_federated_instances(&answered(200, &body_of(&federated))), Ok(federated));
    let log = GetModlogResponse::default();
    assert_eq!(get_mod_log(&answered(200, &body_of(&log))), Ok(log));
    let site = GetSiteResponse::default();
    assert_eq!(get_site(&answered(200, &body_of(&site))), Ok(site));
    let person = GetPersonDetailsResponse::default();
    assert_eq!(get_person_details(&answered(200, &body_of(&person))), Ok(person));
}

#[test]
fn an_operation_does_not_read_the_record_of_another() {
    let posts = GetPostsResponse { posts: vec![] };
    let body = body_of(&posts);
    assert_eq!(get_comments(&answered(200, &body)), Err(ApiError::Decode(body.clone())));
    assert_eq!(get_post(&answered(200, &body)), Err(ApiError::Decode(body)));
}

#[test]
fn a_reply_is_delivered_to_a_caller_that_waits() {
    let state = RequestState::new();
    assert_eq!(state, RequestState::Pending);
    assert_eq!(
        state.step(RequestEvent::Arrived),
        (RequestState::Delivered, RequestAction::Deliver)
    );
    let (next, result) = settle::<CommunityJoinResponse>(state, &answered(200, "{\"joined\": true}"));
    assert_eq!(next, RequestState::Delivered);
    assert_eq!(result, Some(Ok(CommunityJoinResponse { joined: true })));
}

#[test]
fn tearing_down_aborts_a_request_under_way() {
    assert_eq!(
        RequestState::Pending.step(RequestEvent::TornDown),
        (RequestState::Cancelled, RequestAction::Abort)
    );
}

#[test]
fn a_reply_after_the_teardown_is_dropped() {
    let mut delivered = 0;
    let mut state = RequestState::new();
    let events = [
        RequestEvent::TornDown,
        RequestEvent::Arrived,
        RequestEvent::Arrived,
        RequestEvent::TornDown,
    ];
    for event in events {
        let (next, action) = state.step(event);
        if action == RequestAction::Deliver {
            delivered += 1;
        }
        state = next;
    }
    assert_eq!(delivered, 0);
    assert_eq!(state, RequestState::Cancelled);
    let (next, result) =
        settle::<CommunityJoinResponse>(RequestState::Cancelled, &answered(200, "{\"joined\": true}"));
    assert_eq!(next, RequestState::Cancelled);
    assert_eq!(result, None);
}

#[test]
fn whatever_the_events_at_most_one_is_delivered() {
    let kinds = [RequestEvent::Arrived, RequestEvent::TornDown];
    for a in kinds {
        for b in kinds {
            for c in kinds {
                for d in kinds {
                    let mut state = RequestState::new();
                    let mut delivered = 0;
                    let mut torn_down = false;
                    for event in [a, b, c, d] {
                        let (next, action) = state.step(event);
                        if action == RequestAction::Deliver {
                            assert!(!torn_down);
                            delivered += 1;
                        }
                        if event == RequestEvent::TornDown {
                            torn_down = true;
                        }
                        state = next;
                    }
                    assert!(delivered <= 1);
                    assert_ne!(state, RequestState::Pending);
                }
            }
        }
    }
}

#[test]
fn a_reply_is_delivered_once() {
    let (state, action) = RequestState::Pending.step(RequestEvent::Arrived);
    assert_eq!(action, RequestAction::Deliver);
    assert_eq!(state.step(RequestEvent::Arrived), (RequestState::Delivered, RequestAction::Discard));
    assert_eq!(state.step(RequestEvent::TornDown), (RequestState::Delivered, RequestAction::Discard));
    let (next, result) = settle::<CommunityJoinResponse>(state, &answered(200, "{\"joined\": true}"));
    assert_eq!(next, RequestState::Delivered);
    assert_eq!(result, None);
}
