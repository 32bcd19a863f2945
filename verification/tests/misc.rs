use lemmy_api::endpoints::{GetEndpoint, PostEndpoint, PutEndpoint, RouterEndpoint};
use lemmy_api::ids::{CommentId, PostId, PostOrCommentId};
use lemmy_api::instance::{Instance, InstanceToml};

#[test]
fn endpoints_are_the_paths_of_the_api() {
    assert_eq!(GetEndpoint::GET_COMMENTS, "comment/list");
    assert_eq!(GetEndpoint::GET_POSTS, "post/list");
    assert_eq!(GetEndpoint::GET_POST, "post");
    assert_eq!(GetEndpoint::GET_SITE, "site");
    assert_eq!(GetEndpoint::GET_MODLOG, "modlog");
    assert_eq!(GetEndpoint::GET_PERSON_DETAILS, "user");
    assert_eq!(GetEndpoint::LIST_COMMUNITIES, "community/list");
    assert_eq!(GetEndpoint::GET_FEDERATED_INSTANCES, "federated_instances");
    assert_eq!(
        GetEndpoint::GET_UNREAD_REGISTRATION_APPLICATION_COUNT,
        "admin/registration_application/count"
    );
    assert_eq!(PostEndpoint::LOGIN, "user/login");
    assert_eq!(PostEndpoint::CREATE_POST, "post");
    assert_eq!(PutEndpoint::EDIT_POST, "post");
    assert_eq!(PutEndpoint::SAVE_USER_SETTINGS, "user/save_user_settings");
    assert_eq!(RouterEndpoint::HOME, "home");
    assert_eq!(RouterEndpoint::COMMUNITY, "community");
    assert_eq!(RouterEndpoint::USER, "user");
}

#[test]
fn an_endpoint_holds_its_path() {
    let e = GetEndpoint(GetEndpoint::GET_POSTS.to_string());
    assert_eq!(e.0, "post/list");
    assert_eq!(e, GetEndpoint("post/list".to_string()));
}

#[test]
fn identifiers_hold_their_number() {
    let post = PostId { PostId: 3 };
    let comment = CommentId { CommentId: 3 };
    assert_eq!(post.PostId, comment.CommentId);
    assert_eq!(PostOrCommentId::Post(post), PostOrCommentId::Post(PostId { PostId: 3 }));
    assert_ne!(PostOrCommentId::Post(post), PostOrCommentId::Comment(comment));
}

#[test]
fn instance_details_default_to_nothing() {
    let file = InstanceToml::default();
    assert_eq!(file.instance, Instance::default());
    assert_eq!(file.instance.url, "");
    assert_eq!(file.instance.logo_width, 0);
    assert!(!file.instance.no_logo_text);
}
