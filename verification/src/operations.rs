//! One function for each operation that is read from the server: it names
//! the response record of the operation and leaves the rest to `api_get`.

use vstd::prelude::*;
use crate::error::ApiError;
use crate::records::{
    CommentResponse, GetCommentsResponse, GetFederatedInstancesResponse, GetModlogResponse,
    GetPersonDetailsResponse, GetPostResponse, GetPostsResponse, GetSiteResponse,
    ListCommunitiesResponse,
};
use crate::transport::{api_get, interprets, HttpReply};

verus! {

/// The comments of a post or of a community, from the reply to `comment/list`.
pub fn get_comments(reply: &HttpReply) -> (res: Result<GetCommentsResponse, ApiError>)
    ensures
        interprets(*reply, res),
{
    api_get::<GetCommentsResponse>(reply)
}

/// One comment, from the reply to `comment`.
pub fn get_comment(reply: &HttpReply) -> (res: Result<CommentResponse, ApiError>)
    ensures
        interprets(*reply, res),
{
    api_get::<CommentResponse>(reply)
}

/// The communities of the instance, from the reply to `community/list`.
pub fn list_communities(reply: &HttpReply) -> (res: Result<ListCommunitiesResponse, ApiError>)
    ensures
        interprets(*reply, res),
{
    api_get::<ListCommunitiesResponse>(reply)
}

/// The instances that this one federates with, from the reply to
/// `federated_instances`.
pub fn get_federated_instances(reply: &HttpReply) -> (res: Result<
    GetFederatedInstancesResponse,
    ApiError,
>)
    ensures
        interprets(*reply, res),
{
    api_get::<GetFederatedInstancesResponse>(reply)
}

/// The moderation log, from the reply to `modlog`.
pub fn get_mod_log(reply: &HttpReply) -> (res: Result<GetModlogResponse, ApiError>)
    ensures
        interprets(*reply, res),
{
    api_get::<GetModlogResponse>(reply)
}

/// A page of posts, from the reply to `post/list`.
pub fn get_posts(reply: &HttpReply) -> (res: Result<GetPostsResponse, ApiError>)
    ensures
        interprets(*reply, res),
{
    api_get::<GetPostsResponse>(reply)
}

/// One post, from the reply to `post`.
pub fn get_post(reply: &HttpReply) -> (res: Result<GetPostResponse, ApiError>)
    ensures
        interprets(*reply, res),
{
    api_get::<GetPostResponse>(reply)
}

/// The site, from the reply to `site`.
pub fn get_site(reply: &HttpReply) -> (res: Result<GetSiteResponse, ApiError>)
    ensures
        interprets(*reply, res),
{
    api_get::<GetSiteResponse>(reply)
}

/// A person with their posts and comments, from the reply to `user`.
pub fn get_person_details(reply: &HttpReply) -> (res: Result<GetPersonDetailsResponse, ApiError>)
    ensures
        interprets(*reply, res),
{
    api_get::<GetPersonDetailsResponse>(reply)
}

} // verus!
