//! The identifiers of the API, each in a type of its own, and the texts
//! that some operations answer with.

use vstd::prelude::*;

verus! {

#[allow(non_snake_case)]
#[derive(Clone, Copy, Debug, PartialEq, Eq)]
pub struct CommentId {
    pub CommentId: i32,
}

#[allow(non_snake_case)]
#[derive(Clone, Copy, Debug, PartialEq, Eq)]
pub struct CommentReplyId {
    pub CommentReplyId: i32,
}

#[allow(non_snake_case)]
#[derive(Clone, Copy, Debug, PartialEq, Eq)]
pub struct CommentReportId {
    pub CommentReportId: i32,
}

#[allow(non_snake_case)]
#[derive(Clone, Copy, Debug, PartialEq, Eq)]
pub struct CommunityBlockId {
    pub CommunityBlockId: i32,
}

#[allow(non_snake_case)]
#[derive(Clone, Copy, Debug, PartialEq, Eq)]
pub struct CommunityId {
    pub CommunityId: i32,
}

#[allow(non_snake_case)]
#[derive(Clone, Copy, Debug, PartialEq, Eq)]
pub struct CustomEmojiId {
    pub CustomEmojiId: i32,
}

#[allow(non_snake_case)]
#[derive(Clone, Debug, PartialEq, Eq)]
pub struct DeleteAccountResponse {
    pub DeletedAccountResponse: String,
}

#[allow(non_snake_case)]
#[derive(Clone, Copy, Debug, PartialEq, Eq)]
pub struct InstanceId {
    pub InstanceId: i32,
}

#[allow(non_snake_case)]
#[derive(Clone, Copy, Debug, PartialEq, Eq)]
pub struct LanguageId {
    pub LanguageId: i32,
}

#[allow(non_snake_case)]
#[derive(Clone, Copy, Debug, PartialEq, Eq)]
pub struct LocalSiteId {
    pub LocalSiteId: i32,
}

#[allow(non_snake_case)]
#[derive(Clone, Copy, Debug, PartialEq, Eq)]
pub struct LocalUserId {
    pub LocalUserId: i32,
}

#[allow(non_snake_case)]
#[derive(Clone, Debug, PartialEq, Eq)]
pub struct PasswordResetResponse {
    pub PasswordResetResponse: String,
}

#[allow(non_snake_case)]
#[derive(Clone, Copy, Debug, PartialEq, Eq)]
pub struct PersonBlockId {
    pub PersonBlockId: i32,
}

#[allow(non_snake_case)]
#[derive(Clone, Copy, Debug, PartialEq, Eq)]
pub struct PersonId {
    pub PersonId: i32,
}

#[allow(non_snake_case)]
#[derive(Clone, Copy, Debug, PartialEq, Eq)]
pub struct PersonMentionId {
    pub PersonMentionId: i32,
}

#[allow(non_snake_case)]
#[derive(Clone, Copy, Debug, PartialEq, Eq)]
pub struct PostId {
    pub PostId: i32,
}

/// The identifier of a post or of a comment.
#[derive(Clone, Copy, Debug, PartialEq, Eq)]
pub enum PostOrCommentId {
    Post(PostId),
    Comment(CommentId),
}

#[allow(non_snake_case)]
#[derive(Clone, Copy, Debug, PartialEq, Eq)]
pub struct PostReportId {
    pub PostReportId: i32,
}

#[allow(non_snake_case)]
#[derive(Clone, Copy, Debug, PartialEq, Eq)]
pub struct PrivateMEssageId {
    pub PrivateMEssageId: i32,
}

#[allow(non_snake_case)]
#[derive(Clone, Copy, Debug, PartialEq, Eq)]
pub struct PrivateMessageReportId {
    pub PrivateMessageReportId: i32,
}

#[allow(non_snake_case)]
#[derive(Clone, Copy, Debug, PartialEq, Eq)]
pub struct SideId {
    pub SideId: i32,
}

#[allow(non_snake_case)]
#[derive(Clone, Debug, PartialEq, Eq)]
pub struct VerifyEmailResponse {
    pub VerifyEmailResponse: String,
}

} // verus!
