//! The registry of endpoints: for each operation of the API the path under
//! which the server offers it, grouped by the HTTP verb that it takes. The
//! paths are written here once and are never made from input. `Operation`
//! names the operations one by one and leads each to its path and its verb.

use vstd::prelude::*;

verus! {

/// The operations that are asked for with `GET`.
#[derive(Clone, Debug, PartialEq, Eq)]
pub struct GetEndpoint(pub String);

impl GetEndpoint {
    pub const GET_BANNED_PERSONS: &'static str = "user/banned";
    pub const GET_CAPTCHA: &'static str = "user/get_captcha";
    pub const GET_COMMENT: &'static str = "comment";
    pub const GET_COMMENTS: &'static str = "comment/list";
    pub const GET_COMMUNITY: &'static str = "community";
    pub const GET_FEDERATED_INSTANCES: &'static str = "federated_instances";
    pub const GET_MODLOG: &'static str = "modlog";
    pub const GET_PERSON_DETAILS: &'static str = "user";
    pub const GET_PERSON_MENTIONS: &'static str = "user/mention";
    pub const GET_POST: &'static str = "post";
    pub const GET_POSTS: &'static str = "post/list";
    pub const GET_PRIVATE_MESSAGES: &'static str = "private_message/list";
    pub const GET_REPLIES: &'static str = "user/replies";
    pub const GET_REPORT_COUNT: &'static str = "user/report_count";
    pub const GET_SITE: &'static str = "site";
    pub const GET_SITE_METADATA: &'static str = "post/site_metadata";
    pub const GET_UNREAD_COUNT: &'static str = "user/unread_count";
    pub const GET_UNREAD_REGISTRATION_APPLICATION_COUNT: &'static str =
        "admin/registration_application/count";
    pub const LIST_COMMENT_REPORTS: &'static str = "comment/report/list";
    pub const LIST_COMMUNITIES: &'static str = "community/list";
    pub const LIST_POST_REPORTS: &'static str = "post/report/list";
    pub const LIST_PRIVATE_MESSAGE_REPORTS: &'static str = "private_message/report/list";
    pub const LIST_REGISTRATION_APPLICATIONS: &'static str = "admin/registration_application/list";
    pub const RESOLVE_OBJECT: &'static str = "resolve_object";
    pub const SEARCH: &'static str = "search";
}

/// The operations that are asked for with `POST`.
#[derive(Clone, Debug, PartialEq, Eq)]
pub struct PostEndpoint(pub String);

impl PostEndpoint {
    pub const ADD_ADMIN: &'static str = "admin/add";
    pub const ADD_MOD_TO_COMMUNITY: &'static str = "community/mod";
    pub const BAN_FROM_COMMUNITY: &'static str = "community/ban_user";
    pub const BAN_PERSON: &'static str = "user/ban";
    pub const BLOCK_COMMUNITY: &'static str = "community/block";
    pub const BLOCK_PERSON: &'static str = "user/block";
    pub const CREATE_COMMENT: &'static str = "comment";
    pub const CREATE_COMMENT_REPORT: &'static str = "comment/report";
    pub const CREATE_COMMUNITY: &'static str = "community";
    pub const CREATE_CUSTOM_EMOJI: &'static str = "custom_emoji";
    pub const CREATE_POST: &'static str = "post";
    pub const CREATE_POST_REPORT: &'static str = "post/report";
    pub const CREATE_PRIVATE_MESSAGE: &'static str = "private_message";
    pub const CREATE_PRIVATE_MESSAGE_REPORT: &'static str = "private_message/report";
    pub const CREATE_SITE: &'static str = "site";
    pub const DELETE_ACCOUNT: &'static str = "user/delete_account";
    pub const DELETE_COMMENT: &'static str = "comment/delete";
    pub const DELETE_COMMUNITY: &'static str = "community/delete";
    pub const DELETE_CUSTOM_EMOJI: &'static str = "custom_emoji/delete";
    pub const DELETE_POST: &'static str = "post/delete";
    pub const DELETE_PRIVATE_MESSAGE: &'static str = "private_message/delete";
    pub const DISTINGUISH_COMMENT: &'static str = "comment/distinguish";
    pub const FEATURE_POST: &'static str = "post/feature";
    pub const FOLLOW_COMMUNITY: &'static str = "community/follow";
    pub const LEAVE_ADMIN: &'static str = "user/leave_admin";
    pub const LIKE_COMMENT: &'static str = "comment/like";
    pub const LIKE_POST: &'static str = "post/like";
    pub const LOCK_POST: &'static str = "post/lock";
    pub const LOGIN: &'static str = "user/login";
    pub const MARK_ALL_AS_READ: &'static str = "user/mark_all_as_read";
    pub const MARK_COMMENT_REPLY_AS_READ: &'static str = "comment/mark_as_read";
    pub const MARK_PERSON_MENTION_AS_READ: &'static str = "user/mention/mark_as_read";
    pub const MARK_POST_AS_READ: &'static str = "post/mark_as_read";
    pub const MARK_PRIVATE_MESSAGE_AS_READ: &'static str = "private_message/mark_as_read";
    pub const PASSWORD_CHANGE_AFTER_RESET: &'static str = "user/password_change";
    pub const PASSWORD_RESET: &'static str = "user/password_reset";
    pub const PURGE_COMMENT: &'static str = "admin/purge/comment";
    pub const PURGE_COMMUNITY: &'static str = "admin/purge/community";
    pub const PURGE_PERSON: &'static str = "admin/purge/person";
    pub const PURGE_POST: &'static str = "admin/purge/post";
    pub const REGISTER: &'static str = "user/register";
    pub const REMOVE_COMMENT: &'static str = "comment/remove";
    pub const REMOVE_COMMUNITY: &'static str = "community/remove";
    pub const REMOVE_POST: &'static str = "post/remove";
    pub const TRANSFER_COMMUNITY: &'static str = "community/transfer";
    pub const UPLOAD_IMAGE: &'static str = "TBD?";
    pub const VERIFY_EMAIL: &'static str = "user/verify_email";
}

/// The operations that are asked for with `PUT`.
#[derive(Clone, Debug, PartialEq, Eq)]
pub struct PutEndpoint(pub String);

impl PutEndpoint {
    pub const APPROVE_REGISTRATION_APPLICATION: &'static str =
        "admin/registration_application/approve";
    pub const CHANGE_PASSWORD: &'static str = "user/change_password";
    pub const EDIT_COMMENT: &'static str = "comment";
    pub const EDIT_COMMUNITY: &'static str = "community";
    pub const EDIT_CUSTOM_EMOJI: &'static str = "custom_emoji";
    pub const EDIT_POST: &'static str = "post";
    pub const EDIT_PRIVATE_MESSAGE: &'static str = "private_message";
    pub const EDIT_SITE: &'static str = "site";
    pub const RESOLVE_COMMENT_REPORT: &'static str = "comment/report/resolve";
    pub const RESOLVE_POST_REPORT: &'static str = "post/report/resolve";
    pub const RESOLVE_PRIVATE_MESSAGE_REPORT: &'static str = "private_message/report/resolve";
    pub const SAVE_COMMENT: &'static str = "comment/save";
    pub const SAVE_POST: &'static str = "post/save";
    pub const SAVE_USER_SETTINGS: &'static str = "user/save_user_settings";
}

/// The pages of the interface that show a feed.
#[derive(Clone, Debug, PartialEq, Eq)]
pub struct RouterEndpoint(pub String);

impl RouterEndpoint {
    pub const COMMUNITY: &'static str = "community";
    pub const HOME: &'static str = "home";
    pub const USER: &'static str = "user";
}

/// The verbs of HTTP that the API takes.
#[derive(Clone, Copy, Debug, PartialEq, Eq, Structural)]
pub enum HttpVerb {
    Get,
    Post,
    Put,
}

/// The operations of the API, one variant for each. What is no variant is
/// no operation: there is no looking up by a string.
#[derive(Clone, Copy, Debug, PartialEq, Eq, Structural)]
pub enum Operation {
    GetBannedPersons,
    GetCaptcha,
    GetComment,
    GetComments,
    GetCommunity,
    GetFederatedInstances,
    GetModlog,
    GetPersonDetails,
    GetPersonMentions,
    GetPost,
    GetPosts,
    GetPrivateMessages,
    GetReplies,
    GetReportCount,
    GetSite,
    GetSiteMetadata,
    GetUnreadCount,
    GetUnreadRegistrationApplicationCount,
    ListCommentReports,
    ListCommunities,
    ListPostReports,
    ListPrivateMessageReports,
    ListRegistrationApplications,
    ResolveObject,
    Search,
    AddAdmin,
    AddModToCommunity,
    BanFromCommunity,
    BanPerson,
    BlockCommunity,
    BlockPerson,
    CreateComment,
    CreateCommentReport,
    CreateCommunity,
    CreateCustomEmoji,
    CreatePost,
    CreatePostReport,
    CreatePrivateMessage,
    CreatePrivateMessageReport,
    CreateSite,
    DeleteAccount,
    DeleteComment,
    DeleteCommunity,
    DeleteCustomEmoji,
    DeletePost,
    DeletePrivateMessage,
    DistinguishComment,
    FeaturePost,
    FollowCommunity,
    LeaveAdmin,
    LikeComment,
    LikePost,
    LockPost,
    Login,
    MarkAllAsRead,
    MarkCommentReplyAsRead,
    MarkPersonMentionAsRead,
    MarkPostAsRead,
    MarkPrivateMessageAsRead,
    PasswordChangeAfterReset,
    PasswordReset,
    PurgeComment,
    PurgeCommunity,
    PurgePerson,
    PurgePost,
    Register,
    RemoveComment,
    RemoveCommunity,
    RemovePost,
    TransferCommunity,
    UploadImage,
    VerifyEmail,
    ApproveRegistrationApplication,
    ChangePassword,
    EditComment,
    EditCommunity,
    EditCustomEmoji,
    EditPost,
    EditPrivateMessage,
    EditSite,
    ResolveCommentReport,
    ResolvePostReport,
    ResolvePrivateMessageReport,
    SaveComment,
    SavePost,
    SaveUserSettings,
}

impl Operation {
    /// The path of an operation.
    pub open spec fn path_text(self) -> Seq<char> {
        match self {
            Self::GetBannedPersons => "user/banned"@,
            Self::GetCaptcha => "user/get_captcha"@,
            Self::GetComment => "comment"@,
            Self::GetComments => "comment/list"@,
            Self::GetCommunity => "community"@,
            Self::GetFederatedInstances => "federated_instances"@,
            Self::GetModlog => "modlog"@,
            Self::GetPersonDetails => "user"@,
            Self::GetPersonMentions => "user/mention"@,
            Self::GetPost => "post"@,
            Self::GetPosts => "post/list"@,
            Self::GetPrivateMessages => "private_message/list"@,
            Self::GetReplies => "user/replies"@,
            Self::GetReportCount => "user/report_count"@,
            Self::GetSite => "site"@,
            Self::GetSiteMetadata => "post/site_metadata"@,
            Self::GetUnreadCount => "user/unread_count"@,
            Self::GetUnreadRegistrationApplicationCount => "admin/registration_application/count"@,
            Self::ListCommentReports => "comment/report/list"@,
            Self::ListCommunities => "community/list"@,
            Self::ListPostReports => "post/report/list"@,
            Self::ListPrivateMessageReports => "private_message/report/list"@,
            Self::ListRegistrationApplications => "admin/registration_application/list"@,
            Self::ResolveObject => "resolve_object"@,
            Self::Search => "search"@,
            Self::AddAdmin => "admin/add"@,
            Self::AddModToCommunity => "community/mod"@,
            Self::BanFromCommunity => "community/ban_user"@,
            Self::BanPerson => "user/ban"@,
            Self::BlockCommunity => "community/block"@,
            Self::BlockPerson => "user/block"@,
            Self::CreateComment => "comment"@,
            Self::CreateCommentReport => "comment/report"@,
            Self::CreateCommunity => "community"@,
            Self::CreateCustomEmoji => "custom_emoji"@,
            Self::CreatePost => "post"@,
            Self::CreatePostReport => "post/report"@,
            Self::CreatePrivateMessage => "private_message"@,
            Self::CreatePrivateMessageReport => "private_message/report"@,
            Self::CreateSite => "site"@,
            Self::DeleteAccount => "user/delete_account"@,
            Self::DeleteComment => "comment/delete"@,
            Self::DeleteCommunity => "community/delete"@,
            Self::DeleteCustomEmoji => "custom_emoji/delete"@,
            Self::DeletePost => "post/delete"@,
            Self::DeletePrivateMessage => "private_message/delete"@,
            Self::DistinguishComment => "comment/distinguish"@,
            Self::FeaturePost => "post/feature"@,
            Self::FollowCommunity => "community/follow"@,
            Self::LeaveAdmin => "user/leave_admin"@,
            Self::LikeComment => "comment/like"@,
            Self::LikePost => "post/like"@,
            Self::LockPost => "post/lock"@,
            Self::Login => "user/login"@,
            Self::MarkAllAsRead => "user/mark_all_as_read"@,
            Self::MarkCommentReplyAsRead => "comment/mark_as_read"@,
            Self::MarkPersonMentionAsRead => "user/mention/mark_as_read"@,
            Self::MarkPostAsRead => "post/mark_as_read"@,
            Self::MarkPrivateMessageAsRead => "private_message/mark_as_read"@,
            Self::PasswordChangeAfterReset => "user/password_change"@,
            Self::PasswordReset => "user/password_reset"@,
            Self::PurgeComment => "admin/purge/comment"@,
            Self::PurgeCommunity => "admin/purge/community"@,
            Self::PurgePerson => "admin/purge/person"@,
            Self::PurgePost => "admin/purge/post"@,
            Self::Register => "user/register"@,
            Self::RemoveComment => "comment/remove"@,
            Self::RemoveCommunity => "community/remove"@,
            Self::RemovePost => "post/remove"@,
            Self::TransferCommunity => "community/transfer"@,
            Self::UploadImage => "TBD?"@,
            Self::VerifyEmail => "user/verify_email"@,
            Self::ApproveRegistrationApplication => "admin/registration_application/approve"@,
            Self::ChangePassword => "user/change_password"@,
            Self::EditComment => "comment"@,
            Self::EditCommunity => "community"@,
            Self::EditCustomEmoji => "custom_emoji"@,
            Self::EditPost => "post"@,
            Self::EditPrivateMessage => "private_message"@,
            Self::EditSite => "site"@,
            Self::ResolveCommentReport => "comment/report/resolve"@,
            Self::ResolvePostReport => "post/report/resolve"@,
            Self::ResolvePrivateMessageReport => "private_message/report/resolve"@,
            Self::SaveComment => "comment/save"@,
            Self::SavePost => "post/save"@,
            Self::SaveUserSettings => "user/save_user_settings"@,
        }
    }

    /// The verb that an operation is asked for with.
    pub open spec fn verb_of(self) -> HttpVerb {
        match self {
            Self::GetBannedPersons | Self::GetCaptcha | Self::GetComment | Self::GetComments
            | Self::GetCommunity | Self::GetFederatedInstances | Self::GetModlog
            | Self::GetPersonDetails | Self::GetPersonMentions | Self::GetPost | Self::GetPosts
            | Self::GetPrivateMessages | Self::GetReplies | Self::GetReportCount
            | Self::GetSite | Self::GetSiteMetadata | Self::GetUnreadCount
            | Self::GetUnreadRegistrationApplicationCount | Self::ListCommentReports
            | Self::ListCommunities | Self::ListPostReports | Self::ListPrivateMessageReports
            | Self::ListRegistrationApplications | Self::ResolveObject
            | Self::Search => HttpVerb::Get,
            Self::AddAdmin | Self::AddModToCommunity | Self::BanFromCommunity | Self::BanPerson
            | Self::BlockCommunity | Self::BlockPerson | Self::CreateComment
            | Self::CreateCommentReport | Self::CreateCommunity | Self::CreateCustomEmoji
            | Self::CreatePost | Self::CreatePostReport | Self::CreatePrivateMessage
            | Self::CreatePrivateMessageReport | Self::CreateSite | Self::DeleteAccount
            | Self::DeleteComment | Self::DeleteCommunity | Self::DeleteCustomEmoji
            | Self::DeletePost | Self::DeletePrivateMessage | Self::DistinguishComment
            | Self::FeaturePost | Self::FollowCommunity | Self::LeaveAdmin | Self::LikeComment
            | Self::LikePost | Self::LockPost | Self::Login | Self::MarkAllAsRead
            | Self::MarkCommentReplyAsRead | Self::MarkPersonMentionAsRead
            | Self::MarkPostAsRead | Self::MarkPrivateMessageAsRead
            | Self::PasswordChangeAfterReset | Self::PasswordReset | Self::PurgeComment
            | Self::PurgeCommunity | Self::PurgePerson | Self::PurgePost | Self::Register
            | Self::RemoveComment | Self::RemoveCommunity | Self::RemovePost
            | Self::TransferCommunity | Self::UploadImage | Self::VerifyEmail => HttpVerb::Post,
            Self::ApproveRegistrationApplication | Self::ChangePassword | Self::EditComment
            | Self::EditCommunity | Self::EditCustomEmoji | Self::EditPost
            | Self::EditPrivateMessage | Self::EditSite | Self::ResolveCommentReport
            | Self::ResolvePostReport | Self::ResolvePrivateMessageReport | Self::SaveComment
            | Self::SavePost | Self::SaveUserSettings => HttpVerb::Put,
        }
    }

    /// The path of the operation, from the registry.
    pub fn path(&self) -> (res: &'static str)
        ensures
            res@ == self.path_text(),
    {
        match self {
            Self::GetBannedPersons => GetEndpoint::GET_BANNED_PERSONS,
            Self::GetCaptcha => GetEndpoint::GET_CAPTCHA,
            Self::GetComment => GetEndpoint::GET_COMMENT,
            Self::GetComments => GetEndpoint::GET_COMMENTS,
            Self::GetCommunity => GetEndpoint::GET_COMMUNITY,
            Self::GetFederatedInstances => GetEndpoint::GET_FEDERATED_INSTANCES,
            Self::GetModlog => GetEndpoint::GET_MODLOG,
            Self::GetPersonDetails => GetEndpoint::GET_PERSON_DETAILS,
            Self::GetPersonMentions => GetEndpoint::GET_PERSON_MENTIONS,
            Self::GetPost => GetEndpoint::GET_POST,
            Self::GetPosts => GetEndpoint::GET_POSTS,
            Self::GetPrivateMessages => GetEndpoint::GET_PRIVATE_MESSAGES,
            Self::GetReplies => GetEndpoint::GET_REPLIES,
            Self::GetReportCount => GetEndpoint::GET_REPORT_COUNT,
            Self::GetSite => GetEndpoint::GET_SITE,
            Self::GetSiteMetadata => GetEndpoint::GET_SITE_METADATA,
            Self::GetUnreadCount => GetEndpoint::GET_UNREAD_COUNT,
            Self::GetUnreadRegistrationApplicationCount => {
                GetEndpoint::GET_UNREAD_REGISTRATION_APPLICATION_COUNT
            },
            Self::ListCommentReports => GetEndpoint::LIST_COMMENT_REPORTS,
            Self::ListCommunities => GetEndpoint::LIST_COMMUNITIES,
            Self::ListPostReports => GetEndpoint::LIST_POST_REPORTS,
            Self::ListPrivateMessageReports => GetEndpoint::LIST_PRIVATE_MESSAGE_REPORTS,
            Self::ListRegistrationApplications => GetEndpoint::LIST_REGISTRATION_APPLICATIONS,
            Self::ResolveObject => GetEndpoint::RESOLVE_OBJECT,
            Self::Search => GetEndpoint::SEARCH,
            Self::AddAdmin => PostEndpoint::ADD_ADMIN,
            Self::AddModToCommunity => PostEndpoint::ADD_MOD_TO_COMMUNITY,
            Self::BanFromCommunity => PostEndpoint::BAN_FROM_COMMUNITY,
            Self::BanPerson => PostEndpoint::BAN_PERSON,
            Self::BlockCommunity => PostEndpoint::BLOCK_COMMUNITY,
            Self::BlockPerson => PostEndpoint::BLOCK_PERSON,
            Self::CreateComment => PostEndpoint::CREATE_COMMENT,
            Self::CreateCommentReport => PostEndpoint::CREATE_COMMENT_REPORT,
            Self::CreateCommunity => PostEndpoint::CREATE_COMMUNITY,
            Self::CreateCustomEmoji => PostEndpoint::CREATE_CUSTOM_EMOJI,
            Self::CreatePost => PostEndpoint::CREATE_POST,
            Self::CreatePostReport => PostEndpoint::CREATE_POST_REPORT,
            Self::CreatePrivateMessage => PostEndpoint::CREATE_PRIVATE_MESSAGE,
            Self::CreatePrivateMessageReport => PostEndpoint::CREATE_PRIVATE_MESSAGE_REPORT,
            Self::CreateSite => PostEndpoint::CREATE_SITE,
            Self::DeleteAccount => PostEndpoint::DELETE_ACCOUNT,
            Self::DeleteComment => PostEndpoint::DELETE_COMMENT,
            Self::DeleteCommunity => PostEndpoint::DELETE_COMMUNITY,
            Self::DeleteCustomEmoji => PostEndpoint::DELETE_CUSTOM_EMOJI,
            Self::DeletePost => PostEndpoint::DELETE_POST,
            Self::DeletePrivateMessage => PostEndpoint::DELETE_PRIVATE_MESSAGE,
            Self::DistinguishComment => PostEndpoint::DISTINGUISH_COMMENT,
            Self::FeaturePost => PostEndpoint::FEATURE_POST,
            Self::FollowCommunity => PostEndpoint::FOLLOW_COMMUNITY,
            Self::LeaveAdmin => PostEndpoint::LEAVE_ADMIN,
            Self::LikeComment => PostEndpoint::LIKE_COMMENT,
            Self::LikePost => PostEndpoint::LIKE_POST,
            Self::LockPost => PostEndpoint::LOCK_POST,
            Self::Login => PostEndpoint::LOGIN,
            Self::MarkAllAsRead => PostEndpoint::MARK_ALL_AS_READ,
            Self::MarkCommentReplyAsRead => PostEndpoint::MARK_COMMENT_REPLY_AS_READ,
            Self::MarkPersonMentionAsRead => PostEndpoint::MARK_PERSON_MENTION_AS_READ,
            Self::MarkPostAsRead => PostEndpoint::MARK_POST_AS_READ,
            Self::MarkPrivateMessageAsRead => PostEndpoint::MARK_PRIVATE_MESSAGE_AS_READ,
            Self::PasswordChangeAfterReset => PostEndpoint::PASSWORD_CHANGE_AFTER_RESET,
            Self::PasswordReset => PostEndpoint::PASSWORD_RESET,
            Self::PurgeComment => PostEndpoint::PURGE_COMMENT,
            Self::PurgeCommunity => PostEndpoint::PURGE_COMMUNITY,
            Self::PurgePerson => PostEndpoint::PURGE_PERSON,
            Self::PurgePost => PostEndpoint::PURGE_POST,
            Self::Register => PostEndpoint::REGISTER,
            Self::RemoveComment => PostEndpoint::REMOVE_COMMENT,
            Self::RemoveCommunity => PostEndpoint::REMOVE_COMMUNITY,
            Self::RemovePost => PostEndpoint::REMOVE_POST,
            Self::TransferCommunity => PostEndpoint::TRANSFER_COMMUNITY,
            Self::UploadImage => PostEndpoint::UPLOAD_IMAGE,
            Self::VerifyEmail => PostEndpoint::VERIFY_EMAIL,
            Self::ApproveRegistrationApplication => PutEndpoint::APPROVE_REGISTRATION_APPLICATION,
            Self::ChangePassword => PutEndpoint::CHANGE_PASSWORD,
            Self::EditComment => PutEndpoint::EDIT_COMMENT,
            Self::EditCommunity => PutEndpoint::EDIT_COMMUNITY,
            Self::EditCustomEmoji => PutEndpoint::EDIT_CUSTOM_EMOJI,
            Self::EditPost => PutEndpoint::EDIT_POST,
            Self::EditPrivateMessage => PutEndpoint::EDIT_PRIVATE_MESSAGE,
            Self::EditSite => PutEndpoint::EDIT_SITE,
            Self::ResolveCommentReport => PutEndpoint::RESOLVE_COMMENT_REPORT,
            Self::ResolvePostReport => PutEndpoint::RESOLVE_POST_REPORT,
            Self::ResolvePrivateMessageReport => PutEndpoint::RESOLVE_PRIVATE_MESSAGE_REPORT,
            Self::SaveComment => PutEndpoint::SAVE_COMMENT,
            Self::SavePost => PutEndpoint::SAVE_POST,
            Self::SaveUserSettings => PutEndpoint::SAVE_USER_SETTINGS,
        }
    }

    /// The verb of the operation.
    pub fn verb(&self) -> (res: HttpVerb)
        ensures
            res == self.verb_of(),
    {
        match self {
            Self::GetBannedPersons | Self::GetCaptcha | Self::GetComment | Self::GetComments
            | Self::GetCommunity | Self::GetFederatedInstances | Self::GetModlog
            | Self::GetPersonDetails | Self::GetPersonMentions | Self::GetPost | Self::GetPosts
            | Self::GetPrivateMessages | Self::GetReplies | Self::GetReportCount
            | Self::GetSite | Self::GetSiteMetadata | Self::GetUnreadCount
            | Self::GetUnreadRegistrationApplicationCount | Self::ListCommentReports
            | Self::ListCommunities | Self::ListPostReports | Self::ListPrivateMessageReports
            | Self::ListRegistrationApplications | Self::ResolveObject
            | Self::Search => HttpVerb::Get,
            Self::AddAdmin | Self::AddModToCommunity | Self::BanFromCommunity | Self::BanPerson
            | Self::BlockCommunity | Self::BlockPerson | Self::CreateComment
            | Self::CreateCommentReport | Self::CreateCommunity | Self::CreateCustomEmoji
            | Self::CreatePost | Self::CreatePostReport | Self::CreatePrivateMessage
            | Self::CreatePrivateMessageReport | Self::CreateSite | Self::DeleteAccount
            | Self::DeleteComment | Self::DeleteCommunity | Self::DeleteCustomEmoji
            | Self::DeletePost | Self::DeletePrivateMessage | Self::DistinguishComment
            | Self::FeaturePost | Self::FollowCommunity | Self::LeaveAdmin | Self::LikeComment
            | Self::LikePost | Self::LockPost | Self::Login | Self::MarkAllAsRead
            | Self::MarkCommentReplyAsRead | Self::MarkPersonMentionAsRead
            | Self::MarkPostAsRead | Self::MarkPrivateMessageAsRead
            | Self::PasswordChangeAfterReset | Self::PasswordReset | Self::PurgeComment
            | Self::PurgeCommunity | Self::PurgePerson | Self::PurgePost | Self::Register
            | Self::RemoveComment | Self::RemoveCommunity | Self::RemovePost
            | Self::TransferCommunity | Self::UploadImage | Self::VerifyEmail => HttpVerb::Post,
            Self::ApproveRegistrationApplication | Self::ChangePassword | Self::EditComment
            | Self::EditCommunity | Self::EditCustomEmoji | Self::EditPost
            | Self::EditPrivateMessage | Self::EditSite | Self::ResolveCommentReport
            | Self::ResolvePostReport | Self::ResolvePrivateMessageReport | Self::SaveComment
            | Self::SavePost | Self::SaveUserSettings => HttpVerb::Put,
        }
    }
}

} // verus!
