//! The request and response records of the API, by subject. Every record is
//! written and read by the one policy of `payload`.

pub mod comment;
pub mod community;
pub mod post;
pub mod person;
pub mod site;
pub mod modlog;
pub mod private_message;
pub mod report;
pub mod misc;

pub use self::comment::{
    Comment, CommentAggregates, CommentReply, CommentReplyResponse, CommentReplyView,
    CommentResponse, CommentView, CreateComment, CreateCommentLike, DeleteComment,
    DistinguishComment, EditComment, GetComment, GetComments, GetCommentsResponse,
    MarkCommentReplyAsRead, PurgeComment, RemoveComment, SaveComment,
};
pub use self::community::{
    AddModToCommunity, AddModToCommunityResponse, BanFromCommunity, BanFromCommunityResponse,
    BlockCommunity, BlockCommunityResponse, Community, CommunityAggregates, CommunityBlockView,
    CommunityFollowerView, CommunityJoin, CommunityJoinResponse, CommunityModeratorView,
    CommunityResponse, CommunityView, CreateCommunity, DeleteCommunity, EditCommunity,
    FollowCommunity, GetCommunity, GetCommunityResponse, HideCommunity, ListCommunities,
    ListCommunitiesResponse, PurgeCommunity, RemoveCommunity, TransferCommunity,
};
pub use self::post::{
    CreatePost, CreatePostLike, DeletePost, EditPost, FeaturePost, GetPost, GetPostResponse,
    GetPosts, GetPostsResponse, LockPost, MarkPostAsRead, Post, PostAggregates, PostJoin,
    PostJoinResponse, PostResponse, PostView, PurgePost, RemovePost, SavePost,
};
pub use self::person::{
    AddAdmin, AddAdminResponse, ApproveRegistrationApplication, BanPerson, BanPersonResponse,
    BannedPersonsResponse, BlockPerson, BlockPersonResponse, CaptchaResponse, ChangePassword,
    DeleteAccount, GetBannedPersons, GetCaptcha, GetCaptchaResponse, GetPersonDetails,
    GetPersonDetailsResponse, GetPersonMentions, GetPersonMentionsResponse, GetReplies,
    GetRepliesResponse, GetUnreadCount, GetUnreadCountResponse,
    GetUnreadRegistrationApplicationCount, GetUnreadRegistrationApplicationCountResponse,
    LeaveAdmin, ListRegistrationApplications, ListRegistrationApplicationsResponse, LocalUser,
    LocalUserView, Login, LoginResponse, MarkAllAsRead, MarkPersonMentionAsRead, MyUserInfo,
    PasswordChangeAfterReset, PasswordReset, Person, PersonAggregates, PersonBlockView,
    PersonMention, PersonMentionResponse, PersonMentionView, PersonView, PurgePerson, Register,
    RegisterationApplication, RegisterationApplicationResponse, RegistrationApplicationView,
    SaveUserSettings, UserJoin, UserJoinResponse, VerifyEmail,
};
pub use self::site::{
    CreateCustomEmoji, CreateSite, CustomEmoji, CustomEmojiKeyword, CustomEmojiResponse,
    CustomEmojiView, DeleteCustomEmoji, DeleteCustomEmojiResponse, EditCustomEmoji, EditSite,
    FederatedInstances, GetFederatedInstances, GetFederatedInstancesResponse, GetSite,
    GetSiteMetadata, GetSiteMetadataResponse, GetSiteResponse, Instance, Language, LocalSite,
    LocalSiteRateLimit, Site, SiteAggregates, SiteMetadata, SiteResponse, SiteView, Tagline,
};
pub use self::modlog::{
    AdminPurgeComment, AdminPurgeCommentView, AdminPurgeCommunity, AdminPurgeCommunityView,
    AdminPurgePerson, AdminPurgePersonView, AdminPurgePost, AdminPurgePostView, GetModlog,
    GetModlogResponse, ModAdd, ModAddCommunityView, ModAddView, ModBan, ModBanFromCommunity,
    ModBanFromCommunityView, ModBanView, ModFeaturePost, ModFeaturePostView, ModHideCommunity,
    ModHideCommunityView, ModJoin, ModJoinResponse, ModLockPost, ModLockPostView, ModRemoveComment,
    ModRemoveCommentView, ModRemoveCommunity, ModRemoveCommunityView, ModRemovePost,
    ModRemovePostView, ModTransferCommunity, ModTransferCommunityView, ModdAddCommunity,
    ModlogListParams,
};
pub use self::private_message::{
    CreatePrivateMessage, CreatePrivateMessageReport, DeletePrivateMessage, EditPrivateMessage,
    GetPrivateMEssages, ListPrivateMessageReports, ListPrivateMessageReportsResponse,
    MarkPrivateMessageAsRead, PrivateMessage, PrivateMessageReport, PrivateMessageReportResponse,
    PrivateMessageReportView, PrivateMessageResponse, PrivateMessageView, PrivateMessagesResponse,
    ResolvePrivateMEssageReport,
};
pub use self::report::{
    CommentReport, CommentReportResponse, CommentReportView, CreateCommentReport, CreatePostReport,
    GetReportCount, GetReportCountResponse, ListCommentReports, ListCommentReportsResponse,
    ListPostReports, ListPostReportsResponse, PostReport, PostReportResponse, PostReportView,
    ResolveCommentReport, ResolvePostReport,
};
pub use self::misc::{
    ErrorResponse, ImageFile, PurgeItemResponse, ResolveObject, ResolveObjectResponse, Search,
    SearchResponse, UploadImage, UploadImageResponse,
};
