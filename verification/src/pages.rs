//! What the pages of the interface ask of the server: the number of the
//! page that is shown, the links to the pages before and after it, and the
//! request record of each page.

use vstd::prelude::*;
use vstd::string::*;
use crate::actors::{community_name, community_name_text};
use crate::enums::{ListingType, ModlogActionType, SortType};
use crate::json::JsonTree;
use crate::payload::Payload;
use crate::records::{
    Community, GetComments, GetCommunity, GetFederatedInstances, GetModlog, GetModlogResponse,
    GetPersonDetails, GetPost, GetSite, ListCommunities,
};
use crate::text::{decimal, decimal_text, parse_i32, parsed_i32};

verus! {

/// The page that is shown where none is asked for.
pub const FIRST_PAGE: i32 = 1;

/// The number of communities in the list of trending communities.
pub const TRENDING_LIMIT: i32 = 10;

/// The number of communities on a page of the list of communities.
pub const COMMUNITIES_PAGE_SIZE: i32 = 50;

/// The number of entries of each kind on a page of the moderation log.
pub const MOD_LOG_PAGE_SIZE: i32 = 3;

/// The page that a query asks for: the number under `page` where there is
/// one, and the first page where there is none or it is no number.
pub open spec fn page_of(param: Option<Seq<char>>) -> i32 {
    match param {
        Some(text) => match parsed_i32(text) {
            Some(page) => page,
            None => FIRST_PAGE,
        },
        None => FIRST_PAGE,
    }
}

/// The link to a page: `?page=` and its number.
pub open spec fn page_link_text(page: int) -> Seq<char> {
    "?page="@ + decimal_text(page)
}

/// The page that a query asks for. `param` is what the query holds under
/// `page`.
pub fn page_number(param: Option<&str>) -> (page: i32)
    ensures
        page == page_of(
            match param {
                Some(text) => Some(text@),
                None => None,
            },
        ),
{
    match param {
        Some(text) => match parse_i32(text) {
            Some(page) => page,
            None => FIRST_PAGE,
        },
        None => FIRST_PAGE,
    }
}

fn page_link(page: i32) -> (out: String)
    ensures
        out@ == page_link_text(page as int),
{
    let mut out = "?page=".to_owned();
    let number = decimal(page as i64);
    out.append(number.as_str());
    out
}

/// The link to the page before `page`. There is none before the first
/// page.
pub fn previous_page(page: i32) -> (res: Option<String>)
    ensures
        match res {
            Some(link) => page > FIRST_PAGE && link@ == page_link_text(page - 1),
            None => page <= FIRST_PAGE,
        },
{
    if page > FIRST_PAGE {
        Some(page_link(page - 1))
    } else {
        None
    }
}

/// The link to the page after `page`. There is none after the last page
/// that has a number.
pub fn next_page(page: i32) -> (res: Option<String>)
    ensures
        match res {
            Some(link) => page < i32::MAX && link@ == page_link_text(page + 1),
            None => page == i32::MAX,
        },
{
    if page < i32::MAX {
        Some(page_link(page + 1))
    } else {
        None
    }
}

/// The comments of a post, asked for by the post and by the name by which
/// its community goes.
pub fn comments_request(post_id: i32, community: &Community) -> (form: GetComments)
    ensures
        form.tree() == JsonTree::Object(
            GetComments::members(
                None,
                None,
                Some(JsonTree::Str(community_name_text(*community))),
                None,
                None,
                None,
                None,
                Some(JsonTree::Int(post_id as int)),
                None,
                None,
                None,
            ),
        ),
{
    GetComments {
        auth: None,
        community_id: None,
        community_name: Some(community_name(community)),
        limit: None,
        max_depth: None,
        page: None,
        parent_id: None,
        post_id: Some(post_id),
        saved_only: None,
        sort: None,
        type_: None,
    }
}

/// One post, asked for by its number.
pub fn post_request(id: i32) -> (form: GetPost)
    ensures
        form.tree() == JsonTree::Object(
            GetPost::members(None, None, Some(JsonTree::Int(id as int))),
        ),
{
    GetPost { auth: None, comment_id: None, id: Some(id) }
}

/// One community, asked for by its name.
pub fn community_request(name: &str) -> (form: GetCommunity)
    ensures
        form.tree() == JsonTree::Object(
            GetCommunity::members(None, None, Some(JsonTree::Str(name@))),
        ),
{
    GetCommunity { auth: None, id: None, name: Some(name.to_owned()) }
}

/// The site.
pub fn site_request() -> (form: GetSite)
    ensures
        form.tree() == JsonTree::Object(GetSite::members(None)),
{
    GetSite { auth: None }
}

/// One person, asked for by their name.
pub fn person_request(username: &str) -> (form: GetPersonDetails)
    ensures
        form.tree() == JsonTree::Object(
            GetPersonDetails::members(
                None,
                None,
                None,
                None,
                None,
                None,
                None,
                Some(JsonTree::Str(username@)),
            ),
        ),
{
    GetPersonDetails {
        auth: None,
        community_id: None,
        limit: None,
        page: None,
        person_id: None,
        saved_only: None,
        sort: None,
        username: Some(username.to_owned()),
    }
}

/// A page of the local communities, the most active of the month first.
pub fn communities_request(limit: i32, page: i32) -> (form: ListCommunities)
    ensures
        form.tree() == JsonTree::Object(
            ListCommunities::members(
                None,
                Some(JsonTree::Int(limit as int)),
                Some(JsonTree::Int(page as int)),
                None,
                Some(SortType::TopMonth.tree()),
                Some(ListingType::Local.tree()),
            ),
        ),
{
    ListCommunities {
        auth: None,
        limit: Some(limit),
        page: Some(page),
        show_nsfw: None,
        sort: Some(SortType::TopMonth),
        type_: Some(ListingType::Local),
    }
}

/// The trending communities: the first `TRENDING_LIMIT` of the local
/// communities.
pub fn trending_communities_request() -> (form: ListCommunities)
    ensures
        form.tree() == JsonTree::Object(
            ListCommunities::members(
                None,
                Some(JsonTree::Int(TRENDING_LIMIT as int)),
                Some(JsonTree::Int(FIRST_PAGE as int)),
                None,
                Some(SortType::TopMonth.tree()),
                Some(ListingType::Local.tree()),
            ),
        ),
{
    communities_request(TRENDING_LIMIT, FIRST_PAGE)
}

/// A page of the list of communities.
pub fn communities_page_request(page: i32) -> (form: ListCommunities)
    ensures
        form.tree() == JsonTree::Object(
            ListCommunities::members(
                None,
                Some(JsonTree::Int(COMMUNITIES_PAGE_SIZE as int)),
                Some(JsonTree::Int(page as int)),
                None,
                Some(SortType::TopMonth.tree()),
                Some(ListingType::Local.tree()),
            ),
        ),
{
    communities_request(COMMUNITIES_PAGE_SIZE, page)
}

/// The instances that this one federates with.
pub fn federated_instances_request() -> (form: GetFederatedInstances)
    ensures
        form.tree() == JsonTree::Object(GetFederatedInstances::members(None)),
{
    GetFederatedInstances { auth: None }
}

/// A page of the moderation log.
pub fn mod_log_request(page: i32) -> (form: GetModlog)
    ensures
        form.tree() == JsonTree::Object(
            GetModlog::members(
                None,
                None,
                Some(JsonTree::Int(MOD_LOG_PAGE_SIZE as int)),
                None,
                None,
                Some(JsonTree::Int(page as int)),
                None,
            ),
        ),
{
    GetModlog {
        auth: None,
        community_id: None,
        limit: Some(MOD_LOG_PAGE_SIZE),
        mod_person_id: None,
        other_person_id: None,
        page: Some(page),
        type_: None,
    }
}

/// An entry of the moderation log: the kind of the action, and the place of
/// the action among the actions of its kind.
pub type ModlogEntry = (ModlogActionType, usize);

/// The entries of one kind, in the order in which the server gave them.
pub open spec fn kind_entries(kind: ModlogActionType, count: nat) -> Seq<ModlogEntry> {
    Seq::new(count, |i: int| (kind, i as usize))
}

/// The entries of a page of the moderation log as one list: kind after
/// kind, in the order of the fields of the reply, and within a kind in the
/// order of the server.
pub open spec fn mod_log_order(log: GetModlogResponse) -> Seq<ModlogEntry> {
kind_entries(ModlogActionType::ModAdd, log.added@.len())
        + kind_entries(ModlogActionType::ModAddCommunity, log.added_to_community@.len())
        + kind_entries(ModlogActionType::AdminPurgeComment, log.admin_purged_comments@.len())
        + kind_entries(ModlogActionType::AdminPurgeCommunity, log.admin_purged_communities@.len())
        + kind_entries(ModlogActionType::AdminPurgePerson, log.admin_purged_persons@.len())
        + kind_entries(ModlogActionType::AdminPurgePost, log.admin_purged_posts@.len())
        + kind_entries(ModlogActionType::ModBan, log.banned@.len())
        + kind_entries(ModlogActionType::ModBanFromCommunity, log.banned_from_community@.len())
        + kind_entries(ModlogActionType::ModFeaturePost, log.featured_posts@.len())
        + kind_entries(ModlogActionType::ModHideCommunity, log.hidden_communities@.len())
        + kind_entries(ModlogActionType::ModLockPost, log.locked_posts@.len())
        + kind_entries(ModlogActionType::ModRemoveComment, log.removed_comments@.len())
        + kind_entries(ModlogActionType::ModRemoveCommunity, log.removed_communities@.len())
        + kind_entries(ModlogActionType::ModRemovePost, log.removed_posts@.len())
        + kind_entries(ModlogActionType::ModTransferCommunity, log.transferred_to_community@.len())
}

fn push_kind(out: &mut Vec<ModlogEntry>, kind: ModlogActionType, count: usize)
    ensures
        final(out)@ == old(out)@ + kind_entries(kind, count as nat),
{
    let ghost before = out@;
    let mut i: usize = 0;
    assert(before + kind_entries(kind, 0) =~= before);
    while i < count
        invariant
            i <= count,
            out@ == before + kind_entries(kind, i as nat),
        decreases count - i,
    {
        out.push((kind, i));
        assert(out@ =~= before + kind_entries(kind, (i + 1) as nat));
        i = i + 1;
    }
}

/// The entries of a page of the moderation log as one list. The list is
/// not in the order of time: it goes kind after kind.
pub fn mod_log_entries(log: &GetModlogResponse) -> (out: Vec<ModlogEntry>)
    ensures
        out@ == mod_log_order(*log),
{
    let mut out: Vec<ModlogEntry> = Vec::new();
    assert(Seq::<ModlogEntry>::empty() + kind_entries(ModlogActionType::ModAdd, log.added@.len())
        =~= kind_entries(ModlogActionType::ModAdd, log.added@.len()));
    push_kind(&mut out, ModlogActionType::ModAdd, log.added.len());
    push_kind(&mut out, ModlogActionType::ModAddCommunity, log.added_to_community.len());
    push_kind(&mut out, ModlogActionType::AdminPurgeComment, log.admin_purged_comments.len());
    push_kind(&mut out, ModlogActionType::AdminPurgeCommunity, log.admin_purged_communities.len());
    push_kind(&mut out, ModlogActionType::AdminPurgePerson, log.admin_purged_persons.len());
    push_kind(&mut out, ModlogActionType::AdminPurgePost, log.admin_purged_posts.len());
    push_kind(&mut out, ModlogActionType::ModBan, log.banned.len());
    push_kind(&mut out, ModlogActionType::ModBanFromCommunity, log.banned_from_community.len());
    push_kind(&mut out, ModlogActionType::ModFeaturePost, log.featured_posts.len());
    push_kind(&mut out, ModlogActionType::ModHideCommunity, log.hidden_communities.len());
    push_kind(&mut out, ModlogActionType::ModLockPost, log.locked_posts.len());
    push_kind(&mut out, ModlogActionType::ModRemoveComment, log.removed_comments.len());
    push_kind(&mut out, ModlogActionType::ModRemoveCommunity, log.removed_communities.len());
    push_kind(&mut out, ModlogActionType::ModRemovePost, log.removed_posts.len());
    push_kind(&mut out, ModlogActionType::ModTransferCommunity, log.transferred_to_community.len());
    out
}

} // verus!
