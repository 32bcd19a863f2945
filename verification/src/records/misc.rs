//! Records of search, of resolving an object by its address, of images,
//! and of the error that the server answers with.

use vstd::prelude::*;
use crate::json::{lookup, JsonTree, JsonValue, Member};
use crate::payload::{
    group_written_members, lemma_optional_reads_one, lemma_optional_round_trip,
    lemma_required_reads_one, members_view, object, optional, optional_admits, optional_agrees,
    put, put_optional, required, required_admits, required_agrees, with_field, with_optional,
    written, Payload,
};
use crate::enums::{ListingType, SearchType, SortType};
use crate::records::comment::{CommentView};
use crate::records::community::{CommunityView};
use crate::records::person::{PersonView};
use crate::records::post::{PostView};

verus! {

#[derive(Clone, Debug, PartialEq, Default)]
pub struct ErrorResponse {
    pub status: String,
    pub message: String,
}

impl ErrorResponse {
    /// The members that a record is written as, from what is written for
    /// each of its fields.
    pub open spec fn members(status: JsonTree, message: JsonTree) -> Seq<Member> {
        let members = Seq::empty();
        let members = with_field(members, "status"@, status);
        let members = with_field(members, "message"@, message);
        members
    }

    /// Each key leads to what was written under it, and to nothing where
    /// nothing was written.
    pub proof fn lemma_members(status: JsonTree, message: JsonTree)
        ensures
            ({
                let members = Self::members(status, message);
                &&& lookup(members, "status"@) == Some(status)
                &&& lookup(members, "message"@) == Some(message)
            }),
    {
        broadcast use group_written_members;

        reveal_strlit("status");
        reveal_strlit("message");
        assert("status"@.len() == 6);
        assert("message"@.len() == 7);
    }

    /// Every field is mandatory: each is written, in order, and nothing
    /// else.
    pub proof fn lemma_mandatory_fields_alone(status: JsonTree, message: JsonTree)
        ensures
            Self::members(status, message) == Seq::<Member>::empty()
                .push(("status"@, status))
                .push(("message"@, message)),
    {
        reveal(with_field);
        reveal(with_optional);
    }
}

impl Payload for ErrorResponse {
    open spec fn tree(&self) -> JsonTree {
        JsonTree::Object(Self::members(self.status.tree(), self.message.tree()))
    }

    open spec fn admits(t: JsonTree) -> bool {
        &&& t is Object
        &&& required_admits::<String>(t, "status"@)
        &&& required_admits::<String>(t, "message"@)
    }

    open spec fn agrees(&self, t: JsonTree) -> bool {
        &&& required_agrees(self.status, t, "status"@)
        &&& required_agrees(self.message, t, "message"@)
    }

    fn to_json(&self) -> (out: JsonValue) {
        let mut members: Vec<(String, JsonValue)> = Vec::new();
        assert(members_view(members@) =~= Seq::empty());
        put(&mut members, "status", &self.status);
        put(&mut members, "message", &self.message);
        object(members)
    }

    fn from_json(v: &JsonValue) -> (res: Option<Self>) {
        if !v.is_object() {
            return None;
        }
        let status = required::<String>(v, "status")?;
        let message = required::<String>(v, "message")?;
        Some(ErrorResponse { status, message })
    }

    proof fn lemma_round_trip(&self) {
        Self::lemma_members(self.status.tree(), self.message.tree());
        self.status.lemma_round_trip();
        self.message.lemma_round_trip();
    }

    proof fn lemma_reads_one(&self, other: &Self, t: JsonTree) {
        lemma_required_reads_one(self.status, other.status, t, "status"@);
        lemma_required_reads_one(self.message, other.message, t, "message"@);
    }
}

#[derive(Clone, Debug, PartialEq, Default)]
pub struct ImageFile {
    pub delete_token: String,
    pub file: String,
}

impl ImageFile {
    /// The members that a record is written as, from what is written for
    /// each of its fields.
    pub open spec fn members(delete_token: JsonTree, file: JsonTree) -> Seq<Member> {
        let members = Seq::empty();
        let members = with_field(members, "delete_token"@, delete_token);
        let members = with_field(members, "file"@, file);
        members
    }

    /// Each key leads to what was written under it, and to nothing where
    /// nothing was written.
    pub proof fn lemma_members(delete_token: JsonTree, file: JsonTree)
        ensures
            ({
                let members = Self::members(delete_token, file);
                &&& lookup(members, "delete_token"@) == Some(delete_token)
                &&& lookup(members, "file"@) == Some(file)
            }),
    {
        broadcast use group_written_members;

        reveal_strlit("delete_token");
        reveal_strlit("file");
        assert("delete_token"@.len() == 12);
        assert("file"@.len() == 4);
    }

    /// Every field is mandatory: each is written, in order, and nothing
    /// else.
    pub proof fn lemma_mandatory_fields_alone(delete_token: JsonTree, file: JsonTree)
        ensures
            Self::members(delete_token, file) == Seq::<Member>::empty()
                .push(("delete_token"@, delete_token))
                .push(("file"@, file)),
    {
        reveal(with_field);
        reveal(with_optional);
    }
}

impl Payload for ImageFile {
    open spec fn tree(&self) -> JsonTree {
        JsonTree::Object(Self::members(self.delete_token.tree(), self.file.tree()))
    }

    open spec fn admits(t: JsonTree) -> bool {
        &&& t is Object
        &&& required_admits::<String>(t, "delete_token"@)
        &&& required_admits::<String>(t, "file"@)
    }

    open spec fn agrees(&self, t: JsonTree) -> bool {
        &&& required_agrees(self.delete_token, t, "delete_token"@)
        &&& required_agrees(self.file, t, "file"@)
    }

    fn to_json(&self) -> (out: JsonValue) {
        let mut members: Vec<(String, JsonValue)> = Vec::new();
        assert(members_view(members@) =~= Seq::empty());
        put(&mut members, "delete_token", &self.delete_token);
        put(&mut members, "file", &self.file);
        object(members)
    }

    fn from_json(v: &JsonValue) -> (res: Option<Self>) {
        if !v.is_object() {
            return None;
        }
        let delete_token = required::<String>(v, "delete_token")?;
        let file = required::<String>(v, "file")?;
        Some(ImageFile { delete_token, file })
    }

    proof fn lemma_round_trip(&self) {
        Self::lemma_members(self.delete_token.tree(), self.file.tree());
        self.delete_token.lemma_round_trip();
        self.file.lemma_round_trip();
    }

    proof fn lemma_reads_one(&self, other: &Self, t: JsonTree) {
        lemma_required_reads_one(self.delete_token, other.delete_token, t, "delete_token"@);
        lemma_required_reads_one(self.file, other.file, t, "file"@);
    }
}

#[derive(Clone, Debug, PartialEq, Default)]
pub struct PurgeItemResponse {
    pub success: bool,
}

impl PurgeItemResponse {
    /// The members that a record is written as, from what is written for
    /// each of its fields.
    pub open spec fn members(success: JsonTree) -> Seq<Member> {
        let members = Seq::empty();
        let members = with_field(members, "success"@, success);
        members
    }

    /// Each key leads to what was written under it, and to nothing where
    /// nothing was written.
    pub proof fn lemma_members(success: JsonTree)
        ensures
            ({
                let members = Self::members(success);
                &&& lookup(members, "success"@) == Some(success)
            }),
    {
        broadcast use group_written_members;

        reveal_strlit("success");
        assert("success"@.len() == 7);
    }

    /// Every field is mandatory: each is written, in order, and nothing
    /// else.
    pub proof fn lemma_mandatory_fields_alone(success: JsonTree)
        ensures
            Self::members(success) == Seq::<Member>::empty()
                .push(("success"@, success)),
    {
        reveal(with_field);
        reveal(with_optional);
    }
}

impl Payload for PurgeItemResponse {
    open spec fn tree(&self) -> JsonTree {
        JsonTree::Object(Self::members(self.success.tree()))
    }

    open spec fn admits(t: JsonTree) -> bool {
        &&& t is Object
        &&& required_admits::<bool>(t, "success"@)
    }

    open spec fn agrees(&self, t: JsonTree) -> bool {
        &&& required_agrees(self.success, t, "success"@)
    }

    fn to_json(&self) -> (out: JsonValue) {
        let mut members: Vec<(String, JsonValue)> = Vec::new();
        assert(members_view(members@) =~= Seq::empty());
        put(&mut members, "success", &self.success);
        object(members)
    }

    fn from_json(v: &JsonValue) -> (res: Option<Self>) {
        if !v.is_object() {
            return None;
        }
        let success = required::<bool>(v, "success")?;
        Some(PurgeItemResponse { success })
    }

    proof fn lemma_round_trip(&self) {
        Self::lemma_members(self.success.tree());
        self.success.lemma_round_trip();
    }

    proof fn lemma_reads_one(&self, other: &Self, t: JsonTree) {
        lemma_required_reads_one(self.success, other.success, t, "success"@);
    }
}

#[derive(Clone, Debug, PartialEq, Default)]
pub struct ResolveObject {
    pub auth: String,
    pub q: String,
}

impl ResolveObject {
    /// The members that a record is written as, from what is written for
    /// each of its fields.
    pub open spec fn members(auth: JsonTree, q: JsonTree) -> Seq<Member> {
        let members = Seq::empty();
        let members = with_field(members, "auth"@, auth);
        let members = with_field(members, "q"@, q);
        members
    }

    /// Each key leads to what was written under it, and to nothing where
    /// nothing was written.
    pub proof fn lemma_members(auth: JsonTree, q: JsonTree)
        ensures
            ({
                let members = Self::members(auth, q);
                &&& lookup(members, "auth"@) == Some(auth)
                &&& lookup(members, "q"@) == Some(q)
            }),
    {
        broadcast use group_written_members;

        reveal_strlit("auth");
        reveal_strlit("q");
        assert("auth"@.len() == 4);
        assert("q"@.len() == 1);
    }

    /// Every field is mandatory: each is written, in order, and nothing
    /// else.
    pub proof fn lemma_mandatory_fields_alone(auth: JsonTree, q: JsonTree)
        ensures
            Self::members(auth, q) == Seq::<Member>::empty()
                .push(("auth"@, auth))
                .push(("q"@, q)),
    {
        reveal(with_field);
        reveal(with_optional);
    }
}

impl Payload for ResolveObject {
    open spec fn tree(&self) -> JsonTree {
        JsonTree::Object(Self::members(self.auth.tree(), self.q.tree()))
    }

    open spec fn admits(t: JsonTree) -> bool {
        &&& t is Object
        &&& required_admits::<String>(t, "auth"@)
        &&& required_admits::<String>(t, "q"@)
    }

    open spec fn agrees(&self, t: JsonTree) -> bool {
        &&& required_agrees(self.auth, t, "auth"@)
        &&& required_agrees(self.q, t, "q"@)
    }

    fn to_json(&self) -> (out: JsonValue) {
        let mut members: Vec<(String, JsonValue)> = Vec::new();
        assert(members_view(members@) =~= Seq::empty());
        put(&mut members, "auth", &self.auth);
        put(&mut members, "q", &self.q);
        object(members)
    }

    fn from_json(v: &JsonValue) -> (res: Option<Self>) {
        if !v.is_object() {
            return None;
        }
        let auth = required::<String>(v, "auth")?;
        let q = required::<String>(v, "q")?;
        Some(ResolveObject { auth, q })
    }

    proof fn lemma_round_trip(&self) {
        Self::lemma_members(self.auth.tree(), self.q.tree());
        self.auth.lemma_round_trip();
        self.q.lemma_round_trip();
    }

    proof fn lemma_reads_one(&self, other: &Self, t: JsonTree) {
        lemma_required_reads_one(self.auth, other.auth, t, "auth"@);
        lemma_required_reads_one(self.q, other.q, t, "q"@);
    }
}

#[derive(Clone, Debug, PartialEq, Default)]
pub struct ResolveObjectResponse {
    pub comment: Option<CommentView>,
    pub community: Option<CommunityView>,
    pub person: Option<PersonView>,
    pub post: Option<PostView>,
}

impl ResolveObjectResponse {
    /// The members that a record is written as, from what is written for
    /// each of its fields.
    pub open spec fn members(
        comment: Option<JsonTree>,
        community: Option<JsonTree>,
        person: Option<JsonTree>,
        post: Option<JsonTree>,
    ) -> Seq<Member> {
        let members = Seq::empty();
        let members = with_optional(members, "comment"@, comment);
        let members = with_optional(members, "community"@, community);
        let members = with_optional(members, "person"@, person);
        let members = with_optional(members, "post"@, post);
        members
    }

    /// Each key leads to what was written under it, and to nothing where
    /// nothing was written.
    pub proof fn lemma_members(
        comment: Option<JsonTree>,
        community: Option<JsonTree>,
        person: Option<JsonTree>,
        post: Option<JsonTree>,
    )
        ensures
            ({
                let members = Self::members(comment, community, person, post);
                &&& lookup(members, "comment"@) == comment
                &&& lookup(members, "community"@) == community
                &&& lookup(members, "person"@) == person
                &&& lookup(members, "post"@) == post
            }),
    {
        broadcast use group_written_members;

        reveal_strlit("comment");
        reveal_strlit("community");
        reveal_strlit("person");
        reveal_strlit("post");
        assert("comment"@.len() == 7);
        assert("community"@.len() == 9);
        assert("person"@.len() == 6);
        assert("post"@.len() == 4);
    }

    /// With every field absent, nothing is written.
    pub proof fn lemma_mandatory_fields_alone()
        ensures
            Self::members(None, None, None, None) == Seq::<Member>::empty(),
    {
        reveal(with_field);
        reveal(with_optional);
    }
}

impl Payload for ResolveObjectResponse {
    open spec fn tree(&self) -> JsonTree {
        JsonTree::Object(
            Self::members(
                written(self.comment),
                written(self.community),
                written(self.person),
                written(self.post),
            ),
        )
    }

    open spec fn admits(t: JsonTree) -> bool {
        &&& t is Object
        &&& optional_admits::<CommentView>(t, "comment"@)
        &&& optional_admits::<CommunityView>(t, "community"@)
        &&& optional_admits::<PersonView>(t, "person"@)
        &&& optional_admits::<PostView>(t, "post"@)
    }

    open spec fn agrees(&self, t: JsonTree) -> bool {
        &&& optional_agrees(self.comment, t, "comment"@)
        &&& optional_agrees(self.community, t, "community"@)
        &&& optional_agrees(self.person, t, "person"@)
        &&& optional_agrees(self.post, t, "post"@)
    }

    fn to_json(&self) -> (out: JsonValue) {
        let mut members: Vec<(String, JsonValue)> = Vec::new();
        assert(members_view(members@) =~= Seq::empty());
        put_optional(&mut members, "comment", &self.comment);
        put_optional(&mut members, "community", &self.community);
        put_optional(&mut members, "person", &self.person);
        put_optional(&mut members, "post", &self.post);
        object(members)
    }

    fn from_json(v: &JsonValue) -> (res: Option<Self>) {
        if !v.is_object() {
            return None;
        }
        let comment = optional::<CommentView>(v, "comment")?;
        let community = optional::<CommunityView>(v, "community")?;
        let person = optional::<PersonView>(v, "person")?;
        let post = optional::<PostView>(v, "post")?;
        Some(ResolveObjectResponse { comment, community, person, post })
    }

    proof fn lemma_round_trip(&self) {
        Self::lemma_members(
            written(self.comment),
            written(self.community),
            written(self.person),
            written(self.post),
        );
        lemma_optional_round_trip(self.comment);
        lemma_optional_round_trip(self.community);
        lemma_optional_round_trip(self.person);
        lemma_optional_round_trip(self.post);
    }

    proof fn lemma_reads_one(&self, other: &Self, t: JsonTree) {
        lemma_optional_reads_one(self.comment, other.comment, t, "comment"@);
        lemma_optional_reads_one(self.community, other.community, t, "community"@);
        lemma_optional_reads_one(self.person, other.person, t, "person"@);
        lemma_optional_reads_one(self.post, other.post, t, "post"@);
    }
}

#[derive(Clone, Debug, PartialEq, Default)]
pub struct Search {
    pub auth: Option<String>,
    pub community_id: Option<i32>,
    pub community_name: Option<String>,
    pub creator_id: Option<i32>,
    pub limit: Option<i32>,
    pub listing_type: Option<ListingType>,
    pub page: Option<i32>,
    pub q: String,
    pub sort: Option<SortType>,
    pub type_: Option<SearchType>,
}

impl Search {
    /// The members that a record is written as, from what is written for
    /// each of its fields.
    pub open spec fn members(
        auth: Option<JsonTree>,
        community_id: Option<JsonTree>,
        community_name: Option<JsonTree>,
        creator_id: Option<JsonTree>,
        limit: Option<JsonTree>,
        listing_type: Option<JsonTree>,
        page: Option<JsonTree>,
        q: JsonTree,
        sort: Option<JsonTree>,
        type_: Option<JsonTree>,
    ) -> Seq<Member> {
        let members = Seq::empty();
        let members = with_optional(members, "auth"@, auth);
        let members = with_optional(members, "community_id"@, community_id);
        let members = with_optional(members, "community_name"@, community_name);
        let members = with_optional(members, "creator_id"@, creator_id);
        let members = with_optional(members, "limit"@, limit);
        let members = with_optional(members, "listing_type"@, listing_type);
        let members = with_optional(members, "page"@, page);
        let members = with_field(members, "q"@, q);
        let members = with_optional(members, "sort"@, sort);
        let members = with_optional(members, "type_"@, type_);
        members
    }

    /// Each key leads to what was written under it, and to nothing where
    /// nothing was written.
    pub proof fn lemma_members(
        auth: Option<JsonTree>,
        community_id: Option<JsonTree>,
        community_name: Option<JsonTree>,
        creator_id: Option<JsonTree>,
        limit: Option<JsonTree>,
        listing_type: Option<JsonTree>,
        page: Option<JsonTree>,
        q: JsonTree,
        sort: Option<JsonTree>,
        type_: Option<JsonTree>,
    )
        ensures
            ({
                let members = Self::members(
                    auth,
                    community_id,
                    community_name,
                    creator_id,
                    limit,
                    listing_type,
                    page,
                    q,
                    sort,
                    type_,
                );
                &&& lookup(members, "auth"@) == auth
                &&& lookup(members, "community_id"@) == community_id
                &&& lookup(members, "community_name"@) == community_name
                &&& lookup(members, "creator_id"@) == creator_id
                &&& lookup(members, "limit"@) == limit
                &&& lookup(members, "listing_type"@) == listing_type
                &&& lookup(members, "page"@) == page
                &&& lookup(members, "q"@) == Some(q)
                &&& lookup(members, "sort"@) == sort
                &&& lookup(members, "type_"@) == type_
            }),
    {
        broadcast use group_written_members;

        reveal_strlit("auth");
        reveal_strlit("community_id");
        reveal_strlit("community_name");
        reveal_strlit("creator_id");
        reveal_strlit("limit");
        reveal_strlit("listing_type");
        reveal_strlit("page");
        reveal_strlit("q");
        reveal_strlit("sort");
        reveal_strlit("type_");
        assert("auth"@.len() == 4 && "auth"@[0] == 'a');
        assert("community_id"@.len() == 12 && "community_id"@[0] == 'c');
        assert("community_name"@.len() == 14);
        assert("creator_id"@.len() == 10);
        assert("limit"@.len() == 5 && "limit"@[0] == 'l');
        assert("listing_type"@.len() == 12 && "listing_type"@[0] == 'l');
        assert("page"@.len() == 4 && "page"@[0] == 'p');
        assert("q"@.len() == 1);
        assert("sort"@.len() == 4 && "sort"@[0] == 's');
        assert("type_"@.len() == 5 && "type_"@[0] == 't');
    }

    /// With every optional field absent, the mandatory fields are written
    /// and nothing else.
    pub proof fn lemma_mandatory_fields_alone(q: JsonTree)
        ensures
            Self::members(
                None,
                None,
                None,
                None,
                None,
                None,
                None,
                q,
                None,
                None,
            ) == Seq::<Member>::empty()
                .push(("q"@, q)),
    {
        reveal(with_field);
        reveal(with_optional);
    }
}

impl Payload for Search {
    open spec fn tree(&self) -> JsonTree {
        JsonTree::Object(
            Self::members(
                written(self.auth),
                written(self.community_id),
                written(self.community_name),
                written(self.creator_id),
                written(self.limit),
                written(self.listing_type),
                written(self.page),
                self.q.tree(),
                written(self.sort),
                written(self.type_),
            ),
        )
    }

    open spec fn admits(t: JsonTree) -> bool {
        &&& t is Object
        &&& optional_admits::<String>(t, "auth"@)
        &&& optional_admits::<i32>(t, "community_id"@)
        &&& optional_admits::<String>(t, "community_name"@)
        &&& optional_admits::<i32>(t, "creator_id"@)
        &&& optional_admits::<i32>(t, "limit"@)
        &&& optional_admits::<ListingType>(t, "listing_type"@)
        &&& optional_admits::<i32>(t, "page"@)
        &&& required_admits::<String>(t, "q"@)
        &&& optional_admits::<SortType>(t, "sort"@)
        &&& optional_admits::<SearchType>(t, "type_"@)
    }

    open spec fn agrees(&self, t: JsonTree) -> bool {
        &&& optional_agrees(self.auth, t, "auth"@)
        &&& optional_agrees(self.community_id, t, "community_id"@)
        &&& optional_agrees(self.community_name, t, "community_name"@)
        &&& optional_agrees(self.creator_id, t, "creator_id"@)
        &&& optional_agrees(self.limit, t, "limit"@)
        &&& optional_agrees(self.listing_type, t, "listing_type"@)
        &&& optional_agrees(self.page, t, "page"@)
        &&& required_agrees(self.q, t, "q"@)
        &&& optional_agrees(self.sort, t, "sort"@)
        &&& optional_agrees(self.type_, t, "type_"@)
    }

    fn to_json(&self) -> (out: JsonValue) {
        let mut members: Vec<(String, JsonValue)> = Vec::new();
        assert(members_view(members@) =~= Seq::empty());
        put_optional(&mut members, "auth", &self.auth);
        put_optional(&mut members, "community_id", &self.community_id);
        put_optional(&mut members, "community_name", &self.community_name);
        put_optional(&mut members, "creator_id", &self.creator_id);
        put_optional(&mut members, "limit", &self.limit);
        put_optional(&mut members, "listing_type", &self.listing_type);
        put_optional(&mut members, "page", &self.page);
        put(&mut members, "q", &self.q);
        put_optional(&mut members, "sort", &self.sort);
        put_optional(&mut members, "type_", &self.type_);
        object(members)
    }

    fn from_json(v: &JsonValue) -> (res: Option<Self>) {
        if !v.is_object() {
            return None;
        }
        let auth = optional::<String>(v, "auth")?;
        let community_id = optional::<i32>(v, "community_id")?;
        let community_name = optional::<String>(v, "community_name")?;
        let creator_id = optional::<i32>(v, "creator_id")?;
        let limit = optional::<i32>(v, "limit")?;
        let listing_type = optional::<ListingType>(v, "listing_type")?;
        let page = optional::<i32>(v, "page")?;
        let q = required::<String>(v, "q")?;
        let sort = optional::<SortType>(v, "sort")?;
        let type_ = optional::<SearchType>(v, "type_")?;
        Some(
            Search {
                auth,
                community_id,
                community_name,
                creator_id,
                limit,
                listing_type,
                page,
                q,
                sort,
                type_,
            },
        )
    }

    proof fn lemma_round_trip(&self) {
        Self::lemma_members(
            written(self.auth),
            written(self.community_id),
            written(self.community_name),
            written(self.creator_id),
            written(self.limit),
            written(self.listing_type),
            written(self.page),
            self.q.tree(),
            written(self.sort),
            written(self.type_),
        );
        lemma_optional_round_trip(self.auth);
        lemma_optional_round_trip(self.community_id);
        lemma_optional_round_trip(self.community_name);
        lemma_optional_round_trip(self.creator_id);
        lemma_optional_round_trip(self.limit);
        lemma_optional_round_trip(self.listing_type);
        lemma_optional_round_trip(self.page);
        self.q.lemma_round_trip();
        lemma_optional_round_trip(self.sort);
        lemma_optional_round_trip(self.type_);
    }

    proof fn lemma_reads_one(&self, other: &Self, t: JsonTree) {
        lemma_optional_reads_one(self.auth, other.auth, t, "auth"@);
        lemma_optional_reads_one(self.community_id, other.community_id, t, "community_id"@);
        lemma_optional_reads_one(self.community_name, other.community_name, t, "community_name"@);
        lemma_optional_reads_one(self.creator_id, other.creator_id, t, "creator_id"@);
        lemma_optional_reads_one(self.limit, other.limit, t, "limit"@);
        lemma_optional_reads_one(self.listing_type, other.listing_type, t, "listing_type"@);
        lemma_optional_reads_one(self.page, other.page, t, "page"@);
        lemma_required_reads_one(self.q, other.q, t, "q"@);
        lemma_optional_reads_one(self.sort, other.sort, t, "sort"@);
        lemma_optional_reads_one(self.type_, other.type_, t, "type_"@);
    }
}

#[derive(Clone, Debug, PartialEq, Default)]
pub struct SearchResponse {
    pub comments: Vec<CommentView>,
    pub communities: Vec<CommunityView>,
    pub posts: Vec<PostView>,
    pub type_: SearchType,
    pub users: Vec<PersonView>,
}

impl SearchResponse {
    /// The members that a record is written as, from what is written for
    /// each of its fields.
    pub open spec fn members(
        comments: JsonTree,
        communities: JsonTree,
        posts: JsonTree,
        type_: JsonTree,
        users: JsonTree,
    ) -> Seq<Member> {
        let members = Seq::empty();
        let members = with_field(members, "comments"@, comments);
        let members = with_field(members, "communities"@, communities);
        let members = with_field(members, "posts"@, posts);
        let members = with_field(members, "type_"@, type_);
        let members = with_field(members, "users"@, users);
        members
    }

    /// Each key leads to what was written under it, and to nothing where
    /// nothing was written.
    pub proof fn lemma_members(
        comments: JsonTree,
        communities: JsonTree,
        posts: JsonTree,
        type_: JsonTree,
        users: JsonTree,
    )
        ensures
            ({
                let members = Self::members(comments, communities, posts, type_, users);
                &&& lookup(members, "comments"@) == Some(comments)
                &&& lookup(members, "communities"@) == Some(communities)
                &&& lookup(members, "posts"@) == Some(posts)
                &&& lookup(members, "type_"@) == Some(type_)
                &&& lookup(members, "users"@) == Some(users)
            }),
    {
        broadcast use group_written_members;

        reveal_strlit("comments");
        reveal_strlit("communities");
        reveal_strlit("posts");
        reveal_strlit("type_");
        reveal_strlit("users");
        assert("comments"@.len() == 8);
        assert("communities"@.len() == 11);
        assert("posts"@.len() == 5 && "posts"@[0] == 'p');
        assert("type_"@.len() == 5 && "type_"@[0] == 't');
        assert("users"@.len() == 5 && "users"@[0] == 'u');
    }

    /// Every field is mandatory: each is written, in order, and nothing
    /// else.
    pub proof fn lemma_mandatory_fields_alone(
        comments: JsonTree,
        communities: JsonTree,
        posts: JsonTree,
        type_: JsonTree,
        users: JsonTree,
    )
        ensures
            Self::members(comments, communities, posts, type_, users) == Seq::<Member>::empty()
                .push(("comments"@, comments))
                .push(("communities"@, communities))
                .push(("posts"@, posts))
                .push(("type_"@, type_))
                .push(("users"@, users)),
    {
        reveal(with_field);
        reveal(with_optional);
    }
}

impl Payload for SearchResponse {
    open spec fn tree(&self) -> JsonTree {
        JsonTree::Object(
            Self::members(
                self.comments.tree(),
                self.communities.tree(),
                self.posts.tree(),
                self.type_.tree(),
                self.users.tree(),
            ),
        )
    }

    open spec fn admits(t: JsonTree) -> bool {
        &&& t is Object
        &&& required_admits::<Vec<CommentView>>(t, "comments"@)
        &&& required_admits::<Vec<CommunityView>>(t, "communities"@)
        &&& required_admits::<Vec<PostView>>(t, "posts"@)
        &&& required_admits::<SearchType>(t, "type_"@)
        &&& required_admits::<Vec<PersonView>>(t, "users"@)
    }

    open spec fn agrees(&self, t: JsonTree) -> bool {
        &&& required_agrees(self.comments, t, "comments"@)
        &&& required_agrees(self.communities, t, "communities"@)
        &&& required_agrees(self.posts, t, "posts"@)
        &&& required_agrees(self.type_, t, "type_"@)
        &&& required_agrees(self.users, t, "users"@)
    }

    fn to_json(&self) -> (out: JsonValue) {
        let mut members: Vec<(String, JsonValue)> = Vec::new();
        assert(members_view(members@) =~= Seq::empty());
        put(&mut members, "comments", &self.comments);
        put(&mut members, "communities", &self.communities);
        put(&mut members, "posts", &self.posts);
        put(&mut members, "type_", &self.type_);
        put(&mut members, "users", &self.users);
        object(members)
    }

    fn from_json(v: &JsonValue) -> (res: Option<Self>) {
        if !v.is_object() {
            return None;
        }
        let comments = required::<Vec<CommentView>>(v, "comments")?;
        let communities = required::<Vec<CommunityView>>(v, "communities")?;
        let posts = required::<Vec<PostView>>(v, "posts")?;
        let type_ = required::<SearchType>(v, "type_")?;
        let users = required::<Vec<PersonView>>(v, "users")?;
        Some(SearchResponse { comments, communities, posts, type_, users })
    }

    proof fn lemma_round_trip(&self) {
        Self::lemma_members(
            self.comments.tree(),
            self.communities.tree(),
            self.posts.tree(),
            self.type_.tree(),
            self.users.tree(),
        );
        self.comments.lemma_round_trip();
        self.communities.lemma_round_trip();
        self.posts.lemma_round_trip();
        self.type_.lemma_round_trip();
        self.users.lemma_round_trip();
    }

    proof fn lemma_reads_one(&self, other: &Self, t: JsonTree) {
        lemma_required_reads_one(self.comments, other.comments, t, "comments"@);
        lemma_required_reads_one(self.communities, other.communities, t, "communities"@);
        lemma_required_reads_one(self.posts, other.posts, t, "posts"@);
        lemma_required_reads_one(self.type_, other.type_, t, "type_"@);
        lemma_required_reads_one(self.users, other.users, t, "users"@);
    }
}

#[derive(Clone, Debug, PartialEq, Default)]
pub struct UploadImage {
    pub auth: Option<String>,
    pub image: String,
}

impl UploadImage {
    /// The members that a record is written as, from what is written for
    /// each of its fields.
    pub open spec fn members(auth: Option<JsonTree>, image: JsonTree) -> Seq<Member> {
        let members = Seq::empty();
        let members = with_optional(members, "auth"@, auth);
        let members = with_field(members, "image"@, image);
        members
    }

    /// Each key leads to what was written under it, and to nothing where
    /// nothing was written.
    pub proof fn lemma_members(auth: Option<JsonTree>, image: JsonTree)
        ensures
            ({
                let members = Self::members(auth, image);
                &&& lookup(members, "auth"@) == auth
                &&& lookup(members, "image"@) == Some(image)
            }),
    {
        broadcast use group_written_members;

        reveal_strlit("auth");
        reveal_strlit("image");
        assert("auth"@.len() == 4);
        assert("image"@.len() == 5);
    }

    /// With every optional field absent, the mandatory fields are written
    /// and nothing else.
    pub proof fn lemma_mandatory_fields_alone(image: JsonTree)
        ensures
            Self::members(None, image) == Seq::<Member>::empty()
                .push(("image"@, image)),
    {
        reveal(with_field);
        reveal(with_optional);
    }
}

impl Payload for UploadImage {
    open spec fn tree(&self) -> JsonTree {
        JsonTree::Object(Self::members(written(self.auth), self.image.tree()))
    }

    open spec fn admits(t: JsonTree) -> bool {
        &&& t is Object
        &&& optional_admits::<String>(t, "auth"@)
        &&& required_admits::<String>(t, "image"@)
    }

    open spec fn agrees(&self, t: JsonTree) -> bool {
        &&& optional_agrees(self.auth, t, "auth"@)
        &&& required_agrees(self.image, t, "image"@)
    }

    fn to_json(&self) -> (out: JsonValue) {
        let mut members: Vec<(String, JsonValue)> = Vec::new();
        assert(members_view(members@) =~= Seq::empty());
        put_optional(&mut members, "auth", &self.auth);
        put(&mut members, "image", &self.image);
        object(members)
    }

    fn from_json(v: &JsonValue) -> (res: Option<Self>) {
        if !v.is_object() {
            return None;
        }
        let auth = optional::<String>(v, "auth")?;
        let image = required::<String>(v, "image")?;
        Some(UploadImage { auth, image })
    }

    proof fn lemma_round_trip(&self) {
        Self::lemma_members(written(self.auth), self.image.tree());
        lemma_optional_round_trip(self.auth);
        self.image.lemma_round_trip();
    }

    proof fn lemma_reads_one(&self, other: &Self, t: JsonTree) {
        lemma_optional_reads_one(self.auth, other.auth, t, "auth"@);
        lemma_required_reads_one(self.image, other.image, t, "image"@);
    }
}

#[derive(Clone, Debug, PartialEq, Default)]
pub struct UploadImageResponse {
    pub delete_url: Option<String>,
    pub files: Vec<ImageFile>,
    pub msg: String,
    pub url: Option<String>,
}

impl UploadImageResponse {
    /// The members that a record is written as, from what is written for
    /// each of its fields.
    pub open spec fn members(
        delete_url: Option<JsonTree>,
        files: JsonTree,
        msg: JsonTree,
        url: Option<JsonTree>,
    ) -> Seq<Member> {
        let members = Seq::empty();
        let members = with_optional(members, "delete_url"@, delete_url);
        let members = with_field(members, "files"@, files);
        let members = with_field(members, "msg"@, msg);
        let members = with_optional(members, "url"@, url);
        members
    }

    /// Each key leads to what was written under it, and to nothing where
    /// nothing was written.
    pub proof fn lemma_members(
        delete_url: Option<JsonTree>,
        files: JsonTree,
        msg: JsonTree,
        url: Option<JsonTree>,
    )
        ensures
            ({
                let members = Self::members(delete_url, files, msg, url);
                &&& lookup(members, "delete_url"@) == delete_url
                &&& lookup(members, "files"@) == Some(files)
                &&& lookup(members, "msg"@) == Some(msg)
                &&& lookup(members, "url"@) == url
            }),
    {
        broadcast use group_written_members;

        reveal_strlit("delete_url");
        reveal_strlit("files");
        reveal_strlit("msg");
        reveal_strlit("url");
        assert("delete_url"@.len() == 10);
        assert("files"@.len() == 5);
        assert("msg"@.len() == 3 && "msg"@[0] == 'm');
        assert("url"@.len() == 3 && "url"@[0] == 'u');
    }

    /// With every optional field absent, the mandatory fields are written
    /// and nothing else.
    pub proof fn lemma_mandatory_fields_alone(files: JsonTree, msg: JsonTree)
        ensures
            Self::members(None, files, msg, None) == Seq::<Member>::empty()
                .push(("files"@, files))
                .push(("msg"@, msg)),
    {
        reveal(with_field);
        reveal(with_optional);
    }
}

impl Payload for UploadImageResponse {
    open spec fn tree(&self) -> JsonTree {
        JsonTree::Object(
            Self::members(
                written(self.delete_url),
                self.files.tree(),
                self.msg.tree(),
                written(self.url),
            ),
        )
    }

    open spec fn admits(t: JsonTree) -> bool {
        &&& t is Object
        &&& optional_admits::<String>(t, "delete_url"@)
        &&& required_admits::<Vec<ImageFile>>(t, "files"@)
        &&& required_admits::<String>(t, "msg"@)
        &&& optional_admits::<String>(t, "url"@)
    }

    open spec fn agrees(&self, t: JsonTree) -> bool {
        &&& optional_agrees(self.delete_url, t, "delete_url"@)
        &&& required_agrees(self.files, t, "files"@)
        &&& required_agrees(self.msg, t, "msg"@)
        &&& optional_agrees(self.url, t, "url"@)
    }

    fn to_json(&self) -> (out: JsonValue) {
        let mut members: Vec<(String, JsonValue)> = Vec::new();
        assert(members_view(members@) =~= Seq::empty());
        put_optional(&mut members, "delete_url", &self.delete_url);
        put(&mut members, "files", &self.files);
        put(&mut members, "msg", &self.msg);
        put_optional(&mut members, "url", &self.url);
        object(members)
    }

    fn from_json(v: &JsonValue) -> (res: Option<Self>) {
        if !v.is_object() {
            return None;
        }
        let delete_url = optional::<String>(v, "delete_url")?;
        let files = required::<Vec<ImageFile>>(v, "files")?;
        let msg = required::<String>(v, "msg")?;
        let url = optional::<String>(v, "url")?;
        Some(UploadImageResponse { delete_url, files, msg, url })
    }

    proof fn lemma_round_trip(&self) {
        Self::lemma_members(
            written(self.delete_url),
            self.files.tree(),
            self.msg.tree(),
            written(self.url),
        );
        lemma_optional_round_trip(self.delete_url);
        self.files.lemma_round_trip();
        self.msg.lemma_round_trip();
        lemma_optional_round_trip(self.url);
    }

    proof fn lemma_reads_one(&self, other: &Self, t: JsonTree) {
        lemma_optional_reads_one(self.delete_url, other.delete_url, t, "delete_url"@);
        lemma_required_reads_one(self.files, other.files, t, "files"@);
        lemma_required_reads_one(self.msg, other.msg, t, "msg"@);
        lemma_optional_reads_one(self.url, other.url, t, "url"@);
    }
}

} // verus!
