//! Records of posts and of the requests that read and change them.

use vstd::prelude::*;
use crate::json::{lookup, JsonTree, JsonValue, Member};
use crate::payload::{
    group_written_members, lemma_optional_reads_one, lemma_optional_round_trip,
    lemma_required_reads_one, members_view, object, optional, optional_admits, optional_agrees,
    put, put_optional, required, required_admits, required_agrees, with_field, with_optional,
    written, Payload,
};
use crate::enums::{ListingType, PostFeatureType, SortType, SubscribedType};
use crate::records::community::{Community, CommunityModeratorView, CommunityView};
use crate::records::person::{Person};

verus! {

#[derive(Clone, Debug, PartialEq, Default)]
pub struct CreatePost {
    pub auth: String,
    pub body: Option<String>,
    pub community_id: i32,
    pub honeypot: Option<String>,
    pub language_id: Option<i32>,
    pub name: String,
    pub nsfw: Option<bool>,
    pub url: Option<String>,
}

impl CreatePost {
    /// The members that a record is written as, from what is written for
    /// each of its fields.
    pub open spec fn members(
        auth: JsonTree,
        body: Option<JsonTree>,
        community_id: JsonTree,
        honeypot: Option<JsonTree>,
        language_id: Option<JsonTree>,
        name: JsonTree,
        nsfw: Option<JsonTree>,
        url: Option<JsonTree>,
    ) -> Seq<Member> {
        let members = Seq::empty();
        let members = with_field(members, "auth"@, auth);
        let members = with_optional(members, "body"@, body);
        let members = with_field(members, "community_id"@, community_id);
        let members = with_optional(members, "honeypot"@, honeypot);
        let members = with_optional(members, "language_id"@, language_id);
        let members = with_field(members, "name"@, name);
        let members = with_optional(members, "nsfw"@, nsfw);
        let members = with_optional(members, "url"@, url);
        members
    }

    /// Each key leads to what was written under it, and to nothing where
    /// nothing was written.
    pub proof fn lemma_members(
        auth: JsonTree,
        body: Option<JsonTree>,
        community_id: JsonTree,
        honeypot: Option<JsonTree>,
        language_id: Option<JsonTree>,
        name: JsonTree,
        nsfw: Option<JsonTree>,
        url: Option<JsonTree>,
    )
        ensures
            ({
                let members = Self::members(
                    auth,
                    body,
                    community_id,
                    honeypot,
                    language_id,
                    name,
                    nsfw,
                    url,
                );
                &&& lookup(members, "auth"@) == Some(auth)
                &&& lookup(members, "body"@) == body
                &&& lookup(members, "community_id"@) == Some(community_id)
                &&& lookup(members, "honeypot"@) == honeypot
                &&& lookup(members, "language_id"@) == language_id
                &&& lookup(members, "name"@) == Some(name)
                &&& lookup(members, "nsfw"@) == nsfw
                &&& lookup(members, "url"@) == url
            }),
    {
        broadcast use group_written_members;

        reveal_strlit("auth");
        reveal_strlit("body");
        reveal_strlit("community_id");
        reveal_strlit("honeypot");
        reveal_strlit("language_id");
        reveal_strlit("name");
        reveal_strlit("nsfw");
        reveal_strlit("url");
        assert("auth"@.len() == 4 && "auth"@[0] == 'a');
        assert("body"@.len() == 4 && "body"@[0] == 'b');
        assert("community_id"@.len() == 12);
        assert("honeypot"@.len() == 8);
        assert("language_id"@.len() == 11);
        assert("name"@.len() == 4 && "name"@[0] == 'n' && "name"@[1] == 'a');
        assert("nsfw"@.len() == 4 && "nsfw"@[0] == 'n' && "nsfw"@[1] == 's');
        assert("url"@.len() == 3);
    }

    /// With every optional field absent, the mandatory fields are written
    /// and nothing else.
    pub proof fn lemma_mandatory_fields_alone(
        auth: JsonTree,
        community_id: JsonTree,
        name: JsonTree,
    )
        ensures
            Self::members(
                auth,
                None,
                community_id,
                None,
                None,
                name,
                None,
                None,
            ) == Seq::<Member>::empty()
                .push(("auth"@, auth))
                .push(("community_id"@, community_id))
                .push(("name"@, name)),
    {
        reveal(with_field);
        reveal(with_optional);
    }
}

impl Payload for CreatePost {
    open spec fn tree(&self) -> JsonTree {
        JsonTree::Object(
            Self::members(
                self.auth.tree(),
                written(self.body),
                self.community_id.tree(),
                written(self.honeypot),
                written(self.language_id),
                self.name.tree(),
                written(self.nsfw),
                written(self.url),
            ),
        )
    }

    open spec fn admits(t: JsonTree) -> bool {
        &&& t is Object
        &&& required_admits::<String>(t, "auth"@)
        &&& optional_admits::<String>(t, "body"@)
        &&& required_admits::<i32>(t, "community_id"@)
        &&& optional_admits::<String>(t, "honeypot"@)
        &&& optional_admits::<i32>(t, "language_id"@)
        &&& required_admits::<String>(t, "name"@)
        &&& optional_admits::<bool>(t, "nsfw"@)
        &&& optional_admits::<String>(t, "url"@)
    }

    open spec fn agrees(&self, t: JsonTree) -> bool {
        &&& required_agrees(self.auth, t, "auth"@)
        &&& optional_agrees(self.body, t, "body"@)
        &&& required_agrees(self.community_id, t, "community_id"@)
        &&& optional_agrees(self.honeypot, t, "honeypot"@)
        &&& optional_agrees(self.language_id, t, "language_id"@)
        &&& required_agrees(self.name, t, "name"@)
        &&& optional_agrees(self.nsfw, t, "nsfw"@)
        &&& optional_agrees(self.url, t, "url"@)
    }

    fn to_json(&self) -> (out: JsonValue) {
        let mut members: Vec<(String, JsonValue)> = Vec::new();
        assert(members_view(members@) =~= Seq::empty());
        put(&mut members, "auth", &self.auth);
        put_optional(&mut members, "body", &self.body);
        put(&mut members, "community_id", &self.community_id);
        put_optional(&mut members, "honeypot", &self.honeypot);
        put_optional(&mut members, "language_id", &self.language_id);
        put(&mut members, "name", &self.name);
        put_optional(&mut members, "nsfw", &self.nsfw);
        put_optional(&mut members, "url", &self.url);
        object(members)
    }

    fn from_json(v: &JsonValue) -> (res: Option<Self>) {
        if !v.is_object() {
            return None;
        }
        let auth = required::<String>(v, "auth")?;
        let body = optional::<String>(v, "body")?;
        let community_id = required::<i32>(v, "community_id")?;
        let honeypot = optional::<String>(v, "honeypot")?;
        let language_id = optional::<i32>(v, "language_id")?;
        let name = required::<String>(v, "name")?;
        let nsfw = optional::<bool>(v, "nsfw")?;
        let url = optional::<String>(v, "url")?;
        Some(CreatePost { auth, body, community_id, honeypot, language_id, name, nsfw, url })
    }

    proof fn lemma_round_trip(&self) {
        Self::lemma_members(
            self.auth.tree(),
            written(self.body),
            self.community_id.tree(),
            written(self.honeypot),
            written(self.language_id),
            self.name.tree(),
            written(self.nsfw),
            written(self.url),
        );
        self.auth.lemma_round_trip();
        lemma_optional_round_trip(self.body);
        self.community_id.lemma_round_trip();
        lemma_optional_round_trip(self.honeypot);
        lemma_optional_round_trip(self.language_id);
        self.name.lemma_round_trip();
        lemma_optional_round_trip(self.nsfw);
        lemma_optional_round_trip(self.url);
    }

    proof fn lemma_reads_one(&self, other: &Self, t: JsonTree) {
        lemma_required_reads_one(self.auth, other.auth, t, "auth"@);
        lemma_optional_reads_one(self.body, other.body, t, "body"@);
        lemma_required_reads_one(self.community_id, other.community_id, t, "community_id"@);
        lemma_optional_reads_one(self.honeypot, other.honeypot, t, "honeypot"@);
        lemma_optional_reads_one(self.language_id, other.language_id, t, "language_id"@);
        lemma_required_reads_one(self.name, other.name, t, "name"@);
        lemma_optional_reads_one(self.nsfw, other.nsfw, t, "nsfw"@);
        lemma_optional_reads_one(self.url, other.url, t, "url"@);
    }
}

#[derive(Clone, Debug, PartialEq, Default)]
pub struct CreatePostLike {
    pub auth: String,
    pub post_id: i32,
    pub score: i32,
}

impl CreatePostLike {
    /// The members that a record is written as, from what is written for
    /// each of its fields.
    pub open spec fn members(auth: JsonTree, post_id: JsonTree, score: JsonTree) -> Seq<Member> {
        let members = Seq::empty();
        let members = with_field(members, "auth"@, auth);
        let members = with_field(members, "post_id"@, post_id);
        let members = with_field(members, "score"@, score);
        members
    }

    /// Each key leads to what was written under it, and to nothing where
    /// nothing was written.
    pub proof fn lemma_members(auth: JsonTree, post_id: JsonTree, score: JsonTree)
        ensures
            ({
                let members = Self::members(auth, post_id, score);
                &&& lookup(members, "auth"@) == Some(auth)
                &&& lookup(members, "post_id"@) == Some(post_id)
                &&& lookup(members, "score"@) == Some(score)
            }),
    {
        broadcast use group_written_members;

        reveal_strlit("auth");
        reveal_strlit("post_id");
        reveal_strlit("score");
        assert("auth"@.len() == 4);
        assert("post_id"@.len() == 7);
        assert("score"@.len() == 5);
    }

    /// Every field is mandatory: each is written, in order, and nothing
    /// else.
    pub proof fn lemma_mandatory_fields_alone(auth: JsonTree, post_id: JsonTree, score: JsonTree)
        ensures
            Self::members(auth, post_id, score) == Seq::<Member>::empty()
                .push(("auth"@, auth))
                .push(("post_id"@, post_id))
                .push(("score"@, score)),
    {
        reveal(with_field);
        reveal(with_optional);
    }
}

impl Payload for CreatePostLike {
    open spec fn tree(&self) -> JsonTree {
        JsonTree::Object(Self::members(self.auth.tree(), self.post_id.tree(), self.score.tree()))
    }

    open spec fn admits(t: JsonTree) -> bool {
        &&& t is Object
        &&& required_admits::<String>(t, "auth"@)
        &&& required_admits::<i32>(t, "post_id"@)
        &&& required_admits::<i32>(t, "score"@)
    }

    open spec fn agrees(&self, t: JsonTree) -> bool {
        &&& required_agrees(self.auth, t, "auth"@)
        &&& required_agrees(self.post_id, t, "post_id"@)
        &&& required_agrees(self.score, t, "score"@)
    }

    fn to_json(&self) -> (out: JsonValue) {
        let mut members: Vec<(String, JsonValue)> = Vec::new();
        assert(members_view(members@) =~= Seq::empty());
        put(&mut members, "auth", &self.auth);
        put(&mut members, "post_id", &self.post_id);
        put(&mut members, "score", &self.score);
        object(members)
    }

    fn from_json(v: &JsonValue) -> (res: Option<Self>) {
        if !v.is_object() {
            return None;
        }
        let auth = required::<String>(v, "auth")?;
        let post_id = required::<i32>(v, "post_id")?;
        let score = required::<i32>(v, "score")?;
        Some(CreatePostLike { auth, post_id, score })
    }

    proof fn lemma_round_trip(&self) {
        Self::lemma_members(self.auth.tree(), self.post_id.tree(), self.score.tree());
        self.auth.lemma_round_trip();
        self.post_id.lemma_round_trip();
        self.score.lemma_round_trip();
    }

    proof fn lemma_reads_one(&self, other: &Self, t: JsonTree) {
        lemma_required_reads_one(self.auth, other.auth, t, "auth"@);
        lemma_required_reads_one(self.post_id, other.post_id, t, "post_id"@);
        lemma_required_reads_one(self.score, other.score, t, "score"@);
    }
}

#[derive(Clone, Debug, PartialEq, Default)]
pub struct DeletePost {
    pub auth: String,
    pub deleted: bool,
    pub post_id: i32,
}

impl DeletePost {
    /// The members that a record is written as, from what is written for
    /// each of its fields.
    pub open spec fn members(auth: JsonTree, deleted: JsonTree, post_id: JsonTree) -> Seq<Member> {
        let members = Seq::empty();
        let members = with_field(members, "auth"@, auth);
        let members = with_field(members, "deleted"@, deleted);
        let members = with_field(members, "post_id"@, post_id);
        members
    }

    /// Each key leads to what was written under it, and to nothing where
    /// nothing was written.
    pub proof fn lemma_members(auth: JsonTree, deleted: JsonTree, post_id: JsonTree)
        ensures
            ({
                let members = Self::members(auth, deleted, post_id);
                &&& lookup(members, "auth"@) == Some(auth)
                &&& lookup(members, "deleted"@) == Some(deleted)
                &&& lookup(members, "post_id"@) == Some(post_id)
            }),
    {
        broadcast use group_written_members;

        reveal_strlit("auth");
        reveal_strlit("deleted");
        reveal_strlit("post_id");
        assert("auth"@.len() == 4);
        assert("deleted"@.len() == 7 && "deleted"@[0] == 'd');
        assert("post_id"@.len() == 7 && "post_id"@[0] == 'p');
    }

    /// Every field is mandatory: each is written, in order, and nothing
    /// else.
    pub proof fn lemma_mandatory_fields_alone(auth: JsonTree, deleted: JsonTree, post_id: JsonTree)
        ensures
            Self::members(auth, deleted, post_id) == Seq::<Member>::empty()
                .push(("auth"@, auth))
                .push(("deleted"@, deleted))
                .push(("post_id"@, post_id)),
    {
        reveal(with_field);
        reveal(with_optional);
    }
}

impl Payload for DeletePost {
    open spec fn tree(&self) -> JsonTree {
        JsonTree::Object(Self::members(self.auth.tree(), self.deleted.tree(), self.post_id.tree()))
    }

    open spec fn admits(t: JsonTree) -> bool {
        &&& t is Object
        &&& required_admits::<String>(t, "auth"@)
        &&& required_admits::<bool>(t, "deleted"@)
        &&& required_admits::<i32>(t, "post_id"@)
    }

    open spec fn agrees(&self, t: JsonTree) -> bool {
        &&& required_agrees(self.auth, t, "auth"@)
        &&& required_agrees(self.deleted, t, "deleted"@)
        &&& required_agrees(self.post_id, t, "post_id"@)
    }

    fn to_json(&self) -> (out: JsonValue) {
        let mut members: Vec<(String, JsonValue)> = Vec::new();
        assert(members_view(members@) =~= Seq::empty());
        put(&mut members, "auth", &self.auth);
        put(&mut members, "deleted", &self.deleted);
        put(&mut members, "post_id", &self.post_id);
        object(members)
    }

    fn from_json(v: &JsonValue) -> (res: Option<Self>) {
        if !v.is_object() {
            return None;
        }
        let auth = required::<String>(v, "auth")?;
        let deleted = required::<bool>(v, "deleted")?;
        let post_id = required::<i32>(v, "post_id")?;
        Some(DeletePost { auth, deleted, post_id })
    }

    proof fn lemma_round_trip(&self) {
        Self::lemma_members(self.auth.tree(), self.deleted.tree(), self.post_id.tree());
        self.auth.lemma_round_trip();
        self.deleted.lemma_round_trip();
        self.post_id.lemma_round_trip();
    }

    proof fn lemma_reads_one(&self, other: &Self, t: JsonTree) {
        lemma_required_reads_one(self.auth, other.auth, t, "auth"@);
        lemma_required_reads_one(self.deleted, other.deleted, t, "deleted"@);
        lemma_required_reads_one(self.post_id, other.post_id, t, "post_id"@);
    }
}

#[derive(Clone, Debug, PartialEq, Default)]
pub struct EditPost {
    pub auth: String,
    pub body: Option<String>,
    pub language_id: Option<i32>,
    pub name: Option<String>,
    pub nsfw: Option<bool>,
    pub post_id: i32,
    pub url: Option<String>,
}

impl EditPost {
    /// The members that a record is written as, from what is written for
    /// each of its fields.
    pub open spec fn members(
        auth: JsonTree,
        body: Option<JsonTree>,
        language_id: Option<JsonTree>,
        name: Option<JsonTree>,
        nsfw: Option<JsonTree>,
        post_id: JsonTree,
        url: Option<JsonTree>,
    ) -> Seq<Member> {
        let members = Seq::empty();
        let members = with_field(members, "auth"@, auth);
        let members = with_optional(members, "body"@, body);
        let members = with_optional(members, "language_id"@, language_id);
        let members = with_optional(members, "name"@, name);
        let members = with_optional(members, "nsfw"@, nsfw);
        let members = with_field(members, "post_id"@, post_id);
        let members = with_optional(members, "url"@, url);
        members
    }

    /// Each key leads to what was written under it, and to nothing where
    /// nothing was written.
    pub proof fn lemma_members(
        auth: JsonTree,
        body: Option<JsonTree>,
        language_id: Option<JsonTree>,
        name: Option<JsonTree>,
        nsfw: Option<JsonTree>,
        post_id: JsonTree,
        url: Option<JsonTree>,
    )
        ensures
            ({
                let members = Self::members(auth, body, language_id, name, nsfw, post_id, url);
                &&& lookup(members, "auth"@) == Some(auth)
                &&& lookup(members, "body"@) == body
                &&& lookup(members, "language_id"@) == language_id
                &&& lookup(members, "name"@) == name
                &&& lookup(members, "nsfw"@) == nsfw
                &&& lookup(members, "post_id"@) == Some(post_id)
                &&& lookup(members, "url"@) == url
            }),
    {
        broadcast use group_written_members;

        reveal_strlit("auth");
        reveal_strlit("body");
        reveal_strlit("language_id");
        reveal_strlit("name");
        reveal_strlit("nsfw");
        reveal_strlit("post_id");
        reveal_strlit("url");
        assert("auth"@.len() == 4 && "auth"@[0] == 'a');
        assert("body"@.len() == 4 && "body"@[0] == 'b');
        assert("language_id"@.len() == 11);
        assert("name"@.len() == 4 && "name"@[0] == 'n' && "name"@[1] == 'a');
        assert("nsfw"@.len() == 4 && "nsfw"@[0] == 'n' && "nsfw"@[1] == 's');
        assert("post_id"@.len() == 7);
        assert("url"@.len() == 3);
    }

    /// With every optional field absent, the mandatory fields are written
    /// and nothing else.
    pub proof fn lemma_mandatory_fields_alone(auth: JsonTree, post_id: JsonTree)
        ensures
            Self::members(auth, None, None, None, None, post_id, None) == Seq::<Member>::empty()
                .push(("auth"@, auth))
                .push(("post_id"@, post_id)),
    {
        reveal(with_field);
        reveal(with_optional);
    }
}

impl Payload for EditPost {
    open spec fn tree(&self) -> JsonTree {
        JsonTree::Object(
            Self::members(
                self.auth.tree(),
                written(self.body),
                written(self.language_id),
                written(self.name),
                written(self.nsfw),
                self.post_id.tree(),
                written(self.url),
            ),
        )
    }

    open spec fn admits(t: JsonTree) -> bool {
        &&& t is Object
        &&& required_admits::<String>(t, "auth"@)
        &&& optional_admits::<String>(t, "body"@)
        &&& optional_admits::<i32>(t, "language_id"@)
        &&& optional_admits::<String>(t, "name"@)
        &&& optional_admits::<bool>(t, "nsfw"@)
        &&& required_admits::<i32>(t, "post_id"@)
        &&& optional_admits::<String>(t, "url"@)
    }

    open spec fn agrees(&self, t: JsonTree) -> bool {
        &&& required_agrees(self.auth, t, "auth"@)
        &&& optional_agrees(self.body, t, "body"@)
        &&& optional_agrees(self.language_id, t, "language_id"@)
        &&& optional_agrees(self.name, t, "name"@)
        &&& optional_agrees(self.nsfw, t, "nsfw"@)
        &&& required_agrees(self.post_id, t, "post_id"@)
        &&& optional_agrees(self.url, t, "url"@)
    }

    fn to_json(&self) -> (out: JsonValue) {
        let mut members: Vec<(String, JsonValue)> = Vec::new();
        assert(members_view(members@) =~= Seq::empty());
        put(&mut members, "auth", &self.auth);
        put_optional(&mut members, "body", &self.body);
        put_optional(&mut members, "language_id", &self.language_id);
        put_optional(&mut members, "name", &self.name);
        put_optional(&mut members, "nsfw", &self.nsfw);
        put(&mut members, "post_id", &self.post_id);
        put_optional(&mut members, "url", &self.url);
        object(members)
    }

    fn from_json(v: &JsonValue) -> (res: Option<Self>) {
        if !v.is_object() {
            return None;
        }
        let auth = required::<String>(v, "auth")?;
        let body = optional::<String>(v, "body")?;
        let language_id = optional::<i32>(v, "language_id")?;
        let name = optional::<String>(v, "name")?;
        let nsfw = optional::<bool>(v, "nsfw")?;
        let post_id = required::<i32>(v, "post_id")?;
        let url = optional::<String>(v, "url")?;
        Some(EditPost { auth, body, language_id, name, nsfw, post_id, url })
    }

    proof fn lemma_round_trip(&self) {
        Self::lemma_members(
            self.auth.tree(),
            written(self.body),
            written(self.language_id),
            written(self.name),
            written(self.nsfw),
            self.post_id.tree(),
            written(self.url),
        );
        self.auth.lemma_round_trip();
        lemma_optional_round_trip(self.body);
        lemma_optional_round_trip(self.language_id);
        lemma_optional_round_trip(self.name);
        lemma_optional_round_trip(self.nsfw);
        self.post_id.lemma_round_trip();
        lemma_optional_round_trip(self.url);
    }

    proof fn lemma_reads_one(&self, other: &Self, t: JsonTree) {
        lemma_required_reads_one(self.auth, other.auth, t, "auth"@);
        lemma_optional_reads_one(self.body, other.body, t, "body"@);
        lemma_optional_reads_one(self.language_id, other.language_id, t, "language_id"@);
        lemma_optional_reads_one(self.name, other.name, t, "name"@);
        lemma_optional_reads_one(self.nsfw, other.nsfw, t, "nsfw"@);
        lemma_required_reads_one(self.post_id, other.post_id, t, "post_id"@);
        lemma_optional_reads_one(self.url, other.url, t, "url"@);
    }
}

#[derive(Clone, Debug, PartialEq, Default)]
pub struct FeaturePost {
    pub auth: String,
    pub feature_type: PostFeatureType,
    pub featured: bool,
    pub post_id: i32,
}

impl FeaturePost {
    /// The members that a record is written as, from what is written for
    /// each of its fields.
    pub open spec fn members(
        auth: JsonTree,
        feature_type: JsonTree,
        featured: JsonTree,
        post_id: JsonTree,
    ) -> Seq<Member> {
        let members = Seq::empty();
        let members = with_field(members, "auth"@, auth);
        let members = with_field(members, "feature_type"@, feature_type);
        let members = with_field(members, "featured"@, featured);
        let members = with_field(members, "post_id"@, post_id);
        members
    }

    /// Each key leads to what was written under it, and to nothing where
    /// nothing was written.
    pub proof fn lemma_members(
        auth: JsonTree,
        feature_type: JsonTree,
        featured: JsonTree,
        post_id: JsonTree,
    )
        ensures
            ({
                let members = Self::members(auth, feature_type, featured, post_id);
                &&& lookup(members, "auth"@) == Some(auth)
                &&& lookup(members, "feature_type"@) == Some(feature_type)
                &&& lookup(members, "featured"@) == Some(featured)
                &&& lookup(members, "post_id"@) == Some(post_id)
            }),
    {
        broadcast use group_written_members;

        reveal_strlit("auth");
        reveal_strlit("feature_type");
        reveal_strlit("featured");
        reveal_strlit("post_id");
        assert("auth"@.len() == 4);
        assert("feature_type"@.len() == 12);
        assert("featured"@.len() == 8);
        assert("post_id"@.len() == 7);
    }

    /// Every field is mandatory: each is written, in order, and nothing
    /// else.
    pub proof fn lemma_mandatory_fields_alone(
        auth: JsonTree,
        feature_type: JsonTree,
        featured: JsonTree,
        post_id: JsonTree,
    )
        ensures
            Self::members(auth, feature_type, featured, post_id) == Seq::<Member>::empty()
                .push(("auth"@, auth))
                .push(("feature_type"@, feature_type))
                .push(("featured"@, featured))
                .push(("post_id"@, post_id)),
    {
        reveal(with_field);
        reveal(with_optional);
    }
}

impl Payload for FeaturePost {
    open spec fn tree(&self) -> JsonTree {
        JsonTree::Object(
            Self::members(
                self.auth.tree(),
                self.feature_type.tree(),
                self.featured.tree(),
                self.post_id.tree(),
            ),
        )
    }

    open spec fn admits(t: JsonTree) -> bool {
        &&& t is Object
        &&& required_admits::<String>(t, "auth"@)
        &&& required_admits::<PostFeatureType>(t, "feature_type"@)
        &&& required_admits::<bool>(t, "featured"@)
        &&& required_admits::<i32>(t, "post_id"@)
    }

    open spec fn agrees(&self, t: JsonTree) -> bool {
        &&& required_agrees(self.auth, t, "auth"@)
        &&& required_agrees(self.feature_type, t, "feature_type"@)
        &&& required_agrees(self.featured, t, "featured"@)
        &&& required_agrees(self.post_id, t, "post_id"@)
    }

    fn to_json(&self) -> (out: JsonValue) {
        let mut members: Vec<(String, JsonValue)> = Vec::new();
        assert(members_view(members@) =~= Seq::empty());
        put(&mut members, "auth", &self.auth);
        put(&mut members, "feature_type", &self.feature_type);
        put(&mut members, "featured", &self.featured);
        put(&mut members, "post_id", &self.post_id);
        object(members)
    }

    fn from_json(v: &JsonValue) -> (res: Option<Self>) {
        if !v.is_object() {
            return None;
        }
        let auth = required::<String>(v, "auth")?;
        let feature_type = required::<PostFeatureType>(v, "feature_type")?;
        let featured = required::<bool>(v, "featured")?;
        let post_id = required::<i32>(v, "post_id")?;
        Some(FeaturePost { auth, feature_type, featured, post_id })
    }

    proof fn lemma_round_trip(&self) {
        Self::lemma_members(
            self.auth.tree(),
            self.feature_type.tree(),
            self.featured.tree(),
            self.post_id.tree(),
        );
        self.auth.lemma_round_trip();
        self.feature_type.lemma_round_trip();
        self.featured.lemma_round_trip();
        self.post_id.lemma_round_trip();
    }

    proof fn lemma_reads_one(&self, other: &Self, t: JsonTree) {
        lemma_required_reads_one(self.auth, other.auth, t, "auth"@);
        lemma_required_reads_one(self.feature_type, other.feature_type, t, "feature_type"@);
        lemma_required_reads_one(self.featured, other.featured, t, "featured"@);
        lemma_required_reads_one(self.post_id, other.post_id, t, "post_id"@);
    }
}

#[derive(Clone, Debug, PartialEq, Default)]
pub struct GetPost {
    pub auth: Option<String>,
    pub comment_id: Option<i32>,
    pub id: Option<i32>,
}

impl GetPost {
    /// The members that a record is written as, from what is written for
    /// each of its fields.
    pub open spec fn members(
        auth: Option<JsonTree>,
        comment_id: Option<JsonTree>,
        id: Option<JsonTree>,
    ) -> Seq<Member> {
        let members = Seq::empty();
        let members = with_optional(members, "auth"@, auth);
        let members = with_optional(members, "comment_id"@, comment_id);
        let members = with_optional(members, "id"@, id);
        members
    }

    /// Each key leads to what was written under it, and to nothing where
    /// nothing was written.
    pub proof fn lemma_members(
        auth: Option<JsonTree>,
        comment_id: Option<JsonTree>,
        id: Option<JsonTree>,
    )
        ensures
            ({
                let members = Self::members(auth, comment_id, id);
                &&& lookup(members, "auth"@) == auth
                &&& lookup(members, "comment_id"@) == comment_id
                &&& lookup(members, "id"@) == id
            }),
    {
        broadcast use group_written_members;

        reveal_strlit("auth");
        reveal_strlit("comment_id");
        reveal_strlit("id");
        assert("auth"@.len() == 4);
        assert("comment_id"@.len() == 10);
        assert("id"@.len() == 2);
    }

    /// With every field absent, nothing is written.
    pub proof fn lemma_mandatory_fields_alone()
        ensures
            Self::members(None, None, None) == Seq::<Member>::empty(),
    {
        reveal(with_field);
        reveal(with_optional);
    }
}

impl Payload for GetPost {
    open spec fn tree(&self) -> JsonTree {
        JsonTree::Object(
            Self::members(written(self.auth), written(self.comment_id), written(self.id)),
        )
    }

    open spec fn admits(t: JsonTree) -> bool {
        &&& t is Object
        &&& optional_admits::<String>(t, "auth"@)
        &&& optional_admits::<i32>(t, "comment_id"@)
        &&& optional_admits::<i32>(t, "id"@)
    }

    open spec fn agrees(&self, t: JsonTree) -> bool {
        &&& optional_agrees(self.auth, t, "auth"@)
        &&& optional_agrees(self.comment_id, t, "comment_id"@)
        &&& optional_agrees(self.id, t, "id"@)
    }

    fn to_json(&self) -> (out: JsonValue) {
        let mut members: Vec<(String, JsonValue)> = Vec::new();
        assert(members_view(members@) =~= Seq::empty());
        put_optional(&mut members, "auth", &self.auth);
        put_optional(&mut members, "comment_id", &self.comment_id);
        put_optional(&mut members, "id", &self.id);
        object(members)
    }

    fn from_json(v: &JsonValue) -> (res: Option<Self>) {
        if !v.is_object() {
            return None;
        }
        let auth = optional::<String>(v, "auth")?;
        let comment_id = optional::<i32>(v, "comment_id")?;
        let id = optional::<i32>(v, "id")?;
        Some(GetPost { auth, comment_id, id })
    }

    proof fn lemma_round_trip(&self) {
        Self::lemma_members(written(self.auth), written(self.comment_id), written(self.id));
        lemma_optional_round_trip(self.auth);
        lemma_optional_round_trip(self.comment_id);
        lemma_optional_round_trip(self.id);
    }

    proof fn lemma_reads_one(&self, other: &Self, t: JsonTree) {
        lemma_optional_reads_one(self.auth, other.auth, t, "auth"@);
        lemma_optional_reads_one(self.comment_id, other.comment_id, t, "comment_id"@);
        lemma_optional_reads_one(self.id, other.id, t, "id"@);
    }
}

#[derive(Clone, Debug, PartialEq, Default)]
pub struct GetPostResponse {
    pub community_view: CommunityView,
    pub cross_posts: Vec<PostView>,
    pub moderators: Vec<CommunityModeratorView>,
    pub post_view: PostView,
}

impl GetPostResponse {
    /// The members that a record is written as, from what is written for
    /// each of its fields.
    pub open spec fn members(
        community_view: JsonTree,
        cross_posts: JsonTree,
        moderators: JsonTree,
        post_view: JsonTree,
    ) -> Seq<Member> {
        let members = Seq::empty();
        let members = with_field(members, "community_view"@, community_view);
        let members = with_field(members, "cross_posts"@, cross_posts);
        let members = with_field(members, "moderators"@, moderators);
        let members = with_field(members, "post_view"@, post_view);
        members
    }

    /// Each key leads to what was written under it, and to nothing where
    /// nothing was written.
    pub proof fn lemma_members(
        community_view: JsonTree,
        cross_posts: JsonTree,
        moderators: JsonTree,
        post_view: JsonTree,
    )
        ensures
            ({
                let members = Self::members(community_view, cross_posts, moderators, post_view);
                &&& lookup(members, "community_view"@) == Some(community_view)
                &&& lookup(members, "cross_posts"@) == Some(cross_posts)
                &&& lookup(members, "moderators"@) == Some(moderators)
                &&& lookup(members, "post_view"@) == Some(post_view)
            }),
    {
        broadcast use group_written_members;

        reveal_strlit("community_view");
        reveal_strlit("cross_posts");
        reveal_strlit("moderators");
        reveal_strlit("post_view");
        assert("community_view"@.len() == 14);
        assert("cross_posts"@.len() == 11);
        assert("moderators"@.len() == 10);
        assert("post_view"@.len() == 9);
    }

    /// Every field is mandatory: each is written, in order, and nothing
    /// else.
    pub proof fn lemma_mandatory_fields_alone(
        community_view: JsonTree,
        cross_posts: JsonTree,
        moderators: JsonTree,
        post_view: JsonTree,
    )
        ensures
            Self::members(
                community_view,
                cross_posts,
                moderators,
                post_view,
            ) == Seq::<Member>::empty()
                .push(("community_view"@, community_view))
                .push(("cross_posts"@, cross_posts))
                .push(("moderators"@, moderators))
                .push(("post_view"@, post_view)),
    {
        reveal(with_field);
        reveal(with_optional);
    }
}

impl Payload for GetPostResponse {
    open spec fn tree(&self) -> JsonTree {
        JsonTree::Object(
            Self::members(
                self.community_view.tree(),
                self.cross_posts.tree(),
                self.moderators.tree(),
                self.post_view.tree(),
            ),
        )
    }

    open spec fn admits(t: JsonTree) -> bool {
        &&& t is Object
        &&& required_admits::<CommunityView>(t, "community_view"@)
        &&& required_admits::<Vec<PostView>>(t, "cross_posts"@)
        &&& required_admits::<Vec<CommunityModeratorView>>(t, "moderators"@)
        &&& required_admits::<PostView>(t, "post_view"@)
    }

    open spec fn agrees(&self, t: JsonTree) -> bool {
        &&& required_agrees(self.community_view, t, "community_view"@)
        &&& required_agrees(self.cross_posts, t, "cross_posts"@)
        &&& required_agrees(self.moderators, t, "moderators"@)
        &&& required_agrees(self.post_view, t, "post_view"@)
    }

    fn to_json(&self) -> (out: JsonValue) {
        let mut members: Vec<(String, JsonValue)> = Vec::new();
        assert(members_view(members@) =~= Seq::empty());
        put(&mut members, "community_view", &self.community_view);
        put(&mut members, "cross_posts", &self.cross_posts);
        put(&mut members, "moderators", &self.moderators);
        put(&mut members, "post_view", &self.post_view);
        object(members)
    }

    fn from_json(v: &JsonValue) -> (res: Option<Self>) {
        if !v.is_object() {
            return None;
        }
        let community_view = required::<CommunityView>(v, "community_view")?;
        let cross_posts = required::<Vec<PostView>>(v, "cross_posts")?;
        let moderators = required::<Vec<CommunityModeratorView>>(v, "moderators")?;
        let post_view = required::<PostView>(v, "post_view")?;
        Some(GetPostResponse { community_view, cross_posts, moderators, post_view })
    }

    proof fn lemma_round_trip(&self) {
        Self::lemma_members(
            self.community_view.tree(),
            self.cross_posts.tree(),
            self.moderators.tree(),
            self.post_view.tree(),
        );
        self.community_view.lemma_round_trip();
        self.cross_posts.lemma_round_trip();
        self.moderators.lemma_round_trip();
        self.post_view.lemma_round_trip();
    }

    proof fn lemma_reads_one(&self, other: &Self, t: JsonTree) {
        lemma_required_reads_one(self.community_view, other.community_view, t, "community_view"@);
        lemma_required_reads_one(self.cross_posts, other.cross_posts, t, "cross_posts"@);
        lemma_required_reads_one(self.moderators, other.moderators, t, "moderators"@);
        lemma_required_reads_one(self.post_view, other.post_view, t, "post_view"@);
    }
}

#[derive(Clone, Debug, PartialEq, Default)]
pub struct GetPosts {
    pub auth: Option<String>,
    pub community_id: Option<i32>,
    pub community_name: Option<String>,
    pub limit: Option<i32>,
    pub page: Option<i32>,
    pub post_id: Option<i32>,
    pub saved_only: Option<bool>,
    pub sort: Option<SortType>,
    pub type_: Option<ListingType>,
}

impl GetPosts {
    /// The members that a record is written as, from what is written for
    /// each of its fields.
    pub open spec fn members(
        auth: Option<JsonTree>,
        community_id: Option<JsonTree>,
        community_name: Option<JsonTree>,
        limit: Option<JsonTree>,
        page: Option<JsonTree>,
        post_id: Option<JsonTree>,
        saved_only: Option<JsonTree>,
        sort: Option<JsonTree>,
        type_: Option<JsonTree>,
    ) -> Seq<Member> {
        let members = Seq::empty();
        let members = with_optional(members, "auth"@, auth);
        let members = with_optional(members, "community_id"@, community_id);
        let members = with_optional(members, "community_name"@, community_name);
        let members = with_optional(members, "limit"@, limit);
        let members = with_optional(members, "page"@, page);
        let members = with_optional(members, "post_id"@, post_id);
        let members = with_optional(members, "saved_only"@, saved_only);
        let members = with_optional(members, "sort"@, sort);
        let members = with_optional(members, "type_"@, type_);
        members
    }

    /// Each key leads to what was written under it, and to nothing where
    /// nothing was written.
    pub proof fn lemma_members(
        auth: Option<JsonTree>,
        community_id: Option<JsonTree>,
        community_name: Option<JsonTree>,
        limit: Option<JsonTree>,
        page: Option<JsonTree>,
        post_id: Option<JsonTree>,
        saved_only: Option<JsonTree>,
        sort: Option<JsonTree>,
        type_: Option<JsonTree>,
    )
        ensures
            ({
                let members = Self::members(
                    auth,
                    community_id,
                    community_name,
                    limit,
                    page,
                    post_id,
                    saved_only,
                    sort,
                    type_,
                );
                &&& lookup(members, "auth"@) == auth
                &&& lookup(members, "community_id"@) == community_id
                &&& lookup(members, "community_name"@) == community_name
                &&& lookup(members, "limit"@) == limit
                &&& lookup(members, "page"@) == page
                &&& lookup(members, "post_id"@) == post_id
                &&& lookup(members, "saved_only"@) == saved_only
                &&& lookup(members, "sort"@) == sort
                &&& lookup(members, "type_"@) == type_
            }),
    {
        broadcast use group_written_members;

        reveal_strlit("auth");
        reveal_strlit("community_id");
        reveal_strlit("community_name");
        reveal_strlit("limit");
        reveal_strlit("page");
        reveal_strlit("post_id");
        reveal_strlit("saved_only");
        reveal_strlit("sort");
        reveal_strlit("type_");
        assert("auth"@.len() == 4 && "auth"@[0] == 'a');
        assert("community_id"@.len() == 12);
        assert("community_name"@.len() == 14);
        assert("limit"@.len() == 5 && "limit"@[0] == 'l');
        assert("page"@.len() == 4 && "page"@[0] == 'p');
        assert("post_id"@.len() == 7);
        assert("saved_only"@.len() == 10);
        assert("sort"@.len() == 4 && "sort"@[0] == 's');
        assert("type_"@.len() == 5 && "type_"@[0] == 't');
    }

    /// With every field absent, nothing is written.
    pub proof fn lemma_mandatory_fields_alone()
        ensures
            Self::members(
                None,
                None,
                None,
                None,
                None,
                None,
                None,
                None,
                None,
            ) == Seq::<Member>::empty(),
    {
        reveal(with_field);
        reveal(with_optional);
    }
}

impl Payload for GetPosts {
    open spec fn tree(&self) -> JsonTree {
        JsonTree::Object(
            Self::members(
                written(self.auth),
                written(self.community_id),
                written(self.community_name),
                written(self.limit),
                written(self.page),
                written(self.post_id),
                written(self.saved_only),
                written(self.sort),
                written(self.type_),
            ),
        )
    }

    open spec fn admits(t: JsonTree) -> bool {
        &&& t is Object
        &&& optional_admits::<String>(t, "auth"@)
        &&& optional_admits::<i32>(t, "community_id"@)
        &&& optional_admits::<String>(t, "community_name"@)
        &&& optional_admits::<i32>(t, "limit"@)
        &&& optional_admits::<i32>(t, "page"@)
        &&& optional_admits::<i32>(t, "post_id"@)
        &&& optional_admits::<bool>(t, "saved_only"@)
        &&& optional_admits::<SortType>(t, "sort"@)
        &&& optional_admits::<ListingType>(t, "type_"@)
    }

    open spec fn agrees(&self, t: JsonTree) -> bool {
        &&& optional_agrees(self.auth, t, "auth"@)
        &&& optional_agrees(self.community_id, t, "community_id"@)
        &&& optional_agrees(self.community_name, t, "community_name"@)
        &&& optional_agrees(self.limit, t, "limit"@)
        &&& optional_agrees(self.page, t, "page"@)
        &&& optional_agrees(self.post_id, t, "post_id"@)
        &&& optional_agrees(self.saved_only, t, "saved_only"@)
        &&& optional_agrees(self.sort, t, "sort"@)
        &&& optional_agrees(self.type_, t, "type_"@)
    }

    fn to_json(&self) -> (out: JsonValue) {
        let mut members: Vec<(String, JsonValue)> = Vec::new();
        assert(members_view(members@) =~= Seq::empty());
        put_optional(&mut members, "auth", &self.auth);
        put_optional(&mut members, "community_id", &self.community_id);
        put_optional(&mut members, "community_name", &self.community_name);
        put_optional(&mut members, "limit", &self.limit);
        put_optional(&mut members, "page", &self.page);
        put_optional(&mut members, "post_id", &self.post_id);
        put_optional(&mut members, "saved_only", &self.saved_only);
        put_optional(&mut members, "sort", &self.sort);
        put_optional(&mut members, "type_", &self.type_);
        object(members)
    }

    fn from_json(v: &JsonValue) -> (res: Option<Self>) {
        if !v.is_object() {
            return None;
        }
        let auth = optional::<String>(v, "auth")?;
        let community_id = optional::<i32>(v, "community_id")?;
        let community_name = optional::<String>(v, "community_name")?;
        let limit = optional::<i32>(v, "limit")?;
        let page = optional::<i32>(v, "page")?;
        let post_id = optional::<i32>(v, "post_id")?;
        let saved_only = optional::<bool>(v, "saved_only")?;
        let sort = optional::<SortType>(v, "sort")?;
        let type_ = optional::<ListingType>(v, "type_")?;
        Some(
            GetPosts {
                auth,
                community_id,
                community_name,
                limit,
                page,
                post_id,
                saved_only,
                sort,
                type_,
            },
        )
    }

    proof fn lemma_round_trip(&self) {
        Self::lemma_members(
            written(self.auth),
            written(self.community_id),
            written(self.community_name),
            written(self.limit),
            written(self.page),
            written(self.post_id),
            written(self.saved_only),
            written(self.sort),
            written(self.type_),
        );
        lemma_optional_round_trip(self.auth);
        lemma_optional_round_trip(self.community_id);
        lemma_optional_round_trip(self.community_name);
        lemma_optional_round_trip(self.limit);
        lemma_optional_round_trip(self.page);
        lemma_optional_round_trip(self.post_id);
        lemma_optional_round_trip(self.saved_only);
        lemma_optional_round_trip(self.sort);
        lemma_optional_round_trip(self.type_);
    }

    proof fn lemma_reads_one(&self, other: &Self, t: JsonTree) {
        lemma_optional_reads_one(self.auth, other.auth, t, "auth"@);
        lemma_optional_reads_one(self.community_id, other.community_id, t, "community_id"@);
        lemma_optional_reads_one(self.community_name, other.community_name, t, "community_name"@);
        lemma_optional_reads_one(self.limit, other.limit, t, "limit"@);
        lemma_optional_reads_one(self.page, other.page, t, "page"@);
        lemma_optional_reads_one(self.post_id, other.post_id, t, "post_id"@);
        lemma_optional_reads_one(self.saved_only, other.saved_only, t, "saved_only"@);
        lemma_optional_reads_one(self.sort, other.sort, t, "sort"@);
        lemma_optional_reads_one(self.type_, other.type_, t, "type_"@);
    }
}

#[derive(Clone, Debug, PartialEq, Default)]
pub struct GetPostsResponse {
    pub posts: Vec<PostView>,
}

impl GetPostsResponse {
    /// The members that a record is written as, from what is written for
    /// each of its fields.
    pub open spec fn members(posts: JsonTree) -> Seq<Member> {
        let members = Seq::empty();
        let members = with_field(members, "posts"@, posts);
        members
    }

    /// Each key leads to what was written under it, and to nothing where
    /// nothing was written.
    pub proof fn lemma_members(posts: JsonTree)
        ensures
            ({
                let members = Self::members(posts);
                &&& lookup(members, "posts"@) == Some(posts)
            }),
    {
        broadcast use group_written_members;

        reveal_strlit("posts");
        assert("posts"@.len() == 5);
    }

    /// Every field is mandatory: each is written, in order, and nothing
    /// else.
    pub proof fn lemma_mandatory_fields_alone(posts: JsonTree)
        ensures
            Self::members(posts) == Seq::<Member>::empty()
                .push(("posts"@, posts)),
    {
        reveal(with_field);
        reveal(with_optional);
    }
}

impl Payload for GetPostsResponse {
    open spec fn tree(&self) -> JsonTree {
        JsonTree::Object(Self::members(self.posts.tree()))
    }

    open spec fn admits(t: JsonTree) -> bool {
        &&& t is Object
        &&& required_admits::<Vec<PostView>>(t, "posts"@)
    }

    open spec fn agrees(&self, t: JsonTree) -> bool {
        &&& required_agrees(self.posts, t, "posts"@)
    }

    fn to_json(&self) -> (out: JsonValue) {
        let mut members: Vec<(String, JsonValue)> = Vec::new();
        assert(members_view(members@) =~= Seq::empty());
        put(&mut members, "posts", &self.posts);
        object(members)
    }

    fn from_json(v: &JsonValue) -> (res: Option<Self>) {
        if !v.is_object() {
            return None;
        }
        let posts = required::<Vec<PostView>>(v, "posts")?;
        Some(GetPostsResponse { posts })
    }

    proof fn lemma_round_trip(&self) {
        Self::lemma_members(self.posts.tree());
        self.posts.lemma_round_trip();
    }

    proof fn lemma_reads_one(&self, other: &Self, t: JsonTree) {
        lemma_required_reads_one(self.posts, other.posts, t, "posts"@);
    }
}

#[derive(Clone, Debug, PartialEq, Default)]
pub struct LockPost {
    pub auth: String,
    pub locked: bool,
    pub post_id: i32,
}

impl LockPost {
    /// The members that a record is written as, from what is written for
    /// each of its fields.
    pub open spec fn members(auth: JsonTree, locked: JsonTree, post_id: JsonTree) -> Seq<Member> {
        let members = Seq::empty();
        let members = with_field(members, "auth"@, auth);
        let members = with_field(members, "locked"@, locked);
        let members = with_field(members, "post_id"@, post_id);
        members
    }

    /// Each key leads to what was written under it, and to nothing where
    /// nothing was written.
    pub proof fn lemma_members(auth: JsonTree, locked: JsonTree, post_id: JsonTree)
        ensures
            ({
                let members = Self::members(auth, locked, post_id);
                &&& lookup(members, "auth"@) == Some(auth)
                &&& lookup(members, "locked"@) == Some(locked)
                &&& lookup(members, "post_id"@) == Some(post_id)
            }),
    {
        broadcast use group_written_members;

        reveal_strlit("auth");
        reveal_strlit("locked");
        reveal_strlit("post_id");
        assert("auth"@.len() == 4);
        assert("locked"@.len() == 6);
        assert("post_id"@.len() == 7);
    }

    /// Every field is mandatory: each is written, in order, and nothing
    /// else.
    pub proof fn lemma_mandatory_fields_alone(auth: JsonTree, locked: JsonTree, post_id: JsonTree)
        ensures
            Self::members(auth, locked, post_id) == Seq::<Member>::empty()
                .push(("auth"@, auth))
                .push(("locked"@, locked))
                .push(("post_id"@, post_id)),
    {
        reveal(with_field);
        reveal(with_optional);
    }
}

impl Payload for LockPost {
    open spec fn tree(&self) -> JsonTree {
        JsonTree::Object(Self::members(self.auth.tree(), self.locked.tree(), self.post_id.tree()))
    }

    open spec fn admits(t: JsonTree) -> bool {
        &&& t is Object
        &&& required_admits::<String>(t, "auth"@)
        &&& required_admits::<bool>(t, "locked"@)
        &&& required_admits::<i32>(t, "post_id"@)
    }

    open spec fn agrees(&self, t: JsonTree) -> bool {
        &&& required_agrees(self.auth, t, "auth"@)
        &&& required_agrees(self.locked, t, "locked"@)
        &&& required_agrees(self.post_id, t, "post_id"@)
    }

    fn to_json(&self) -> (out: JsonValue) {
        let mut members: Vec<(String, JsonValue)> = Vec::new();
        assert(members_view(members@) =~= Seq::empty());
        put(&mut members, "auth", &self.auth);
        put(&mut members, "locked", &self.locked);
        put(&mut members, "post_id", &self.post_id);
        object(members)
    }

    fn from_json(v: &JsonValue) -> (res: Option<Self>) {
        if !v.is_object() {
            return None;
        }
        let auth = required::<String>(v, "auth")?;
        let locked = required::<bool>(v, "locked")?;
        let post_id = required::<i32>(v, "post_id")?;
        Some(LockPost { auth, locked, post_id })
    }

    proof fn lemma_round_trip(&self) {
        Self::lemma_members(self.auth.tree(), self.locked.tree(), self.post_id.tree());
        self.auth.lemma_round_trip();
        self.locked.lemma_round_trip();
        self.post_id.lemma_round_trip();
    }

    proof fn lemma_reads_one(&self, other: &Self, t: JsonTree) {
        lemma_required_reads_one(self.auth, other.auth, t, "auth"@);
        lemma_required_reads_one(self.locked, other.locked, t, "locked"@);
        lemma_required_reads_one(self.post_id, other.post_id, t, "post_id"@);
    }
}

#[derive(Clone, Debug, PartialEq, Default)]
pub struct MarkPostAsRead {
    pub auth: String,
    pub post_id: i32,
    pub read: bool,
}

impl MarkPostAsRead {
    /// The members that a record is written as, from what is written for
    /// each of its fields.
    pub open spec fn members(auth: JsonTree, post_id: JsonTree, read: JsonTree) -> Seq<Member> {
        let members = Seq::empty();
        let members = with_field(members, "auth"@, auth);
        let members = with_field(members, "post_id"@, post_id);
        let members = with_field(members, "read"@, read);
        members
    }

    /// Each key leads to what was written under it, and to nothing where
    /// nothing was written.
    pub proof fn lemma_members(auth: JsonTree, post_id: JsonTree, read: JsonTree)
        ensures
            ({
                let members = Self::members(auth, post_id, read);
                &&& lookup(members, "auth"@) == Some(auth)
                &&& lookup(members, "post_id"@) == Some(post_id)
                &&& lookup(members, "read"@) == Some(read)
            }),
    {
        broadcast use group_written_members;

        reveal_strlit("auth");
        reveal_strlit("post_id");
        reveal_strlit("read");
        assert("auth"@.len() == 4 && "auth"@[0] == 'a');
        assert("post_id"@.len() == 7);
        assert("read"@.len() == 4 && "read"@[0] == 'r');
    }

    /// Every field is mandatory: each is written, in order, and nothing
    /// else.
    pub proof fn lemma_mandatory_fields_alone(auth: JsonTree, post_id: JsonTree, read: JsonTree)
        ensures
            Self::members(auth, post_id, read) == Seq::<Member>::empty()
                .push(("auth"@, auth))
                .push(("post_id"@, post_id))
                .push(("read"@, read)),
    {
        reveal(with_field);
        reveal(with_optional);
    }
}

impl Payload for MarkPostAsRead {
    open spec fn tree(&self) -> JsonTree {
        JsonTree::Object(Self::members(self.auth.tree(), self.post_id.tree(), self.read.tree()))
    }

    open spec fn admits(t: JsonTree) -> bool {
        &&& t is Object
        &&& required_admits::<String>(t, "auth"@)
        &&& required_admits::<i32>(t, "post_id"@)
        &&& required_admits::<bool>(t, "read"@)
    }

    open spec fn agrees(&self, t: JsonTree) -> bool {
        &&& required_agrees(self.auth, t, "auth"@)
        &&& required_agrees(self.post_id, t, "post_id"@)
        &&& required_agrees(self.read, t, "read"@)
    }

    fn to_json(&self) -> (out: JsonValue) {
        let mut members: Vec<(String, JsonValue)> = Vec::new();
        assert(members_view(members@) =~= Seq::empty());
        put(&mut members, "auth", &self.auth);
        put(&mut members, "post_id", &self.post_id);
        put(&mut members, "read", &self.read);
        object(members)
    }

    fn from_json(v: &JsonValue) -> (res: Option<Self>) {
        if !v.is_object() {
            return None;
        }
        let auth = required::<String>(v, "auth")?;
        let post_id = required::<i32>(v, "post_id")?;
        let read = required::<bool>(v, "read")?;
        Some(MarkPostAsRead { auth, post_id, read })
    }

    proof fn lemma_round_trip(&self) {
        Self::lemma_members(self.auth.tree(), self.post_id.tree(), self.read.tree());
        self.auth.lemma_round_trip();
        self.post_id.lemma_round_trip();
        self.read.lemma_round_trip();
    }

    proof fn lemma_reads_one(&self, other: &Self, t: JsonTree) {
        lemma_required_reads_one(self.auth, other.auth, t, "auth"@);
        lemma_required_reads_one(self.post_id, other.post_id, t, "post_id"@);
        lemma_required_reads_one(self.read, other.read, t, "read"@);
    }
}

#[derive(Clone, Debug, PartialEq, Default)]
pub struct Post {
    pub ap_id: String,
    pub body: Option<String>,
    pub community_id: i32,
    pub creator_id: i32,
    pub deleted: bool,
    pub embed_description: Option<String>,
    pub embed_title: Option<String>,
    pub embed_video_url: Option<String>,
    pub featured_community: bool,
    pub featured_local: bool,
    pub id: i32,
    pub language_id: i32,
    pub local: bool,
    pub locked: bool,
    pub name: String,
    pub nsfw: bool,
    pub published: String,
    pub removed: bool,
    pub thumbnail_url: Option<String>,
    pub updated: Option<String>,
    pub url: Option<String>,
}

impl Post {
    /// The members that a record is written as, from what is written for
    /// each of its fields.
    pub open spec fn members(
        ap_id: JsonTree,
        body: Option<JsonTree>,
        community_id: JsonTree,
        creator_id: JsonTree,
        deleted: JsonTree,
        embed_description: Option<JsonTree>,
        embed_title: Option<JsonTree>,
        embed_video_url: Option<JsonTree>,
        featured_community: JsonTree,
        featured_local: JsonTree,
        id: JsonTree,
        language_id: JsonTree,
        local: JsonTree,
        locked: JsonTree,
        name: JsonTree,
        nsfw: JsonTree,
        published: JsonTree,
        removed: JsonTree,
        thumbnail_url: Option<JsonTree>,
        updated: Option<JsonTree>,
        url: Option<JsonTree>,
    ) -> Seq<Member> {
        let members = Seq::empty();
        let members = with_field(members, "ap_id"@, ap_id);
        let members = with_optional(members, "body"@, body);
        let members = with_field(members, "community_id"@, community_id);
        let members = with_field(members, "creator_id"@, creator_id);
        let members = with_field(members, "deleted"@, deleted);
        let members = with_optional(members, "embed_description"@, embed_description);
        let members = with_optional(members, "embed_title"@, embed_title);
        let members = with_optional(members, "embed_video_url"@, embed_video_url);
        let members = with_field(members, "featured_community"@, featured_community);
        let members = with_field(members, "featured_local"@, featured_local);
        let members = with_field(members, "id"@, id);
        let members = with_field(members, "language_id"@, language_id);
        let members = with_field(members, "local"@, local);
        let members = with_field(members, "locked"@, locked);
        let members = with_field(members, "name"@, name);
        let members = with_field(members, "nsfw"@, nsfw);
        let members = with_field(members, "published"@, published);
        let members = with_field(members, "removed"@, removed);
        let members = with_optional(members, "thumbnail_url"@, thumbnail_url);
        let members = with_optional(members, "updated"@, updated);
        let members = with_optional(members, "url"@, url);
        members
    }

    /// Each key leads to what was written under it, and to nothing where
    /// nothing was written.
    pub proof fn lemma_members(
        ap_id: JsonTree,
        body: Option<JsonTree>,
        community_id: JsonTree,
        creator_id: JsonTree,
        deleted: JsonTree,
        embed_description: Option<JsonTree>,
        embed_title: Option<JsonTree>,
        embed_video_url: Option<JsonTree>,
        featured_community: JsonTree,
        featured_local: JsonTree,
        id: JsonTree,
        language_id: JsonTree,
        local: JsonTree,
        locked: JsonTree,
        name: JsonTree,
        nsfw: JsonTree,
        published: JsonTree,
        removed: JsonTree,
        thumbnail_url: Option<JsonTree>,
        updated: Option<JsonTree>,
        url: Option<JsonTree>,
    )
        ensures
            ({
                let members = Self::members(
                    ap_id,
                    body,
                    community_id,
                    creator_id,
                    deleted,
                    embed_description,
                    embed_title,
                    embed_video_url,
                    featured_community,
                    featured_local,
                    id,
                    language_id,
                    local,
                    locked,
                    name,
                    nsfw,
                    published,
                    removed,
                    thumbnail_url,
                    updated,
                    url,
                );
                &&& lookup(members, "ap_id"@) == Some(ap_id)
                &&& lookup(members, "body"@) == body
                &&& lookup(members, "community_id"@) == Some(community_id)
                &&& lookup(members, "creator_id"@) == Some(creator_id)
                &&& lookup(members, "deleted"@) == Some(deleted)
                &&& lookup(members, "embed_description"@) == embed_description
                &&& lookup(members, "embed_title"@) == embed_title
                &&& lookup(members, "embed_video_url"@) == embed_video_url
                &&& lookup(members, "featured_community"@) == Some(featured_community)
                &&& lookup(members, "featured_local"@) == Some(featured_local)
                &&& lookup(members, "id"@) == Some(id)
                &&& lookup(members, "language_id"@) == Some(language_id)
                &&& lookup(members, "local"@) == Some(local)
                &&& lookup(members, "locked"@) == Some(locked)
                &&& lookup(members, "name"@) == Some(name)
                &&& lookup(members, "nsfw"@) == Some(nsfw)
                &&& lookup(members, "published"@) == Some(published)
                &&& lookup(members, "removed"@) == Some(removed)
                &&& lookup(members, "thumbnail_url"@) == thumbnail_url
                &&& lookup(members, "updated"@) == updated
                &&& lookup(members, "url"@) == url
            }),
    {
        broadcast use group_written_members;

        reveal_strlit("ap_id");
        reveal_strlit("body");
        reveal_strlit("community_id");
        reveal_strlit("creator_id");
        reveal_strlit("deleted");
        reveal_strlit("embed_description");
        reveal_strlit("embed_title");
        reveal_strlit("embed_video_url");
        reveal_strlit("featured_community");
        reveal_strlit("featured_local");
        reveal_strlit("id");
        reveal_strlit("language_id");
        reveal_strlit("local");
        reveal_strlit("locked");
        reveal_strlit("name");
        reveal_strlit("nsfw");
        reveal_strlit("published");
        reveal_strlit("removed");
        reveal_strlit("thumbnail_url");
        reveal_strlit("updated");
        reveal_strlit("url");
        assert("ap_id"@.len() == 5 && "ap_id"@[0] == 'a');
        assert("body"@.len() == 4 && "body"@[0] == 'b');
        assert("community_id"@.len() == 12);
        assert("creator_id"@.len() == 10);
        assert("deleted"@.len() == 7 && "deleted"@[0] == 'd');
        assert("embed_description"@.len() == 17);
        assert("embed_title"@.len() == 11 && "embed_title"@[0] == 'e');
        assert("embed_video_url"@.len() == 15);
        assert("featured_community"@.len() == 18);
        assert("featured_local"@.len() == 14);
        assert("id"@.len() == 2);
        assert("language_id"@.len() == 11 && "language_id"@[0] == 'l');
        assert("local"@.len() == 5 && "local"@[0] == 'l');
        assert("locked"@.len() == 6);
        assert("name"@.len() == 4 && "name"@[0] == 'n' && "name"@[1] == 'a');
        assert("nsfw"@.len() == 4 && "nsfw"@[0] == 'n' && "nsfw"@[1] == 's');
        assert("published"@.len() == 9);
        assert("removed"@.len() == 7 && "removed"@[0] == 'r');
        assert("thumbnail_url"@.len() == 13);
        assert("updated"@.len() == 7 && "updated"@[0] == 'u');
        assert("url"@.len() == 3);
    }

    /// With every optional field absent, the mandatory fields are written
    /// and nothing else.
    pub proof fn lemma_mandatory_fields_alone(
        ap_id: JsonTree,
        community_id: JsonTree,
        creator_id: JsonTree,
        deleted: JsonTree,
        featured_community: JsonTree,
        featured_local: JsonTree,
        id: JsonTree,
        language_id: JsonTree,
        local: JsonTree,
        locked: JsonTree,
        name: JsonTree,
        nsfw: JsonTree,
        published: JsonTree,
        removed: JsonTree,
    )
        ensures
            Self::members(
                ap_id,
                None,
                community_id,
                creator_id,
                deleted,
                None,
                None,
                None,
                featured_community,
                featured_local,
                id,
                language_id,
                local,
                locked,
                name,
                nsfw,
                published,
                removed,
                None,
                None,
                None,
            ) == Seq::<Member>::empty()
                .push(("ap_id"@, ap_id))
                .push(("community_id"@, community_id))
                .push(("creator_id"@, creator_id))
                .push(("deleted"@, deleted))
                .push(("featured_community"@, featured_community))
                .push(("featured_local"@, featured_local))
                .push(("id"@, id))
                .push(("language_id"@, language_id))
                .push(("local"@, local))
                .push(("locked"@, locked))
                .push(("name"@, name))
                .push(("nsfw"@, nsfw))
                .push(("published"@, published))
                .push(("removed"@, removed)),
    {
        reveal(with_field);
        reveal(with_optional);
    }
}

impl Payload for Post {
    open spec fn tree(&self) -> JsonTree {
        JsonTree::Object(
            Self::members(
                self.ap_id.tree(),
                written(self.body),
                self.community_id.tree(),
                self.creator_id.tree(),
                self.deleted.tree(),
                written(self.embed_description),
                written(self.embed_title),
                written(self.embed_video_url),
                self.featured_community.tree(),
                self.featured_local.tree(),
                self.id.tree(),
                self.language_id.tree(),
                self.local.tree(),
                self.locked.tree(),
                self.name.tree(),
                self.nsfw.tree(),
                self.published.tree(),
                self.removed.tree(),
                written(self.thumbnail_url),
                written(self.updated),
                written(self.url),
            ),
        )
    }

    open spec fn admits(t: JsonTree) -> bool {
        &&& t is Object
        &&& required_admits::<String>(t, "ap_id"@)
        &&& optional_admits::<String>(t, "body"@)
        &&& required_admits::<i32>(t, "community_id"@)
        &&& required_admits::<i32>(t, "creator_id"@)
        &&& required_admits::<bool>(t, "deleted"@)
        &&& optional_admits::<String>(t, "embed_description"@)
        &&& optional_admits::<String>(t, "embed_title"@)
        &&& optional_admits::<String>(t, "embed_video_url"@)
        &&& required_admits::<bool>(t, "featured_community"@)
        &&& required_admits::<bool>(t, "featured_local"@)
        &&& required_admits::<i32>(t, "id"@)
        &&& required_admits::<i32>(t, "language_id"@)
        &&& required_admits::<bool>(t, "local"@)
        &&& required_admits::<bool>(t, "locked"@)
        &&& required_admits::<String>(t, "name"@)
        &&& required_admits::<bool>(t, "nsfw"@)
        &&& required_admits::<String>(t, "published"@)
        &&& required_admits::<bool>(t, "removed"@)
        &&& optional_admits::<String>(t, "thumbnail_url"@)
        &&& optional_admits::<String>(t, "updated"@)
        &&& optional_admits::<String>(t, "url"@)
    }

    open spec fn agrees(&self, t: JsonTree) -> bool {
        &&& required_agrees(self.ap_id, t, "ap_id"@)
        &&& optional_agrees(self.body, t, "body"@)
        &&& required_agrees(self.community_id, t, "community_id"@)
        &&& required_agrees(self.creator_id, t, "creator_id"@)
        &&& required_agrees(self.deleted, t, "deleted"@)
        &&& optional_agrees(self.embed_description, t, "embed_description"@)
        &&& optional_agrees(self.embed_title, t, "embed_title"@)
        &&& optional_agrees(self.embed_video_url, t, "embed_video_url"@)
        &&& required_agrees(self.featured_community, t, "featured_community"@)
        &&& required_agrees(self.featured_local, t, "featured_local"@)
        &&& required_agrees(self.id, t, "id"@)
        &&& required_agrees(self.language_id, t, "language_id"@)
        &&& required_agrees(self.local, t, "local"@)
        &&& required_agrees(self.locked, t, "locked"@)
        &&& required_agrees(self.name, t, "name"@)
        &&& required_agrees(self.nsfw, t, "nsfw"@)
        &&& required_agrees(self.published, t, "published"@)
        &&& required_agrees(self.removed, t, "removed"@)
        &&& optional_agrees(self.thumbnail_url, t, "thumbnail_url"@)
        &&& optional_agrees(self.updated, t, "updated"@)
        &&& optional_agrees(self.url, t, "url"@)
    }

    fn to_json(&self) -> (out: JsonValue) {
        let mut members: Vec<(String, JsonValue)> = Vec::new();
        assert(members_view(members@) =~= Seq::empty());
        put(&mut members, "ap_id", &self.ap_id);
        put_optional(&mut members, "body", &self.body);
        put(&mut members, "community_id", &self.community_id);
        put(&mut members, "creator_id", &self.creator_id);
        put(&mut members, "deleted", &self.deleted);
        put_optional(&mut members, "embed_description", &self.embed_description);
        put_optional(&mut members, "embed_title", &self.embed_title);
        put_optional(&mut members, "embed_video_url", &self.embed_video_url);
        put(&mut members, "featured_community", &self.featured_community);
        put(&mut members, "featured_local", &self.featured_local);
        put(&mut members, "id", &self.id);
        put(&mut members, "language_id", &self.language_id);
        put(&mut members, "local", &self.local);
        put(&mut members, "locked", &self.locked);
        put(&mut members, "name", &self.name);
        put(&mut members, "nsfw", &self.nsfw);
        put(&mut members, "published", &self.published);
        put(&mut members, "removed", &self.removed);
        put_optional(&mut members, "thumbnail_url", &self.thumbnail_url);
        put_optional(&mut members, "updated", &self.updated);
        put_optional(&mut members, "url", &self.url);
        object(members)
    }

    fn from_json(v: &JsonValue) -> (res: Option<Self>) {
        if !v.is_object() {
            return None;
        }
        let ap_id = required::<String>(v, "ap_id")?;
        let body = optional::<String>(v, "body")?;
        let community_id = required::<i32>(v, "community_id")?;
        let creator_id = required::<i32>(v, "creator_id")?;
        let deleted = required::<bool>(v, "deleted")?;
        let embed_description = optional::<String>(v, "embed_description")?;
        let embed_title = optional::<String>(v, "embed_title")?;
        let embed_video_url = optional::<String>(v, "embed_video_url")?;
        let featured_community = required::<bool>(v, "featured_community")?;
        let featured_local = required::<bool>(v, "featured_local")?;
        let id = required::<i32>(v, "id")?;
        let language_id = required::<i32>(v, "language_id")?;
        let local = required::<bool>(v, "local")?;
        let locked = required::<bool>(v, "locked")?;
        let name = required::<String>(v, "name")?;
        let nsfw = required::<bool>(v, "nsfw")?;
        let published = required::<String>(v, "published")?;
        let removed = required::<bool>(v, "removed")?;
        let thumbnail_url = optional::<String>(v, "thumbnail_url")?;
        let updated = optional::<String>(v, "updated")?;
        let url = optional::<String>(v, "url")?;
        Some(
            Post {
                ap_id,
                body,
                community_id,
                creator_id,
                deleted,
                embed_description,
                embed_title,
                embed_video_url,
                featured_community,
                featured_local,
                id,
                language_id,
                local,
                locked,
                name,
                nsfw,
                published,
                removed,
                thumbnail_url,
                updated,
                url,
            },
        )
    }

    proof fn lemma_round_trip(&self) {
        Self::lemma_members(
            self.ap_id.tree(),
            written(self.body),
            self.community_id.tree(),
            self.creator_id.tree(),
            self.deleted.tree(),
            written(self.embed_description),
            written(self.embed_title),
            written(self.embed_video_url),
            self.featured_community.tree(),
            self.featured_local.tree(),
            self.id.tree(),
            self.language_id.tree(),
            self.local.tree(),
            self.locked.tree(),
            self.name.tree(),
            self.nsfw.tree(),
            self.published.tree(),
            self.removed.tree(),
            written(self.thumbnail_url),
            written(self.updated),
            written(self.url),
        );
        self.ap_id.lemma_round_trip();
        lemma_optional_round_trip(self.body);
        self.community_id.lemma_round_trip();
        self.creator_id.lemma_round_trip();
        self.deleted.lemma_round_trip();
        lemma_optional_round_trip(self.embed_description);
        lemma_optional_round_trip(self.embed_title);
        lemma_optional_round_trip(self.embed_video_url);
        self.featured_community.lemma_round_trip();
        self.featured_local.lemma_round_trip();
        self.id.lemma_round_trip();
        self.language_id.lemma_round_trip();
        self.local.lemma_round_trip();
        self.locked.lemma_round_trip();
        self.name.lemma_round_trip();
        self.nsfw.lemma_round_trip();
        self.published.lemma_round_trip();
        self.removed.lemma_round_trip();
        lemma_optional_round_trip(self.thumbnail_url);
        lemma_optional_round_trip(self.updated);
        lemma_optional_round_trip(self.url);
    }

    proof fn lemma_reads_one(&self, other: &Self, t: JsonTree) {
        lemma_required_reads_one(self.ap_id, other.ap_id, t, "ap_id"@);
        lemma_optional_reads_one(self.body, other.body, t, "body"@);
        lemma_required_reads_one(self.community_id, other.community_id, t, "community_id"@);
        lemma_required_reads_one(self.creator_id, other.creator_id, t, "creator_id"@);
        lemma_required_reads_one(self.deleted, other.deleted, t, "deleted"@);
        lemma_optional_reads_one(
            self.embed_description,
            other.embed_description,
            t,
            "embed_description"@,
        );
        lemma_optional_reads_one(self.embed_title, other.embed_title, t, "embed_title"@);
        lemma_optional_reads_one(
            self.embed_video_url,
            other.embed_video_url,
            t,
            "embed_video_url"@,
        );
        lemma_required_reads_one(
            self.featured_community,
            other.featured_community,
            t,
            "featured_community"@,
        );
        lemma_required_reads_one(self.featured_local, other.featured_local, t, "featured_local"@);
        lemma_required_reads_one(self.id, other.id, t, "id"@);
        lemma_required_reads_one(self.language_id, other.language_id, t, "language_id"@);
        lemma_required_reads_one(self.local, other.local, t, "local"@);
        lemma_required_reads_one(self.locked, other.locked, t, "locked"@);
        lemma_required_reads_one(self.name, other.name, t, "name"@);
        lemma_required_reads_one(self.nsfw, other.nsfw, t, "nsfw"@);
        lemma_required_reads_one(self.published, other.published, t, "published"@);
        lemma_required_reads_one(self.removed, other.removed, t, "removed"@);
        lemma_optional_reads_one(self.thumbnail_url, other.thumbnail_url, t, "thumbnail_url"@);
        lemma_optional_reads_one(self.updated, other.updated, t, "updated"@);
        lemma_optional_reads_one(self.url, other.url, t, "url"@);
    }
}

#[derive(Clone, Debug, PartialEq, Default)]
pub struct PostAggregates {
    pub comments: Option<i32>,
    pub downvotes: i32,
    pub featured_community: bool,
    pub featured_local: bool,
    pub hot_rank: i32,
    pub hot_rank_active: i32,
    pub id: i32,
    pub newest_comment_time: String,
    pub newest_comment_time_necro: String,
    pub upvotes: i32,
}

impl PostAggregates {
    /// The members that a record is written as, from what is written for
    /// each of its fields.
    pub open spec fn members(
        comments: Option<JsonTree>,
        downvotes: JsonTree,
        featured_community: JsonTree,
        featured_local: JsonTree,
        hot_rank: JsonTree,
        hot_rank_active: JsonTree,
        id: JsonTree,
        newest_comment_time: JsonTree,
        newest_comment_time_necro: JsonTree,
        upvotes: JsonTree,
    ) -> Seq<Member> {
        let members = Seq::empty();
        let members = with_optional(members, "comments"@, comments);
        let members = with_field(members, "downvotes"@, downvotes);
        let members = with_field(members, "featured_community"@, featured_community);
        let members = with_field(members, "featured_local"@, featured_local);
        let members = with_field(members, "hot_rank"@, hot_rank);
        let members = with_field(members, "hot_rank_active"@, hot_rank_active);
        let members = with_field(members, "id"@, id);
        let members = with_field(members, "newest_comment_time"@, newest_comment_time);
        let members = with_field(members, "newest_comment_time_necro"@, newest_comment_time_necro);
        let members = with_field(members, "upvotes"@, upvotes);
        members
    }

    /// Each key leads to what was written under it, and to nothing where
    /// nothing was written.
    pub proof fn lemma_members(
        comments: Option<JsonTree>,
        downvotes: JsonTree,
        featured_community: JsonTree,
        featured_local: JsonTree,
        hot_rank: JsonTree,
        hot_rank_active: JsonTree,
        id: JsonTree,
        newest_comment_time: JsonTree,
        newest_comment_time_necro: JsonTree,
        upvotes: JsonTree,
    )
        ensures
            ({
                let members = Self::members(
                    comments,
                    downvotes,
                    featured_community,
                    featured_local,
                    hot_rank,
                    hot_rank_active,
                    id,
                    newest_comment_time,
                    newest_comment_time_necro,
                    upvotes,
                );
                &&& lookup(members, "comments"@) == comments
                &&& lookup(members, "downvotes"@) == Some(downvotes)
                &&& lookup(members, "featured_community"@) == Some(featured_community)
                &&& lookup(members, "featured_local"@) == Some(featured_local)
                &&& lookup(members, "hot_rank"@) == Some(hot_rank)
                &&& lookup(members, "hot_rank_active"@) == Some(hot_rank_active)
                &&& lookup(members, "id"@) == Some(id)
                &&& lookup(members, "newest_comment_time"@) == Some(newest_comment_time)
                &&& lookup(members, "newest_comment_time_necro"@) == Some(newest_comment_time_necro)
                &&& lookup(members, "upvotes"@) == Some(upvotes)
            }),
    {
        broadcast use group_written_members;

        reveal_strlit("comments");
        reveal_strlit("downvotes");
        reveal_strlit("featured_community");
        reveal_strlit("featured_local");
        reveal_strlit("hot_rank");
        reveal_strlit("hot_rank_active");
        reveal_strlit("id");
        reveal_strlit("newest_comment_time");
        reveal_strlit("newest_comment_time_necro");
        reveal_strlit("upvotes");
        assert("comments"@.len() == 8 && "comments"@[0] == 'c');
        assert("downvotes"@.len() == 9);
        assert("featured_community"@.len() == 18);
        assert("featured_local"@.len() == 14);
        assert("hot_rank"@.len() == 8 && "hot_rank"@[0] == 'h');
        assert("hot_rank_active"@.len() == 15);
        assert("id"@.len() == 2);
        assert("newest_comment_time"@.len() == 19);
        assert("newest_comment_time_necro"@.len() == 25);
        assert("upvotes"@.len() == 7);
    }

    /// With every optional field absent, the mandatory fields are written
    /// and nothing else.
    pub proof fn lemma_mandatory_fields_alone(
        downvotes: JsonTree,
        featured_community: JsonTree,
        featured_local: JsonTree,
        hot_rank: JsonTree,
        hot_rank_active: JsonTree,
        id: JsonTree,
        newest_comment_time: JsonTree,
        newest_comment_time_necro: JsonTree,
        upvotes: JsonTree,
    )
        ensures
            Self::members(
                None,
                downvotes,
                featured_community,
                featured_local,
                hot_rank,
                hot_rank_active,
                id,
                newest_comment_time,
                newest_comment_time_necro,
                upvotes,
            ) == Seq::<Member>::empty()
                .push(("downvotes"@, downvotes))
                .push(("featured_community"@, featured_community))
                .push(("featured_local"@, featured_local))
                .push(("hot_rank"@, hot_rank))
                .push(("hot_rank_active"@, hot_rank_active))
                .push(("id"@, id))
                .push(("newest_comment_time"@, newest_comment_time))
                .push(("newest_comment_time_necro"@, newest_comment_time_necro))
                .push(("upvotes"@, upvotes)),
    {
        reveal(with_field);
        reveal(with_optional);
    }
}

impl Payload for PostAggregates {
    open spec fn tree(&self) -> JsonTree {
        JsonTree::Object(
            Self::members(
                written(self.comments),
                self.downvotes.tree(),
                self.featured_community.tree(),
                self.featured_local.tree(),
                self.hot_rank.tree(),
                self.hot_rank_active.tree(),
                self.id.tree(),
                self.newest_comment_time.tree(),
                self.newest_comment_time_necro.tree(),
                self.upvotes.tree(),
            ),
        )
    }

    open spec fn admits(t: JsonTree) -> bool {
        &&& t is Object
        &&& optional_admits::<i32>(t, "comments"@)
        &&& required_admits::<i32>(t, "downvotes"@)
        &&& required_admits::<bool>(t, "featured_community"@)
        &&& required_admits::<bool>(t, "featured_local"@)
        &&& required_admits::<i32>(t, "hot_rank"@)
        &&& required_admits::<i32>(t, "hot_rank_active"@)
        &&& required_admits::<i32>(t, "id"@)
        &&& required_admits::<String>(t, "newest_comment_time"@)
        &&& required_admits::<String>(t, "newest_comment_time_necro"@)
        &&& required_admits::<i32>(t, "upvotes"@)
    }

    open spec fn agrees(&self, t: JsonTree) -> bool {
        &&& optional_agrees(self.comments, t, "comments"@)
        &&& required_agrees(self.downvotes, t, "downvotes"@)
        &&& required_agrees(self.featured_community, t, "featured_community"@)
        &&& required_agrees(self.featured_local, t, "featured_local"@)
        &&& required_agrees(self.hot_rank, t, "hot_rank"@)
        &&& required_agrees(self.hot_rank_active, t, "hot_rank_active"@)
        &&& required_agrees(self.id, t, "id"@)
        &&& required_agrees(self.newest_comment_time, t, "newest_comment_time"@)
        &&& required_agrees(self.newest_comment_time_necro, t, "newest_comment_time_necro"@)
        &&& required_agrees(self.upvotes, t, "upvotes"@)
    }

    fn to_json(&self) -> (out: JsonValue) {
        let mut members: Vec<(String, JsonValue)> = Vec::new();
        assert(members_view(members@) =~= Seq::empty());
        put_optional(&mut members, "comments", &self.comments);
        put(&mut members, "downvotes", &self.downvotes);
        put(&mut members, "featured_community", &self.featured_community);
        put(&mut members, "featured_local", &self.featured_local);
        put(&mut members, "hot_rank", &self.hot_rank);
        put(&mut members, "hot_rank_active", &self.hot_rank_active);
        put(&mut members, "id", &self.id);
        put(&mut members, "newest_comment_time", &self.newest_comment_time);
        put(&mut members, "newest_comment_time_necro", &self.newest_comment_time_necro);
        put(&mut members, "upvotes", &self.upvotes);
        object(members)
    }

    fn from_json(v: &JsonValue) -> (res: Option<Self>) {
        if !v.is_object() {
            return None;
        }
        let comments = optional::<i32>(v, "comments")?;
        let downvotes = required::<i32>(v, "downvotes")?;
        let featured_community = required::<bool>(v, "featured_community")?;
        let featured_local = required::<bool>(v, "featured_local")?;
        let hot_rank = required::<i32>(v, "hot_rank")?;
        let hot_rank_active = required::<i32>(v, "hot_rank_active")?;
        let id = required::<i32>(v, "id")?;
        let newest_comment_time = required::<String>(v, "newest_comment_time")?;
        let newest_comment_time_necro = required::<String>(v, "newest_comment_time_necro")?;
        let upvotes = required::<i32>(v, "upvotes")?;
        Some(
            PostAggregates {
                comments,
                downvotes,
                featured_community,
                featured_local,
                hot_rank,
                hot_rank_active,
                id,
                newest_comment_time,
                newest_comment_time_necro,
                upvotes,
            },
        )
    }

    proof fn lemma_round_trip(&self) {
        Self::lemma_members(
            written(self.comments),
            self.downvotes.tree(),
            self.featured_community.tree(),
            self.featured_local.tree(),
            self.hot_rank.tree(),
            self.hot_rank_active.tree(),
            self.id.tree(),
            self.newest_comment_time.tree(),
            self.newest_comment_time_necro.tree(),
            self.upvotes.tree(),
        );
        lemma_optional_round_trip(self.comments);
        self.downvotes.lemma_round_trip();
        self.featured_community.lemma_round_trip();
        self.featured_local.lemma_round_trip();
        self.hot_rank.lemma_round_trip();
        self.hot_rank_active.lemma_round_trip();
        self.id.lemma_round_trip();
        self.newest_comment_time.lemma_round_trip();
        self.newest_comment_time_necro.lemma_round_trip();
        self.upvotes.lemma_round_trip();
    }

    proof fn lemma_reads_one(&self, other: &Self, t: JsonTree) {
        lemma_optional_reads_one(self.comments, other.comments, t, "comments"@);
        lemma_required_reads_one(self.downvotes, other.downvotes, t, "downvotes"@);
        lemma_required_reads_one(
            self.featured_community,
            other.featured_community,
            t,
            "featured_community"@,
        );
        lemma_required_reads_one(self.featured_local, other.featured_local, t, "featured_local"@);
        lemma_required_reads_one(self.hot_rank, other.hot_rank, t, "hot_rank"@);
        lemma_required_reads_one(
            self.hot_rank_active,
            other.hot_rank_active,
            t,
            "hot_rank_active"@,
        );
        lemma_required_reads_one(self.id, other.id, t, "id"@);
        lemma_required_reads_one(
            self.newest_comment_time,
            other.newest_comment_time,
            t,
            "newest_comment_time"@,
        );
        lemma_required_reads_one(
            self.newest_comment_time_necro,
            other.newest_comment_time_necro,
            t,
            "newest_comment_time_necro"@,
        );
        lemma_required_reads_one(self.upvotes, other.upvotes, t, "upvotes"@);
    }
}

#[derive(Clone, Debug, PartialEq, Default)]
pub struct PostJoin {
    pub post_id: i32,
}

impl PostJoin {
    /// The members that a record is written as, from what is written for
    /// each of its fields.
    pub open spec fn members(post_id: JsonTree) -> Seq<Member> {
        let members = Seq::empty();
        let members = with_field(members, "post_id"@, post_id);
        members
    }

    /// Each key leads to what was written under it, and to nothing where
    /// nothing was written.
    pub proof fn lemma_members(post_id: JsonTree)
        ensures
            ({
                let members = Self::members(post_id);
                &&& lookup(members, "post_id"@) == Some(post_id)
            }),
    {
        broadcast use group_written_members;

        reveal_strlit("post_id");
        assert("post_id"@.len() == 7);
    }

    /// Every field is mandatory: each is written, in order, and nothing
    /// else.
    pub proof fn lemma_mandatory_fields_alone(post_id: JsonTree)
        ensures
            Self::members(post_id) == Seq::<Member>::empty()
                .push(("post_id"@, post_id)),
    {
        reveal(with_field);
        reveal(with_optional);
    }
}

impl Payload for PostJoin {
    open spec fn tree(&self) -> JsonTree {
        JsonTree::Object(Self::members(self.post_id.tree()))
    }

    open spec fn admits(t: JsonTree) -> bool {
        &&& t is Object
        &&& required_admits::<i32>(t, "post_id"@)
    }

    open spec fn agrees(&self, t: JsonTree) -> bool {
        &&& required_agrees(self.post_id, t, "post_id"@)
    }

    fn to_json(&self) -> (out: JsonValue) {
        let mut members: Vec<(String, JsonValue)> = Vec::new();
        assert(members_view(members@) =~= Seq::empty());
        put(&mut members, "post_id", &self.post_id);
        object(members)
    }

    fn from_json(v: &JsonValue) -> (res: Option<Self>) {
        if !v.is_object() {
            return None;
        }
        let post_id = required::<i32>(v, "post_id")?;
        Some(PostJoin { post_id })
    }

    proof fn lemma_round_trip(&self) {
        Self::lemma_members(self.post_id.tree());
        self.post_id.lemma_round_trip();
    }

    proof fn lemma_reads_one(&self, other: &Self, t: JsonTree) {
        lemma_required_reads_one(self.post_id, other.post_id, t, "post_id"@);
    }
}

#[derive(Clone, Debug, PartialEq, Default)]
pub struct PostJoinResponse {
    pub joined: bool,
}

impl PostJoinResponse {
    /// The members that a record is written as, from what is written for
    /// each of its fields.
    pub open spec fn members(joined: JsonTree) -> Seq<Member> {
        let members = Seq::empty();
        let members = with_field(members, "joined"@, joined);
        members
    }

    /// Each key leads to what was written under it, and to nothing where
    /// nothing was written.
    pub proof fn lemma_members(joined: JsonTree)
        ensures
            ({
                let members = Self::members(joined);
                &&& lookup(members, "joined"@) == Some(joined)
            }),
    {
        broadcast use group_written_members;

        reveal_strlit("joined");
        assert("joined"@.len() == 6);
    }

    /// Every field is mandatory: each is written, in order, and nothing
    /// else.
    pub proof fn lemma_mandatory_fields_alone(joined: JsonTree)
        ensures
            Self::members(joined) == Seq::<Member>::empty()
                .push(("joined"@, joined)),
    {
        reveal(with_field);
        reveal(with_optional);
    }
}

impl Payload for PostJoinResponse {
    open spec fn tree(&self) -> JsonTree {
        JsonTree::Object(Self::members(self.joined.tree()))
    }

    open spec fn admits(t: JsonTree) -> bool {
        &&& t is Object
        &&& required_admits::<bool>(t, "joined"@)
    }

    open spec fn agrees(&self, t: JsonTree) -> bool {
        &&& required_agrees(self.joined, t, "joined"@)
    }

    fn to_json(&self) -> (out: JsonValue) {
        let mut members: Vec<(String, JsonValue)> = Vec::new();
        assert(members_view(members@) =~= Seq::empty());
        put(&mut members, "joined", &self.joined);
        object(members)
    }

    fn from_json(v: &JsonValue) -> (res: Option<Self>) {
        if !v.is_object() {
            return None;
        }
        let joined = required::<bool>(v, "joined")?;
        Some(PostJoinResponse { joined })
    }

    proof fn lemma_round_trip(&self) {
        Self::lemma_members(self.joined.tree());
        self.joined.lemma_round_trip();
    }

    proof fn lemma_reads_one(&self, other: &Self, t: JsonTree) {
        lemma_required_reads_one(self.joined, other.joined, t, "joined"@);
    }
}

#[derive(Clone, Debug, PartialEq, Default)]
pub struct PostResponse {
    pub post_view: PostView,
}

impl PostResponse {
    /// The members that a record is written as, from what is written for
    /// each of its fields.
    pub open spec fn members(post_view: JsonTree) -> Seq<Member> {
        let members = Seq::empty();
        let members = with_field(members, "post_view"@, post_view);
        members
    }

    /// Each key leads to what was written under it, and to nothing where
    /// nothing was written.
    pub proof fn lemma_members(post_view: JsonTree)
        ensures
            ({
                let members = Self::members(post_view);
                &&& lookup(members, "post_view"@) == Some(post_view)
            }),
    {
        broadcast use group_written_members;

        reveal_strlit("post_view");
        assert("post_view"@.len() == 9);
    }

    /// Every field is mandatory: each is written, in order, and nothing
    /// else.
    pub proof fn lemma_mandatory_fields_alone(post_view: JsonTree)
        ensures
            Self::members(post_view) == Seq::<Member>::empty()
                .push(("post_view"@, post_view)),
    {
        reveal(with_field);
        reveal(with_optional);
    }
}

impl Payload for PostResponse {
    open spec fn tree(&self) -> JsonTree {
        JsonTree::Object(Self::members(self.post_view.tree()))
    }

    open spec fn admits(t: JsonTree) -> bool {
        &&& t is Object
        &&& required_admits::<PostView>(t, "post_view"@)
    }

    open spec fn agrees(&self, t: JsonTree) -> bool {
        &&& required_agrees(self.post_view, t, "post_view"@)
    }

    fn to_json(&self) -> (out: JsonValue) {
        let mut members: Vec<(String, JsonValue)> = Vec::new();
        assert(members_view(members@) =~= Seq::empty());
        put(&mut members, "post_view", &self.post_view);
        object(members)
    }

    fn from_json(v: &JsonValue) -> (res: Option<Self>) {
        if !v.is_object() {
            return None;
        }
        let post_view = required::<PostView>(v, "post_view")?;
        Some(PostResponse { post_view })
    }

    proof fn lemma_round_trip(&self) {
        Self::lemma_members(self.post_view.tree());
        self.post_view.lemma_round_trip();
    }

    proof fn lemma_reads_one(&self, other: &Self, t: JsonTree) {
        lemma_required_reads_one(self.post_view, other.post_view, t, "post_view"@);
    }
}

#[derive(Clone, Debug, PartialEq, Default)]
pub struct PostView {
    pub community: Community,
    pub counts: PostAggregates,
    pub creator: Person,
    pub creator_banned_from_community: bool,
    pub creator_blocked: bool,
    pub my_vote: Option<i32>,
    pub post: Post,
    pub read: bool,
    pub saved: bool,
    pub subscribed: SubscribedType,
    pub unread_comments: i32,
}

impl PostView {
    /// The members that a record is written as, from what is written for
    /// each of its fields.
    pub open spec fn members(
        community: JsonTree,
        counts: JsonTree,
        creator: JsonTree,
        creator_banned_from_community: JsonTree,
        creator_blocked: JsonTree,
        my_vote: Option<JsonTree>,
        post: JsonTree,
        read: JsonTree,
        saved: JsonTree,
        subscribed: JsonTree,
        unread_comments: JsonTree,
    ) -> Seq<Member> {
        let members = Seq::empty();
        let members = with_field(members, "community"@, community);
        let members = with_field(members, "counts"@, counts);
        let members = with_field(members, "creator"@, creator);
        let members = with_field(
            members,
            "creator_banned_from_community"@,
            creator_banned_from_community,
        );
        let members = with_field(members, "creator_blocked"@, creator_blocked);
        let members = with_optional(members, "my_vote"@, my_vote);
        let members = with_field(members, "post"@, post);
        let members = with_field(members, "read"@, read);
        let members = with_field(members, "saved"@, saved);
        let members = with_field(members, "subscribed"@, subscribed);
        let members = with_field(members, "unread_comments"@, unread_comments);
        members
    }

    /// Each key leads to what was written under it, and to nothing where
    /// nothing was written.
    pub proof fn lemma_members(
        community: JsonTree,
        counts: JsonTree,
        creator: JsonTree,
        creator_banned_from_community: JsonTree,
        creator_blocked: JsonTree,
        my_vote: Option<JsonTree>,
        post: JsonTree,
        read: JsonTree,
        saved: JsonTree,
        subscribed: JsonTree,
        unread_comments: JsonTree,
    )
        ensures
            ({
                let members = Self::members(
                    community,
                    counts,
                    creator,
                    creator_banned_from_community,
                    creator_blocked,
                    my_vote,
                    post,
                    read,
                    saved,
                    subscribed,
                    unread_comments,
                );
                &&& lookup(members, "community"@) == Some(community)
                &&& lookup(members, "counts"@) == Some(counts)
                &&& lookup(members, "creator"@) == Some(creator)
                &&& lookup(members, "creator_banned_from_community"@)
                    == Some(creator_banned_from_community)
                &&& lookup(members, "creator_blocked"@) == Some(creator_blocked)
                &&& lookup(members, "my_vote"@) == my_vote
                &&& lookup(members, "post"@) == Some(post)
                &&& lookup(members, "read"@) == Some(read)
                &&& lookup(members, "saved"@) == Some(saved)
                &&& lookup(members, "subscribed"@) == Some(subscribed)
                &&& lookup(members, "unread_comments"@) == Some(unread_comments)
            }),
    {
        broadcast use group_written_members;

        reveal_strlit("community");
        reveal_strlit("counts");
        reveal_strlit("creator");
        reveal_strlit("creator_banned_from_community");
        reveal_strlit("creator_blocked");
        reveal_strlit("my_vote");
        reveal_strlit("post");
        reveal_strlit("read");
        reveal_strlit("saved");
        reveal_strlit("subscribed");
        reveal_strlit("unread_comments");
        assert("community"@.len() == 9);
        assert("counts"@.len() == 6);
        assert("creator"@.len() == 7 && "creator"@[0] == 'c');
        assert("creator_banned_from_community"@.len() == 29);
        assert("creator_blocked"@.len() == 15 && "creator_blocked"@[0] == 'c');
        assert("my_vote"@.len() == 7 && "my_vote"@[0] == 'm');
        assert("post"@.len() == 4 && "post"@[0] == 'p');
        assert("read"@.len() == 4 && "read"@[0] == 'r');
        assert("saved"@.len() == 5);
        assert("subscribed"@.len() == 10);
        assert("unread_comments"@.len() == 15 && "unread_comments"@[0] == 'u');
    }

    /// With every optional field absent, the mandatory fields are written
    /// and nothing else.
    pub proof fn lemma_mandatory_fields_alone(
        community: JsonTree,
        counts: JsonTree,
        creator: JsonTree,
        creator_banned_from_community: JsonTree,
        creator_blocked: JsonTree,
        post: JsonTree,
        read: JsonTree,
        saved: JsonTree,
        subscribed: JsonTree,
        unread_comments: JsonTree,
    )
        ensures
            Self::members(
                community,
                counts,
                creator,
                creator_banned_from_community,
                creator_blocked,
                None,
                post,
                read,
                saved,
                subscribed,
                unread_comments,
            ) == Seq::<Member>::empty()
                .push(("community"@, community))
                .push(("counts"@, counts))
                .push(("creator"@, creator))
                .push(("creator_banned_from_community"@, creator_banned_from_community))
                .push(("creator_blocked"@, creator_blocked))
                .push(("post"@, post))
                .push(("read"@, read))
                .push(("saved"@, saved))
                .push(("subscribed"@, subscribed))
                .push(("unread_comments"@, unread_comments)),
    {
        reveal(with_field);
        reveal(with_optional);
    }
}

impl Payload for PostView {
    open spec fn tree(&self) -> JsonTree {
        JsonTree::Object(
            Self::members(
                self.community.tree(),
                self.counts.tree(),
                self.creator.tree(),
                self.creator_banned_from_community.tree(),
                self.creator_blocked.tree(),
                written(self.my_vote),
                self.post.tree(),
                self.read.tree(),
                self.saved.tree(),
                self.subscribed.tree(),
                self.unread_comments.tree(),
            ),
        )
    }

    open spec fn admits(t: JsonTree) -> bool {
        &&& t is Object
        &&& required_admits::<Community>(t, "community"@)
        &&& required_admits::<PostAggregates>(t, "counts"@)
        &&& required_admits::<Person>(t, "creator"@)
        &&& required_admits::<bool>(t, "creator_banned_from_community"@)
        &&& required_admits::<bool>(t, "creator_blocked"@)
        &&& optional_admits::<i32>(t, "my_vote"@)
        &&& required_admits::<Post>(t, "post"@)
        &&& required_admits::<bool>(t, "read"@)
        &&& required_admits::<bool>(t, "saved"@)
        &&& required_admits::<SubscribedType>(t, "subscribed"@)
        &&& required_admits::<i32>(t, "unread_comments"@)
    }

    open spec fn agrees(&self, t: JsonTree) -> bool {
        &&& required_agrees(self.community, t, "community"@)
        &&& required_agrees(self.counts, t, "counts"@)
        &&& required_agrees(self.creator, t, "creator"@)
        &&& required_agrees(self.creator_banned_from_community, t, "creator_banned_from_community"@)
        &&& required_agrees(self.creator_blocked, t, "creator_blocked"@)
        &&& optional_agrees(self.my_vote, t, "my_vote"@)
        &&& required_agrees(self.post, t, "post"@)
        &&& required_agrees(self.read, t, "read"@)
        &&& required_agrees(self.saved, t, "saved"@)
        &&& required_agrees(self.subscribed, t, "subscribed"@)
        &&& required_agrees(self.unread_comments, t, "unread_comments"@)
    }

    fn to_json(&self) -> (out: JsonValue) {
        let mut members: Vec<(String, JsonValue)> = Vec::new();
        assert(members_view(members@) =~= Seq::empty());
        put(&mut members, "community", &self.community);
        put(&mut members, "counts", &self.counts);
        put(&mut members, "creator", &self.creator);
        put(&mut members, "creator_banned_from_community", &self.creator_banned_from_community);
        put(&mut members, "creator_blocked", &self.creator_blocked);
        put_optional(&mut members, "my_vote", &self.my_vote);
        put(&mut members, "post", &self.post);
        put(&mut members, "read", &self.read);
        put(&mut members, "saved", &self.saved);
        put(&mut members, "subscribed", &self.subscribed);
        put(&mut members, "unread_comments", &self.unread_comments);
        object(members)
    }

    fn from_json(v: &JsonValue) -> (res: Option<Self>) {
        if !v.is_object() {
            return None;
        }
        let community = required::<Community>(v, "community")?;
        let counts = required::<PostAggregates>(v, "counts")?;
        let creator = required::<Person>(v, "creator")?;
        let creator_banned_from_community = required::<bool>(v, "creator_banned_from_community")?;
        let creator_blocked = required::<bool>(v, "creator_blocked")?;
        let my_vote = optional::<i32>(v, "my_vote")?;
        let post = required::<Post>(v, "post")?;
        let read = required::<bool>(v, "read")?;
        let saved = required::<bool>(v, "saved")?;
        let subscribed = required::<SubscribedType>(v, "subscribed")?;
        let unread_comments = required::<i32>(v, "unread_comments")?;
        Some(
            PostView {
                community,
                counts,
                creator,
                creator_banned_from_community,
                creator_blocked,
                my_vote,
                post,
                read,
                saved,
                subscribed,
                unread_comments,
            },
        )
    }

    proof fn lemma_round_trip(&self) {
        Self::lemma_members(
            self.community.tree(),
            self.counts.tree(),
            self.creator.tree(),
            self.creator_banned_from_community.tree(),
            self.creator_blocked.tree(),
            written(self.my_vote),
            self.post.tree(),
            self.read.tree(),
            self.saved.tree(),
            self.subscribed.tree(),
            self.unread_comments.tree(),
        );
        self.community.lemma_round_trip();
        self.counts.lemma_round_trip();
        self.creator.lemma_round_trip();
        self.creator_banned_from_community.lemma_round_trip();
        self.creator_blocked.lemma_round_trip();
        lemma_optional_round_trip(self.my_vote);
        self.post.lemma_round_trip();
        self.read.lemma_round_trip();
        self.saved.lemma_round_trip();
        self.subscribed.lemma_round_trip();
        self.unread_comments.lemma_round_trip();
    }

    proof fn lemma_reads_one(&self, other: &Self, t: JsonTree) {
        lemma_required_reads_one(self.community, other.community, t, "community"@);
        lemma_required_reads_one(self.counts, other.counts, t, "counts"@);
        lemma_required_reads_one(self.creator, other.creator, t, "creator"@);
        lemma_required_reads_one(
            self.creator_banned_from_community,
            other.creator_banned_from_community,
            t,
            "creator_banned_from_community"@,
        );
        lemma_required_reads_one(
            self.creator_blocked,
            other.creator_blocked,
            t,
            "creator_blocked"@,
        );
        lemma_optional_reads_one(self.my_vote, other.my_vote, t, "my_vote"@);
        lemma_required_reads_one(self.post, other.post, t, "post"@);
        lemma_required_reads_one(self.read, other.read, t, "read"@);
        lemma_required_reads_one(self.saved, other.saved, t, "saved"@);
        lemma_required_reads_one(self.subscribed, other.subscribed, t, "subscribed"@);
        lemma_required_reads_one(
            self.unread_comments,
            other.unread_comments,
            t,
            "unread_comments"@,
        );
    }
}

#[derive(Clone, Debug, PartialEq, Default)]
pub struct PurgePost {
    pub auth: String,
    pub post_id: i32,
    pub reason: Option<String>,
}

impl PurgePost {
    /// The members that a record is written as, from what is written for
    /// each of its fields.
    pub open spec fn members(
        auth: JsonTree,
        post_id: JsonTree,
        reason: Option<JsonTree>,
    ) -> Seq<Member> {
        let members = Seq::empty();
        let members = with_field(members, "auth"@, auth);
        let members = with_field(members, "post_id"@, post_id);
        let members = with_optional(members, "reason"@, reason);
        members
    }

    /// Each key leads to what was written under it, and to nothing where
    /// nothing was written.
    pub proof fn lemma_members(auth: JsonTree, post_id: JsonTree, reason: Option<JsonTree>)
        ensures
            ({
                let members = Self::members(auth, post_id, reason);
                &&& lookup(members, "auth"@) == Some(auth)
                &&& lookup(members, "post_id"@) == Some(post_id)
                &&& lookup(members, "reason"@) == reason
            }),
    {
        broadcast use group_written_members;

        reveal_strlit("auth");
        reveal_strlit("post_id");
        reveal_strlit("reason");
        assert("auth"@.len() == 4);
        assert("post_id"@.len() == 7);
        assert("reason"@.len() == 6);
    }

    /// With every optional field absent, the mandatory fields are written
    /// and nothing else.
    pub proof fn lemma_mandatory_fields_alone(auth: JsonTree, post_id: JsonTree)
        ensures
            Self::members(auth, post_id, None) == Seq::<Member>::empty()
                .push(("auth"@, auth))
                .push(("post_id"@, post_id)),
    {
        reveal(with_field);
        reveal(with_optional);
    }
}

impl Payload for PurgePost {
    open spec fn tree(&self) -> JsonTree {
        JsonTree::Object(Self::members(self.auth.tree(), self.post_id.tree(), written(self.reason)))
    }

    open spec fn admits(t: JsonTree) -> bool {
        &&& t is Object
        &&& required_admits::<String>(t, "auth"@)
        &&& required_admits::<i32>(t, "post_id"@)
        &&& optional_admits::<String>(t, "reason"@)
    }

    open spec fn agrees(&self, t: JsonTree) -> bool {
        &&& required_agrees(self.auth, t, "auth"@)
        &&& required_agrees(self.post_id, t, "post_id"@)
        &&& optional_agrees(self.reason, t, "reason"@)
    }

    fn to_json(&self) -> (out: JsonValue) {
        let mut members: Vec<(String, JsonValue)> = Vec::new();
        assert(members_view(members@) =~= Seq::empty());
        put(&mut members, "auth", &self.auth);
        put(&mut members, "post_id", &self.post_id);
        put_optional(&mut members, "reason", &self.reason);
        object(members)
    }

    fn from_json(v: &JsonValue) -> (res: Option<Self>) {
        if !v.is_object() {
            return None;
        }
        let auth = required::<String>(v, "auth")?;
        let post_id = required::<i32>(v, "post_id")?;
        let reason = optional::<String>(v, "reason")?;
        Some(PurgePost { auth, post_id, reason })
    }

    proof fn lemma_round_trip(&self) {
        Self::lemma_members(self.auth.tree(), self.post_id.tree(), written(self.reason));
        self.auth.lemma_round_trip();
        self.post_id.lemma_round_trip();
        lemma_optional_round_trip(self.reason);
    }

    proof fn lemma_reads_one(&self, other: &Self, t: JsonTree) {
        lemma_required_reads_one(self.auth, other.auth, t, "auth"@);
        lemma_required_reads_one(self.post_id, other.post_id, t, "post_id"@);
        lemma_optional_reads_one(self.reason, other.reason, t, "reason"@);
    }
}

#[derive(Clone, Debug, PartialEq, Default)]
pub struct RemovePost {
    pub auth: String,
    pub post_id: i32,
    pub reason: Option<String>,
    pub removed: bool,
}

impl RemovePost {
    /// The members that a record is written as, from what is written for
    /// each of its fields.
    pub open spec fn members(
        auth: JsonTree,
        post_id: JsonTree,
        reason: Option<JsonTree>,
        removed: JsonTree,
    ) -> Seq<Member> {
        let members = Seq::empty();
        let members = with_field(members, "auth"@, auth);
        let members = with_field(members, "post_id"@, post_id);
        let members = with_optional(members, "reason"@, reason);
        let members = with_field(members, "removed"@, removed);
        members
    }

    /// Each key leads to what was written under it, and to nothing where
    /// nothing was written.
    pub proof fn lemma_members(
        auth: JsonTree,
        post_id: JsonTree,
        reason: Option<JsonTree>,
        removed: JsonTree,
    )
        ensures
            ({
                let members = Self::members(auth, post_id, reason, removed);
                &&& lookup(members, "auth"@) == Some(auth)
                &&& lookup(members, "post_id"@) == Some(post_id)
                &&& lookup(members, "reason"@) == reason
                &&& lookup(members, "removed"@) == Some(removed)
            }),
    {
        broadcast use group_written_members;

        reveal_strlit("auth");
        reveal_strlit("post_id");
        reveal_strlit("reason");
        reveal_strlit("removed");
        assert("auth"@.len() == 4);
        assert("post_id"@.len() == 7 && "post_id"@[0] == 'p');
        assert("reason"@.len() == 6);
        assert("removed"@.len() == 7 && "removed"@[0] == 'r');
    }

    /// With every optional field absent, the mandatory fields are written
    /// and nothing else.
    pub proof fn lemma_mandatory_fields_alone(auth: JsonTree, post_id: JsonTree, removed: JsonTree)
        ensures
            Self::members(auth, post_id, None, removed) == Seq::<Member>::empty()
                .push(("auth"@, auth))
                .push(("post_id"@, post_id))
                .push(("removed"@, removed)),
    {
        reveal(with_field);
        reveal(with_optional);
    }
}

impl Payload for RemovePost {
    open spec fn tree(&self) -> JsonTree {
        JsonTree::Object(
            Self::members(
                self.auth.tree(),
                self.post_id.tree(),
                written(self.reason),
                self.removed.tree(),
            ),
        )
    }

    open spec fn admits(t: JsonTree) -> bool {
        &&& t is Object
        &&& required_admits::<String>(t, "auth"@)
        &&& required_admits::<i32>(t, "post_id"@)
        &&& optional_admits::<String>(t, "reason"@)
        &&& required_admits::<bool>(t, "removed"@)
    }

    open spec fn agrees(&self, t: JsonTree) -> bool {
        &&& required_agrees(self.auth, t, "auth"@)
        &&& required_agrees(self.post_id, t, "post_id"@)
        &&& optional_agrees(self.reason, t, "reason"@)
        &&& required_agrees(self.removed, t, "removed"@)
    }

    fn to_json(&self) -> (out: JsonValue) {
        let mut members: Vec<(String, JsonValue)> = Vec::new();
        assert(members_view(members@) =~= Seq::empty());
        put(&mut members, "auth", &self.auth);
        put(&mut members, "post_id", &self.post_id);
        put_optional(&mut members, "reason", &self.reason);
        put(&mut members, "removed", &self.removed);
        object(members)
    }

    fn from_json(v: &JsonValue) -> (res: Option<Self>) {
        if !v.is_object() {
            return None;
        }
        let auth = required::<String>(v, "auth")?;
        let post_id = required::<i32>(v, "post_id")?;
        let reason = optional::<String>(v, "reason")?;
        let removed = required::<bool>(v, "removed")?;
        Some(RemovePost { auth, post_id, reason, removed })
    }

    proof fn lemma_round_trip(&self) {
        Self::lemma_members(
            self.auth.tree(),
            self.post_id.tree(),
            written(self.reason),
            self.removed.tree(),
        );
        self.auth.lemma_round_trip();
        self.post_id.lemma_round_trip();
        lemma_optional_round_trip(self.reason);
        self.removed.lemma_round_trip();
    }

    proof fn lemma_reads_one(&self, other: &Self, t: JsonTree) {
        lemma_required_reads_one(self.auth, other.auth, t, "auth"@);
        lemma_required_reads_one(self.post_id, other.post_id, t, "post_id"@);
        lemma_optional_reads_one(self.reason, other.reason, t, "reason"@);
        lemma_required_reads_one(self.removed, other.removed, t, "removed"@);
    }
}

#[derive(Clone, Debug, PartialEq, Default)]
pub struct SavePost {
    pub auth: String,
    pub post_id: i32,
    pub save: bool,
}

impl SavePost {
    /// The members that a record is written as, from what is written for
    /// each of its fields.
    pub open spec fn members(auth: JsonTree, post_id: JsonTree, save: JsonTree) -> Seq<Member> {
        let members = Seq::empty();
        let members = with_field(members, "auth"@, auth);
        let members = with_field(members, "post_id"@, post_id);
        let members = with_field(members, "save"@, save);
        members
    }

    /// Each key leads to what was written under it, and to nothing where
    /// nothing was written.
    pub proof fn lemma_members(auth: JsonTree, post_id: JsonTree, save: JsonTree)
        ensures
            ({
                let members = Self::members(auth, post_id, save);
                &&& lookup(members, "auth"@) == Some(auth)
                &&& lookup(members, "post_id"@) == Some(post_id)
                &&& lookup(members, "save"@) == Some(save)
            }),
    {
        broadcast use group_written_members;

        reveal_strlit("auth");
        reveal_strlit("post_id");
        reveal_strlit("save");
        assert("auth"@.len() == 4 && "auth"@[0] == 'a');
        assert("post_id"@.len() == 7);
        assert("save"@.len() == 4 && "save"@[0] == 's');
    }

    /// Every field is mandatory: each is written, in order, and nothing
    /// else.
    pub proof fn lemma_mandatory_fields_alone(auth: JsonTree, post_id: JsonTree, save: JsonTree)
        ensures
            Self::members(auth, post_id, save) == Seq::<Member>::empty()
                .push(("auth"@, auth))
                .push(("post_id"@, post_id))
                .push(("save"@, save)),
    {
        reveal(with_field);
        reveal(with_optional);
    }
}

impl Payload for SavePost {
    open spec fn tree(&self) -> JsonTree {
        JsonTree::Object(Self::members(self.auth.tree(), self.post_id.tree(), self.save.tree()))
    }

    open spec fn admits(t: JsonTree) -> bool {
        &&& t is Object
        &&& required_admits::<String>(t, "auth"@)
        &&& required_admits::<i32>(t, "post_id"@)
        &&& required_admits::<bool>(t, "save"@)
    }

    open spec fn agrees(&self, t: JsonTree) -> bool {
        &&& required_agrees(self.auth, t, "auth"@)
        &&& required_agrees(self.post_id, t, "post_id"@)
        &&& required_agrees(self.save, t, "save"@)
    }

    fn to_json(&self) -> (out: JsonValue) {
        let mut members: Vec<(String, JsonValue)> = Vec::new();
        assert(members_view(members@) =~= Seq::empty());
        put(&mut members, "auth", &self.auth);
        put(&mut members, "post_id", &self.post_id);
        put(&mut members, "save", &self.save);
        object(members)
    }

    fn from_json(v: &JsonValue) -> (res: Option<Self>) {
        if !v.is_object() {
            return None;
        }
        let auth = required::<String>(v, "auth")?;
        let post_id = required::<i32>(v, "post_id")?;
        let save = required::<bool>(v, "save")?;
        Some(SavePost { auth, post_id, save })
    }

    proof fn lemma_round_trip(&self) {
        Self::lemma_members(self.auth.tree(), self.post_id.tree(), self.save.tree());
        self.auth.lemma_round_trip();
        self.post_id.lemma_round_trip();
        self.save.lemma_round_trip();
    }

    proof fn lemma_reads_one(&self, other: &Self, t: JsonTree) {
        lemma_required_reads_one(self.auth, other.auth, t, "auth"@);
        lemma_required_reads_one(self.post_id, other.post_id, t, "post_id"@);
        lemma_required_reads_one(self.save, other.save, t, "save"@);
    }
}

} // verus!
