//! Records of the moderation log: one record for each kind of action, and
//! the views that join each to its subjects.

use vstd::prelude::*;
use crate::json::{lookup, JsonTree, JsonValue, Member};
use crate::payload::{
    group_written_members, lemma_optional_reads_one, lemma_optional_round_trip,
    lemma_required_reads_one, members_view, object, optional, optional_admits, optional_agrees,
    put, put_optional, required, required_admits, required_agrees, with_field, with_optional,
    written, Payload,
};
use crate::enums::{ModlogActionType};
use crate::records::comment::{Comment};
use crate::records::community::{Community};
use crate::records::person::{Person};
use crate::records::post::{Post};

verus! {

#[derive(Clone, Debug, PartialEq, Default)]
pub struct AdminPurgeComment {
    pub admin_person_id: i32,
    pub id: i32,
    pub post_id: i32,
    pub reason: Option<String>,
    pub when_: String,
}

impl AdminPurgeComment {
    /// The members that a record is written as, from what is written for
    /// each of its fields.
    pub open spec fn members(
        admin_person_id: JsonTree,
        id: JsonTree,
        post_id: JsonTree,
        reason: Option<JsonTree>,
        when_: JsonTree,
    ) -> Seq<Member> {
        let members = Seq::empty();
        let members = with_field(members, "admin_person_id"@, admin_person_id);
        let members = with_field(members, "id"@, id);
        let members = with_field(members, "post_id"@, post_id);
        let members = with_optional(members, "reason"@, reason);
        let members = with_field(members, "when_"@, when_);
        members
    }

    /// Each key leads to what was written under it, and to nothing where
    /// nothing was written.
    pub proof fn lemma_members(
        admin_person_id: JsonTree,
        id: JsonTree,
        post_id: JsonTree,
        reason: Option<JsonTree>,
        when_: JsonTree,
    )
        ensures
            ({
                let members = Self::members(admin_person_id, id, post_id, reason, when_);
                &&& lookup(members, "admin_person_id"@) == Some(admin_person_id)
                &&& lookup(members, "id"@) == Some(id)
                &&& lookup(members, "post_id"@) == Some(post_id)
                &&& lookup(members, "reason"@) == reason
                &&& lookup(members, "when_"@) == Some(when_)
            }),
    {
        broadcast use group_written_members;

        reveal_strlit("admin_person_id");
        reveal_strlit("id");
        reveal_strlit("post_id");
        reveal_strlit("reason");
        reveal_strlit("when_");
        assert("admin_person_id"@.len() == 15);
        assert("id"@.len() == 2);
        assert("post_id"@.len() == 7);
        assert("reason"@.len() == 6);
        assert("when_"@.len() == 5);
    }

    /// With every optional field absent, the mandatory fields are written
    /// and nothing else.
    pub proof fn lemma_mandatory_fields_alone(
        admin_person_id: JsonTree,
        id: JsonTree,
        post_id: JsonTree,
        when_: JsonTree,
    )
        ensures
            Self::members(admin_person_id, id, post_id, None, when_) == Seq::<Member>::empty()
                .push(("admin_person_id"@, admin_person_id))
                .push(("id"@, id))
                .push(("post_id"@, post_id))
                .push(("when_"@, when_)),
    {
        reveal(with_field);
        reveal(with_optional);
    }
}

impl Payload for AdminPurgeComment {
    open spec fn tree(&self) -> JsonTree {
        JsonTree::Object(
            Self::members(
                self.admin_person_id.tree(),
                self.id.tree(),
                self.post_id.tree(),
                written(self.reason),
                self.when_.tree(),
            ),
        )
    }

    open spec fn admits(t: JsonTree) -> bool {
        &&& t is Object
        &&& required_admits::<i32>(t, "admin_person_id"@)
        &&& required_admits::<i32>(t, "id"@)
        &&& required_admits::<i32>(t, "post_id"@)
        &&& optional_admits::<String>(t, "reason"@)
        &&& required_admits::<String>(t, "when_"@)
    }

    open spec fn agrees(&self, t: JsonTree) -> bool {
        &&& required_agrees(self.admin_person_id, t, "admin_person_id"@)
        &&& required_agrees(self.id, t, "id"@)
        &&& required_agrees(self.post_id, t, "post_id"@)
        &&& optional_agrees(self.reason, t, "reason"@)
        &&& required_agrees(self.when_, t, "when_"@)
    }

    fn to_json(&self) -> (out: JsonValue) {
        let mut members: Vec<(String, JsonValue)> = Vec::new();
        assert(members_view(members@) =~= Seq::empty());
        put(&mut members, "admin_person_id", &self.admin_person_id);
        put(&mut members, "id", &self.id);
        put(&mut members, "post_id", &self.post_id);
        put_optional(&mut members, "reason", &self.reason);
        put(&mut members, "when_", &self.when_);
        object(members)
    }

    fn from_json(v: &JsonValue) -> (res: Option<Self>) {
        if !v.is_object() {
            return None;
        }
        let admin_person_id = required::<i32>(v, "admin_person_id")?;
        let id = required::<i32>(v, "id")?;
        let post_id = required::<i32>(v, "post_id")?;
        let reason = optional::<String>(v, "reason")?;
        let when_ = required::<String>(v, "when_")?;
        Some(AdminPurgeComment { admin_person_id, id, post_id, reason, when_ })
    }

    proof fn lemma_round_trip(&self) {
        Self::lemma_members(
            self.admin_person_id.tree(),
            self.id.tree(),
            self.post_id.tree(),
            written(self.reason),
            self.when_.tree(),
        );
        self.admin_person_id.lemma_round_trip();
        self.id.lemma_round_trip();
        self.post_id.lemma_round_trip();
        lemma_optional_round_trip(self.reason);
        self.when_.lemma_round_trip();
    }

    proof fn lemma_reads_one(&self, other: &Self, t: JsonTree) {
        lemma_required_reads_one(
            self.admin_person_id,
            other.admin_person_id,
            t,
            "admin_person_id"@,
        );
        lemma_required_reads_one(self.id, other.id, t, "id"@);
        lemma_required_reads_one(self.post_id, other.post_id, t, "post_id"@);
        lemma_optional_reads_one(self.reason, other.reason, t, "reason"@);
        lemma_required_reads_one(self.when_, other.when_, t, "when_"@);
    }
}

#[derive(Clone, Debug, PartialEq, Default)]
pub struct AdminPurgeCommentView {
    pub admin: Option<Person>,
    pub admin_purge_comment: AdminPurgeComment,
    pub post: Post,
}

impl AdminPurgeCommentView {
    /// The members that a record is written as, from what is written for
    /// each of its fields.
    pub open spec fn members(
        admin: Option<JsonTree>,
        admin_purge_comment: JsonTree,
        post: JsonTree,
    ) -> Seq<Member> {
        let members = Seq::empty();
        let members = with_optional(members, "admin"@, admin);
        let members = with_field(members, "admin_purge_comment"@, admin_purge_comment);
        let members = with_field(members, "post"@, post);
        members
    }

    /// Each key leads to what was written under it, and to nothing where
    /// nothing was written.
    pub proof fn lemma_members(
        admin: Option<JsonTree>,
        admin_purge_comment: JsonTree,
        post: JsonTree,
    )
        ensures
            ({
                let members = Self::members(admin, admin_purge_comment, post);
                &&& lookup(members, "admin"@) == admin
                &&& lookup(members, "admin_purge_comment"@) == Some(admin_purge_comment)
                &&& lookup(members, "post"@) == Some(post)
            }),
    {
        broadcast use group_written_members;

        reveal_strlit("admin");
        reveal_strlit("admin_purge_comment");
        reveal_strlit("post");
        assert("admin"@.len() == 5);
        assert("admin_purge_comment"@.len() == 19);
        assert("post"@.len() == 4);
    }

    /// With every optional field absent, the mandatory fields are written
    /// and nothing else.
    pub proof fn lemma_mandatory_fields_alone(admin_purge_comment: JsonTree, post: JsonTree)
        ensures
            Self::members(None, admin_purge_comment, post) == Seq::<Member>::empty()
                .push(("admin_purge_comment"@, admin_purge_comment))
                .push(("post"@, post)),
    {
        reveal(with_field);
        reveal(with_optional);
    }
}

impl Payload for AdminPurgeCommentView {
    open spec fn tree(&self) -> JsonTree {
        JsonTree::Object(
            Self::members(written(self.admin), self.admin_purge_comment.tree(), self.post.tree()),
        )
    }

    open spec fn admits(t: JsonTree) -> bool {
        &&& t is Object
        &&& optional_admits::<Person>(t, "admin"@)
        &&& required_admits::<AdminPurgeComment>(t, "admin_purge_comment"@)
        &&& required_admits::<Post>(t, "post"@)
    }

    open spec fn agrees(&self, t: JsonTree) -> bool {
        &&& optional_agrees(self.admin, t, "admin"@)
        &&& required_agrees(self.admin_purge_comment, t, "admin_purge_comment"@)
        &&& required_agrees(self.post, t, "post"@)
    }

    fn to_json(&self) -> (out: JsonValue) {
        let mut members: Vec<(String, JsonValue)> = Vec::new();
        assert(members_view(members@) =~= Seq::empty());
        put_optional(&mut members, "admin", &self.admin);
        put(&mut members, "admin_purge_comment", &self.admin_purge_comment);
        put(&mut members, "post", &self.post);
        object(members)
    }

    fn from_json(v: &JsonValue) -> (res: Option<Self>) {
        if !v.is_object() {
            return None;
        }
        let admin = optional::<Person>(v, "admin")?;
        let admin_purge_comment = required::<AdminPurgeComment>(v, "admin_purge_comment")?;
        let post = required::<Post>(v, "post")?;
        Some(AdminPurgeCommentView { admin, admin_purge_comment, post })
    }

    proof fn lemma_round_trip(&self) {
        Self::lemma_members(written(self.admin), self.admin_purge_comment.tree(), self.post.tree());
        lemma_optional_round_trip(self.admin);
        self.admin_purge_comment.lemma_round_trip();
        self.post.lemma_round_trip();
    }

    proof fn lemma_reads_one(&self, other: &Self, t: JsonTree) {
        lemma_optional_reads_one(self.admin, other.admin, t, "admin"@);
        lemma_required_reads_one(
            self.admin_purge_comment,
            other.admin_purge_comment,
            t,
            "admin_purge_comment"@,
        );
        lemma_required_reads_one(self.post, other.post, t, "post"@);
    }
}

#[derive(Clone, Debug, PartialEq, Default)]
pub struct AdminPurgeCommunity {
    pub admin_person_id: i32,
    pub id: i32,
    pub reason: Option<String>,
    pub when_: String,
}

impl AdminPurgeCommunity {
    /// The members that a record is written as, from what is written for
    /// each of its fields.
    pub open spec fn members(
        admin_person_id: JsonTree,
        id: JsonTree,
        reason: Option<JsonTree>,
        when_: JsonTree,
    ) -> Seq<Member> {
        let members = Seq::empty();
        let members = with_field(members, "admin_person_id"@, admin_person_id);
        let members = with_field(members, "id"@, id);
        let members = with_optional(members, "reason"@, reason);
        let members = with_field(members, "when_"@, when_);
        members
    }

    /// Each key leads to what was written under it, and to nothing where
    /// nothing was written.
    pub proof fn lemma_members(
        admin_person_id: JsonTree,
        id: JsonTree,
        reason: Option<JsonTree>,
        when_: JsonTree,
    )
        ensures
            ({
                let members = Self::members(admin_person_id, id, reason, when_);
                &&& lookup(members, "admin_person_id"@) == Some(admin_person_id)
                &&& lookup(members, "id"@) == Some(id)
                &&& lookup(members, "reason"@) == reason
                &&& lookup(members, "when_"@) == Some(when_)
            }),
    {
        broadcast use group_written_members;

        reveal_strlit("admin_person_id");
        reveal_strlit("id");
        reveal_strlit("reason");
        reveal_strlit("when_");
        assert("admin_person_id"@.len() == 15);
        assert("id"@.len() == 2);
        assert("reason"@.len() == 6);
        assert("when_"@.len() == 5);
    }

    /// With every optional field absent, the mandatory fields are written
    /// and nothing else.
    pub proof fn lemma_mandatory_fields_alone(
        admin_person_id: JsonTree,
        id: JsonTree,
        when_: JsonTree,
    )
        ensures
            Self::members(admin_person_id, id, None, when_) == Seq::<Member>::empty()
                .push(("admin_person_id"@, admin_person_id))
                .push(("id"@, id))
                .push(("when_"@, when_)),
    {
        reveal(with_field);
        reveal(with_optional);
    }
}

impl Payload for AdminPurgeCommunity {
    open spec fn tree(&self) -> JsonTree {
        JsonTree::Object(
            Self::members(
                self.admin_person_id.tree(),
                self.id.tree(),
                written(self.reason),
                self.when_.tree(),
            ),
        )
    }

    open spec fn admits(t: JsonTree) -> bool {
        &&& t is Object
        &&& required_admits::<i32>(t, "admin_person_id"@)
        &&& required_admits::<i32>(t, "id"@)
        &&& optional_admits::<String>(t, "reason"@)
        &&& required_admits::<String>(t, "when_"@)
    }

    open spec fn agrees(&self, t: JsonTree) -> bool {
        &&& required_agrees(self.admin_person_id, t, "admin_person_id"@)
        &&& required_agrees(self.id, t, "id"@)
        &&& optional_agrees(self.reason, t, "reason"@)
        &&& required_agrees(self.when_, t, "when_"@)
    }

    fn to_json(&self) -> (out: JsonValue) {
        let mut members: Vec<(String, JsonValue)> = Vec::new();
        assert(members_view(members@) =~= Seq::empty());
        put(&mut members, "admin_person_id", &self.admin_person_id);
        put(&mut members, "id", &self.id);
        put_optional(&mut members, "reason", &self.reason);
        put(&mut members, "when_", &self.when_);
        object(members)
    }

    fn from_json(v: &JsonValue) -> (res: Option<Self>) {
        if !v.is_object() {
            return None;
        }
        let admin_person_id = required::<i32>(v, "admin_person_id")?;
        let id = required::<i32>(v, "id")?;
        let reason = optional::<String>(v, "reason")?;
        let when_ = required::<String>(v, "when_")?;
        Some(AdminPurgeCommunity { admin_person_id, id, reason, when_ })
    }

    proof fn lemma_round_trip(&self) {
        Self::lemma_members(
            self.admin_person_id.tree(),
            self.id.tree(),
            written(self.reason),
            self.when_.tree(),
        );
        self.admin_person_id.lemma_round_trip();
        self.id.lemma_round_trip();
        lemma_optional_round_trip(self.reason);
        self.when_.lemma_round_trip();
    }

    proof fn lemma_reads_one(&self, other: &Self, t: JsonTree) {
        lemma_required_reads_one(
            self.admin_person_id,
            other.admin_person_id,
            t,
            "admin_person_id"@,
        );
        lemma_required_reads_one(self.id, other.id, t, "id"@);
        lemma_optional_reads_one(self.reason, other.reason, t, "reason"@);
        lemma_required_reads_one(self.when_, other.when_, t, "when_"@);
    }
}

#[derive(Clone, Debug, PartialEq, Default)]
pub struct AdminPurgeCommunityView {
    pub admin: Option<Person>,
    pub admin_purge_community: AdminPurgeCommunity,
}

impl AdminPurgeCommunityView {
    /// The members that a record is written as, from what is written for
    /// each of its fields.
    pub open spec fn members(
        admin: Option<JsonTree>,
        admin_purge_community: JsonTree,
    ) -> Seq<Member> {
        let members = Seq::empty();
        let members = with_optional(members, "admin"@, admin);
        let members = with_field(members, "admin_purge_community"@, admin_purge_community);
        members
    }

    /// Each key leads to what was written under it, and to nothing where
    /// nothing was written.
    pub proof fn lemma_members(admin: Option<JsonTree>, admin_purge_community: JsonTree)
        ensures
            ({
                let members = Self::members(admin, admin_purge_community);
                &&& lookup(members, "admin"@) == admin
                &&& lookup(members, "admin_purge_community"@) == Some(admin_purge_community)
            }),
    {
        broadcast use group_written_members;

        reveal_strlit("admin");
        reveal_strlit("admin_purge_community");
        assert("admin"@.len() == 5);
        assert("admin_purge_community"@.len() == 21);
    }

    /// With every optional field absent, the mandatory fields are written
    /// and nothing else.
    pub proof fn lemma_mandatory_fields_alone(admin_purge_community: JsonTree)
        ensures
            Self::members(None, admin_purge_community) == Seq::<Member>::empty()
                .push(("admin_purge_community"@, admin_purge_community)),
    {
        reveal(with_field);
        reveal(with_optional);
    }
}

impl Payload for AdminPurgeCommunityView {
    open spec fn tree(&self) -> JsonTree {
        JsonTree::Object(Self::members(written(self.admin), self.admin_purge_community.tree()))
    }

    open spec fn admits(t: JsonTree) -> bool {
        &&& t is Object
        &&& optional_admits::<Person>(t, "admin"@)
        &&& required_admits::<AdminPurgeCommunity>(t, "admin_purge_community"@)
    }

    open spec fn agrees(&self, t: JsonTree) -> bool {
        &&& optional_agrees(self.admin, t, "admin"@)
        &&& required_agrees(self.admin_purge_community, t, "admin_purge_community"@)
    }

    fn to_json(&self) -> (out: JsonValue) {
        let mut members: Vec<(String, JsonValue)> = Vec::new();
        assert(members_view(members@) =~= Seq::empty());
        put_optional(&mut members, "admin", &self.admin);
        put(&mut members, "admin_purge_community", &self.admin_purge_community);
        object(members)
    }

    fn from_json(v: &JsonValue) -> (res: Option<Self>) {
        if !v.is_object() {
            return None;
        }
        let admin = optional::<Person>(v, "admin")?;
        let admin_purge_community = required::<AdminPurgeCommunity>(v, "admin_purge_community")?;
        Some(AdminPurgeCommunityView { admin, admin_purge_community })
    }

    proof fn lemma_round_trip(&self) {
        Self::lemma_members(written(self.admin), self.admin_purge_community.tree());
        lemma_optional_round_trip(self.admin);
        self.admin_purge_community.lemma_round_trip();
    }

    proof fn lemma_reads_one(&self, other: &Self, t: JsonTree) {
        lemma_optional_reads_one(self.admin, other.admin, t, "admin"@);
        lemma_required_reads_one(
            self.admin_purge_community,
            other.admin_purge_community,
            t,
            "admin_purge_community"@,
        );
    }
}

#[derive(Clone, Debug, PartialEq, Default)]
pub struct AdminPurgePerson {
    pub admin_person_id: i32,
    pub id: i32,
    pub reason: Option<String>,
    pub when_: String,
}

impl AdminPurgePerson {
    /// The members that a record is written as, from what is written for
    /// each of its fields.
    pub open spec fn members(
        admin_person_id: JsonTree,
        id: JsonTree,
        reason: Option<JsonTree>,
        when_: JsonTree,
    ) -> Seq<Member> {
        let members = Seq::empty();
        let members = with_field(members, "admin_person_id"@, admin_person_id);
        let members = with_field(members, "id"@, id);
        let members = with_optional(members, "reason"@, reason);
        let members = with_field(members, "when_"@, when_);
        members
    }

    /// Each key leads to what was written under it, and to nothing where
    /// nothing was written.
    pub proof fn lemma_members(
        admin_person_id: JsonTree,
        id: JsonTree,
        reason: Option<JsonTree>,
        when_: JsonTree,
    )
        ensures
            ({
                let members = Self::members(admin_person_id, id, reason, when_);
                &&& lookup(members, "admin_person_id"@) == Some(admin_person_id)
                &&& lookup(members, "id"@) == Some(id)
                &&& lookup(members, "reason"@) == reason
                &&& lookup(members, "when_"@) == Some(when_)
            }),
    {
        broadcast use group_written_members;

        reveal_strlit("admin_person_id");
        reveal_strlit("id");
        reveal_strlit("reason");
        reveal_strlit("when_");
        assert("admin_person_id"@.len() == 15);
        assert("id"@.len() == 2);
        assert("reason"@.len() == 6);
        assert("when_"@.len() == 5);
    }

    /// With every optional field absent, the mandatory fields are written
    /// and nothing else.
    pub proof fn lemma_mandatory_fields_alone(
        admin_person_id: JsonTree,
        id: JsonTree,
        when_: JsonTree,
    )
        ensures
            Self::members(admin_person_id, id, None, when_) == Seq::<Member>::empty()
                .push(("admin_person_id"@, admin_person_id))
                .push(("id"@, id))
                .push(("when_"@, when_)),
    {
        reveal(with_field);
        reveal(with_optional);
    }
}

impl Payload for AdminPurgePerson {
    open spec fn tree(&self) -> JsonTree {
        JsonTree::Object(
            Self::members(
                self.admin_person_id.tree(),
                self.id.tree(),
                written(self.reason),
                self.when_.tree(),
            ),
        )
    }

    open spec fn admits(t: JsonTree) -> bool {
        &&& t is Object
        &&& required_admits::<i32>(t, "admin_person_id"@)
        &&& required_admits::<i32>(t, "id"@)
        &&& optional_admits::<String>(t, "reason"@)
        &&& required_admits::<String>(t, "when_"@)
    }

    open spec fn agrees(&self, t: JsonTree) -> bool {
        &&& required_agrees(self.admin_person_id, t, "admin_person_id"@)
        &&& required_agrees(self.id, t, "id"@)
        &&& optional_agrees(self.reason, t, "reason"@)
        &&& required_agrees(self.when_, t, "when_"@)
    }

    fn to_json(&self) -> (out: JsonValue) {
        let mut members: Vec<(String, JsonValue)> = Vec::new();
        assert(members_view(members@) =~= Seq::empty());
        put(&mut members, "admin_person_id", &self.admin_person_id);
        put(&mut members, "id", &self.id);
        put_optional(&mut members, "reason", &self.reason);
        put(&mut members, "when_", &self.when_);
        object(members)
    }

    fn from_json(v: &JsonValue) -> (res: Option<Self>) {
        if !v.is_object() {
            return None;
        }
        let admin_person_id = required::<i32>(v, "admin_person_id")?;
        let id = required::<i32>(v, "id")?;
        let reason = optional::<String>(v, "reason")?;
        let when_ = required::<String>(v, "when_")?;
        Some(AdminPurgePerson { admin_person_id, id, reason, when_ })
    }

    proof fn lemma_round_trip(&self) {
        Self::lemma_members(
            self.admin_person_id.tree(),
            self.id.tree(),
            written(self.reason),
            self.when_.tree(),
        );
        self.admin_person_id.lemma_round_trip();
        self.id.lemma_round_trip();
        lemma_optional_round_trip(self.reason);
        self.when_.lemma_round_trip();
    }

    proof fn lemma_reads_one(&self, other: &Self, t: JsonTree) {
        lemma_required_reads_one(
            self.admin_person_id,
            other.admin_person_id,
            t,
            "admin_person_id"@,
        );
        lemma_required_reads_one(self.id, other.id, t, "id"@);
        lemma_optional_reads_one(self.reason, other.reason, t, "reason"@);
        lemma_required_reads_one(self.when_, other.when_, t, "when_"@);
    }
}

#[derive(Clone, Debug, PartialEq, Default)]
pub struct AdminPurgePersonView {
    pub admin: Option<Person>,
    pub admin_purge_person: AdminPurgePerson,
}

impl AdminPurgePersonView {
    /// The members that a record is written as, from what is written for
    /// each of its fields.
    pub open spec fn members(admin: Option<JsonTree>, admin_purge_person: JsonTree) -> Seq<Member> {
        let members = Seq::empty();
        let members = with_optional(members, "admin"@, admin);
        let members = with_field(members, "admin_purge_person"@, admin_purge_person);
        members
    }

    /// Each key leads to what was written under it, and to nothing where
    /// nothing was written.
    pub proof fn lemma_members(admin: Option<JsonTree>, admin_purge_person: JsonTree)
        ensures
            ({
                let members = Self::members(admin, admin_purge_person);
                &&& lookup(members, "admin"@) == admin
                &&& lookup(members, "admin_purge_person"@) == Some(admin_purge_person)
            }),
    {
        broadcast use group_written_members;

        reveal_strlit("admin");
        reveal_strlit("admin_purge_person");
        assert("admin"@.len() == 5);
        assert("admin_purge_person"@.len() == 18);
    }

    /// With every optional field absent, the mandatory fields are written
    /// and nothing else.
    pub proof fn lemma_mandatory_fields_alone(admin_purge_person: JsonTree)
        ensures
            Self::members(None, admin_purge_person) == Seq::<Member>::empty()
                .push(("admin_purge_person"@, admin_purge_person)),
    {
        reveal(with_field);
        reveal(with_optional);
    }
}

impl Payload for AdminPurgePersonView {
    open spec fn tree(&self) -> JsonTree {
        JsonTree::Object(Self::members(written(self.admin), self.admin_purge_person.tree()))
    }

    open spec fn admits(t: JsonTree) -> bool {
        &&& t is Object
        &&& optional_admits::<Person>(t, "admin"@)
        &&& required_admits::<AdminPurgePerson>(t, "admin_purge_person"@)
    }

    open spec fn agrees(&self, t: JsonTree) -> bool {
        &&& optional_agrees(self.admin, t, "admin"@)
        &&& required_agrees(self.admin_purge_person, t, "admin_purge_person"@)
    }

    fn to_json(&self) -> (out: JsonValue) {
        let mut members: Vec<(String, JsonValue)> = Vec::new();
        assert(members_view(members@) =~= Seq::empty());
        put_optional(&mut members, "admin", &self.admin);
        put(&mut members, "admin_purge_person", &self.admin_purge_person);
        object(members)
    }

    fn from_json(v: &JsonValue) -> (res: Option<Self>) {
        if !v.is_object() {
            return None;
        }
        let admin = optional::<Person>(v, "admin")?;
        let admin_purge_person = required::<AdminPurgePerson>(v, "admin_purge_person")?;
        Some(AdminPurgePersonView { admin, admin_purge_person })
    }

    proof fn lemma_round_trip(&self) {
        Self::lemma_members(written(self.admin), self.admin_purge_person.tree());
        lemma_optional_round_trip(self.admin);
        self.admin_purge_person.lemma_round_trip();
    }

    proof fn lemma_reads_one(&self, other: &Self, t: JsonTree) {
        lemma_optional_reads_one(self.admin, other.admin, t, "admin"@);
        lemma_required_reads_one(
            self.admin_purge_person,
            other.admin_purge_person,
            t,
            "admin_purge_person"@,
        );
    }
}

#[derive(Clone, Debug, PartialEq, Default)]
pub struct AdminPurgePost {
    pub admin_person_id: i32,
    pub community_id: i32,
    pub id: i32,
    pub reason: Option<String>,
    pub when_: String,
}

impl AdminPurgePost {
    /// The members that a record is written as, from what is written for
    /// each of its fields.
    pub open spec fn members(
        admin_person_id: JsonTree,
        community_id: JsonTree,
        id: JsonTree,
        reason: Option<JsonTree>,
        when_: JsonTree,
    ) -> Seq<Member> {
        let members = Seq::empty();
        let members = with_field(members, "admin_person_id"@, admin_person_id);
        let members = with_field(members, "community_id"@, community_id);
        let members = with_field(members, "id"@, id);
        let members = with_optional(members, "reason"@, reason);
        let members = with_field(members, "when_"@, when_);
        members
    }

    /// Each key leads to what was written under it, and to nothing where
    /// nothing was written.
    pub proof fn lemma_members(
        admin_person_id: JsonTree,
        community_id: JsonTree,
        id: JsonTree,
        reason: Option<JsonTree>,
        when_: JsonTree,
    )
        ensures
            ({
                let members = Self::members(admin_person_id, community_id, id, reason, when_);
                &&& lookup(members, "admin_person_id"@) == Some(admin_person_id)
                &&& lookup(members, "community_id"@) == Some(community_id)
                &&& lookup(members, "id"@) == Some(id)
                &&& lookup(members, "reason"@) == reason
                &&& lookup(members, "when_"@) == Some(when_)
            }),
    {
        broadcast use group_written_members;

        reveal_strlit("admin_person_id");
        reveal_strlit("community_id");
        reveal_strlit("id");
        reveal_strlit("reason");
        reveal_strlit("when_");
        assert("admin_person_id"@.len() == 15);
        assert("community_id"@.len() == 12);
        assert("id"@.len() == 2);
        assert("reason"@.len() == 6);
        assert("when_"@.len() == 5);
    }

    /// With every optional field absent, the mandatory fields are written
    /// and nothing else.
    pub proof fn lemma_mandatory_fields_alone(
        admin_person_id: JsonTree,
        community_id: JsonTree,
        id: JsonTree,
        when_: JsonTree,
    )
        ensures
            Self::members(admin_person_id, community_id, id, None, when_) == Seq::<Member>::empty()
                .push(("admin_person_id"@, admin_person_id))
                .push(("community_id"@, community_id))
                .push(("id"@, id))
                .push(("when_"@, when_)),
    {
        reveal(with_field);
        reveal(with_optional);
    }
}

impl Payload for AdminPurgePost {
    open spec fn tree(&self) -> JsonTree {
        JsonTree::Object(
            Self::members(
                self.admin_person_id.tree(),
                self.community_id.tree(),
                self.id.tree(),
                written(self.reason),
                self.when_.tree(),
            ),
        )
    }

    open spec fn admits(t: JsonTree) -> bool {
        &&& t is Object
        &&& required_admits::<i32>(t, "admin_person_id"@)
        &&& required_admits::<i32>(t, "community_id"@)
        &&& required_admits::<i32>(t, "id"@)
        &&& optional_admits::<String>(t, "reason"@)
        &&& required_admits::<String>(t, "when_"@)
    }

    open spec fn agrees(&self, t: JsonTree) -> bool {
        &&& required_agrees(self.admin_person_id, t, "admin_person_id"@)
        &&& required_agrees(self.community_id, t, "community_id"@)
        &&& required_agrees(self.id, t, "id"@)
        &&& optional_agrees(self.reason, t, "reason"@)
        &&& required_agrees(self.when_, t, "when_"@)
    }

    fn to_json(&self) -> (out: JsonValue) {
        let mut members: Vec<(String, JsonValue)> = Vec::new();
        assert(members_view(members@) =~= Seq::empty());
        put(&mut members, "admin_person_id", &self.admin_person_id);
        put(&mut members, "community_id", &self.community_id);
        put(&mut members, "id", &self.id);
        put_optional(&mut members, "reason", &self.reason);
        put(&mut members, "when_", &self.when_);
        object(members)
    }

    fn from_json(v: &JsonValue) -> (res: Option<Self>) {
        if !v.is_object() {
            return None;
        }
        let admin_person_id = required::<i32>(v, "admin_person_id")?;
        let community_id = required::<i32>(v, "community_id")?;
        let id = required::<i32>(v, "id")?;
        let reason = optional::<String>(v, "reason")?;
        let when_ = required::<String>(v, "when_")?;
        Some(AdminPurgePost { admin_person_id, community_id, id, reason, when_ })
    }

    proof fn lemma_round_trip(&self) {
        Self::lemma_members(
            self.admin_person_id.tree(),
            self.community_id.tree(),
            self.id.tree(),
            written(self.reason),
            self.when_.tree(),
        );
        self.admin_person_id.lemma_round_trip();
        self.community_id.lemma_round_trip();
        self.id.lemma_round_trip();
        lemma_optional_round_trip(self.reason);
        self.when_.lemma_round_trip();
    }

    proof fn lemma_reads_one(&self, other: &Self, t: JsonTree) {
        lemma_required_reads_one(
            self.admin_person_id,
            other.admin_person_id,
            t,
            "admin_person_id"@,
        );
        lemma_required_reads_one(self.community_id, other.community_id, t, "community_id"@);
        lemma_required_reads_one(self.id, other.id, t, "id"@);
        lemma_optional_reads_one(self.reason, other.reason, t, "reason"@);
        lemma_required_reads_one(self.when_, other.when_, t, "when_"@);
    }
}

#[derive(Clone, Debug, PartialEq, Default)]
pub struct AdminPurgePostView {
    pub admin: Option<Person>,
    pub admin_purge_post: AdminPurgePost,
    pub community: Community,
}

impl AdminPurgePostView {
    /// The members that a record is written as, from what is written for
    /// each of its fields.
    pub open spec fn members(
        admin: Option<JsonTree>,
        admin_purge_post: JsonTree,
        community: JsonTree,
    ) -> Seq<Member> {
        let members = Seq::empty();
        let members = with_optional(members, "admin"@, admin);
        let members = with_field(members, "admin_purge_post"@, admin_purge_post);
        let members = with_field(members, "community"@, community);
        members
    }

    /// Each key leads to what was written under it, and to nothing where
    /// nothing was written.
    pub proof fn lemma_members(
        admin: Option<JsonTree>,
        admin_purge_post: JsonTree,
        community: JsonTree,
    )
        ensures
            ({
                let members = Self::members(admin, admin_purge_post, community);
                &&& lookup(members, "admin"@) == admin
                &&& lookup(members, "admin_purge_post"@) == Some(admin_purge_post)
                &&& lookup(members, "community"@) == Some(community)
            }),
    {
        broadcast use group_written_members;

        reveal_strlit("admin");
        reveal_strlit("admin_purge_post");
        reveal_strlit("community");
        assert("admin"@.len() == 5);
        assert("admin_purge_post"@.len() == 16);
        assert("community"@.len() == 9);
    }

    /// With every optional field absent, the mandatory fields are written
    /// and nothing else.
    pub proof fn lemma_mandatory_fields_alone(admin_purge_post: JsonTree, community: JsonTree)
        ensures
            Self::members(None, admin_purge_post, community) == Seq::<Member>::empty()
                .push(("admin_purge_post"@, admin_purge_post))
                .push(("community"@, community)),
    {
        reveal(with_field);
        reveal(with_optional);
    }
}

impl Payload for AdminPurgePostView {
    open spec fn tree(&self) -> JsonTree {
        JsonTree::Object(
            Self::members(written(self.admin), self.admin_purge_post.tree(), self.community.tree()),
        )
    }

    open spec fn admits(t: JsonTree) -> bool {
        &&& t is Object
        &&& optional_admits::<Person>(t, "admin"@)
        &&& required_admits::<AdminPurgePost>(t, "admin_purge_post"@)
        &&& required_admits::<Community>(t, "community"@)
    }

    open spec fn agrees(&self, t: JsonTree) -> bool {
        &&& optional_agrees(self.admin, t, "admin"@)
        &&& required_agrees(self.admin_purge_post, t, "admin_purge_post"@)
        &&& required_agrees(self.community, t, "community"@)
    }

    fn to_json(&self) -> (out: JsonValue) {
        let mut members: Vec<(String, JsonValue)> = Vec::new();
        assert(members_view(members@) =~= Seq::empty());
        put_optional(&mut members, "admin", &self.admin);
        put(&mut members, "admin_purge_post", &self.admin_purge_post);
        put(&mut members, "community", &self.community);
        object(members)
    }

    fn from_json(v: &JsonValue) -> (res: Option<Self>) {
        if !v.is_object() {
            return None;
        }
        let admin = optional::<Person>(v, "admin")?;
        let admin_purge_post = required::<AdminPurgePost>(v, "admin_purge_post")?;
        let community = required::<Community>(v, "community")?;
        Some(AdminPurgePostView { admin, admin_purge_post, community })
    }

    proof fn lemma_round_trip(&self) {
        Self::lemma_members(
            written(self.admin),
            self.admin_purge_post.tree(),
            self.community.tree(),
        );
        lemma_optional_round_trip(self.admin);
        self.admin_purge_post.lemma_round_trip();
        self.community.lemma_round_trip();
    }

    proof fn lemma_reads_one(&self, other: &Self, t: JsonTree) {
        lemma_optional_reads_one(self.admin, other.admin, t, "admin"@);
        lemma_required_reads_one(
            self.admin_purge_post,
            other.admin_purge_post,
            t,
            "admin_purge_post"@,
        );
        lemma_required_reads_one(self.community, other.community, t, "community"@);
    }
}

#[derive(Clone, Debug, PartialEq, Default)]
pub struct GetModlog {
    pub auth: Option<String>,
    pub community_id: Option<i32>,
    pub limit: Option<i32>,
    pub mod_person_id: Option<i32>,
    pub other_person_id: Option<i32>,
    pub page: Option<i32>,
    pub type_: Option<ModlogActionType>,
}

impl GetModlog {
    /// The members that a record is written as, from what is written for
    /// each of its fields.
    pub open spec fn members(
        auth: Option<JsonTree>,
        community_id: Option<JsonTree>,
        limit: Option<JsonTree>,
        mod_person_id: Option<JsonTree>,
        other_person_id: Option<JsonTree>,
        page: Option<JsonTree>,
        type_: Option<JsonTree>,
    ) -> Seq<Member> {
        let members = Seq::empty();
        let members = with_optional(members, "auth"@, auth);
        let members = with_optional(members, "community_id"@, community_id);
        let members = with_optional(members, "limit"@, limit);
        let members = with_optional(members, "mod_person_id"@, mod_person_id);
        let members = with_optional(members, "other_person_id"@, other_person_id);
        let members = with_optional(members, "page"@, page);
        let members = with_optional(members, "type_"@, type_);
        members
    }

    /// Each key leads to what was written under it, and to nothing where
    /// nothing was written.
    pub proof fn lemma_members(
        auth: Option<JsonTree>,
        community_id: Option<JsonTree>,
        limit: Option<JsonTree>,
        mod_person_id: Option<JsonTree>,
        other_person_id: Option<JsonTree>,
        page: Option<JsonTree>,
        type_: Option<JsonTree>,
    )
        ensures
            ({
                let members = Self::members(
                    auth,
                    community_id,
                    limit,
                    mod_person_id,
                    other_person_id,
                    page,
                    type_,
                );
                &&& lookup(members, "auth"@) == auth
                &&& lookup(members, "community_id"@) == community_id
                &&& lookup(members, "limit"@) == limit
                &&& lookup(members, "mod_person_id"@) == mod_person_id
                &&& lookup(members, "other_person_id"@) == other_person_id
                &&& lookup(members, "page"@) == page
                &&& lookup(members, "type_"@) == type_
            }),
    {
        broadcast use group_written_members;

        reveal_strlit("auth");
        reveal_strlit("community_id");
        reveal_strlit("limit");
        reveal_strlit("mod_person_id");
        reveal_strlit("other_person_id");
        reveal_strlit("page");
        reveal_strlit("type_");
        assert("auth"@.len() == 4 && "auth"@[0] == 'a');
        assert("community_id"@.len() == 12);
        assert("limit"@.len() == 5 && "limit"@[0] == 'l');
        assert("mod_person_id"@.len() == 13);
        assert("other_person_id"@.len() == 15);
        assert("page"@.len() == 4 && "page"@[0] == 'p');
        assert("type_"@.len() == 5 && "type_"@[0] == 't');
    }

    /// With every field absent, nothing is written.
    pub proof fn lemma_mandatory_fields_alone()
        ensures
            Self::members(None, None, None, None, None, None, None) == Seq::<Member>::empty(),
    {
        reveal(with_field);
        reveal(with_optional);
    }
}

impl Payload for GetModlog {
    open spec fn tree(&self) -> JsonTree {
        JsonTree::Object(
            Self::members(
                written(self.auth),
                written(self.community_id),
                written(self.limit),
                written(self.mod_person_id),
                written(self.other_person_id),
                written(self.page),
                written(self.type_),
            ),
        )
    }

    open spec fn admits(t: JsonTree) -> bool {
        &&& t is Object
        &&& optional_admits::<String>(t, "auth"@)
        &&& optional_admits::<i32>(t, "community_id"@)
        &&& optional_admits::<i32>(t, "limit"@)
        &&& optional_admits::<i32>(t, "mod_person_id"@)
        &&& optional_admits::<i32>(t, "other_person_id"@)
        &&& optional_admits::<i32>(t, "page"@)
        &&& optional_admits::<ModlogActionType>(t, "type_"@)
    }

    open spec fn agrees(&self, t: JsonTree) -> bool {
        &&& optional_agrees(self.auth, t, "auth"@)
        &&& optional_agrees(self.community_id, t, "community_id"@)
        &&& optional_agrees(self.limit, t, "limit"@)
        &&& optional_agrees(self.mod_person_id, t, "mod_person_id"@)
        &&& optional_agrees(self.other_person_id, t, "other_person_id"@)
        &&& optional_agrees(self.page, t, "page"@)
        &&& optional_agrees(self.type_, t, "type_"@)
    }

    fn to_json(&self) -> (out: JsonValue) {
        let mut members: Vec<(String, JsonValue)> = Vec::new();
        assert(members_view(members@) =~= Seq::empty());
        put_optional(&mut members, "auth", &self.auth);
        put_optional(&mut members, "community_id", &self.community_id);
        put_optional(&mut members, "limit", &self.limit);
        put_optional(&mut members, "mod_person_id", &self.mod_person_id);
        put_optional(&mut members, "other_person_id", &self.other_person_id);
        put_optional(&mut members, "page", &self.page);
        put_optional(&mut members, "type_", &self.type_);
        object(members)
    }

    fn from_json(v: &JsonValue) -> (res: Option<Self>) {
        if !v.is_object() {
            return None;
        }
        let auth = optional::<String>(v, "auth")?;
        let community_id = optional::<i32>(v, "community_id")?;
        let limit = optional::<i32>(v, "limit")?;
        let mod_person_id = optional::<i32>(v, "mod_person_id")?;
        let other_person_id = optional::<i32>(v, "other_person_id")?;
        let page = optional::<i32>(v, "page")?;
        let type_ = optional::<ModlogActionType>(v, "type_")?;
        Some(GetModlog { auth, community_id, limit, mod_person_id, other_person_id, page, type_ })
    }

    proof fn lemma_round_trip(&self) {
        Self::lemma_members(
            written(self.auth),
            written(self.community_id),
            written(self.limit),
            written(self.mod_person_id),
            written(self.other_person_id),
            written(self.page),
            written(self.type_),
        );
        lemma_optional_round_trip(self.auth);
        lemma_optional_round_trip(self.community_id);
        lemma_optional_round_trip(self.limit);
        lemma_optional_round_trip(self.mod_person_id);
        lemma_optional_round_trip(self.other_person_id);
        lemma_optional_round_trip(self.page);
        lemma_optional_round_trip(self.type_);
    }

    proof fn lemma_reads_one(&self, other: &Self, t: JsonTree) {
        lemma_optional_reads_one(self.auth, other.auth, t, "auth"@);
        lemma_optional_reads_one(self.community_id, other.community_id, t, "community_id"@);
        lemma_optional_reads_one(self.limit, other.limit, t, "limit"@);
        lemma_optional_reads_one(self.mod_person_id, other.mod_person_id, t, "mod_person_id"@);
        lemma_optional_reads_one(
            self.other_person_id,
            other.other_person_id,
            t,
            "other_person_id"@,
        );
        lemma_optional_reads_one(self.page, other.page, t, "page"@);
        lemma_optional_reads_one(self.type_, other.type_, t, "type_"@);
    }
}

#[derive(Clone, Debug, PartialEq, Default)]
pub struct GetModlogResponse {
    pub added: Vec<ModAddView>,
    pub added_to_community: Vec<ModAddCommunityView>,
    pub admin_purged_comments: Vec<AdminPurgeCommentView>,
    pub admin_purged_communities: Vec<AdminPurgeCommunityView>,
    pub admin_purged_persons: Vec<AdminPurgePersonView>,
    pub admin_purged_posts: Vec<AdminPurgePostView>,
    pub banned: Vec<ModBanView>,
    pub banned_from_community: Vec<ModBanFromCommunityView>,
    pub featured_posts: Vec<ModFeaturePostView>,
    pub hidden_communities: Vec<ModHideCommunityView>,
    pub locked_posts: Vec<ModLockPostView>,
    pub removed_comments: Vec<ModRemoveCommentView>,
    pub removed_communities: Vec<ModRemoveCommunityView>,
    pub removed_posts: Vec<ModRemovePostView>,
    pub transferred_to_community: Vec<ModTransferCommunityView>,
}

impl GetModlogResponse {
    /// The members that a record is written as, from what is written for
    /// each of its fields.
    pub open spec fn members(
        added: JsonTree,
        added_to_community: JsonTree,
        admin_purged_comments: JsonTree,
        admin_purged_communities: JsonTree,
        admin_purged_persons: JsonTree,
        admin_purged_posts: JsonTree,
        banned: JsonTree,
        banned_from_community: JsonTree,
        featured_posts: JsonTree,
        hidden_communities: JsonTree,
        locked_posts: JsonTree,
        removed_comments: JsonTree,
        removed_communities: JsonTree,
        removed_posts: JsonTree,
        transferred_to_community: JsonTree,
    ) -> Seq<Member> {
        let members = Seq::empty();
        let members = with_field(members, "added"@, added);
        let members = with_field(members, "added_to_community"@, added_to_community);
        let members = with_field(members, "admin_purged_comments"@, admin_purged_comments);
        let members = with_field(members, "admin_purged_communities"@, admin_purged_communities);
        let members = with_field(members, "admin_purged_persons"@, admin_purged_persons);
        let members = with_field(members, "admin_purged_posts"@, admin_purged_posts);
        let members = with_field(members, "banned"@, banned);
        let members = with_field(members, "banned_from_community"@, banned_from_community);
        let members = with_field(members, "featured_posts"@, featured_posts);
        let members = with_field(members, "hidden_communities"@, hidden_communities);
        let members = with_field(members, "locked_posts"@, locked_posts);
        let members = with_field(members, "removed_comments"@, removed_comments);
        let members = with_field(members, "removed_communities"@, removed_communities);
        let members = with_field(members, "removed_posts"@, removed_posts);
        let members = with_field(members, "transferred_to_community"@, transferred_to_community);
        members
    }

    /// Each key leads to what was written under it, and to nothing where
    /// nothing was written.
    pub proof fn lemma_members(
        added: JsonTree,
        added_to_community: JsonTree,
        admin_purged_comments: JsonTree,
        admin_purged_communities: JsonTree,
        admin_purged_persons: JsonTree,
        admin_purged_posts: JsonTree,
        banned: JsonTree,
        banned_from_community: JsonTree,
        featured_posts: JsonTree,
        hidden_communities: JsonTree,
        locked_posts: JsonTree,
        removed_comments: JsonTree,
        removed_communities: JsonTree,
        removed_posts: JsonTree,
        transferred_to_community: JsonTree,
    )
        ensures
            ({
                let members = Self::members(
                    added,
                    added_to_community,
                    admin_purged_comments,
                    admin_purged_communities,
                    admin_purged_persons,
                    admin_purged_posts,
                    banned,
                    banned_from_community,
                    featured_posts,
                    hidden_communities,
                    locked_posts,
                    removed_comments,
                    removed_communities,
                    removed_posts,
                    transferred_to_community,
                );
                &&& lookup(members, "added"@) == Some(added)
                &&& lookup(members, "added_to_community"@) == Some(added_to_community)
                &&& lookup(members, "admin_purged_comments"@) == Some(admin_purged_comments)
                &&& lookup(members, "admin_purged_communities"@) == Some(admin_purged_communities)
                &&& lookup(members, "admin_purged_persons"@) == Some(admin_purged_persons)
                &&& lookup(members, "admin_purged_posts"@) == Some(admin_purged_posts)
                &&& lookup(members, "banned"@) == Some(banned)
                &&& lookup(members, "banned_from_community"@) == Some(banned_from_community)
                &&& lookup(members, "featured_posts"@) == Some(featured_posts)
                &&& lookup(members, "hidden_communities"@) == Some(hidden_communities)
                &&& lookup(members, "locked_posts"@) == Some(locked_posts)
                &&& lookup(members, "removed_comments"@) == Some(removed_comments)
                &&& lookup(members, "removed_communities"@) == Some(removed_communities)
                &&& lookup(members, "removed_posts"@) == Some(removed_posts)
                &&& lookup(members, "transferred_to_community"@) == Some(transferred_to_community)
            }),
    {
        broadcast use group_written_members;

        reveal_strlit("added");
        reveal_strlit("added_to_community");
        reveal_strlit("admin_purged_comments");
        reveal_strlit("admin_purged_communities");
        reveal_strlit("admin_purged_persons");
        reveal_strlit("admin_purged_posts");
        reveal_strlit("banned");
        reveal_strlit("banned_from_community");
        reveal_strlit("featured_posts");
        reveal_strlit("hidden_communities");
        reveal_strlit("locked_posts");
        reveal_strlit("removed_comments");
        reveal_strlit("removed_communities");
        reveal_strlit("removed_posts");
        reveal_strlit("transferred_to_community");
        assert("added"@.len() == 5);
        assert("added_to_community"@.len() == 18
            && "added_to_community"@[0] == 'a'
            && "added_to_community"@[2] == 'd');
        assert("admin_purged_comments"@.len() == 21 && "admin_purged_comments"@[0] == 'a');
        assert("admin_purged_communities"@.len() == 24 && "admin_purged_communities"@[0] == 'a');
        assert("admin_purged_persons"@.len() == 20);
        assert("admin_purged_posts"@.len() == 18
            && "admin_purged_posts"@[0] == 'a'
            && "admin_purged_posts"@[2] == 'm');
        assert("banned"@.len() == 6);
        assert("banned_from_community"@.len() == 21 && "banned_from_community"@[0] == 'b');
        assert("featured_posts"@.len() == 14);
        assert("hidden_communities"@.len() == 18 && "hidden_communities"@[0] == 'h');
        assert("locked_posts"@.len() == 12);
        assert("removed_comments"@.len() == 16);
        assert("removed_communities"@.len() == 19);
        assert("removed_posts"@.len() == 13);
        assert("transferred_to_community"@.len() == 24 && "transferred_to_community"@[0] == 't');
    }

    /// Every field is mandatory: each is written, in order, and nothing
    /// else.
    pub proof fn lemma_mandatory_fields_alone(
        added: JsonTree,
        added_to_community: JsonTree,
        admin_purged_comments: JsonTree,
        admin_purged_communities: JsonTree,
        admin_purged_persons: JsonTree,
        admin_purged_posts: JsonTree,
        banned: JsonTree,
        banned_from_community: JsonTree,
        featured_posts: JsonTree,
        hidden_communities: JsonTree,
        locked_posts: JsonTree,
        removed_comments: JsonTree,
        removed_communities: JsonTree,
        removed_posts: JsonTree,
        transferred_to_community: JsonTree,
    )
        ensures
            Self::members(
                added,
                added_to_community,
                admin_purged_comments,
                admin_purged_communities,
                admin_purged_persons,
                admin_purged_posts,
                banned,
                banned_from_community,
                featured_posts,
                hidden_communities,
                locked_posts,
                removed_comments,
                removed_communities,
                removed_posts,
                transferred_to_community,
            ) == Seq::<Member>::empty()
                .push(("added"@, added))
                .push(("added_to_community"@, added_to_community))
                .push(("admin_purged_comments"@, admin_purged_comments))
                .push(("admin_purged_communities"@, admin_purged_communities))
                .push(("admin_purged_persons"@, admin_purged_persons))
                .push(("admin_purged_posts"@, admin_purged_posts))
                .push(("banned"@, banned))
                .push(("banned_from_community"@, banned_from_community))
                .push(("featured_posts"@, featured_posts))
                .push(("hidden_communities"@, hidden_communities))
                .push(("locked_posts"@, locked_posts))
                .push(("removed_comments"@, removed_comments))
                .push(("removed_communities"@, removed_communities))
                .push(("removed_posts"@, removed_posts))
                .push(("transferred_to_community"@, transferred_to_community)),
    {
        reveal(with_field);
        reveal(with_optional);
    }
}

impl Payload for GetModlogResponse {
    open spec fn tree(&self) -> JsonTree {
        JsonTree::Object(
            Self::members(
                self.added.tree(),
                self.added_to_community.tree(),
                self.admin_purged_comments.tree(),
                self.admin_purged_communities.tree(),
                self.admin_purged_persons.tree(),
                self.admin_purged_posts.tree(),
                self.banned.tree(),
                self.banned_from_community.tree(),
                self.featured_posts.tree(),
                self.hidden_communities.tree(),
                self.locked_posts.tree(),
                self.removed_comments.tree(),
                self.removed_communities.tree(),
                self.removed_posts.tree(),
                self.transferred_to_community.tree(),
            ),
        )
    }

    open spec fn admits(t: JsonTree) -> bool {
        &&& t is Object
        &&& required_admits::<Vec<ModAddView>>(t, "added"@)
        &&& required_admits::<Vec<ModAddCommunityView>>(t, "added_to_community"@)
        &&& required_admits::<Vec<AdminPurgeCommentView>>(t, "admin_purged_comments"@)
        &&& required_admits::<Vec<AdminPurgeCommunityView>>(t, "admin_purged_communities"@)
        &&& required_admits::<Vec<AdminPurgePersonView>>(t, "admin_purged_persons"@)
        &&& required_admits::<Vec<AdminPurgePostView>>(t, "admin_purged_posts"@)
        &&& required_admits::<Vec<ModBanView>>(t, "banned"@)
        &&& required_admits::<Vec<ModBanFromCommunityView>>(t, "banned_from_community"@)
        &&& required_admits::<Vec<ModFeaturePostView>>(t, "featured_posts"@)
        &&& required_admits::<Vec<ModHideCommunityView>>(t, "hidden_communities"@)
        &&& required_admits::<Vec<ModLockPostView>>(t, "locked_posts"@)
        &&& required_admits::<Vec<ModRemoveCommentView>>(t, "removed_comments"@)
        &&& required_admits::<Vec<ModRemoveCommunityView>>(t, "removed_communities"@)
        &&& required_admits::<Vec<ModRemovePostView>>(t, "removed_posts"@)
        &&& required_admits::<Vec<ModTransferCommunityView>>(t, "transferred_to_community"@)
    }

    open spec fn agrees(&self, t: JsonTree) -> bool {
        &&& required_agrees(self.added, t, "added"@)
        &&& required_agrees(self.added_to_community, t, "added_to_community"@)
        &&& required_agrees(self.admin_purged_comments, t, "admin_purged_comments"@)
        &&& required_agrees(self.admin_purged_communities, t, "admin_purged_communities"@)
        &&& required_agrees(self.admin_purged_persons, t, "admin_purged_persons"@)
        &&& required_agrees(self.admin_purged_posts, t, "admin_purged_posts"@)
        &&& required_agrees(self.banned, t, "banned"@)
        &&& required_agrees(self.banned_from_community, t, "banned_from_community"@)
        &&& required_agrees(self.featured_posts, t, "featured_posts"@)
        &&& required_agrees(self.hidden_communities, t, "hidden_communities"@)
        &&& required_agrees(self.locked_posts, t, "locked_posts"@)
        &&& required_agrees(self.removed_comments, t, "removed_comments"@)
        &&& required_agrees(self.removed_communities, t, "removed_communities"@)
        &&& required_agrees(self.removed_posts, t, "removed_posts"@)
        &&& required_agrees(self.transferred_to_community, t, "transferred_to_community"@)
    }

    fn to_json(&self) -> (out: JsonValue) {
        let mut members: Vec<(String, JsonValue)> = Vec::new();
        assert(members_view(members@) =~= Seq::empty());
        put(&mut members, "added", &self.added);
        put(&mut members, "added_to_community", &self.added_to_community);
        put(&mut members, "admin_purged_comments", &self.admin_purged_comments);
        put(&mut members, "admin_purged_communities", &self.admin_purged_communities);
        put(&mut members, "admin_purged_persons", &self.admin_purged_persons);
        put(&mut members, "admin_purged_posts", &self.admin_purged_posts);
        put(&mut members, "banned", &self.banned);
        put(&mut members, "banned_from_community", &self.banned_from_community);
        put(&mut members, "featured_posts", &self.featured_posts);
        put(&mut members, "hidden_communities", &self.hidden_communities);
        put(&mut members, "locked_posts", &self.locked_posts);
        put(&mut members, "removed_comments", &self.removed_comments);
        put(&mut members, "removed_communities", &self.removed_communities);
        put(&mut members, "removed_posts", &self.removed_posts);
        put(&mut members, "transferred_to_community", &self.transferred_to_community);
        object(members)
    }

    fn from_json(v: &JsonValue) -> (res: Option<Self>) {
        if !v.is_object() {
            return None;
        }
        let added = required::<Vec<ModAddView>>(v, "added")?;
        let added_to_community = required::<Vec<ModAddCommunityView>>(v, "added_to_community")?;
        let admin_purged_comments = required::<Vec<AdminPurgeCommentView>>(
            v,
            "admin_purged_comments",
        )?;
        let admin_purged_communities = required::<Vec<AdminPurgeCommunityView>>(
            v,
            "admin_purged_communities",
        )?;
        let admin_purged_persons = required::<Vec<AdminPurgePersonView>>(
            v,
            "admin_purged_persons",
        )?;
        let admin_purged_posts = required::<Vec<AdminPurgePostView>>(v, "admin_purged_posts")?;
        let banned = required::<Vec<ModBanView>>(v, "banned")?;
        let banned_from_community = required::<Vec<ModBanFromCommunityView>>(
            v,
            "banned_from_community",
        )?;
        let featured_posts = required::<Vec<ModFeaturePostView>>(v, "featured_posts")?;
        let hidden_communities = required::<Vec<ModHideCommunityView>>(v, "hidden_communities")?;
        let locked_posts = required::<Vec<ModLockPostView>>(v, "locked_posts")?;
        let removed_comments = required::<Vec<ModRemoveCommentView>>(v, "removed_comments")?;
        let removed_communities = required::<Vec<ModRemoveCommunityView>>(
            v,
            "removed_communities",
        )?;
        let removed_posts = required::<Vec<ModRemovePostView>>(v, "removed_posts")?;
        let transferred_to_community = required::<Vec<ModTransferCommunityView>>(
            v,
            "transferred_to_community",
        )?;
        Some(
            GetModlogResponse {
                added,
                added_to_community,
                admin_purged_comments,
                admin_purged_communities,
                admin_purged_persons,
                admin_purged_posts,
                banned,
                banned_from_community,
                featured_posts,
                hidden_communities,
                locked_posts,
                removed_comments,
                removed_communities,
                removed_posts,
                transferred_to_community,
            },
        )
    }

    proof fn lemma_round_trip(&self) {
        Self::lemma_members(
            self.added.tree(),
            self.added_to_community.tree(),
            self.admin_purged_comments.tree(),
            self.admin_purged_communities.tree(),
            self.admin_purged_persons.tree(),
            self.admin_purged_posts.tree(),
            self.banned.tree(),
            self.banned_from_community.tree(),
            self.featured_posts.tree(),
            self.hidden_communities.tree(),
            self.locked_posts.tree(),
            self.removed_comments.tree(),
            self.removed_communities.tree(),
            self.removed_posts.tree(),
            self.transferred_to_community.tree(),
        );
        self.added.lemma_round_trip();
        self.added_to_community.lemma_round_trip();
        self.admin_purged_comments.lemma_round_trip();
        self.admin_purged_communities.lemma_round_trip();
        self.admin_purged_persons.lemma_round_trip();
        self.admin_purged_posts.lemma_round_trip();
        self.banned.lemma_round_trip();
        self.banned_from_community.lemma_round_trip();
        self.featured_posts.lemma_round_trip();
        self.hidden_communities.lemma_round_trip();
        self.locked_posts.lemma_round_trip();
        self.removed_comments.lemma_round_trip();
        self.removed_communities.lemma_round_trip();
        self.removed_posts.lemma_round_trip();
        self.transferred_to_community.lemma_round_trip();
    }

    proof fn lemma_reads_one(&self, other: &Self, t: JsonTree) {
        lemma_required_reads_one(self.added, other.added, t, "added"@);
        lemma_required_reads_one(
            self.added_to_community,
            other.added_to_community,
            t,
            "added_to_community"@,
        );
        lemma_required_reads_one(
            self.admin_purged_comments,
            other.admin_purged_comments,
            t,
            "admin_purged_comments"@,
        );
        lemma_required_reads_one(
            self.admin_purged_communities,
            other.admin_purged_communities,
            t,
            "admin_purged_communities"@,
        );
        lemma_required_reads_one(
            self.admin_purged_persons,
            other.admin_purged_persons,
            t,
            "admin_purged_persons"@,
        );
        lemma_required_reads_one(
            self.admin_purged_posts,
            other.admin_purged_posts,
            t,
            "admin_purged_posts"@,
        );
        lemma_required_reads_one(self.banned, other.banned, t, "banned"@);
        lemma_required_reads_one(
            self.banned_from_community,
            other.banned_from_community,
            t,
            "banned_from_community"@,
        );
        lemma_required_reads_one(self.featured_posts, other.featured_posts, t, "featured_posts"@);
        lemma_required_reads_one(
            self.hidden_communities,
            other.hidden_communities,
            t,
            "hidden_communities"@,
        );
        lemma_required_reads_one(self.locked_posts, other.locked_posts, t, "locked_posts"@);
        lemma_required_reads_one(
            self.removed_comments,
            other.removed_comments,
            t,
            "removed_comments"@,
        );
        lemma_required_reads_one(
            self.removed_communities,
            other.removed_communities,
            t,
            "removed_communities"@,
        );
        lemma_required_reads_one(self.removed_posts, other.removed_posts, t, "removed_posts"@);
        lemma_required_reads_one(
            self.transferred_to_community,
            other.transferred_to_community,
            t,
            "transferred_to_community"@,
        );
    }
}

#[derive(Clone, Debug, PartialEq, Default)]
pub struct ModAdd {
    pub id: i32,
    pub mod_person_id: i32,
    pub other_person_id: i32,
    pub removed: bool,
    pub when_: String,
}

impl ModAdd {
    /// The members that a record is written as, from what is written for
    /// each of its fields.
    pub open spec fn members(
        id: JsonTree,
        mod_person_id: JsonTree,
        other_person_id: JsonTree,
        removed: JsonTree,
        when_: JsonTree,
    ) -> Seq<Member> {
        let members = Seq::empty();
        let members = with_field(members, "id"@, id);
        let members = with_field(members, "mod_person_id"@, mod_person_id);
        let members = with_field(members, "other_person_id"@, other_person_id);
        let members = with_field(members, "removed"@, removed);
        let members = with_field(members, "when_"@, when_);
        members
    }

    /// Each key leads to what was written under it, and to nothing where
    /// nothing was written.
    pub proof fn lemma_members(
        id: JsonTree,
        mod_person_id: JsonTree,
        other_person_id: JsonTree,
        removed: JsonTree,
        when_: JsonTree,
    )
        ensures
            ({
                let members = Self::members(id, mod_person_id, other_person_id, removed, when_);
                &&& lookup(members, "id"@) == Some(id)
                &&& lookup(members, "mod_person_id"@) == Some(mod_person_id)
                &&& lookup(members, "other_person_id"@) == Some(other_person_id)
                &&& lookup(members, "removed"@) == Some(removed)
                &&& lookup(members, "when_"@) == Some(when_)
            }),
    {
        broadcast use group_written_members;

        reveal_strlit("id");
        reveal_strlit("mod_person_id");
        reveal_strlit("other_person_id");
        reveal_strlit("removed");
        reveal_strlit("when_");
        assert("id"@.len() == 2);
        assert("mod_person_id"@.len() == 13);
        assert("other_person_id"@.len() == 15);
        assert("removed"@.len() == 7);
        assert("when_"@.len() == 5);
    }

    /// Every field is mandatory: each is written, in order, and nothing
    /// else.
    pub proof fn lemma_mandatory_fields_alone(
        id: JsonTree,
        mod_person_id: JsonTree,
        other_person_id: JsonTree,
        removed: JsonTree,
        when_: JsonTree,
    )
        ensures
            Self::members(
                id,
                mod_person_id,
                other_person_id,
                removed,
                when_,
            ) == Seq::<Member>::empty()
                .push(("id"@, id))
                .push(("mod_person_id"@, mod_person_id))
                .push(("other_person_id"@, other_person_id))
                .push(("removed"@, removed))
                .push(("when_"@, when_)),
    {
        reveal(with_field);
        reveal(with_optional);
    }
}

impl Payload for ModAdd {
    open spec fn tree(&self) -> JsonTree {
        JsonTree::Object(
            Self::members(
                self.id.tree(),
                self.mod_person_id.tree(),
                self.other_person_id.tree(),
                self.removed.tree(),
                self.when_.tree(),
            ),
        )
    }

    open spec fn admits(t: JsonTree) -> bool {
        &&& t is Object
        &&& required_admits::<i32>(t, "id"@)
        &&& required_admits::<i32>(t, "mod_person_id"@)
        &&& required_admits::<i32>(t, "other_person_id"@)
        &&& required_admits::<bool>(t, "removed"@)
        &&& required_admits::<String>(t, "when_"@)
    }

    open spec fn agrees(&self, t: JsonTree) -> bool {
        &&& required_agrees(self.id, t, "id"@)
        &&& required_agrees(self.mod_person_id, t, "mod_person_id"@)
        &&& required_agrees(self.other_person_id, t, "other_person_id"@)
        &&& required_agrees(self.removed, t, "removed"@)
        &&& required_agrees(self.when_, t, "when_"@)
    }

    fn to_json(&self) -> (out: JsonValue) {
        let mut members: Vec<(String, JsonValue)> = Vec::new();
        assert(members_view(members@) =~= Seq::empty());
        put(&mut members, "id", &self.id);
        put(&mut members, "mod_person_id", &self.mod_person_id);
        put(&mut members, "other_person_id", &self.other_person_id);
        put(&mut members, "removed", &self.removed);
        put(&mut members, "when_", &self.when_);
        object(members)
    }

    fn from_json(v: &JsonValue) -> (res: Option<Self>) {
        if !v.is_object() {
            return None;
        }
        let id = required::<i32>(v, "id")?;
        let mod_person_id = required::<i32>(v, "mod_person_id")?;
        let other_person_id = required::<i32>(v, "other_person_id")?;
        let removed = required::<bool>(v, "removed")?;
        let when_ = required::<String>(v, "when_")?;
        Some(ModAdd { id, mod_person_id, other_person_id, removed, when_ })
    }

    proof fn lemma_round_trip(&self) {
        Self::lemma_members(
            self.id.tree(),
            self.mod_person_id.tree(),
            self.other_person_id.tree(),
            self.removed.tree(),
            self.when_.tree(),
        );
        self.id.lemma_round_trip();
        self.mod_person_id.lemma_round_trip();
        self.other_person_id.lemma_round_trip();
        self.removed.lemma_round_trip();
        self.when_.lemma_round_trip();
    }

    proof fn lemma_reads_one(&self, other: &Self, t: JsonTree) {
        lemma_required_reads_one(self.id, other.id, t, "id"@);
        lemma_required_reads_one(self.mod_person_id, other.mod_person_id, t, "mod_person_id"@);
        lemma_required_reads_one(
            self.other_person_id,
            other.other_person_id,
            t,
            "other_person_id"@,
        );
        lemma_required_reads_one(self.removed, other.removed, t, "removed"@);
        lemma_required_reads_one(self.when_, other.when_, t, "when_"@);
    }
}

#[derive(Clone, Debug, PartialEq, Default)]
pub struct ModdAddCommunity {
    pub community_id: i32,
    pub id: i32,
    pub mod_person_id: i32,
    pub other_person_id: i32,
    pub removed: bool,
    pub when_: String,
}

impl ModdAddCommunity {
    /// The members that a record is written as, from what is written for
    /// each of its fields.
    pub open spec fn members(
        community_id: JsonTree,
        id: JsonTree,
        mod_person_id: JsonTree,
        other_person_id: JsonTree,
        removed: JsonTree,
        when_: JsonTree,
    ) -> Seq<Member> {
        let members = Seq::empty();
        let members = with_field(members, "community_id"@, community_id);
        let members = with_field(members, "id"@, id);
        let members = with_field(members, "mod_person_id"@, mod_person_id);
        let members = with_field(members, "other_person_id"@, other_person_id);
        let members = with_field(members, "removed"@, removed);
        let members = with_field(members, "when_"@, when_);
        members
    }

    /// Each key leads to what was written under it, and to nothing where
    /// nothing was written.
    pub proof fn lemma_members(
        community_id: JsonTree,
        id: JsonTree,
        mod_person_id: JsonTree,
        other_person_id: JsonTree,
        removed: JsonTree,
        when_: JsonTree,
    )
        ensures
            ({
                let members = Self::members(
                    community_id,
                    id,
                    mod_person_id,
                    other_person_id,
                    removed,
                    when_,
                );
                &&& lookup(members, "community_id"@) == Some(community_id)
                &&& lookup(members, "id"@) == Some(id)
                &&& lookup(members, "mod_person_id"@) == Some(mod_person_id)
                &&& lookup(members, "other_person_id"@) == Some(other_person_id)
                &&& lookup(members, "removed"@) == Some(removed)
                &&& lookup(members, "when_"@) == Some(when_)
            }),
    {
        broadcast use group_written_members;

        reveal_strlit("community_id");
        reveal_strlit("id");
        reveal_strlit("mod_person_id");
        reveal_strlit("other_person_id");
        reveal_strlit("removed");
        reveal_strlit("when_");
        assert("community_id"@.len() == 12);
        assert("id"@.len() == 2);
        assert("mod_person_id"@.len() == 13);
        assert("other_person_id"@.len() == 15);
        assert("removed"@.len() == 7);
        assert("when_"@.len() == 5);
    }

    /// Every field is mandatory: each is written, in order, and nothing
    /// else.
    pub proof fn lemma_mandatory_fields_alone(
        community_id: JsonTree,
        id: JsonTree,
        mod_person_id: JsonTree,
        other_person_id: JsonTree,
        removed: JsonTree,
        when_: JsonTree,
    )
        ensures
            Self::members(
                community_id,
                id,
                mod_person_id,
                other_person_id,
                removed,
                when_,
            ) == Seq::<Member>::empty()
                .push(("community_id"@, community_id))
                .push(("id"@, id))
                .push(("mod_person_id"@, mod_person_id))
                .push(("other_person_id"@, other_person_id))
                .push(("removed"@, removed))
                .push(("when_"@, when_)),
    {
        reveal(with_field);
        reveal(with_optional);
    }
}

impl Payload for ModdAddCommunity {
    open spec fn tree(&self) -> JsonTree {
        JsonTree::Object(
            Self::members(
                self.community_id.tree(),
                self.id.tree(),
                self.mod_person_id.tree(),
                self.other_person_id.tree(),
                self.removed.tree(),
                self.when_.tree(),
            ),
        )
    }

    open spec fn admits(t: JsonTree) -> bool {
        &&& t is Object
        &&& required_admits::<i32>(t, "community_id"@)
        &&& required_admits::<i32>(t, "id"@)
        &&& required_admits::<i32>(t, "mod_person_id"@)
        &&& required_admits::<i32>(t, "other_person_id"@)
        &&& required_admits::<bool>(t, "removed"@)
        &&& required_admits::<String>(t, "when_"@)
    }

    open spec fn agrees(&self, t: JsonTree) -> bool {
        &&& required_agrees(self.community_id, t, "community_id"@)
        &&& required_agrees(self.id, t, "id"@)
        &&& required_agrees(self.mod_person_id, t, "mod_person_id"@)
        &&& required_agrees(self.other_person_id, t, "other_person_id"@)
        &&& required_agrees(self.removed, t, "removed"@)
        &&& required_agrees(self.when_, t, "when_"@)
    }

    fn to_json(&self) -> (out: JsonValue) {
        let mut members: Vec<(String, JsonValue)> = Vec::new();
        assert(members_view(members@) =~= Seq::empty());
        put(&mut members, "community_id", &self.community_id);
        put(&mut members, "id", &self.id);
        put(&mut members, "mod_person_id", &self.mod_person_id);
        put(&mut members, "other_person_id", &self.other_person_id);
        put(&mut members, "removed", &self.removed);
        put(&mut members, "when_", &self.when_);
        object(members)
    }

    fn from_json(v: &JsonValue) -> (res: Option<Self>) {
        if !v.is_object() {
            return None;
        }
        let community_id = required::<i32>(v, "community_id")?;
        let id = required::<i32>(v, "id")?;
        let mod_person_id = required::<i32>(v, "mod_person_id")?;
        let other_person_id = required::<i32>(v, "other_person_id")?;
        let removed = required::<bool>(v, "removed")?;
        let when_ = required::<String>(v, "when_")?;
        Some(ModdAddCommunity { community_id, id, mod_person_id, other_person_id, removed, when_ })
    }

    proof fn lemma_round_trip(&self) {
        Self::lemma_members(
            self.community_id.tree(),
            self.id.tree(),
            self.mod_person_id.tree(),
            self.other_person_id.tree(),
            self.removed.tree(),
            self.when_.tree(),
        );
        self.community_id.lemma_round_trip();
        self.id.lemma_round_trip();
        self.mod_person_id.lemma_round_trip();
        self.other_person_id.lemma_round_trip();
        self.removed.lemma_round_trip();
        self.when_.lemma_round_trip();
    }

    proof fn lemma_reads_one(&self, other: &Self, t: JsonTree) {
        lemma_required_reads_one(self.community_id, other.community_id, t, "community_id"@);
        lemma_required_reads_one(self.id, other.id, t, "id"@);
        lemma_required_reads_one(self.mod_person_id, other.mod_person_id, t, "mod_person_id"@);
        lemma_required_reads_one(
            self.other_person_id,
            other.other_person_id,
            t,
            "other_person_id"@,
        );
        lemma_required_reads_one(self.removed, other.removed, t, "removed"@);
        lemma_required_reads_one(self.when_, other.when_, t, "when_"@);
    }
}

#[derive(Clone, Debug, PartialEq, Default)]
pub struct ModAddCommunityView {
    pub community: Community,
    pub mod_add_community: ModdAddCommunity,
    pub modded_person: Person,
    pub moderator: Option<Person>,
}

impl ModAddCommunityView {
    /// The members that a record is written as, from what is written for
    /// each of its fields.
    pub open spec fn members(
        community: JsonTree,
        mod_add_community: JsonTree,
        modded_person: JsonTree,
        moderator: Option<JsonTree>,
    ) -> Seq<Member> {
        let members = Seq::empty();
        let members = with_field(members, "community"@, community);
        let members = with_field(members, "mod_add_community"@, mod_add_community);
        let members = with_field(members, "modded_person"@, modded_person);
        let members = with_optional(members, "moderator"@, moderator);
        members
    }

    /// Each key leads to what was written under it, and to nothing where
    /// nothing was written.
    pub proof fn lemma_members(
        community: JsonTree,
        mod_add_community: JsonTree,
        modded_person: JsonTree,
        moderator: Option<JsonTree>,
    )
        ensures
            ({
                let members = Self::members(community, mod_add_community, modded_person, moderator);
                &&& lookup(members, "community"@) == Some(community)
                &&& lookup(members, "mod_add_community"@) == Some(mod_add_community)
                &&& lookup(members, "modded_person"@) == Some(modded_person)
                &&& lookup(members, "moderator"@) == moderator
            }),
    {
        broadcast use group_written_members;

        reveal_strlit("community");
        reveal_strlit("mod_add_community");
        reveal_strlit("modded_person");
        reveal_strlit("moderator");
        assert("community"@.len() == 9 && "community"@[0] == 'c');
        assert("mod_add_community"@.len() == 17);
        assert("modded_person"@.len() == 13);
        assert("moderator"@.len() == 9 && "moderator"@[0] == 'm');
    }

    /// With every optional field absent, the mandatory fields are written
    /// and nothing else.
    pub proof fn lemma_mandatory_fields_alone(
        community: JsonTree,
        mod_add_community: JsonTree,
        modded_person: JsonTree,
    )
        ensures
            Self::members(
                community,
                mod_add_community,
                modded_person,
                None,
            ) == Seq::<Member>::empty()
                .push(("community"@, community))
                .push(("mod_add_community"@, mod_add_community))
                .push(("modded_person"@, modded_person)),
    {
        reveal(with_field);
        reveal(with_optional);
    }
}

impl Payload for ModAddCommunityView {
    open spec fn tree(&self) -> JsonTree {
        JsonTree::Object(
            Self::members(
                self.community.tree(),
                self.mod_add_community.tree(),
                self.modded_person.tree(),
                written(self.moderator),
            ),
        )
    }

    open spec fn admits(t: JsonTree) -> bool {
        &&& t is Object
        &&& required_admits::<Community>(t, "community"@)
        &&& required_admits::<ModdAddCommunity>(t, "mod_add_community"@)
        &&& required_admits::<Person>(t, "modded_person"@)
        &&& optional_admits::<Person>(t, "moderator"@)
    }

    open spec fn agrees(&self, t: JsonTree) -> bool {
        &&& required_agrees(self.community, t, "community"@)
        &&& required_agrees(self.mod_add_community, t, "mod_add_community"@)
        &&& required_agrees(self.modded_person, t, "modded_person"@)
        &&& optional_agrees(self.moderator, t, "moderator"@)
    }

    fn to_json(&self) -> (out: JsonValue) {
        let mut members: Vec<(String, JsonValue)> = Vec::new();
        assert(members_view(members@) =~= Seq::empty());
        put(&mut members, "community", &self.community);
        put(&mut members, "mod_add_community", &self.mod_add_community);
        put(&mut members, "modded_person", &self.modded_person);
        put_optional(&mut members, "moderator", &self.moderator);
        object(members)
    }

    fn from_json(v: &JsonValue) -> (res: Option<Self>) {
        if !v.is_object() {
            return None;
        }
        let community = required::<Community>(v, "community")?;
        let mod_add_community = required::<ModdAddCommunity>(v, "mod_add_community")?;
        let modded_person = required::<Person>(v, "modded_person")?;
        let moderator = optional::<Person>(v, "moderator")?;
        Some(ModAddCommunityView { community, mod_add_community, modded_person, moderator })
    }

    proof fn lemma_round_trip(&self) {
        Self::lemma_members(
            self.community.tree(),
            self.mod_add_community.tree(),
            self.modded_person.tree(),
            written(self.moderator),
        );
        self.community.lemma_round_trip();
        self.mod_add_community.lemma_round_trip();
        self.modded_person.lemma_round_trip();
        lemma_optional_round_trip(self.moderator);
    }

    proof fn lemma_reads_one(&self, other: &Self, t: JsonTree) {
        lemma_required_reads_one(self.community, other.community, t, "community"@);
        lemma_required_reads_one(
            self.mod_add_community,
            other.mod_add_community,
            t,
            "mod_add_community"@,
        );
        lemma_required_reads_one(self.modded_person, other.modded_person, t, "modded_person"@);
        lemma_optional_reads_one(self.moderator, other.moderator, t, "moderator"@);
    }
}

#[derive(Clone, Debug, PartialEq, Default)]
pub struct ModAddView {
    pub mod_add: ModAdd,
    pub modded_person: Person,
    pub moderator: Option<Person>,
}

impl ModAddView {
    /// The members that a record is written as, from what is written for
    /// each of its fields.
    pub open spec fn members(
        mod_add: JsonTree,
        modded_person: JsonTree,
        moderator: Option<JsonTree>,
    ) -> Seq<Member> {
        let members = Seq::empty();
        let members = with_field(members, "mod_add"@, mod_add);
        let members = with_field(members, "modded_person"@, modded_person);
        let members = with_optional(members, "moderator"@, moderator);
        members
    }

    /// Each key leads to what was written under it, and to nothing where
    /// nothing was written.
    pub proof fn lemma_members(
        mod_add: JsonTree,
        modded_person: JsonTree,
        moderator: Option<JsonTree>,
    )
        ensures
            ({
                let members = Self::members(mod_add, modded_person, moderator);
                &&& lookup(members, "mod_add"@) == Some(mod_add)
                &&& lookup(members, "modded_person"@) == Some(modded_person)
                &&& lookup(members, "moderator"@) == moderator
            }),
    {
        broadcast use group_written_members;

        reveal_strlit("mod_add");
        reveal_strlit("modded_person");
        reveal_strlit("moderator");
        assert("mod_add"@.len() == 7);
        assert("modded_person"@.len() == 13);
        assert("moderator"@.len() == 9);
    }

    /// With every optional field absent, the mandatory fields are written
    /// and nothing else.
    pub proof fn lemma_mandatory_fields_alone(mod_add: JsonTree, modded_person: JsonTree)
        ensures
            Self::members(mod_add, modded_person, None) == Seq::<Member>::empty()
                .push(("mod_add"@, mod_add))
                .push(("modded_person"@, modded_person)),
    {
        reveal(with_field);
        reveal(with_optional);
    }
}

impl Payload for ModAddView {
    open spec fn tree(&self) -> JsonTree {
        JsonTree::Object(
            Self::members(self.mod_add.tree(), self.modded_person.tree(), written(self.moderator)),
        )
    }

    open spec fn admits(t: JsonTree) -> bool {
        &&& t is Object
        &&& required_admits::<ModAdd>(t, "mod_add"@)
        &&& required_admits::<Person>(t, "modded_person"@)
        &&& optional_admits::<Person>(t, "moderator"@)
    }

    open spec fn agrees(&self, t: JsonTree) -> bool {
        &&& required_agrees(self.mod_add, t, "mod_add"@)
        &&& required_agrees(self.modded_person, t, "modded_person"@)
        &&& optional_agrees(self.moderator, t, "moderator"@)
    }

    fn to_json(&self) -> (out: JsonValue) {
        let mut members: Vec<(String, JsonValue)> = Vec::new();
        assert(members_view(members@) =~= Seq::empty());
        put(&mut members, "mod_add", &self.mod_add);
        put(&mut members, "modded_person", &self.modded_person);
        put_optional(&mut members, "moderator", &self.moderator);
        object(members)
    }

    fn from_json(v: &JsonValue) -> (res: Option<Self>) {
        if !v.is_object() {
            return None;
        }
        let mod_add = required::<ModAdd>(v, "mod_add")?;
        let modded_person = required::<Person>(v, "modded_person")?;
        let moderator = optional::<Person>(v, "moderator")?;
        Some(ModAddView { mod_add, modded_person, moderator })
    }

    proof fn lemma_round_trip(&self) {
        Self::lemma_members(
            self.mod_add.tree(),
            self.modded_person.tree(),
            written(self.moderator),
        );
        self.mod_add.lemma_round_trip();
        self.modded_person.lemma_round_trip();
        lemma_optional_round_trip(self.moderator);
    }

    proof fn lemma_reads_one(&self, other: &Self, t: JsonTree) {
        lemma_required_reads_one(self.mod_add, other.mod_add, t, "mod_add"@);
        lemma_required_reads_one(self.modded_person, other.modded_person, t, "modded_person"@);
        lemma_optional_reads_one(self.moderator, other.moderator, t, "moderator"@);
    }
}

#[derive(Clone, Debug, PartialEq, Default)]
pub struct ModBan {
    pub banned: bool,
    pub expires: Option<String>,
    pub id: i32,
    pub mod_person_id: i32,
    pub other_person_id: i32,
    pub reason: Option<String>,
    pub when_: String,
}

impl ModBan {
    /// The members that a record is written as, from what is written for
    /// each of its fields.
    pub open spec fn members(
        banned: JsonTree,
        expires: Option<JsonTree>,
        id: JsonTree,
        mod_person_id: JsonTree,
        other_person_id: JsonTree,
        reason: Option<JsonTree>,
        when_: JsonTree,
    ) -> Seq<Member> {
        let members = Seq::empty();
        let members = with_field(members, "banned"@, banned);
        let members = with_optional(members, "expires"@, expires);
        let members = with_field(members, "id"@, id);
        let members = with_field(members, "mod_person_id"@, mod_person_id);
        let members = with_field(members, "other_person_id"@, other_person_id);
        let members = with_optional(members, "reason"@, reason);
        let members = with_field(members, "when_"@, when_);
        members
    }

    /// Each key leads to what was written under it, and to nothing where
    /// nothing was written.
    pub proof fn lemma_members(
        banned: JsonTree,
        expires: Option<JsonTree>,
        id: JsonTree,
        mod_person_id: JsonTree,
        other_person_id: JsonTree,
        reason: Option<JsonTree>,
        when_: JsonTree,
    )
        ensures
            ({
                let members = Self::members(
                    banned,
                    expires,
                    id,
                    mod_person_id,
                    other_person_id,
                    reason,
                    when_,
                );
                &&& lookup(members, "banned"@) == Some(banned)
                &&& lookup(members, "expires"@) == expires
                &&& lookup(members, "id"@) == Some(id)
                &&& lookup(members, "mod_person_id"@) == Some(mod_person_id)
                &&& lookup(members, "other_person_id"@) == Some(other_person_id)
                &&& lookup(members, "reason"@) == reason
                &&& lookup(members, "when_"@) == Some(when_)
            }),
    {
        broadcast use group_written_members;

        reveal_strlit("banned");
        reveal_strlit("expires");
        reveal_strlit("id");
        reveal_strlit("mod_person_id");
        reveal_strlit("other_person_id");
        reveal_strlit("reason");
        reveal_strlit("when_");
        assert("banned"@.len() == 6 && "banned"@[0] == 'b');
        assert("expires"@.len() == 7);
        assert("id"@.len() == 2);
        assert("mod_person_id"@.len() == 13);
        assert("other_person_id"@.len() == 15);
        assert("reason"@.len() == 6 && "reason"@[0] == 'r');
        assert("when_"@.len() == 5);
    }

    /// With every optional field absent, the mandatory fields are written
    /// and nothing else.
    pub proof fn lemma_mandatory_fields_alone(
        banned: JsonTree,
        id: JsonTree,
        mod_person_id: JsonTree,
        other_person_id: JsonTree,
        when_: JsonTree,
    )
        ensures
            Self::members(
                banned,
                None,
                id,
                mod_person_id,
                other_person_id,
                None,
                when_,
            ) == Seq::<Member>::empty()
                .push(("banned"@, banned))
                .push(("id"@, id))
                .push(("mod_person_id"@, mod_person_id))
                .push(("other_person_id"@, other_person_id))
                .push(("when_"@, when_)),
    {
        reveal(with_field);
        reveal(with_optional);
    }
}

impl Payload for ModBan {
    open spec fn tree(&self) -> JsonTree {
        JsonTree::Object(
            Self::members(
                self.banned.tree(),
                written(self.expires),
                self.id.tree(),
                self.mod_person_id.tree(),
                self.other_person_id.tree(),
                written(self.reason),
                self.when_.tree(),
            ),
        )
    }

    open spec fn admits(t: JsonTree) -> bool {
        &&& t is Object
        &&& required_admits::<bool>(t, "banned"@)
        &&& optional_admits::<String>(t, "expires"@)
        &&& required_admits::<i32>(t, "id"@)
        &&& required_admits::<i32>(t, "mod_person_id"@)
        &&& required_admits::<i32>(t, "other_person_id"@)
        &&& optional_admits::<String>(t, "reason"@)
        &&& required_admits::<String>(t, "when_"@)
    }

    open spec fn agrees(&self, t: JsonTree) -> bool {
        &&& required_agrees(self.banned, t, "banned"@)
        &&& optional_agrees(self.expires, t, "expires"@)
        &&& required_agrees(self.id, t, "id"@)
        &&& required_agrees(self.mod_person_id, t, "mod_person_id"@)
        &&& required_agrees(self.other_person_id, t, "other_person_id"@)
        &&& optional_agrees(self.reason, t, "reason"@)
        &&& required_agrees(self.when_, t, "when_"@)
    }

    fn to_json(&self) -> (out: JsonValue) {
        let mut members: Vec<(String, JsonValue)> = Vec::new();
        assert(members_view(members@) =~= Seq::empty());
        put(&mut members, "banned", &self.banned);
        put_optional(&mut members, "expires", &self.expires);
        put(&mut members, "id", &self.id);
        put(&mut members, "mod_person_id", &self.mod_person_id);
        put(&mut members, "other_person_id", &self.other_person_id);
        put_optional(&mut members, "reason", &self.reason);
        put(&mut members, "when_", &self.when_);
        object(members)
    }

    fn from_json(v: &JsonValue) -> (res: Option<Self>) {
        if !v.is_object() {
            return None;
        }
        let banned = required::<bool>(v, "banned")?;
        let expires = optional::<String>(v, "expires")?;
        let id = required::<i32>(v, "id")?;
        let mod_person_id = required::<i32>(v, "mod_person_id")?;
        let other_person_id = required::<i32>(v, "other_person_id")?;
        let reason = optional::<String>(v, "reason")?;
        let when_ = required::<String>(v, "when_")?;
        Some(ModBan { banned, expires, id, mod_person_id, other_person_id, reason, when_ })
    }

    proof fn lemma_round_trip(&self) {
        Self::lemma_members(
            self.banned.tree(),
            written(self.expires),
            self.id.tree(),
            self.mod_person_id.tree(),
            self.other_person_id.tree(),
            written(self.reason),
            self.when_.tree(),
        );
        self.banned.lemma_round_trip();
        lemma_optional_round_trip(self.expires);
        self.id.lemma_round_trip();
        self.mod_person_id.lemma_round_trip();
        self.other_person_id.lemma_round_trip();
        lemma_optional_round_trip(self.reason);
        self.when_.lemma_round_trip();
    }

    proof fn lemma_reads_one(&self, other: &Self, t: JsonTree) {
        lemma_required_reads_one(self.banned, other.banned, t, "banned"@);
        lemma_optional_reads_one(self.expires, other.expires, t, "expires"@);
        lemma_required_reads_one(self.id, other.id, t, "id"@);
        lemma_required_reads_one(self.mod_person_id, other.mod_person_id, t, "mod_person_id"@);
        lemma_required_reads_one(
            self.other_person_id,
            other.other_person_id,
            t,
            "other_person_id"@,
        );
        lemma_optional_reads_one(self.reason, other.reason, t, "reason"@);
        lemma_required_reads_one(self.when_, other.when_, t, "when_"@);
    }
}

#[derive(Clone, Debug, PartialEq, Default)]
pub struct ModBanFromCommunity {
    pub banned: bool,
    pub community_id: i32,
    pub expires: Option<String>,
    pub id: i32,
    pub mod_person_id: i32,
    pub other_person_id: i32,
    pub reason: Option<String>,
    pub when_: String,
}

impl ModBanFromCommunity {
    /// The members that a record is written as, from what is written for
    /// each of its fields.
    pub open spec fn members(
        banned: JsonTree,
        community_id: JsonTree,
        expires: Option<JsonTree>,
        id: JsonTree,
        mod_person_id: JsonTree,
        other_person_id: JsonTree,
        reason: Option<JsonTree>,
        when_: JsonTree,
    ) -> Seq<Member> {
        let members = Seq::empty();
        let members = with_field(members, "banned"@, banned);
        let members = with_field(members, "community_id"@, community_id);
        let members = with_optional(members, "expires"@, expires);
        let members = with_field(members, "id"@, id);
        let members = with_field(members, "mod_person_id"@, mod_person_id);
        let members = with_field(members, "other_person_id"@, other_person_id);
        let members = with_optional(members, "reason"@, reason);
        let members = with_field(members, "when_"@, when_);
        members
    }

    /// Each key leads to what was written under it, and to nothing where
    /// nothing was written.
    pub proof fn lemma_members(
        banned: JsonTree,
        community_id: JsonTree,
        expires: Option<JsonTree>,
        id: JsonTree,
        mod_person_id: JsonTree,
        other_person_id: JsonTree,
        reason: Option<JsonTree>,
        when_: JsonTree,
    )
        ensures
            ({
                let members = Self::members(
                    banned,
                    community_id,
                    expires,
                    id,
                    mod_person_id,
                    other_person_id,
                    reason,
                    when_,
                );
                &&& lookup(members, "banned"@) == Some(banned)
                &&& lookup(members, "community_id"@) == Some(community_id)
                &&& lookup(members, "expires"@) == expires
                &&& lookup(members, "id"@) == Some(id)
                &&& lookup(members, "mod_person_id"@) == Some(mod_person_id)
                &&& lookup(members, "other_person_id"@) == Some(other_person_id)
                &&& lookup(members, "reason"@) == reason
                &&& lookup(members, "when_"@) == Some(when_)
            }),
    {
        broadcast use group_written_members;

        reveal_strlit("banned");
        reveal_strlit("community_id");
        reveal_strlit("expires");
        reveal_strlit("id");
        reveal_strlit("mod_person_id");
        reveal_strlit("other_person_id");
        reveal_strlit("reason");
        reveal_strlit("when_");
        assert("banned"@.len() == 6 && "banned"@[0] == 'b');
        assert("community_id"@.len() == 12);
        assert("expires"@.len() == 7);
        assert("id"@.len() == 2);
        assert("mod_person_id"@.len() == 13);
        assert("other_person_id"@.len() == 15);
        assert("reason"@.len() == 6 && "reason"@[0] == 'r');
        assert("when_"@.len() == 5);
    }

    /// With every optional field absent, the mandatory fields are written
    /// and nothing else.
    pub proof fn lemma_mandatory_fields_alone(
        banned: JsonTree,
        community_id: JsonTree,
        id: JsonTree,
        mod_person_id: JsonTree,
        other_person_id: JsonTree,
        when_: JsonTree,
    )
        ensures
            Self::members(
                banned,
                community_id,
                None,
                id,
                mod_person_id,
                other_person_id,
                None,
                when_,
            ) == Seq::<Member>::empty()
                .push(("banned"@, banned))
                .push(("community_id"@, community_id))
                .push(("id"@, id))
                .push(("mod_person_id"@, mod_person_id))
                .push(("other_person_id"@, other_person_id))
                .push(("when_"@, when_)),
    {
        reveal(with_field);
        reveal(with_optional);
    }
}

impl Payload for ModBanFromCommunity {
    open spec fn tree(&self) -> JsonTree {
        JsonTree::Object(
            Self::members(
                self.banned.tree(),
                self.community_id.tree(),
                written(self.expires),
                self.id.tree(),
                self.mod_person_id.tree(),
                self.other_person_id.tree(),
                written(self.reason),
                self.when_.tree(),
            ),
        )
    }

    open spec fn admits(t: JsonTree) -> bool {
        &&& t is Object
        &&& required_admits::<bool>(t, "banned"@)
        &&& required_admits::<i32>(t, "community_id"@)
        &&& optional_admits::<String>(t, "expires"@)
        &&& required_admits::<i32>(t, "id"@)
        &&& required_admits::<i32>(t, "mod_person_id"@)
        &&& required_admits::<i32>(t, "other_person_id"@)
        &&& optional_admits::<String>(t, "reason"@)
        &&& required_admits::<String>(t, "when_"@)
    }

    open spec fn agrees(&self, t: JsonTree) -> bool {
        &&& required_agrees(self.banned, t, "banned"@)
        &&& required_agrees(self.community_id, t, "community_id"@)
        &&& optional_agrees(self.expires, t, "expires"@)
        &&& required_agrees(self.id, t, "id"@)
        &&& required_agrees(self.mod_person_id, t, "mod_person_id"@)
        &&& required_agrees(self.other_person_id, t, "other_person_id"@)
        &&& optional_agrees(self.reason, t, "reason"@)
        &&& required_agrees(self.when_, t, "when_"@)
    }

    fn to_json(&self) -> (out: JsonValue) {
        let mut members: Vec<(String, JsonValue)> = Vec::new();
        assert(members_view(members@) =~= Seq::empty());
        put(&mut members, "banned", &self.banned);
        put(&mut members, "community_id", &self.community_id);
        put_optional(&mut members, "expires", &self.expires);
        put(&mut members, "id", &self.id);
        put(&mut members, "mod_person_id", &self.mod_person_id);
        put(&mut members, "other_person_id", &self.other_person_id);
        put_optional(&mut members, "reason", &self.reason);
        put(&mut members, "when_", &self.when_);
        object(members)
    }

    fn from_json(v: &JsonValue) -> (res: Option<Self>) {
        if !v.is_object() {
            return None;
        }
        let banned = required::<bool>(v, "banned")?;
        let community_id = required::<i32>(v, "community_id")?;
        let expires = optional::<String>(v, "expires")?;
        let id = required::<i32>(v, "id")?;
        let mod_person_id = required::<i32>(v, "mod_person_id")?;
        let other_person_id = required::<i32>(v, "other_person_id")?;
        let reason = optional::<String>(v, "reason")?;
        let when_ = required::<String>(v, "when_")?;
        Some(
            ModBanFromCommunity {
                banned,
                community_id,
                expires,
                id,
                mod_person_id,
                other_person_id,
                reason,
                when_,
            },
        )
    }

    proof fn lemma_round_trip(&self) {
        Self::lemma_members(
            self.banned.tree(),
            self.community_id.tree(),
            written(self.expires),
            self.id.tree(),
            self.mod_person_id.tree(),
            self.other_person_id.tree(),
            written(self.reason),
            self.when_.tree(),
        );
        self.banned.lemma_round_trip();
        self.community_id.lemma_round_trip();
        lemma_optional_round_trip(self.expires);
        self.id.lemma_round_trip();
        self.mod_person_id.lemma_round_trip();
        self.other_person_id.lemma_round_trip();
        lemma_optional_round_trip(self.reason);
        self.when_.lemma_round_trip();
    }

    proof fn lemma_reads_one(&self, other: &Self, t: JsonTree) {
        lemma_required_reads_one(self.banned, other.banned, t, "banned"@);
        lemma_required_reads_one(self.community_id, other.community_id, t, "community_id"@);
        lemma_optional_reads_one(self.expires, other.expires, t, "expires"@);
        lemma_required_reads_one(self.id, other.id, t, "id"@);
        lemma_required_reads_one(self.mod_person_id, other.mod_person_id, t, "mod_person_id"@);
        lemma_required_reads_one(
            self.other_person_id,
            other.other_person_id,
            t,
            "other_person_id"@,
        );
        lemma_optional_reads_one(self.reason, other.reason, t, "reason"@);
        lemma_required_reads_one(self.when_, other.when_, t, "when_"@);
    }
}

#[derive(Clone, Debug, PartialEq, Default)]
pub struct ModBanFromCommunityView {
    pub banned_person: Person,
    pub community: Community,
    pub mod_ban_from_community: ModBanFromCommunity,
    pub moderator: Option<Person>,
}

impl ModBanFromCommunityView {
    /// The members that a record is written as, from what is written for
    /// each of its fields.
    pub open spec fn members(
        banned_person: JsonTree,
        community: JsonTree,
        mod_ban_from_community: JsonTree,
        moderator: Option<JsonTree>,
    ) -> Seq<Member> {
        let members = Seq::empty();
        let members = with_field(members, "banned_person"@, banned_person);
        let members = with_field(members, "community"@, community);
        let members = with_field(members, "mod_ban_from_community"@, mod_ban_from_community);
        let members = with_optional(members, "moderator"@, moderator);
        members
    }

    /// Each key leads to what was written under it, and to nothing where
    /// nothing was written.
    pub proof fn lemma_members(
        banned_person: JsonTree,
        community: JsonTree,
        mod_ban_from_community: JsonTree,
        moderator: Option<JsonTree>,
    )
        ensures
            ({
                let members = Self::members(
                    banned_person,
                    community,
                    mod_ban_from_community,
                    moderator,
                );
                &&& lookup(members, "banned_person"@) == Some(banned_person)
                &&& lookup(members, "community"@) == Some(community)
                &&& lookup(members, "mod_ban_from_community"@) == Some(mod_ban_from_community)
                &&& lookup(members, "moderator"@) == moderator
            }),
    {
        broadcast use group_written_members;

        reveal_strlit("banned_person");
        reveal_strlit("community");
        reveal_strlit("mod_ban_from_community");
        reveal_strlit("moderator");
        assert("banned_person"@.len() == 13);
        assert("community"@.len() == 9 && "community"@[0] == 'c');
        assert("mod_ban_from_community"@.len() == 22);
        assert("moderator"@.len() == 9 && "moderator"@[0] == 'm');
    }

    /// With every optional field absent, the mandatory fields are written
    /// and nothing else.
    pub proof fn lemma_mandatory_fields_alone(
        banned_person: JsonTree,
        community: JsonTree,
        mod_ban_from_community: JsonTree,
    )
        ensures
            Self::members(
                banned_person,
                community,
                mod_ban_from_community,
                None,
            ) == Seq::<Member>::empty()
                .push(("banned_person"@, banned_person))
                .push(("community"@, community))
                .push(("mod_ban_from_community"@, mod_ban_from_community)),
    {
        reveal(with_field);
        reveal(with_optional);
    }
}

impl Payload for ModBanFromCommunityView {
    open spec fn tree(&self) -> JsonTree {
        JsonTree::Object(
            Self::members(
                self.banned_person.tree(),
                self.community.tree(),
                self.mod_ban_from_community.tree(),
                written(self.moderator),
            ),
        )
    }

    open spec fn admits(t: JsonTree) -> bool {
        &&& t is Object
        &&& required_admits::<Person>(t, "banned_person"@)
        &&& required_admits::<Community>(t, "community"@)
        &&& required_admits::<ModBanFromCommunity>(t, "mod_ban_from_community"@)
        &&& optional_admits::<Person>(t, "moderator"@)
    }

    open spec fn agrees(&self, t: JsonTree) -> bool {
        &&& required_agrees(self.banned_person, t, "banned_person"@)
        &&& required_agrees(self.community, t, "community"@)
        &&& required_agrees(self.mod_ban_from_community, t, "mod_ban_from_community"@)
        &&& optional_agrees(self.moderator, t, "moderator"@)
    }

    fn to_json(&self) -> (out: JsonValue) {
        let mut members: Vec<(String, JsonValue)> = Vec::new();
        assert(members_view(members@) =~= Seq::empty());
        put(&mut members, "banned_person", &self.banned_person);
        put(&mut members, "community", &self.community);
        put(&mut members, "mod_ban_from_community", &self.mod_ban_from_community);
        put_optional(&mut members, "moderator", &self.moderator);
        object(members)
    }

    fn from_json(v: &JsonValue) -> (res: Option<Self>) {
        if !v.is_object() {
            return None;
        }
        let banned_person = required::<Person>(v, "banned_person")?;
        let community = required::<Community>(v, "community")?;
        let mod_ban_from_community = required::<ModBanFromCommunity>(v, "mod_ban_from_community")?;
        let moderator = optional::<Person>(v, "moderator")?;
        Some(
            ModBanFromCommunityView {
                banned_person,
                community,
                mod_ban_from_community,
                moderator,
            },
        )
    }

    proof fn lemma_round_trip(&self) {
        Self::lemma_members(
            self.banned_person.tree(),
            self.community.tree(),
            self.mod_ban_from_community.tree(),
            written(self.moderator),
        );
        self.banned_person.lemma_round_trip();
        self.community.lemma_round_trip();
        self.mod_ban_from_community.lemma_round_trip();
        lemma_optional_round_trip(self.moderator);
    }

    proof fn lemma_reads_one(&self, other: &Self, t: JsonTree) {
        lemma_required_reads_one(self.banned_person, other.banned_person, t, "banned_person"@);
        lemma_required_reads_one(self.community, other.community, t, "community"@);
        lemma_required_reads_one(
            self.mod_ban_from_community,
            other.mod_ban_from_community,
            t,
            "mod_ban_from_community"@,
        );
        lemma_optional_reads_one(self.moderator, other.moderator, t, "moderator"@);
    }
}

#[derive(Clone, Debug, PartialEq, Default)]
pub struct ModBanView {
    pub banned_person: Person,
    pub mod_ban: ModBan,
    pub moderator: Option<Person>,
}

impl ModBanView {
    /// The members that a record is written as, from what is written for
    /// each of its fields.
    pub open spec fn members(
        banned_person: JsonTree,
        mod_ban: JsonTree,
        moderator: Option<JsonTree>,
    ) -> Seq<Member> {
        let members = Seq::empty();
        let members = with_field(members, "banned_person"@, banned_person);
        let members = with_field(members, "mod_ban"@, mod_ban);
        let members = with_optional(members, "moderator"@, moderator);
        members
    }

    /// Each key leads to what was written under it, and to nothing where
    /// nothing was written.
    pub proof fn lemma_members(
        banned_person: JsonTree,
        mod_ban: JsonTree,
        moderator: Option<JsonTree>,
    )
        ensures
            ({
                let members = Self::members(banned_person, mod_ban, moderator);
                &&& lookup(members, "banned_person"@) == Some(banned_person)
                &&& lookup(members, "mod_ban"@) == Some(mod_ban)
                &&& lookup(members, "moderator"@) == moderator
            }),
    {
        broadcast use group_written_members;

        reveal_strlit("banned_person");
        reveal_strlit("mod_ban");
        reveal_strlit("moderator");
        assert("banned_person"@.len() == 13);
        assert("mod_ban"@.len() == 7);
        assert("moderator"@.len() == 9);
    }

    /// With every optional field absent, the mandatory fields are written
    /// and nothing else.
    pub proof fn lemma_mandatory_fields_alone(banned_person: JsonTree, mod_ban: JsonTree)
        ensures
            Self::members(banned_person, mod_ban, None) == Seq::<Member>::empty()
                .push(("banned_person"@, banned_person))
                .push(("mod_ban"@, mod_ban)),
    {
        reveal(with_field);
        reveal(with_optional);
    }
}

impl Payload for ModBanView {
    open spec fn tree(&self) -> JsonTree {
        JsonTree::Object(
            Self::members(self.banned_person.tree(), self.mod_ban.tree(), written(self.moderator)),
        )
    }

    open spec fn admits(t: JsonTree) -> bool {
        &&& t is Object
        &&& required_admits::<Person>(t, "banned_person"@)
        &&& required_admits::<ModBan>(t, "mod_ban"@)
        &&& optional_admits::<Person>(t, "moderator"@)
    }

    open spec fn agrees(&self, t: JsonTree) -> bool {
        &&& required_agrees(self.banned_person, t, "banned_person"@)
        &&& required_agrees(self.mod_ban, t, "mod_ban"@)
        &&& optional_agrees(self.moderator, t, "moderator"@)
    }

    fn to_json(&self) -> (out: JsonValue) {
        let mut members: Vec<(String, JsonValue)> = Vec::new();
        assert(members_view(members@) =~= Seq::empty());
        put(&mut members, "banned_person", &self.banned_person);
        put(&mut members, "mod_ban", &self.mod_ban);
        put_optional(&mut members, "moderator", &self.moderator);
        object(members)
    }

    fn from_json(v: &JsonValue) -> (res: Option<Self>) {
        if !v.is_object() {
            return None;
        }
        let banned_person = required::<Person>(v, "banned_person")?;
        let mod_ban = required::<ModBan>(v, "mod_ban")?;
        let moderator = optional::<Person>(v, "moderator")?;
        Some(ModBanView { banned_person, mod_ban, moderator })
    }

    proof fn lemma_round_trip(&self) {
        Self::lemma_members(
            self.banned_person.tree(),
            self.mod_ban.tree(),
            written(self.moderator),
        );
        self.banned_person.lemma_round_trip();
        self.mod_ban.lemma_round_trip();
        lemma_optional_round_trip(self.moderator);
    }

    proof fn lemma_reads_one(&self, other: &Self, t: JsonTree) {
        lemma_required_reads_one(self.banned_person, other.banned_person, t, "banned_person"@);
        lemma_required_reads_one(self.mod_ban, other.mod_ban, t, "mod_ban"@);
        lemma_optional_reads_one(self.moderator, other.moderator, t, "moderator"@);
    }
}

#[derive(Clone, Debug, PartialEq, Default)]
pub struct ModFeaturePost {
    pub featured: bool,
    pub id: i32,
    pub is_featured_community: bool,
    pub mod_person_id: i32,
    pub post_id: i32,
    pub when_: String,
}

impl ModFeaturePost {
    /// The members that a record is written as, from what is written for
    /// each of its fields.
    pub open spec fn members(
        featured: JsonTree,
        id: JsonTree,
        is_featured_community: JsonTree,
        mod_person_id: JsonTree,
        post_id: JsonTree,
        when_: JsonTree,
    ) -> Seq<Member> {
        let members = Seq::empty();
        let members = with_field(members, "featured"@, featured);
        let members = with_field(members, "id"@, id);
        let members = with_field(members, "is_featured_community"@, is_featured_community);
        let members = with_field(members, "mod_person_id"@, mod_person_id);
        let members = with_field(members, "post_id"@, post_id);
        let members = with_field(members, "when_"@, when_);
        members
    }

    /// Each key leads to what was written under it, and to nothing where
    /// nothing was written.
    pub proof fn lemma_members(
        featured: JsonTree,
        id: JsonTree,
        is_featured_community: JsonTree,
        mod_person_id: JsonTree,
        post_id: JsonTree,
        when_: JsonTree,
    )
        ensures
            ({
                let members = Self::members(
                    featured,
                    id,
                    is_featured_community,
                    mod_person_id,
                    post_id,
                    when_,
                );
                &&& lookup(members, "featured"@) == Some(featured)
                &&& lookup(members, "id"@) == Some(id)
                &&& lookup(members, "is_featured_community"@) == Some(is_featured_community)
                &&& lookup(members, "mod_person_id"@) == Some(mod_person_id)
                &&& lookup(members, "post_id"@) == Some(post_id)
                &&& lookup(members, "when_"@) == Some(when_)
            }),
    {
        broadcast use group_written_members;

        reveal_strlit("featured");
        reveal_strlit("id");
        reveal_strlit("is_featured_community");
        reveal_strlit("mod_person_id");
        reveal_strlit("post_id");
        reveal_strlit("when_");
        assert("featured"@.len() == 8);
        assert("id"@.len() == 2);
        assert("is_featured_community"@.len() == 21);
        assert("mod_person_id"@.len() == 13);
        assert("post_id"@.len() == 7);
        assert("when_"@.len() == 5);
    }

    /// Every field is mandatory: each is written, in order, and nothing
    /// else.
    pub proof fn lemma_mandatory_fields_alone(
        featured: JsonTree,
        id: JsonTree,
        is_featured_community: JsonTree,
        mod_person_id: JsonTree,
        post_id: JsonTree,
        when_: JsonTree,
    )
        ensures
            Self::members(
                featured,
                id,
                is_featured_community,
                mod_person_id,
                post_id,
                when_,
            ) == Seq::<Member>::empty()
                .push(("featured"@, featured))
                .push(("id"@, id))
                .push(("is_featured_community"@, is_featured_community))
                .push(("mod_person_id"@, mod_person_id))
                .push(("post_id"@, post_id))
                .push(("when_"@, when_)),
    {
        reveal(with_field);
        reveal(with_optional);
    }
}

impl Payload for ModFeaturePost {
    open spec fn tree(&self) -> JsonTree {
        JsonTree::Object(
            Self::members(
                self.featured.tree(),
                self.id.tree(),
                self.is_featured_community.tree(),
                self.mod_person_id.tree(),
                self.post_id.tree(),
                self.when_.tree(),
            ),
        )
    }

    open spec fn admits(t: JsonTree) -> bool {
        &&& t is Object
        &&& required_admits::<bool>(t, "featured"@)
        &&& required_admits::<i32>(t, "id"@)
        &&& required_admits::<bool>(t, "is_featured_community"@)
        &&& required_admits::<i32>(t, "mod_person_id"@)
        &&& required_admits::<i32>(t, "post_id"@)
        &&& required_admits::<String>(t, "when_"@)
    }

    open spec fn agrees(&self, t: JsonTree) -> bool {
        &&& required_agrees(self.featured, t, "featured"@)
        &&& required_agrees(self.id, t, "id"@)
        &&& required_agrees(self.is_featured_community, t, "is_featured_community"@)
        &&& required_agrees(self.mod_person_id, t, "mod_person_id"@)
        &&& required_agrees(self.post_id, t, "post_id"@)
        &&& required_agrees(self.when_, t, "when_"@)
    }

    fn to_json(&self) -> (out: JsonValue) {
        let mut members: Vec<(String, JsonValue)> = Vec::new();
        assert(members_view(members@) =~= Seq::empty());
        put(&mut members, "featured", &self.featured);
        put(&mut members, "id", &self.id);
        put(&mut members, "is_featured_community", &self.is_featured_community);
        put(&mut members, "mod_person_id", &self.mod_person_id);
        put(&mut members, "post_id", &self.post_id);
        put(&mut members, "when_", &self.when_);
        object(members)
    }

    fn from_json(v: &JsonValue) -> (res: Option<Self>) {
        if !v.is_object() {
            return None;
        }
        let featured = required::<bool>(v, "featured")?;
        let id = required::<i32>(v, "id")?;
        let is_featured_community = required::<bool>(v, "is_featured_community")?;
        let mod_person_id = required::<i32>(v, "mod_person_id")?;
        let post_id = required::<i32>(v, "post_id")?;
        let when_ = required::<String>(v, "when_")?;
        Some(ModFeaturePost { featured, id, is_featured_community, mod_person_id, post_id, when_ })
    }

    proof fn lemma_round_trip(&self) {
        Self::lemma_members(
            self.featured.tree(),
            self.id.tree(),
            self.is_featured_community.tree(),
            self.mod_person_id.tree(),
            self.post_id.tree(),
            self.when_.tree(),
        );
        self.featured.lemma_round_trip();
        self.id.lemma_round_trip();
        self.is_featured_community.lemma_round_trip();
        self.mod_person_id.lemma_round_trip();
        self.post_id.lemma_round_trip();
        self.when_.lemma_round_trip();
    }

    proof fn lemma_reads_one(&self, other: &Self, t: JsonTree) {
        lemma_required_reads_one(self.featured, other.featured, t, "featured"@);
        lemma_required_reads_one(self.id, other.id, t, "id"@);
        lemma_required_reads_one(
            self.is_featured_community,
            other.is_featured_community,
            t,
            "is_featured_community"@,
        );
        lemma_required_reads_one(self.mod_person_id, other.mod_person_id, t, "mod_person_id"@);
        lemma_required_reads_one(self.post_id, other.post_id, t, "post_id"@);
        lemma_required_reads_one(self.when_, other.when_, t, "when_"@);
    }
}

#[derive(Clone, Debug, PartialEq, Default)]
pub struct ModFeaturePostView {
    pub community: Community,
    pub mod_feature_post: ModFeaturePost,
    pub moderator: Option<Person>,
    pub post: Post,
}

impl ModFeaturePostView {
    /// The members that a record is written as, from what is written for
    /// each of its fields.
    pub open spec fn members(
        community: JsonTree,
        mod_feature_post: JsonTree,
        moderator: Option<JsonTree>,
        post: JsonTree,
    ) -> Seq<Member> {
        let members = Seq::empty();
        let members = with_field(members, "community"@, community);
        let members = with_field(members, "mod_feature_post"@, mod_feature_post);
        let members = with_optional(members, "moderator"@, moderator);
        let members = with_field(members, "post"@, post);
        members
    }

    /// Each key leads to what was written under it, and to nothing where
    /// nothing was written.
    pub proof fn lemma_members(
        community: JsonTree,
        mod_feature_post: JsonTree,
        moderator: Option<JsonTree>,
        post: JsonTree,
    )
        ensures
            ({
                let members = Self::members(community, mod_feature_post, moderator, post);
                &&& lookup(members, "community"@) == Some(community)
                &&& lookup(members, "mod_feature_post"@) == Some(mod_feature_post)
                &&& lookup(members, "moderator"@) == moderator
                &&& lookup(members, "post"@) == Some(post)
            }),
    {
        broadcast use group_written_members;

        reveal_strlit("community");
        reveal_strlit("mod_feature_post");
        reveal_strlit("moderator");
        reveal_strlit("post");
        assert("community"@.len() == 9 && "community"@[0] == 'c');
        assert("mod_feature_post"@.len() == 16);
        assert("moderator"@.len() == 9 && "moderator"@[0] == 'm');
        assert("post"@.len() == 4);
    }

    /// With every optional field absent, the mandatory fields are written
    /// and nothing else.
    pub proof fn lemma_mandatory_fields_alone(
        community: JsonTree,
        mod_feature_post: JsonTree,
        post: JsonTree,
    )
        ensures
            Self::members(community, mod_feature_post, None, post) == Seq::<Member>::empty()
                .push(("community"@, community))
                .push(("mod_feature_post"@, mod_feature_post))
                .push(("post"@, post)),
    {
        reveal(with_field);
        reveal(with_optional);
    }
}

impl Payload for ModFeaturePostView {
    open spec fn tree(&self) -> JsonTree {
        JsonTree::Object(
            Self::members(
                self.community.tree(),
                self.mod_feature_post.tree(),
                written(self.moderator),
                self.post.tree(),
            ),
        )
    }

    open spec fn admits(t: JsonTree) -> bool {
        &&& t is Object
        &&& required_admits::<Community>(t, "community"@)
        &&& required_admits::<ModFeaturePost>(t, "mod_feature_post"@)
        &&& optional_admits::<Person>(t, "moderator"@)
        &&& required_admits::<Post>(t, "post"@)
    }

    open spec fn agrees(&self, t: JsonTree) -> bool {
        &&& required_agrees(self.community, t, "community"@)
        &&& required_agrees(self.mod_feature_post, t, "mod_feature_post"@)
        &&& optional_agrees(self.moderator, t, "moderator"@)
        &&& required_agrees(self.post, t, "post"@)
    }

    fn to_json(&self) -> (out: JsonValue) {
        let mut members: Vec<(String, JsonValue)> = Vec::new();
        assert(members_view(members@) =~= Seq::empty());
        put(&mut members, "community", &self.community);
        put(&mut members, "mod_feature_post", &self.mod_feature_post);
        put_optional(&mut members, "moderator", &self.moderator);
        put(&mut members, "post", &self.post);
        object(members)
    }

    fn from_json(v: &JsonValue) -> (res: Option<Self>) {
        if !v.is_object() {
            return None;
        }
        let community = required::<Community>(v, "community")?;
        let mod_feature_post = required::<ModFeaturePost>(v, "mod_feature_post")?;
        let moderator = optional::<Person>(v, "moderator")?;
        let post = required::<Post>(v, "post")?;
        Some(ModFeaturePostView { community, mod_feature_post, moderator, post })
    }

    proof fn lemma_round_trip(&self) {
        Self::lemma_members(
            self.community.tree(),
            self.mod_feature_post.tree(),
            written(self.moderator),
            self.post.tree(),
        );
        self.community.lemma_round_trip();
        self.mod_feature_post.lemma_round_trip();
        lemma_optional_round_trip(self.moderator);
        self.post.lemma_round_trip();
    }

    proof fn lemma_reads_one(&self, other: &Self, t: JsonTree) {
        lemma_required_reads_one(self.community, other.community, t, "community"@);
        lemma_required_reads_one(
            self.mod_feature_post,
            other.mod_feature_post,
            t,
            "mod_feature_post"@,
        );
        lemma_optional_reads_one(self.moderator, other.moderator, t, "moderator"@);
        lemma_required_reads_one(self.post, other.post, t, "post"@);
    }
}

#[derive(Clone, Debug, PartialEq, Default)]
pub struct ModHideCommunity {
    pub community_id: i32,
    pub hidden: bool,
    pub id: i32,
    pub mod_person_id: i32,
    pub reason: Option<String>,
    pub when_: String,
}

impl ModHideCommunity {
    /// The members that a record is written as, from what is written for
    /// each of its fields.
    pub open spec fn members(
        community_id: JsonTree,
        hidden: JsonTree,
        id: JsonTree,
        mod_person_id: JsonTree,
        reason: Option<JsonTree>,
        when_: JsonTree,
    ) -> Seq<Member> {
        let members = Seq::empty();
        let members = with_field(members, "community_id"@, community_id);
        let members = with_field(members, "hidden"@, hidden);
        let members = with_field(members, "id"@, id);
        let members = with_field(members, "mod_person_id"@, mod_person_id);
        let members = with_optional(members, "reason"@, reason);
        let members = with_field(members, "when_"@, when_);
        members
    }

    /// Each key leads to what was written under it, and to nothing where
    /// nothing was written.
    pub proof fn lemma_members(
        community_id: JsonTree,
        hidden: JsonTree,
        id: JsonTree,
        mod_person_id: JsonTree,
        reason: Option<JsonTree>,
        when_: JsonTree,
    )
        ensures
            ({
                let members = Self::members(community_id, hidden, id, mod_person_id, reason, when_);
                &&& lookup(members, "community_id"@) == Some(community_id)
                &&& lookup(members, "hidden"@) == Some(hidden)
                &&& lookup(members, "id"@) == Some(id)
                &&& lookup(members, "mod_person_id"@) == Some(mod_person_id)
                &&& lookup(members, "reason"@) == reason
                &&& lookup(members, "when_"@) == Some(when_)
            }),
    {
        broadcast use group_written_members;

        reveal_strlit("community_id");
        reveal_strlit("hidden");
        reveal_strlit("id");
        reveal_strlit("mod_person_id");
        reveal_strlit("reason");
        reveal_strlit("when_");
        assert("community_id"@.len() == 12);
        assert("hidden"@.len() == 6 && "hidden"@[0] == 'h');
        assert("id"@.len() == 2);
        assert("mod_person_id"@.len() == 13);
        assert("reason"@.len() == 6 && "reason"@[0] == 'r');
        assert("when_"@.len() == 5);
    }

    /// With every optional field absent, the mandatory fields are written
    /// and nothing else.
    pub proof fn lemma_mandatory_fields_alone(
        community_id: JsonTree,
        hidden: JsonTree,
        id: JsonTree,
        mod_person_id: JsonTree,
        when_: JsonTree,
    )
        ensures
            Self::members(
                community_id,
                hidden,
                id,
                mod_person_id,
                None,
                when_,
            ) == Seq::<Member>::empty()
                .push(("community_id"@, community_id))
                .push(("hidden"@, hidden))
                .push(("id"@, id))
                .push(("mod_person_id"@, mod_person_id))
                .push(("when_"@, when_)),
    {
        reveal(with_field);
        reveal(with_optional);
    }
}

impl Payload for ModHideCommunity {
    open spec fn tree(&self) -> JsonTree {
        JsonTree::Object(
            Self::members(
                self.community_id.tree(),
                self.hidden.tree(),
                self.id.tree(),
                self.mod_person_id.tree(),
                written(self.reason),
                self.when_.tree(),
            ),
        )
    }

    open spec fn admits(t: JsonTree) -> bool {
        &&& t is Object
        &&& required_admits::<i32>(t, "community_id"@)
        &&& required_admits::<bool>(t, "hidden"@)
        &&& required_admits::<i32>(t, "id"@)
        &&& required_admits::<i32>(t, "mod_person_id"@)
        &&& optional_admits::<String>(t, "reason"@)
        &&& required_admits::<String>(t, "when_"@)
    }

    open spec fn agrees(&self, t: JsonTree) -> bool {
        &&& required_agrees(self.community_id, t, "community_id"@)
        &&& required_agrees(self.hidden, t, "hidden"@)
        &&& required_agrees(self.id, t, "id"@)
        &&& required_agrees(self.mod_person_id, t, "mod_person_id"@)
        &&& optional_agrees(self.reason, t, "reason"@)
        &&& required_agrees(self.when_, t, "when_"@)
    }

    fn to_json(&self) -> (out: JsonValue) {
        let mut members: Vec<(String, JsonValue)> = Vec::new();
        assert(members_view(members@) =~= Seq::empty());
        put(&mut members, "community_id", &self.community_id);
        put(&mut members, "hidden", &self.hidden);
        put(&mut members, "id", &self.id);
        put(&mut members, "mod_person_id", &self.mod_person_id);
        put_optional(&mut members, "reason", &self.reason);
        put(&mut members, "when_", &self.when_);
        object(members)
    }

    fn from_json(v: &JsonValue) -> (res: Option<Self>) {
        if !v.is_object() {
            return None;
        }
        let community_id = required::<i32>(v, "community_id")?;
        let hidden = required::<bool>(v, "hidden")?;
        let id = required::<i32>(v, "id")?;
        let mod_person_id = required::<i32>(v, "mod_person_id")?;
        let reason = optional::<String>(v, "reason")?;
        let when_ = required::<String>(v, "when_")?;
        Some(ModHideCommunity { community_id, hidden, id, mod_person_id, reason, when_ })
    }

    proof fn lemma_round_trip(&self) {
        Self::lemma_members(
            self.community_id.tree(),
            self.hidden.tree(),
            self.id.tree(),
            self.mod_person_id.tree(),
            written(self.reason),
            self.when_.tree(),
        );
        self.community_id.lemma_round_trip();
        self.hidden.lemma_round_trip();
        self.id.lemma_round_trip();
        self.mod_person_id.lemma_round_trip();
        lemma_optional_round_trip(self.reason);
        self.when_.lemma_round_trip();
    }

    proof fn lemma_reads_one(&self, other: &Self, t: JsonTree) {
        lemma_required_reads_one(self.community_id, other.community_id, t, "community_id"@);
        lemma_required_reads_one(self.hidden, other.hidden, t, "hidden"@);
        lemma_required_reads_one(self.id, other.id, t, "id"@);
        lemma_required_reads_one(self.mod_person_id, other.mod_person_id, t, "mod_person_id"@);
        lemma_optional_reads_one(self.reason, other.reason, t, "reason"@);
        lemma_required_reads_one(self.when_, other.when_, t, "when_"@);
    }
}

#[derive(Clone, Debug, PartialEq, Default)]
pub struct ModHideCommunityView {
    pub admin: Option<Person>,
    pub community: Community,
    pub mod_hide_community: ModHideCommunity,
}

impl ModHideCommunityView {
    /// The members that a record is written as, from what is written for
    /// each of its fields.
    pub open spec fn members(
        admin: Option<JsonTree>,
        community: JsonTree,
        mod_hide_community: JsonTree,
    ) -> Seq<Member> {
        let members = Seq::empty();
        let members = with_optional(members, "admin"@, admin);
        let members = with_field(members, "community"@, community);
        let members = with_field(members, "mod_hide_community"@, mod_hide_community);
        members
    }

    /// Each key leads to what was written under it, and to nothing where
    /// nothing was written.
    pub proof fn lemma_members(
        admin: Option<JsonTree>,
        community: JsonTree,
        mod_hide_community: JsonTree,
    )
        ensures
            ({
                let members = Self::members(admin, community, mod_hide_community);
                &&& lookup(members, "admin"@) == admin
                &&& lookup(members, "community"@) == Some(community)
                &&& lookup(members, "mod_hide_community"@) == Some(mod_hide_community)
            }),
    {
        broadcast use group_written_members;

        reveal_strlit("admin");
        reveal_strlit("community");
        reveal_strlit("mod_hide_community");
        assert("admin"@.len() == 5);
        assert("community"@.len() == 9);
        assert("mod_hide_community"@.len() == 18);
    }

    /// With every optional field absent, the mandatory fields are written
    /// and nothing else.
    pub proof fn lemma_mandatory_fields_alone(community: JsonTree, mod_hide_community: JsonTree)
        ensures
            Self::members(None, community, mod_hide_community) == Seq::<Member>::empty()
                .push(("community"@, community))
                .push(("mod_hide_community"@, mod_hide_community)),
    {
        reveal(with_field);
        reveal(with_optional);
    }
}

impl Payload for ModHideCommunityView {
    open spec fn tree(&self) -> JsonTree {
        JsonTree::Object(
            Self::members(
                written(self.admin),
                self.community.tree(),
                self.mod_hide_community.tree(),
            ),
        )
    }

    open spec fn admits(t: JsonTree) -> bool {
        &&& t is Object
        &&& optional_admits::<Person>(t, "admin"@)
        &&& required_admits::<Community>(t, "community"@)
        &&& required_admits::<ModHideCommunity>(t, "mod_hide_community"@)
    }

    open spec fn agrees(&self, t: JsonTree) -> bool {
        &&& optional_agrees(self.admin, t, "admin"@)
        &&& required_agrees(self.community, t, "community"@)
        &&& required_agrees(self.mod_hide_community, t, "mod_hide_community"@)
    }

    fn to_json(&self) -> (out: JsonValue) {
        let mut members: Vec<(String, JsonValue)> = Vec::new();
        assert(members_view(members@) =~= Seq::empty());
        put_optional(&mut members, "admin", &self.admin);
        put(&mut members, "community", &self.community);
        put(&mut members, "mod_hide_community", &self.mod_hide_community);
        object(members)
    }

    fn from_json(v: &JsonValue) -> (res: Option<Self>) {
        if !v.is_object() {
            return None;
        }
        let admin = optional::<Person>(v, "admin")?;
        let community = required::<Community>(v, "community")?;
        let mod_hide_community = required::<ModHideCommunity>(v, "mod_hide_community")?;
        Some(ModHideCommunityView { admin, community, mod_hide_community })
    }

    proof fn lemma_round_trip(&self) {
        Self::lemma_members(
            written(self.admin),
            self.community.tree(),
            self.mod_hide_community.tree(),
        );
        lemma_optional_round_trip(self.admin);
        self.community.lemma_round_trip();
        self.mod_hide_community.lemma_round_trip();
    }

    proof fn lemma_reads_one(&self, other: &Self, t: JsonTree) {
        lemma_optional_reads_one(self.admin, other.admin, t, "admin"@);
        lemma_required_reads_one(self.community, other.community, t, "community"@);
        lemma_required_reads_one(
            self.mod_hide_community,
            other.mod_hide_community,
            t,
            "mod_hide_community"@,
        );
    }
}

#[derive(Clone, Debug, PartialEq, Default)]
pub struct ModJoin {
    pub community_id: i32,
}

impl ModJoin {
    /// The members that a record is written as, from what is written for
    /// each of its fields.
    pub open spec fn members(community_id: JsonTree) -> Seq<Member> {
        let members = Seq::empty();
        let members = with_field(members, "community_id"@, community_id);
        members
    }

    /// Each key leads to what was written under it, and to nothing where
    /// nothing was written.
    pub proof fn lemma_members(community_id: JsonTree)
        ensures
            ({
                let members = Self::members(community_id);
                &&& lookup(members, "community_id"@) == Some(community_id)
            }),
    {
        broadcast use group_written_members;

        reveal_strlit("community_id");
        assert("community_id"@.len() == 12);
    }

    /// Every field is mandatory: each is written, in order, and nothing
    /// else.
    pub proof fn lemma_mandatory_fields_alone(community_id: JsonTree)
        ensures
            Self::members(community_id) == Seq::<Member>::empty()
                .push(("community_id"@, community_id)),
    {
        reveal(with_field);
        reveal(with_optional);
    }
}

impl Payload for ModJoin {
    open spec fn tree(&self) -> JsonTree {
        JsonTree::Object(Self::members(self.community_id.tree()))
    }

    open spec fn admits(t: JsonTree) -> bool {
        &&& t is Object
        &&& required_admits::<i32>(t, "community_id"@)
    }

    open spec fn agrees(&self, t: JsonTree) -> bool {
        &&& required_agrees(self.community_id, t, "community_id"@)
    }

    fn to_json(&self) -> (out: JsonValue) {
        let mut members: Vec<(String, JsonValue)> = Vec::new();
        assert(members_view(members@) =~= Seq::empty());
        put(&mut members, "community_id", &self.community_id);
        object(members)
    }

    fn from_json(v: &JsonValue) -> (res: Option<Self>) {
        if !v.is_object() {
            return None;
        }
        let community_id = required::<i32>(v, "community_id")?;
        Some(ModJoin { community_id })
    }

    proof fn lemma_round_trip(&self) {
        Self::lemma_members(self.community_id.tree());
        self.community_id.lemma_round_trip();
    }

    proof fn lemma_reads_one(&self, other: &Self, t: JsonTree) {
        lemma_required_reads_one(self.community_id, other.community_id, t, "community_id"@);
    }
}

#[derive(Clone, Debug, PartialEq, Default)]
pub struct ModJoinResponse {
    pub joined: bool,
}

impl ModJoinResponse {
    /// The members that a record is written as, from what is written for
    /// each of its fields.
    pub open spec fn members(joined: JsonTree) -> Seq<Member> {
        let members = Seq::empty();
        let members = with_field(members, "joined"@, joined);
        members
    }

    /// Each key leads to what was written under it, and to nothing where
    /// nothing was written.
    pub proof fn lemma_members(joined: JsonTree)
        ensures
            ({
                let members = Self::members(joined);
                &&& lookup(members, "joined"@) == Some(joined)
            }),
    {
        broadcast use group_written_members;

        reveal_strlit("joined");
        assert("joined"@.len() == 6);
    }

    /// Every field is mandatory: each is written, in order, and nothing
    /// else.
    pub proof fn lemma_mandatory_fields_alone(joined: JsonTree)
        ensures
            Self::members(joined) == Seq::<Member>::empty()
                .push(("joined"@, joined)),
    {
        reveal(with_field);
        reveal(with_optional);
    }
}

impl Payload for ModJoinResponse {
    open spec fn tree(&self) -> JsonTree {
        JsonTree::Object(Self::members(self.joined.tree()))
    }

    open spec fn admits(t: JsonTree) -> bool {
        &&& t is Object
        &&& required_admits::<bool>(t, "joined"@)
    }

    open spec fn agrees(&self, t: JsonTree) -> bool {
        &&& required_agrees(self.joined, t, "joined"@)
    }

    fn to_json(&self) -> (out: JsonValue) {
        let mut members: Vec<(String, JsonValue)> = Vec::new();
        assert(members_view(members@) =~= Seq::empty());
        put(&mut members, "joined", &self.joined);
        object(members)
    }

    fn from_json(v: &JsonValue) -> (res: Option<Self>) {
        if !v.is_object() {
            return None;
        }
        let joined = required::<bool>(v, "joined")?;
        Some(ModJoinResponse { joined })
    }

    proof fn lemma_round_trip(&self) {
        Self::lemma_members(self.joined.tree());
        self.joined.lemma_round_trip();
    }

    proof fn lemma_reads_one(&self, other: &Self, t: JsonTree) {
        lemma_required_reads_one(self.joined, other.joined, t, "joined"@);
    }
}

#[derive(Clone, Debug, PartialEq, Default)]
pub struct ModLockPost {
    pub id: i32,
    pub locked: bool,
    pub mod_person_id: i32,
    pub post_id: i32,
    pub when_: String,
}

impl ModLockPost {
    /// The members that a record is written as, from what is written for
    /// each of its fields.
    pub open spec fn members(
        id: JsonTree,
        locked: JsonTree,
        mod_person_id: JsonTree,
        post_id: JsonTree,
        when_: JsonTree,
    ) -> Seq<Member> {
        let members = Seq::empty();
        let members = with_field(members, "id"@, id);
        let members = with_field(members, "locked"@, locked);
        let members = with_field(members, "mod_person_id"@, mod_person_id);
        let members = with_field(members, "post_id"@, post_id);
        let members = with_field(members, "when_"@, when_);
        members
    }

    /// Each key leads to what was written under it, and to nothing where
    /// nothing was written.
    pub proof fn lemma_members(
        id: JsonTree,
        locked: JsonTree,
        mod_person_id: JsonTree,
        post_id: JsonTree,
        when_: JsonTree,
    )
        ensures
            ({
                let members = Self::members(id, locked, mod_person_id, post_id, when_);
                &&& lookup(members, "id"@) == Some(id)
                &&& lookup(members, "locked"@) == Some(locked)
                &&& lookup(members, "mod_person_id"@) == Some(mod_person_id)
                &&& lookup(members, "post_id"@) == Some(post_id)
                &&& lookup(members, "when_"@) == Some(when_)
            }),
    {
        broadcast use group_written_members;

        reveal_strlit("id");
        reveal_strlit("locked");
        reveal_strlit("mod_person_id");
        reveal_strlit("post_id");
        reveal_strlit("when_");
        assert("id"@.len() == 2);
        assert("locked"@.len() == 6);
        assert("mod_person_id"@.len() == 13);
        assert("post_id"@.len() == 7);
        assert("when_"@.len() == 5);
    }

    /// Every field is mandatory: each is written, in order, and nothing
    /// else.
    pub proof fn lemma_mandatory_fields_alone(
        id: JsonTree,
        locked: JsonTree,
        mod_person_id: JsonTree,
        post_id: JsonTree,
        when_: JsonTree,
    )
        ensures
            Self::members(id, locked, mod_person_id, post_id, when_) == Seq::<Member>::empty()
                .push(("id"@, id))
                .push(("locked"@, locked))
                .push(("mod_person_id"@, mod_person_id))
                .push(("post_id"@, post_id))
                .push(("when_"@, when_)),
    {
        reveal(with_field);
        reveal(with_optional);
    }
}

impl Payload for ModLockPost {
    open spec fn tree(&self) -> JsonTree {
        JsonTree::Object(
            Self::members(
                self.id.tree(),
                self.locked.tree(),
                self.mod_person_id.tree(),
                self.post_id.tree(),
                self.when_.tree(),
            ),
        )
    }

    open spec fn admits(t: JsonTree) -> bool {
        &&& t is Object
        &&& required_admits::<i32>(t, "id"@)
        &&& required_admits::<bool>(t, "locked"@)
        &&& required_admits::<i32>(t, "mod_person_id"@)
        &&& required_admits::<i32>(t, "post_id"@)
        &&& required_admits::<String>(t, "when_"@)
    }

    open spec fn agrees(&self, t: JsonTree) -> bool {
        &&& required_agrees(self.id, t, "id"@)
        &&& required_agrees(self.locked, t, "locked"@)
        &&& required_agrees(self.mod_person_id, t, "mod_person_id"@)
        &&& required_agrees(self.post_id, t, "post_id"@)
        &&& required_agrees(self.when_, t, "when_"@)
    }

    fn to_json(&self) -> (out: JsonValue) {
        let mut members: Vec<(String, JsonValue)> = Vec::new();
        assert(members_view(members@) =~= Seq::empty());
        put(&mut members, "id", &self.id);
        put(&mut members, "locked", &self.locked);
        put(&mut members, "mod_person_id", &self.mod_person_id);
        put(&mut members, "post_id", &self.post_id);
        put(&mut members, "when_", &self.when_);
        object(members)
    }

    fn from_json(v: &JsonValue) -> (res: Option<Self>) {
        if !v.is_object() {
            return None;
        }
        let id = required::<i32>(v, "id")?;
        let locked = required::<bool>(v, "locked")?;
        let mod_person_id = required::<i32>(v, "mod_person_id")?;
        let post_id = required::<i32>(v, "post_id")?;
        let when_ = required::<String>(v, "when_")?;
        Some(ModLockPost { id, locked, mod_person_id, post_id, when_ })
    }

    proof fn lemma_round_trip(&self) {
        Self::lemma_members(
            self.id.tree(),
            self.locked.tree(),
            self.mod_person_id.tree(),
            self.post_id.tree(),
            self.when_.tree(),
        );
        self.id.lemma_round_trip();
        self.locked.lemma_round_trip();
        self.mod_person_id.lemma_round_trip();
        self.post_id.lemma_round_trip();
        self.when_.lemma_round_trip();
    }

    proof fn lemma_reads_one(&self, other: &Self, t: JsonTree) {
        lemma_required_reads_one(self.id, other.id, t, "id"@);
        lemma_required_reads_one(self.locked, other.locked, t, "locked"@);
        lemma_required_reads_one(self.mod_person_id, other.mod_person_id, t, "mod_person_id"@);
        lemma_required_reads_one(self.post_id, other.post_id, t, "post_id"@);
        lemma_required_reads_one(self.when_, other.when_, t, "when_"@);
    }
}

#[derive(Clone, Debug, PartialEq, Default)]
pub struct ModLockPostView {
    pub community: Community,
    pub mod_lock_post: ModLockPost,
    pub moderator: Option<Person>,
    pub post: Post,
}

impl ModLockPostView {
    /// The members that a record is written as, from what is written for
    /// each of its fields.
    pub open spec fn members(
        community: JsonTree,
        mod_lock_post: JsonTree,
        moderator: Option<JsonTree>,
        post: JsonTree,
    ) -> Seq<Member> {
        let members = Seq::empty();
        let members = with_field(members, "community"@, community);
        let members = with_field(members, "mod_lock_post"@, mod_lock_post);
        let members = with_optional(members, "moderator"@, moderator);
        let members = with_field(members, "post"@, post);
        members
    }

    /// Each key leads to what was written under it, and to nothing where
    /// nothing was written.
    pub proof fn lemma_members(
        community: JsonTree,
        mod_lock_post: JsonTree,
        moderator: Option<JsonTree>,
        post: JsonTree,
    )
        ensures
            ({
                let members = Self::members(community, mod_lock_post, moderator, post);
                &&& lookup(members, "community"@) == Some(community)
                &&& lookup(members, "mod_lock_post"@) == Some(mod_lock_post)
                &&& lookup(members, "moderator"@) == moderator
                &&& lookup(members, "post"@) == Some(post)
            }),
    {
        broadcast use group_written_members;

        reveal_strlit("community");
        reveal_strlit("mod_lock_post");
        reveal_strlit("moderator");
        reveal_strlit("post");
        assert("community"@.len() == 9 && "community"@[0] == 'c');
        assert("mod_lock_post"@.len() == 13);
        assert("moderator"@.len() == 9 && "moderator"@[0] == 'm');
        assert("post"@.len() == 4);
    }

    /// With every optional field absent, the mandatory fields are written
    /// and nothing else.
    pub proof fn lemma_mandatory_fields_alone(
        community: JsonTree,
        mod_lock_post: JsonTree,
        post: JsonTree,
    )
        ensures
            Self::members(community, mod_lock_post, None, post) == Seq::<Member>::empty()
                .push(("community"@, community))
                .push(("mod_lock_post"@, mod_lock_post))
                .push(("post"@, post)),
    {
        reveal(with_field);
        reveal(with_optional);
    }
}

impl Payload for ModLockPostView {
    open spec fn tree(&self) -> JsonTree {
        JsonTree::Object(
            Self::members(
                self.community.tree(),
                self.mod_lock_post.tree(),
                written(self.moderator),
                self.post.tree(),
            ),
        )
    }

    open spec fn admits(t: JsonTree) -> bool {
        &&& t is Object
        &&& required_admits::<Community>(t, "community"@)
        &&& required_admits::<ModLockPost>(t, "mod_lock_post"@)
        &&& optional_admits::<Person>(t, "moderator"@)
        &&& required_admits::<Post>(t, "post"@)
    }

    open spec fn agrees(&self, t: JsonTree) -> bool {
        &&& required_agrees(self.community, t, "community"@)
        &&& required_agrees(self.mod_lock_post, t, "mod_lock_post"@)
        &&& optional_agrees(self.moderator, t, "moderator"@)
        &&& required_agrees(self.post, t, "post"@)
    }

    fn to_json(&self) -> (out: JsonValue) {
        let mut members: Vec<(String, JsonValue)> = Vec::new();
        assert(members_view(members@) =~= Seq::empty());
        put(&mut members, "community", &self.community);
        put(&mut members, "mod_lock_post", &self.mod_lock_post);
        put_optional(&mut members, "moderator", &self.moderator);
        put(&mut members, "post", &self.post);
        object(members)
    }

    fn from_json(v: &JsonValue) -> (res: Option<Self>) {
        if !v.is_object() {
            return None;
        }
        let community = required::<Community>(v, "community")?;
        let mod_lock_post = required::<ModLockPost>(v, "mod_lock_post")?;
        let moderator = optional::<Person>(v, "moderator")?;
        let post = required::<Post>(v, "post")?;
        Some(ModLockPostView { community, mod_lock_post, moderator, post })
    }

    proof fn lemma_round_trip(&self) {
        Self::lemma_members(
            self.community.tree(),
            self.mod_lock_post.tree(),
            written(self.moderator),
            self.post.tree(),
        );
        self.community.lemma_round_trip();
        self.mod_lock_post.lemma_round_trip();
        lemma_optional_round_trip(self.moderator);
        self.post.lemma_round_trip();
    }

    proof fn lemma_reads_one(&self, other: &Self, t: JsonTree) {
        lemma_required_reads_one(self.community, other.community, t, "community"@);
        lemma_required_reads_one(self.mod_lock_post, other.mod_lock_post, t, "mod_lock_post"@);
        lemma_optional_reads_one(self.moderator, other.moderator, t, "moderator"@);
        lemma_required_reads_one(self.post, other.post, t, "post"@);
    }
}

#[derive(Clone, Debug, PartialEq, Default)]
pub struct ModRemoveComment {
    pub comment_id: i32,
    pub id: i32,
    pub mod_person_id: i32,
    pub reason: Option<String>,
    pub removed: bool,
    pub when_: String,
}

impl ModRemoveComment {
    /// The members that a record is written as, from what is written for
    /// each of its fields.
    pub open spec fn members(
        comment_id: JsonTree,
        id: JsonTree,
        mod_person_id: JsonTree,
        reason: Option<JsonTree>,
        removed: JsonTree,
        when_: JsonTree,
    ) -> Seq<Member> {
        let members = Seq::empty();
        let members = with_field(members, "comment_id"@, comment_id);
        let members = with_field(members, "id"@, id);
        let members = with_field(members, "mod_person_id"@, mod_person_id);
        let members = with_optional(members, "reason"@, reason);
        let members = with_field(members, "removed"@, removed);
        let members = with_field(members, "when_"@, when_);
        members
    }

    /// Each key leads to what was written under it, and to nothing where
    /// nothing was written.
    pub proof fn lemma_members(
        comment_id: JsonTree,
        id: JsonTree,
        mod_person_id: JsonTree,
        reason: Option<JsonTree>,
        removed: JsonTree,
        when_: JsonTree,
    )
        ensures
            ({
                let members = Self::members(comment_id, id, mod_person_id, reason, removed, when_);
                &&& lookup(members, "comment_id"@) == Some(comment_id)
                &&& lookup(members, "id"@) == Some(id)
                &&& lookup(members, "mod_person_id"@) == Some(mod_person_id)
                &&& lookup(members, "reason"@) == reason
                &&& lookup(members, "removed"@) == Some(removed)
                &&& lookup(members, "when_"@) == Some(when_)
            }),
    {
        broadcast use group_written_members;

        reveal_strlit("comment_id");
        reveal_strlit("id");
        reveal_strlit("mod_person_id");
        reveal_strlit("reason");
        reveal_strlit("removed");
        reveal_strlit("when_");
        assert("comment_id"@.len() == 10);
        assert("id"@.len() == 2);
        assert("mod_person_id"@.len() == 13);
        assert("reason"@.len() == 6);
        assert("removed"@.len() == 7);
        assert("when_"@.len() == 5);
    }

    /// With every optional field absent, the mandatory fields are written
    /// and nothing else.
    pub proof fn lemma_mandatory_fields_alone(
        comment_id: JsonTree,
        id: JsonTree,
        mod_person_id: JsonTree,
        removed: JsonTree,
        when_: JsonTree,
    )
        ensures
            Self::members(
                comment_id,
                id,
                mod_person_id,
                None,
                removed,
                when_,
            ) == Seq::<Member>::empty()
                .push(("comment_id"@, comment_id))
                .push(("id"@, id))
                .push(("mod_person_id"@, mod_person_id))
                .push(("removed"@, removed))
                .push(("when_"@, when_)),
    {
        reveal(with_field);
        reveal(with_optional);
    }
}

impl Payload for ModRemoveComment {
    open spec fn tree(&self) -> JsonTree {
        JsonTree::Object(
            Self::members(
                self.comment_id.tree(),
                self.id.tree(),
                self.mod_person_id.tree(),
                written(self.reason),
                self.removed.tree(),
                self.when_.tree(),
            ),
        )
    }

    open spec fn admits(t: JsonTree) -> bool {
        &&& t is Object
        &&& required_admits::<i32>(t, "comment_id"@)
        &&& required_admits::<i32>(t, "id"@)
        &&& required_admits::<i32>(t, "mod_person_id"@)
        &&& optional_admits::<String>(t, "reason"@)
        &&& required_admits::<bool>(t, "removed"@)
        &&& required_admits::<String>(t, "when_"@)
    }

    open spec fn agrees(&self, t: JsonTree) -> bool {
        &&& required_agrees(self.comment_id, t, "comment_id"@)
        &&& required_agrees(self.id, t, "id"@)
        &&& required_agrees(self.mod_person_id, t, "mod_person_id"@)
        &&& optional_agrees(self.reason, t, "reason"@)
        &&& required_agrees(self.removed, t, "removed"@)
        &&& required_agrees(self.when_, t, "when_"@)
    }

    fn to_json(&self) -> (out: JsonValue) {
        let mut members: Vec<(String, JsonValue)> = Vec::new();
        assert(members_view(members@) =~= Seq::empty());
        put(&mut members, "comment_id", &self.comment_id);
        put(&mut members, "id", &self.id);
        put(&mut members, "mod_person_id", &self.mod_person_id);
        put_optional(&mut members, "reason", &self.reason);
        put(&mut members, "removed", &self.removed);
        put(&mut members, "when_", &self.when_);
        object(members)
    }

    fn from_json(v: &JsonValue) -> (res: Option<Self>) {
        if !v.is_object() {
            return None;
        }
        let comment_id = required::<i32>(v, "comment_id")?;
        let id = required::<i32>(v, "id")?;
        let mod_person_id = required::<i32>(v, "mod_person_id")?;
        let reason = optional::<String>(v, "reason")?;
        let removed = required::<bool>(v, "removed")?;
        let when_ = required::<String>(v, "when_")?;
        Some(ModRemoveComment { comment_id, id, mod_person_id, reason, removed, when_ })
    }

    proof fn lemma_round_trip(&self) {
        Self::lemma_members(
            self.comment_id.tree(),
            self.id.tree(),
            self.mod_person_id.tree(),
            written(self.reason),
            self.removed.tree(),
            self.when_.tree(),
        );
        self.comment_id.lemma_round_trip();
        self.id.lemma_round_trip();
        self.mod_person_id.lemma_round_trip();
        lemma_optional_round_trip(self.reason);
        self.removed.lemma_round_trip();
        self.when_.lemma_round_trip();
    }

    proof fn lemma_reads_one(&self, other: &Self, t: JsonTree) {
        lemma_required_reads_one(self.comment_id, other.comment_id, t, "comment_id"@);
        lemma_required_reads_one(self.id, other.id, t, "id"@);
        lemma_required_reads_one(self.mod_person_id, other.mod_person_id, t, "mod_person_id"@);
        lemma_optional_reads_one(self.reason, other.reason, t, "reason"@);
        lemma_required_reads_one(self.removed, other.removed, t, "removed"@);
        lemma_required_reads_one(self.when_, other.when_, t, "when_"@);
    }
}

#[derive(Clone, Debug, PartialEq, Default)]
pub struct ModRemoveCommentView {
    pub comment: Comment,
    pub commenter: Person,
    pub community: Community,
    pub mod_remove_comment: ModRemoveComment,
    pub moderator: Option<Person>,
    pub post: Post,
}

impl ModRemoveCommentView {
    /// The members that a record is written as, from what is written for
    /// each of its fields.
    pub open spec fn members(
        comment: JsonTree,
        commenter: JsonTree,
        community: JsonTree,
        mod_remove_comment: JsonTree,
        moderator: Option<JsonTree>,
        post: JsonTree,
    ) -> Seq<Member> {
        let members = Seq::empty();
        let members = with_field(members, "comment"@, comment);
        let members = with_field(members, "commenter"@, commenter);
        let members = with_field(members, "community"@, community);
        let members = with_field(members, "mod_remove_comment"@, mod_remove_comment);
        let members = with_optional(members, "moderator"@, moderator);
        let members = with_field(members, "post"@, post);
        members
    }

    /// Each key leads to what was written under it, and to nothing where
    /// nothing was written.
    pub proof fn lemma_members(
        comment: JsonTree,
        commenter: JsonTree,
        community: JsonTree,
        mod_remove_comment: JsonTree,
        moderator: Option<JsonTree>,
        post: JsonTree,
    )
        ensures
            ({
                let members = Self::members(
                    comment,
                    commenter,
                    community,
                    mod_remove_comment,
                    moderator,
                    post,
                );
                &&& lookup(members, "comment"@) == Some(comment)
                &&& lookup(members, "commenter"@) == Some(commenter)
                &&& lookup(members, "community"@) == Some(community)
                &&& lookup(members, "mod_remove_comment"@) == Some(mod_remove_comment)
                &&& lookup(members, "moderator"@) == moderator
                &&& lookup(members, "post"@) == Some(post)
            }),
    {
        broadcast use group_written_members;

        reveal_strlit("comment");
        reveal_strlit("commenter");
        reveal_strlit("community");
        reveal_strlit("mod_remove_comment");
        reveal_strlit("moderator");
        reveal_strlit("post");
        assert("comment"@.len() == 7);
        assert("commenter"@.len() == 9 && "commenter"@[0] == 'c' && "commenter"@[4] == 'e');
        assert("community"@.len() == 9 && "community"@[0] == 'c' && "community"@[4] == 'u');
        assert("mod_remove_comment"@.len() == 18);
        assert("moderator"@.len() == 9 && "moderator"@[0] == 'm');
        assert("post"@.len() == 4);
    }

    /// With every optional field absent, the mandatory fields are written
    /// and nothing else.
    pub proof fn lemma_mandatory_fields_alone(
        comment: JsonTree,
        commenter: JsonTree,
        community: JsonTree,
        mod_remove_comment: JsonTree,
        post: JsonTree,
    )
        ensures
            Self::members(
                comment,
                commenter,
                community,
                mod_remove_comment,
                None,
                post,
            ) == Seq::<Member>::empty()
                .push(("comment"@, comment))
                .push(("commenter"@, commenter))
                .push(("community"@, community))
                .push(("mod_remove_comment"@, mod_remove_comment))
                .push(("post"@, post)),
    {
        reveal(with_field);
        reveal(with_optional);
    }
}

impl Payload for ModRemoveCommentView {
    open spec fn tree(&self) -> JsonTree {
        JsonTree::Object(
            Self::members(
                self.comment.tree(),
                self.commenter.tree(),
                self.community.tree(),
                self.mod_remove_comment.tree(),
                written(self.moderator),
                self.post.tree(),
            ),
        )
    }

    open spec fn admits(t: JsonTree) -> bool {
        &&& t is Object
        &&& required_admits::<Comment>(t, "comment"@)
        &&& required_admits::<Person>(t, "commenter"@)
        &&& required_admits::<Community>(t, "community"@)
        &&& required_admits::<ModRemoveComment>(t, "mod_remove_comment"@)
        &&& optional_admits::<Person>(t, "moderator"@)
        &&& required_admits::<Post>(t, "post"@)
    }

    open spec fn agrees(&self, t: JsonTree) -> bool {
        &&& required_agrees(self.comment, t, "comment"@)
        &&& required_agrees(self.commenter, t, "commenter"@)
        &&& required_agrees(self.community, t, "community"@)
        &&& required_agrees(self.mod_remove_comment, t, "mod_remove_comment"@)
        &&& optional_agrees(self.moderator, t, "moderator"@)
        &&& required_agrees(self.post, t, "post"@)
    }

    fn to_json(&self) -> (out: JsonValue) {
        let mut members: Vec<(String, JsonValue)> = Vec::new();
        assert(members_view(members@) =~= Seq::empty());
        put(&mut members, "comment", &self.comment);
        put(&mut members, "commenter", &self.commenter);
        put(&mut members, "community", &self.community);
        put(&mut members, "mod_remove_comment", &self.mod_remove_comment);
        put_optional(&mut members, "moderator", &self.moderator);
        put(&mut members, "post", &self.post);
        object(members)
    }

    fn from_json(v: &JsonValue) -> (res: Option<Self>) {
        if !v.is_object() {
            return None;
        }
        let comment = required::<Comment>(v, "comment")?;
        let commenter = required::<Person>(v, "commenter")?;
        let community = required::<Community>(v, "community")?;
        let mod_remove_comment = required::<ModRemoveComment>(v, "mod_remove_comment")?;
        let moderator = optional::<Person>(v, "moderator")?;
        let post = required::<Post>(v, "post")?;
        Some(
            ModRemoveCommentView {
                comment,
                commenter,
                community,
                mod_remove_comment,
                moderator,
                post,
            },
        )
    }

    proof fn lemma_round_trip(&self) {
        Self::lemma_members(
            self.comment.tree(),
            self.commenter.tree(),
            self.community.tree(),
            self.mod_remove_comment.tree(),
            written(self.moderator),
            self.post.tree(),
        );
        self.comment.lemma_round_trip();
        self.commenter.lemma_round_trip();
        self.community.lemma_round_trip();
        self.mod_remove_comment.lemma_round_trip();
        lemma_optional_round_trip(self.moderator);
        self.post.lemma_round_trip();
    }

    proof fn lemma_reads_one(&self, other: &Self, t: JsonTree) {
        lemma_required_reads_one(self.comment, other.comment, t, "comment"@);
        lemma_required_reads_one(self.commenter, other.commenter, t, "commenter"@);
        lemma_required_reads_one(self.community, other.community, t, "community"@);
        lemma_required_reads_one(
            self.mod_remove_comment,
            other.mod_remove_comment,
            t,
            "mod_remove_comment"@,
        );
        lemma_optional_reads_one(self.moderator, other.moderator, t, "moderator"@);
        lemma_required_reads_one(self.post, other.post, t, "post"@);
    }
}

#[derive(Clone, Debug, PartialEq, Default)]
pub struct ModRemoveCommunity {
    pub community_id: i32,
    pub expires: Option<String>,
    pub id: i32,
    pub mod_person_id: i32,
    pub reason: Option<String>,
    pub removed: bool,
    pub when_: String,
}

impl ModRemoveCommunity {
    /// The members that a record is written as, from what is written for
    /// each of its fields.
    pub open spec fn members(
        community_id: JsonTree,
        expires: Option<JsonTree>,
        id: JsonTree,
        mod_person_id: JsonTree,
        reason: Option<JsonTree>,
        removed: JsonTree,
        when_: JsonTree,
    ) -> Seq<Member> {
        let members = Seq::empty();
        let members = with_field(members, "community_id"@, community_id);
        let members = with_optional(members, "expires"@, expires);
        let members = with_field(members, "id"@, id);
        let members = with_field(members, "mod_person_id"@, mod_person_id);
        let members = with_optional(members, "reason"@, reason);
        let members = with_field(members, "removed"@, removed);
        let members = with_field(members, "when_"@, when_);
        members
    }

    /// Each key leads to what was written under it, and to nothing where
    /// nothing was written.
    pub proof fn lemma_members(
        community_id: JsonTree,
        expires: Option<JsonTree>,
        id: JsonTree,
        mod_person_id: JsonTree,
        reason: Option<JsonTree>,
        removed: JsonTree,
        when_: JsonTree,
    )
        ensures
            ({
                let members = Self::members(
                    community_id,
                    expires,
                    id,
                    mod_person_id,
                    reason,
                    removed,
                    when_,
                );
                &&& lookup(members, "community_id"@) == Some(community_id)
                &&& lookup(members, "expires"@) == expires
                &&& lookup(members, "id"@) == Some(id)
                &&& lookup(members, "mod_person_id"@) == Some(mod_person_id)
                &&& lookup(members, "reason"@) == reason
                &&& lookup(members, "removed"@) == Some(removed)
                &&& lookup(members, "when_"@) == Some(when_)
            }),
    {
        broadcast use group_written_members;

        reveal_strlit("community_id");
        reveal_strlit("expires");
        reveal_strlit("id");
        reveal_strlit("mod_person_id");
        reveal_strlit("reason");
        reveal_strlit("removed");
        reveal_strlit("when_");
        assert("community_id"@.len() == 12);
        assert("expires"@.len() == 7 && "expires"@[0] == 'e');
        assert("id"@.len() == 2);
        assert("mod_person_id"@.len() == 13);
        assert("reason"@.len() == 6);
        assert("removed"@.len() == 7 && "removed"@[0] == 'r');
        assert("when_"@.len() == 5);
    }

    /// With every optional field absent, the mandatory fields are written
    /// and nothing else.
    pub proof fn lemma_mandatory_fields_alone(
        community_id: JsonTree,
        id: JsonTree,
        mod_person_id: JsonTree,
        removed: JsonTree,
        when_: JsonTree,
    )
        ensures
            Self::members(
                community_id,
                None,
                id,
                mod_person_id,
                None,
                removed,
                when_,
            ) == Seq::<Member>::empty()
                .push(("community_id"@, community_id))
                .push(("id"@, id))
                .push(("mod_person_id"@, mod_person_id))
                .push(("removed"@, removed))
                .push(("when_"@, when_)),
    {
        reveal(with_field);
        reveal(with_optional);
    }
}

impl Payload for ModRemoveCommunity {
    open spec fn tree(&self) -> JsonTree {
        JsonTree::Object(
            Self::members(
                self.community_id.tree(),
                written(self.expires),
                self.id.tree(),
                self.mod_person_id.tree(),
                written(self.reason),
                self.removed.tree(),
                self.when_.tree(),
            ),
        )
    }

    open spec fn admits(t: JsonTree) -> bool {
        &&& t is Object
        &&& required_admits::<i32>(t, "community_id"@)
        &&& optional_admits::<String>(t, "expires"@)
        &&& required_admits::<i32>(t, "id"@)
        &&& required_admits::<i32>(t, "mod_person_id"@)
        &&& optional_admits::<String>(t, "reason"@)
        &&& required_admits::<bool>(t, "removed"@)
        &&& required_admits::<String>(t, "when_"@)
    }

    open spec fn agrees(&self, t: JsonTree) -> bool {
        &&& required_agrees(self.community_id, t, "community_id"@)
        &&& optional_agrees(self.expires, t, "expires"@)
        &&& required_agrees(self.id, t, "id"@)
        &&& required_agrees(self.mod_person_id, t, "mod_person_id"@)
        &&& optional_agrees(self.reason, t, "reason"@)
        &&& required_agrees(self.removed, t, "removed"@)
        &&& required_agrees(self.when_, t, "when_"@)
    }

    fn to_json(&self) -> (out: JsonValue) {
        let mut members: Vec<(String, JsonValue)> = Vec::new();
        assert(members_view(members@) =~= Seq::empty());
        put(&mut members, "community_id", &self.community_id);
        put_optional(&mut members, "expires", &self.expires);
        put(&mut members, "id", &self.id);
        put(&mut members, "mod_person_id", &self.mod_person_id);
        put_optional(&mut members, "reason", &self.reason);
        put(&mut members, "removed", &self.removed);
        put(&mut members, "when_", &self.when_);
        object(members)
    }

    fn from_json(v: &JsonValue) -> (res: Option<Self>) {
        if !v.is_object() {
            return None;
        }
        let community_id = required::<i32>(v, "community_id")?;
        let expires = optional::<String>(v, "expires")?;
        let id = required::<i32>(v, "id")?;
        let mod_person_id = required::<i32>(v, "mod_person_id")?;
        let reason = optional::<String>(v, "reason")?;
        let removed = required::<bool>(v, "removed")?;
        let when_ = required::<String>(v, "when_")?;
        Some(
            ModRemoveCommunity {
                community_id,
                expires,
                id,
                mod_person_id,
                reason,
                removed,
                when_,
            },
        )
    }

    proof fn lemma_round_trip(&self) {
        Self::lemma_members(
            self.community_id.tree(),
            written(self.expires),
            self.id.tree(),
            self.mod_person_id.tree(),
            written(self.reason),
            self.removed.tree(),
            self.when_.tree(),
        );
        self.community_id.lemma_round_trip();
        lemma_optional_round_trip(self.expires);
        self.id.lemma_round_trip();
        self.mod_person_id.lemma_round_trip();
        lemma_optional_round_trip(self.reason);
        self.removed.lemma_round_trip();
        self.when_.lemma_round_trip();
    }

    proof fn lemma_reads_one(&self, other: &Self, t: JsonTree) {
        lemma_required_reads_one(self.community_id, other.community_id, t, "community_id"@);
        lemma_optional_reads_one(self.expires, other.expires, t, "expires"@);
        lemma_required_reads_one(self.id, other.id, t, "id"@);
        lemma_required_reads_one(self.mod_person_id, other.mod_person_id, t, "mod_person_id"@);
        lemma_optional_reads_one(self.reason, other.reason, t, "reason"@);
        lemma_required_reads_one(self.removed, other.removed, t, "removed"@);
        lemma_required_reads_one(self.when_, other.when_, t, "when_"@);
    }
}

#[derive(Clone, Debug, PartialEq, Default)]
pub struct ModRemoveCommunityView {
    pub community: Community,
    pub mod_remove_community: ModRemoveCommunity,
    pub moderator: Option<Person>,
}

impl ModRemoveCommunityView {
    /// The members that a record is written as, from what is written for
    /// each of its fields.
    pub open spec fn members(
        community: JsonTree,
        mod_remove_community: JsonTree,
        moderator: Option<JsonTree>,
    ) -> Seq<Member> {
        let members = Seq::empty();
        let members = with_field(members, "community"@, community);
        let members = with_field(members, "mod_remove_community"@, mod_remove_community);
        let members = with_optional(members, "moderator"@, moderator);
        members
    }

    /// Each key leads to what was written under it, and to nothing where
    /// nothing was written.
    pub proof fn lemma_members(
        community: JsonTree,
        mod_remove_community: JsonTree,
        moderator: Option<JsonTree>,
    )
        ensures
            ({
                let members = Self::members(community, mod_remove_community, moderator);
                &&& lookup(members, "community"@) == Some(community)
                &&& lookup(members, "mod_remove_community"@) == Some(mod_remove_community)
                &&& lookup(members, "moderator"@) == moderator
            }),
    {
        broadcast use group_written_members;

        reveal_strlit("community");
        reveal_strlit("mod_remove_community");
        reveal_strlit("moderator");
        assert("community"@.len() == 9 && "community"@[0] == 'c');
        assert("mod_remove_community"@.len() == 20);
        assert("moderator"@.len() == 9 && "moderator"@[0] == 'm');
    }

    /// With every optional field absent, the mandatory fields are written
    /// and nothing else.
    pub proof fn lemma_mandatory_fields_alone(community: JsonTree, mod_remove_community: JsonTree)
        ensures
            Self::members(community, mod_remove_community, None) == Seq::<Member>::empty()
                .push(("community"@, community))
                .push(("mod_remove_community"@, mod_remove_community)),
    {
        reveal(with_field);
        reveal(with_optional);
    }
}

impl Payload for ModRemoveCommunityView {
    open spec fn tree(&self) -> JsonTree {
        JsonTree::Object(
            Self::members(
                self.community.tree(),
                self.mod_remove_community.tree(),
                written(self.moderator),
            ),
        )
    }

    open spec fn admits(t: JsonTree) -> bool {
        &&& t is Object
        &&& required_admits::<Community>(t, "community"@)
        &&& required_admits::<ModRemoveCommunity>(t, "mod_remove_community"@)
        &&& optional_admits::<Person>(t, "moderator"@)
    }

    open spec fn agrees(&self, t: JsonTree) -> bool {
        &&& required_agrees(self.community, t, "community"@)
        &&& required_agrees(self.mod_remove_community, t, "mod_remove_community"@)
        &&& optional_agrees(self.moderator, t, "moderator"@)
    }

    fn to_json(&self) -> (out: JsonValue) {
        let mut members: Vec<(String, JsonValue)> = Vec::new();
        assert(members_view(members@) =~= Seq::empty());
        put(&mut members, "community", &self.community);
        put(&mut members, "mod_remove_community", &self.mod_remove_community);
        put_optional(&mut members, "moderator", &self.moderator);
        object(members)
    }

    fn from_json(v: &JsonValue) -> (res: Option<Self>) {
        if !v.is_object() {
            return None;
        }
        let community = required::<Community>(v, "community")?;
        let mod_remove_community = required::<ModRemoveCommunity>(v, "mod_remove_community")?;
        let moderator = optional::<Person>(v, "moderator")?;
        Some(ModRemoveCommunityView { community, mod_remove_community, moderator })
    }

    proof fn lemma_round_trip(&self) {
        Self::lemma_members(
            self.community.tree(),
            self.mod_remove_community.tree(),
            written(self.moderator),
        );
        self.community.lemma_round_trip();
        self.mod_remove_community.lemma_round_trip();
        lemma_optional_round_trip(self.moderator);
    }

    proof fn lemma_reads_one(&self, other: &Self, t: JsonTree) {
        lemma_required_reads_one(self.community, other.community, t, "community"@);
        lemma_required_reads_one(
            self.mod_remove_community,
            other.mod_remove_community,
            t,
            "mod_remove_community"@,
        );
        lemma_optional_reads_one(self.moderator, other.moderator, t, "moderator"@);
    }
}

#[derive(Clone, Debug, PartialEq, Default)]
pub struct ModRemovePost {
    pub id: i32,
    pub mod_person_id: i32,
    pub post_id: i32,
    pub reason: Option<String>,
    pub removed: bool,
    pub when_: String,
}

impl ModRemovePost {
    /// The members that a record is written as, from what is written for
    /// each of its fields.
    pub open spec fn members(
        id: JsonTree,
        mod_person_id: JsonTree,
        post_id: JsonTree,
        reason: Option<JsonTree>,
        removed: JsonTree,
        when_: JsonTree,
    ) -> Seq<Member> {
        let members = Seq::empty();
        let members = with_field(members, "id"@, id);
        let members = with_field(members, "mod_person_id"@, mod_person_id);
        let members = with_field(members, "post_id"@, post_id);
        let members = with_optional(members, "reason"@, reason);
        let members = with_field(members, "removed"@, removed);
        let members = with_field(members, "when_"@, when_);
        members
    }

    /// Each key leads to what was written under it, and to nothing where
    /// nothing was written.
    pub proof fn lemma_members(
        id: JsonTree,
        mod_person_id: JsonTree,
        post_id: JsonTree,
        reason: Option<JsonTree>,
        removed: JsonTree,
        when_: JsonTree,
    )
        ensures
            ({
                let members = Self::members(id, mod_person_id, post_id, reason, removed, when_);
                &&& lookup(members, "id"@) == Some(id)
                &&& lookup(members, "mod_person_id"@) == Some(mod_person_id)
                &&& lookup(members, "post_id"@) == Some(post_id)
                &&& lookup(members, "reason"@) == reason
                &&& lookup(members, "removed"@) == Some(removed)
                &&& lookup(members, "when_"@) == Some(when_)
            }),
    {
        broadcast use group_written_members;

        reveal_strlit("id");
        reveal_strlit("mod_person_id");
        reveal_strlit("post_id");
        reveal_strlit("reason");
        reveal_strlit("removed");
        reveal_strlit("when_");
        assert("id"@.len() == 2);
        assert("mod_person_id"@.len() == 13);
        assert("post_id"@.len() == 7 && "post_id"@[0] == 'p');
        assert("reason"@.len() == 6);
        assert("removed"@.len() == 7 && "removed"@[0] == 'r');
        assert("when_"@.len() == 5);
    }

    /// With every optional field absent, the mandatory fields are written
    /// and nothing else.
    pub proof fn lemma_mandatory_fields_alone(
        id: JsonTree,
        mod_person_id: JsonTree,
        post_id: JsonTree,
        removed: JsonTree,
        when_: JsonTree,
    )
        ensures
            Self::members(
                id,
                mod_person_id,
                post_id,
                None,
                removed,
                when_,
            ) == Seq::<Member>::empty()
                .push(("id"@, id))
                .push(("mod_person_id"@, mod_person_id))
                .push(("post_id"@, post_id))
                .push(("removed"@, removed))
                .push(("when_"@, when_)),
    {
        reveal(with_field);
        reveal(with_optional);
    }
}

impl Payload for ModRemovePost {
    open spec fn tree(&self) -> JsonTree {
        JsonTree::Object(
            Self::members(
                self.id.tree(),
                self.mod_person_id.tree(),
                self.post_id.tree(),
                written(self.reason),
                self.removed.tree(),
                self.when_.tree(),
            ),
        )
    }

    open spec fn admits(t: JsonTree) -> bool {
        &&& t is Object
        &&& required_admits::<i32>(t, "id"@)
        &&& required_admits::<i32>(t, "mod_person_id"@)
        &&& required_admits::<i32>(t, "post_id"@)
        &&& optional_admits::<String>(t, "reason"@)
        &&& required_admits::<bool>(t, "removed"@)
        &&& required_admits::<String>(t, "when_"@)
    }

    open spec fn agrees(&self, t: JsonTree) -> bool {
        &&& required_agrees(self.id, t, "id"@)
        &&& required_agrees(self.mod_person_id, t, "mod_person_id"@)
        &&& required_agrees(self.post_id, t, "post_id"@)
        &&& optional_agrees(self.reason, t, "reason"@)
        &&& required_agrees(self.removed, t, "removed"@)
        &&& required_agrees(self.when_, t, "when_"@)
    }

    fn to_json(&self) -> (out: JsonValue) {
        let mut members: Vec<(String, JsonValue)> = Vec::new();
        assert(members_view(members@) =~= Seq::empty());
        put(&mut members, "id", &self.id);
        put(&mut members, "mod_person_id", &self.mod_person_id);
        put(&mut members, "post_id", &self.post_id);
        put_optional(&mut members, "reason", &self.reason);
        put(&mut members, "removed", &self.removed);
        put(&mut members, "when_", &self.when_);
        object(members)
    }

    fn from_json(v: &JsonValue) -> (res: Option<Self>) {
        if !v.is_object() {
            return None;
        }
        let id = required::<i32>(v, "id")?;
        let mod_person_id = required::<i32>(v, "mod_person_id")?;
        let post_id = required::<i32>(v, "post_id")?;
        let reason = optional::<String>(v, "reason")?;
        let removed = required::<bool>(v, "removed")?;
        let when_ = required::<String>(v, "when_")?;
        Some(ModRemovePost { id, mod_person_id, post_id, reason, removed, when_ })
    }

    proof fn lemma_round_trip(&self) {
        Self::lemma_members(
            self.id.tree(),
            self.mod_person_id.tree(),
            self.post_id.tree(),
            written(self.reason),
            self.removed.tree(),
            self.when_.tree(),
        );
        self.id.lemma_round_trip();
        self.mod_person_id.lemma_round_trip();
        self.post_id.lemma_round_trip();
        lemma_optional_round_trip(self.reason);
        self.removed.lemma_round_trip();
        self.when_.lemma_round_trip();
    }

    proof fn lemma_reads_one(&self, other: &Self, t: JsonTree) {
        lemma_required_reads_one(self.id, other.id, t, "id"@);
        lemma_required_reads_one(self.mod_person_id, other.mod_person_id, t, "mod_person_id"@);
        lemma_required_reads_one(self.post_id, other.post_id, t, "post_id"@);
        lemma_optional_reads_one(self.reason, other.reason, t, "reason"@);
        lemma_required_reads_one(self.removed, other.removed, t, "removed"@);
        lemma_required_reads_one(self.when_, other.when_, t, "when_"@);
    }
}

#[derive(Clone, Debug, PartialEq, Default)]
pub struct ModRemovePostView {
    pub community: Community,
    pub mod_remove_post: ModRemovePost,
    pub moderator: Option<Person>,
    pub post: Post,
}

impl ModRemovePostView {
    /// The members that a record is written as, from what is written for
    /// each of its fields.
    pub open spec fn members(
        community: JsonTree,
        mod_remove_post: JsonTree,
        moderator: Option<JsonTree>,
        post: JsonTree,
    ) -> Seq<Member> {
        let members = Seq::empty();
        let members = with_field(members, "community"@, community);
        let members = with_field(members, "mod_remove_post"@, mod_remove_post);
        let members = with_optional(members, "moderator"@, moderator);
        let members = with_field(members, "post"@, post);
        members
    }

    /// Each key leads to what was written under it, and to nothing where
    /// nothing was written.
    pub proof fn lemma_members(
        community: JsonTree,
        mod_remove_post: JsonTree,
        moderator: Option<JsonTree>,
        post: JsonTree,
    )
        ensures
            ({
                let members = Self::members(community, mod_remove_post, moderator, post);
                &&& lookup(members, "community"@) == Some(community)
                &&& lookup(members, "mod_remove_post"@) == Some(mod_remove_post)
                &&& lookup(members, "moderator"@) == moderator
                &&& lookup(members, "post"@) == Some(post)
            }),
    {
        broadcast use group_written_members;

        reveal_strlit("community");
        reveal_strlit("mod_remove_post");
        reveal_strlit("moderator");
        reveal_strlit("post");
        assert("community"@.len() == 9 && "community"@[0] == 'c');
        assert("mod_remove_post"@.len() == 15);
        assert("moderator"@.len() == 9 && "moderator"@[0] == 'm');
        assert("post"@.len() == 4);
    }

    /// With every optional field absent, the mandatory fields are written
    /// and nothing else.
    pub proof fn lemma_mandatory_fields_alone(
        community: JsonTree,
        mod_remove_post: JsonTree,
        post: JsonTree,
    )
        ensures
            Self::members(community, mod_remove_post, None, post) == Seq::<Member>::empty()
                .push(("community"@, community))
                .push(("mod_remove_post"@, mod_remove_post))
                .push(("post"@, post)),
    {
        reveal(with_field);
        reveal(with_optional);
    }
}

impl Payload for ModRemovePostView {
    open spec fn tree(&self) -> JsonTree {
        JsonTree::Object(
            Self::members(
                self.community.tree(),
                self.mod_remove_post.tree(),
                written(self.moderator),
                self.post.tree(),
            ),
        )
    }

    open spec fn admits(t: JsonTree) -> bool {
        &&& t is Object
        &&& required_admits::<Community>(t, "community"@)
        &&& required_admits::<ModRemovePost>(t, "mod_remove_post"@)
        &&& optional_admits::<Person>(t, "moderator"@)
        &&& required_admits::<Post>(t, "post"@)
    }

    open spec fn agrees(&self, t: JsonTree) -> bool {
        &&& required_agrees(self.community, t, "community"@)
        &&& required_agrees(self.mod_remove_post, t, "mod_remove_post"@)
        &&& optional_agrees(self.moderator, t, "moderator"@)
        &&& required_agrees(self.post, t, "post"@)
    }

    fn to_json(&self) -> (out: JsonValue) {
        let mut members: Vec<(String, JsonValue)> = Vec::new();
        assert(members_view(members@) =~= Seq::empty());
        put(&mut members, "community", &self.community);
        put(&mut members, "mod_remove_post", &self.mod_remove_post);
        put_optional(&mut members, "moderator", &self.moderator);
        put(&mut members, "post", &self.post);
        object(members)
    }

    fn from_json(v: &JsonValue) -> (res: Option<Self>) {
        if !v.is_object() {
            return None;
        }
        let community = required::<Community>(v, "community")?;
        let mod_remove_post = required::<ModRemovePost>(v, "mod_remove_post")?;
        let moderator = optional::<Person>(v, "moderator")?;
        let post = required::<Post>(v, "post")?;
        Some(ModRemovePostView { community, mod_remove_post, moderator, post })
    }

    proof fn lemma_round_trip(&self) {
        Self::lemma_members(
            self.community.tree(),
            self.mod_remove_post.tree(),
            written(self.moderator),
            self.post.tree(),
        );
        self.community.lemma_round_trip();
        self.mod_remove_post.lemma_round_trip();
        lemma_optional_round_trip(self.moderator);
        self.post.lemma_round_trip();
    }

    proof fn lemma_reads_one(&self, other: &Self, t: JsonTree) {
        lemma_required_reads_one(self.community, other.community, t, "community"@);
        lemma_required_reads_one(
            self.mod_remove_post,
            other.mod_remove_post,
            t,
            "mod_remove_post"@,
        );
        lemma_optional_reads_one(self.moderator, other.moderator, t, "moderator"@);
        lemma_required_reads_one(self.post, other.post, t, "post"@);
    }
}

#[derive(Clone, Debug, PartialEq, Default)]
pub struct ModTransferCommunity {
    pub community_id: i32,
    pub id: i32,
    pub mod_person_id: i32,
    pub other_person_id: i32,
    pub when_: String,
}

impl ModTransferCommunity {
    /// The members that a record is written as, from what is written for
    /// each of its fields.
    pub open spec fn members(
        community_id: JsonTree,
        id: JsonTree,
        mod_person_id: JsonTree,
        other_person_id: JsonTree,
        when_: JsonTree,
    ) -> Seq<Member> {
        let members = Seq::empty();
        let members = with_field(members, "community_id"@, community_id);
        let members = with_field(members, "id"@, id);
        let members = with_field(members, "mod_person_id"@, mod_person_id);
        let members = with_field(members, "other_person_id"@, other_person_id);
        let members = with_field(members, "when_"@, when_);
        members
    }

    /// Each key leads to what was written under it, and to nothing where
    /// nothing was written.
    pub proof fn lemma_members(
        community_id: JsonTree,
        id: JsonTree,
        mod_person_id: JsonTree,
        other_person_id: JsonTree,
        when_: JsonTree,
    )
        ensures
            ({
                let members = Self::members(
                    community_id,
                    id,
                    mod_person_id,
                    other_person_id,
                    when_,
                );
                &&& lookup(members, "community_id"@) == Some(community_id)
                &&& lookup(members, "id"@) == Some(id)
                &&& lookup(members, "mod_person_id"@) == Some(mod_person_id)
                &&& lookup(members, "other_person_id"@) == Some(other_person_id)
                &&& lookup(members, "when_"@) == Some(when_)
            }),
    {
        broadcast use group_written_members;

        reveal_strlit("community_id");
        reveal_strlit("id");
        reveal_strlit("mod_person_id");
        reveal_strlit("other_person_id");
        reveal_strlit("when_");
        assert("community_id"@.len() == 12);
        assert("id"@.len() == 2);
        assert("mod_person_id"@.len() == 13);
        assert("other_person_id"@.len() == 15);
        assert("when_"@.len() == 5);
    }

    /// Every field is mandatory: each is written, in order, and nothing
    /// else.
    pub proof fn lemma_mandatory_fields_alone(
        community_id: JsonTree,
        id: JsonTree,
        mod_person_id: JsonTree,
        other_person_id: JsonTree,
        when_: JsonTree,
    )
        ensures
            Self::members(
                community_id,
                id,
                mod_person_id,
                other_person_id,
                when_,
            ) == Seq::<Member>::empty()
                .push(("community_id"@, community_id))
                .push(("id"@, id))
                .push(("mod_person_id"@, mod_person_id))
                .push(("other_person_id"@, other_person_id))
                .push(("when_"@, when_)),
    {
        reveal(with_field);
        reveal(with_optional);
    }
}

impl Payload for ModTransferCommunity {
    open spec fn tree(&self) -> JsonTree {
        JsonTree::Object(
            Self::members(
                self.community_id.tree(),
                self.id.tree(),
                self.mod_person_id.tree(),
                self.other_person_id.tree(),
                self.when_.tree(),
            ),
        )
    }

    open spec fn admits(t: JsonTree) -> bool {
        &&& t is Object
        &&& required_admits::<i32>(t, "community_id"@)
        &&& required_admits::<i32>(t, "id"@)
        &&& required_admits::<i32>(t, "mod_person_id"@)
        &&& required_admits::<i32>(t, "other_person_id"@)
        &&& required_admits::<String>(t, "when_"@)
    }

    open spec fn agrees(&self, t: JsonTree) -> bool {
        &&& required_agrees(self.community_id, t, "community_id"@)
        &&& required_agrees(self.id, t, "id"@)
        &&& required_agrees(self.mod_person_id, t, "mod_person_id"@)
        &&& required_agrees(self.other_person_id, t, "other_person_id"@)
        &&& required_agrees(self.when_, t, "when_"@)
    }

    fn to_json(&self) -> (out: JsonValue) {
        let mut members: Vec<(String, JsonValue)> = Vec::new();
        assert(members_view(members@) =~= Seq::empty());
        put(&mut members, "community_id", &self.community_id);
        put(&mut members, "id", &self.id);
        put(&mut members, "mod_person_id", &self.mod_person_id);
        put(&mut members, "other_person_id", &self.other_person_id);
        put(&mut members, "when_", &self.when_);
        object(members)
    }

    fn from_json(v: &JsonValue) -> (res: Option<Self>) {
        if !v.is_object() {
            return None;
        }
        let community_id = required::<i32>(v, "community_id")?;
        let id = required::<i32>(v, "id")?;
        let mod_person_id = required::<i32>(v, "mod_person_id")?;
        let other_person_id = required::<i32>(v, "other_person_id")?;
        let when_ = required::<String>(v, "when_")?;
        Some(ModTransferCommunity { community_id, id, mod_person_id, other_person_id, when_ })
    }

    proof fn lemma_round_trip(&self) {
        Self::lemma_members(
            self.community_id.tree(),
            self.id.tree(),
            self.mod_person_id.tree(),
            self.other_person_id.tree(),
            self.when_.tree(),
        );
        self.community_id.lemma_round_trip();
        self.id.lemma_round_trip();
        self.mod_person_id.lemma_round_trip();
        self.other_person_id.lemma_round_trip();
        self.when_.lemma_round_trip();
    }

    proof fn lemma_reads_one(&self, other: &Self, t: JsonTree) {
        lemma_required_reads_one(self.community_id, other.community_id, t, "community_id"@);
        lemma_required_reads_one(self.id, other.id, t, "id"@);
        lemma_required_reads_one(self.mod_person_id, other.mod_person_id, t, "mod_person_id"@);
        lemma_required_reads_one(
            self.other_person_id,
            other.other_person_id,
            t,
            "other_person_id"@,
        );
        lemma_required_reads_one(self.when_, other.when_, t, "when_"@);
    }
}

#[derive(Clone, Debug, PartialEq, Default)]
pub struct ModTransferCommunityView {
    pub community: Community,
    pub mod_transfer_community: ModTransferCommunity,
    pub modded_person: Person,
    pub moderator: Option<Person>,
}

impl ModTransferCommunityView {
    /// The members that a record is written as, from what is written for
    /// each of its fields.
    pub open spec fn members(
        community: JsonTree,
        mod_transfer_community: JsonTree,
        modded_person: JsonTree,
        moderator: Option<JsonTree>,
    ) -> Seq<Member> {
        let members = Seq::empty();
        let members = with_field(members, "community"@, community);
        let members = with_field(members, "mod_transfer_community"@, mod_transfer_community);
        let members = with_field(members, "modded_person"@, modded_person);
        let members = with_optional(members, "moderator"@, moderator);
        members
    }

    /// Each key leads to what was written under it, and to nothing where
    /// nothing was written.
    pub proof fn lemma_members(
        community: JsonTree,
        mod_transfer_community: JsonTree,
        modded_person: JsonTree,
        moderator: Option<JsonTree>,
    )
        ensures
            ({
                let members = Self::members(
                    community,
                    mod_transfer_community,
                    modded_person,
                    moderator,
                );
                &&& lookup(members, "community"@) == Some(community)
                &&& lookup(members, "mod_transfer_community"@) == Some(mod_transfer_community)
                &&& lookup(members, "modded_person"@) == Some(modded_person)
                &&& lookup(members, "moderator"@) == moderator
            }),
    {
        broadcast use group_written_members;

        reveal_strlit("community");
        reveal_strlit("mod_transfer_community");
        reveal_strlit("modded_person");
        reveal_strlit("moderator");
        assert("community"@.len() == 9 && "community"@[0] == 'c');
        assert("mod_transfer_community"@.len() == 22);
        assert("modded_person"@.len() == 13);
        assert("moderator"@.len() == 9 && "moderator"@[0] == 'm');
    }

    /// With every optional field absent, the mandatory fields are written
    /// and nothing else.
    pub proof fn lemma_mandatory_fields_alone(
        community: JsonTree,
        mod_transfer_community: JsonTree,
        modded_person: JsonTree,
    )
        ensures
            Self::members(
                community,
                mod_transfer_community,
                modded_person,
                None,
            ) == Seq::<Member>::empty()
                .push(("community"@, community))
                .push(("mod_transfer_community"@, mod_transfer_community))
                .push(("modded_person"@, modded_person)),
    {
        reveal(with_field);
        reveal(with_optional);
    }
}

impl Payload for ModTransferCommunityView {
    open spec fn tree(&self) -> JsonTree {
        JsonTree::Object(
            Self::members(
                self.community.tree(),
                self.mod_transfer_community.tree(),
                self.modded_person.tree(),
                written(self.moderator),
            ),
        )
    }

    open spec fn admits(t: JsonTree) -> bool {
        &&& t is Object
        &&& required_admits::<Community>(t, "community"@)
        &&& required_admits::<ModTransferCommunity>(t, "mod_transfer_community"@)
        &&& required_admits::<Person>(t, "modded_person"@)
        &&& optional_admits::<Person>(t, "moderator"@)
    }

    open spec fn agrees(&self, t: JsonTree) -> bool {
        &&& required_agrees(self.community, t, "community"@)
        &&& required_agrees(self.mod_transfer_community, t, "mod_transfer_community"@)
        &&& required_agrees(self.modded_person, t, "modded_person"@)
        &&& optional_agrees(self.moderator, t, "moderator"@)
    }

    fn to_json(&self) -> (out: JsonValue) {
        let mut members: Vec<(String, JsonValue)> = Vec::new();
        assert(members_view(members@) =~= Seq::empty());
        put(&mut members, "community", &self.community);
        put(&mut members, "mod_transfer_community", &self.mod_transfer_community);
        put(&mut members, "modded_person", &self.modded_person);
        put_optional(&mut members, "moderator", &self.moderator);
        object(members)
    }

    fn from_json(v: &JsonValue) -> (res: Option<Self>) {
        if !v.is_object() {
            return None;
        }
        let community = required::<Community>(v, "community")?;
        let mod_transfer_community = required::<ModTransferCommunity>(v, "mod_transfer_community")?;
        let modded_person = required::<Person>(v, "modded_person")?;
        let moderator = optional::<Person>(v, "moderator")?;
        Some(
            ModTransferCommunityView {
                community,
                mod_transfer_community,
                modded_person,
                moderator,
            },
        )
    }

    proof fn lemma_round_trip(&self) {
        Self::lemma_members(
            self.community.tree(),
            self.mod_transfer_community.tree(),
            self.modded_person.tree(),
            written(self.moderator),
        );
        self.community.lemma_round_trip();
        self.mod_transfer_community.lemma_round_trip();
        self.modded_person.lemma_round_trip();
        lemma_optional_round_trip(self.moderator);
    }

    proof fn lemma_reads_one(&self, other: &Self, t: JsonTree) {
        lemma_required_reads_one(self.community, other.community, t, "community"@);
        lemma_required_reads_one(
            self.mod_transfer_community,
            other.mod_transfer_community,
            t,
            "mod_transfer_community"@,
        );
        lemma_required_reads_one(self.modded_person, other.modded_person, t, "modded_person"@);
        lemma_optional_reads_one(self.moderator, other.moderator, t, "moderator"@);
    }
}

#[derive(Clone, Debug, PartialEq, Default)]
pub struct ModlogListParams {
    pub community_id: Option<i32>,
    pub hide_modlog_names: bool,
    pub limit: Option<i32>,
    pub mod_person_id: Option<i32>,
    pub other_person_id: Option<i32>,
    pub page: Option<i32>,
}

impl ModlogListParams {
    /// The members that a record is written as, from what is written for
    /// each of its fields.
    pub open spec fn members(
        community_id: Option<JsonTree>,
        hide_modlog_names: JsonTree,
        limit: Option<JsonTree>,
        mod_person_id: Option<JsonTree>,
        other_person_id: Option<JsonTree>,
        page: Option<JsonTree>,
    ) -> Seq<Member> {
        let members = Seq::empty();
        let members = with_optional(members, "community_id"@, community_id);
        let members = with_field(members, "hide_modlog_names"@, hide_modlog_names);
        let members = with_optional(members, "limit"@, limit);
        let members = with_optional(members, "mod_person_id"@, mod_person_id);
        let members = with_optional(members, "other_person_id"@, other_person_id);
        let members = with_optional(members, "page"@, page);
        members
    }

    /// Each key leads to what was written under it, and to nothing where
    /// nothing was written.
    pub proof fn lemma_members(
        community_id: Option<JsonTree>,
        hide_modlog_names: JsonTree,
        limit: Option<JsonTree>,
        mod_person_id: Option<JsonTree>,
        other_person_id: Option<JsonTree>,
        page: Option<JsonTree>,
    )
        ensures
            ({
                let members = Self::members(
                    community_id,
                    hide_modlog_names,
                    limit,
                    mod_person_id,
                    other_person_id,
                    page,
                );
                &&& lookup(members, "community_id"@) == community_id
                &&& lookup(members, "hide_modlog_names"@) == Some(hide_modlog_names)
                &&& lookup(members, "limit"@) == limit
                &&& lookup(members, "mod_person_id"@) == mod_person_id
                &&& lookup(members, "other_person_id"@) == other_person_id
                &&& lookup(members, "page"@) == page
            }),
    {
        broadcast use group_written_members;

        reveal_strlit("community_id");
        reveal_strlit("hide_modlog_names");
        reveal_strlit("limit");
        reveal_strlit("mod_person_id");
        reveal_strlit("other_person_id");
        reveal_strlit("page");
        assert("community_id"@.len() == 12);
        assert("hide_modlog_names"@.len() == 17);
        assert("limit"@.len() == 5);
        assert("mod_person_id"@.len() == 13);
        assert("other_person_id"@.len() == 15);
        assert("page"@.len() == 4);
    }

    /// With every optional field absent, the mandatory fields are written
    /// and nothing else.
    pub proof fn lemma_mandatory_fields_alone(hide_modlog_names: JsonTree)
        ensures
            Self::members(None, hide_modlog_names, None, None, None, None) == Seq::<Member>::empty()
                .push(("hide_modlog_names"@, hide_modlog_names)),
    {
        reveal(with_field);
        reveal(with_optional);
    }
}

impl Payload for ModlogListParams {
    open spec fn tree(&self) -> JsonTree {
        JsonTree::Object(
            Self::members(
                written(self.community_id),
                self.hide_modlog_names.tree(),
                written(self.limit),
                written(self.mod_person_id),
                written(self.other_person_id),
                written(self.page),
            ),
        )
    }

    open spec fn admits(t: JsonTree) -> bool {
        &&& t is Object
        &&& optional_admits::<i32>(t, "community_id"@)
        &&& required_admits::<bool>(t, "hide_modlog_names"@)
        &&& optional_admits::<i32>(t, "limit"@)
        &&& optional_admits::<i32>(t, "mod_person_id"@)
        &&& optional_admits::<i32>(t, "other_person_id"@)
        &&& optional_admits::<i32>(t, "page"@)
    }

    open spec fn agrees(&self, t: JsonTree) -> bool {
        &&& optional_agrees(self.community_id, t, "community_id"@)
        &&& required_agrees(self.hide_modlog_names, t, "hide_modlog_names"@)
        &&& optional_agrees(self.limit, t, "limit"@)
        &&& optional_agrees(self.mod_person_id, t, "mod_person_id"@)
        &&& optional_agrees(self.other_person_id, t, "other_person_id"@)
        &&& optional_agrees(self.page, t, "page"@)
    }

    fn to_json(&self) -> (out: JsonValue) {
        let mut members: Vec<(String, JsonValue)> = Vec::new();
        assert(members_view(members@) =~= Seq::empty());
        put_optional(&mut members, "community_id", &self.community_id);
        put(&mut members, "hide_modlog_names", &self.hide_modlog_names);
        put_optional(&mut members, "limit", &self.limit);
        put_optional(&mut members, "mod_person_id", &self.mod_person_id);
        put_optional(&mut members, "other_person_id", &self.other_person_id);
        put_optional(&mut members, "page", &self.page);
        object(members)
    }

    fn from_json(v: &JsonValue) -> (res: Option<Self>) {
        if !v.is_object() {
            return None;
        }
        let community_id = optional::<i32>(v, "community_id")?;
        let hide_modlog_names = required::<bool>(v, "hide_modlog_names")?;
        let limit = optional::<i32>(v, "limit")?;
        let mod_person_id = optional::<i32>(v, "mod_person_id")?;
        let other_person_id = optional::<i32>(v, "other_person_id")?;
        let page = optional::<i32>(v, "page")?;
        Some(
            ModlogListParams {
                community_id,
                hide_modlog_names,
                limit,
                mod_person_id,
                other_person_id,
                page,
            },
        )
    }

    proof fn lemma_round_trip(&self) {
        Self::lemma_members(
            written(self.community_id),
            self.hide_modlog_names.tree(),
            written(self.limit),
            written(self.mod_person_id),
            written(self.other_person_id),
            written(self.page),
        );
        lemma_optional_round_trip(self.community_id);
        self.hide_modlog_names.lemma_round_trip();
        lemma_optional_round_trip(self.limit);
        lemma_optional_round_trip(self.mod_person_id);
        lemma_optional_round_trip(self.other_person_id);
        lemma_optional_round_trip(self.page);
    }

    proof fn lemma_reads_one(&self, other: &Self, t: JsonTree) {
        lemma_optional_reads_one(self.community_id, other.community_id, t, "community_id"@);
        lemma_required_reads_one(
            self.hide_modlog_names,
            other.hide_modlog_names,
            t,
            "hide_modlog_names"@,
        );
        lemma_optional_reads_one(self.limit, other.limit, t, "limit"@);
        lemma_optional_reads_one(self.mod_person_id, other.mod_person_id, t, "mod_person_id"@);
        lemma_optional_reads_one(
            self.other_person_id,
            other.other_person_id,
            t,
            "other_person_id"@,
        );
        lemma_optional_reads_one(self.page, other.page, t, "page"@);
    }
}

} // verus!
