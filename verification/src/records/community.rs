//! Records of communities and of the requests that read and change them.

use vstd::prelude::*;
use crate::json::{lookup, JsonTree, JsonValue, Member};
use crate::payload::{
    group_written_members, lemma_optional_reads_one, lemma_optional_round_trip,
    lemma_required_reads_one, members_view, object, optional, optional_admits, optional_agrees,
    put, put_optional, required, required_admits, required_agrees, with_field, with_optional,
    written, Payload,
};
use crate::enums::{ListingType, SortType, SubscribedType};
use crate::records::person::{Person, PersonView};
use crate::records::site::{Site};

verus! {

#[derive(Clone, Debug, PartialEq, Default)]
pub struct AddModToCommunity {
    pub added: bool,
    pub auth: String,
    pub community_id: i32,
    pub person_id: i32,
}

impl AddModToCommunity {
    /// The members that a record is written as, from what is written for
    /// each of its fields.
    pub open spec fn members(
        added: JsonTree,
        auth: JsonTree,
        community_id: JsonTree,
        person_id: JsonTree,
    ) -> Seq<Member> {
        let members = Seq::empty();
        let members = with_field(members, "added"@, added);
        let members = with_field(members, "auth"@, auth);
        let members = with_field(members, "community_id"@, community_id);
        let members = with_field(members, "person_id"@, person_id);
        members
    }

    /// Each key leads to what was written under it, and to nothing where
    /// nothing was written.
    pub proof fn lemma_members(
        added: JsonTree,
        auth: JsonTree,
        community_id: JsonTree,
        person_id: JsonTree,
    )
        ensures
            ({
                let members = Self::members(added, auth, community_id, person_id);
                &&& lookup(members, "added"@) == Some(added)
                &&& lookup(members, "auth"@) == Some(auth)
                &&& lookup(members, "community_id"@) == Some(community_id)
                &&& lookup(members, "person_id"@) == Some(person_id)
            }),
    {
        broadcast use group_written_members;

        reveal_strlit("added");
        reveal_strlit("auth");
        reveal_strlit("community_id");
        reveal_strlit("person_id");
        assert("added"@.len() == 5);
        assert("auth"@.len() == 4);
        assert("community_id"@.len() == 12);
        assert("person_id"@.len() == 9);
    }

    /// Every field is mandatory: each is written, in order, and nothing
    /// else.
    pub proof fn lemma_mandatory_fields_alone(
        added: JsonTree,
        auth: JsonTree,
        community_id: JsonTree,
        person_id: JsonTree,
    )
        ensures
            Self::members(added, auth, community_id, person_id) == Seq::<Member>::empty()
                .push(("added"@, added))
                .push(("auth"@, auth))
                .push(("community_id"@, community_id))
                .push(("person_id"@, person_id)),
    {
        reveal(with_field);
        reveal(with_optional);
    }
}

impl Payload for AddModToCommunity {
    open spec fn tree(&self) -> JsonTree {
        JsonTree::Object(
            Self::members(
                self.added.tree(),
                self.auth.tree(),
                self.community_id.tree(),
                self.person_id.tree(),
            ),
        )
    }

    open spec fn admits(t: JsonTree) -> bool {
        &&& t is Object
        &&& required_admits::<bool>(t, "added"@)
        &&& required_admits::<String>(t, "auth"@)
        &&& required_admits::<i32>(t, "community_id"@)
        &&& required_admits::<i32>(t, "person_id"@)
    }

    open spec fn agrees(&self, t: JsonTree) -> bool {
        &&& required_agrees(self.added, t, "added"@)
        &&& required_agrees(self.auth, t, "auth"@)
        &&& required_agrees(self.community_id, t, "community_id"@)
        &&& required_agrees(self.person_id, t, "person_id"@)
    }

    fn to_json(&self) -> (out: JsonValue) {
        let mut members: Vec<(String, JsonValue)> = Vec::new();
        assert(members_view(members@) =~= Seq::empty());
        put(&mut members, "added", &self.added);
        put(&mut members, "auth", &self.auth);
        put(&mut members, "community_id", &self.community_id);
        put(&mut members, "person_id", &self.person_id);
        object(members)
    }

    fn from_json(v: &JsonValue) -> (res: Option<Self>) {
        if !v.is_object() {
            return None;
        }
        let added = required::<bool>(v, "added")?;
        let auth = required::<String>(v, "auth")?;
        let community_id = required::<i32>(v, "community_id")?;
        let person_id = required::<i32>(v, "person_id")?;
        Some(AddModToCommunity { added, auth, community_id, person_id })
    }

    proof fn lemma_round_trip(&self) {
        Self::lemma_members(
            self.added.tree(),
            self.auth.tree(),
            self.community_id.tree(),
            self.person_id.tree(),
        );
        self.added.lemma_round_trip();
        self.auth.lemma_round_trip();
        self.community_id.lemma_round_trip();
        self.person_id.lemma_round_trip();
    }

    proof fn lemma_reads_one(&self, other: &Self, t: JsonTree) {
        lemma_required_reads_one(self.added, other.added, t, "added"@);
        lemma_required_reads_one(self.auth, other.auth, t, "auth"@);
        lemma_required_reads_one(self.community_id, other.community_id, t, "community_id"@);
        lemma_required_reads_one(self.person_id, other.person_id, t, "person_id"@);
    }
}

#[derive(Clone, Debug, PartialEq, Default)]
pub struct AddModToCommunityResponse {
    pub community: CommunityModeratorView,
}

impl AddModToCommunityResponse {
    /// The members that a record is written as, from what is written for
    /// each of its fields.
    pub open spec fn members(community: JsonTree) -> Seq<Member> {
        let members = Seq::empty();
        let members = with_field(members, "community"@, community);
        members
    }

    /// Each key leads to what was written under it, and to nothing where
    /// nothing was written.
    pub proof fn lemma_members(community: JsonTree)
        ensures
            ({
                let members = Self::members(community);
                &&& lookup(members, "community"@) == Some(community)
            }),
    {
        broadcast use group_written_members;

        reveal_strlit("community");
        assert("community"@.len() == 9);
    }

    /// Every field is mandatory: each is written, in order, and nothing
    /// else.
    pub proof fn lemma_mandatory_fields_alone(community: JsonTree)
        ensures
            Self::members(community) == Seq::<Member>::empty()
                .push(("community"@, community)),
    {
        reveal(with_field);
        reveal(with_optional);
    }
}

impl Payload for AddModToCommunityResponse {
    open spec fn tree(&self) -> JsonTree {
        JsonTree::Object(Self::members(self.community.tree()))
    }

    open spec fn admits(t: JsonTree) -> bool {
        &&& t is Object
        &&& required_admits::<CommunityModeratorView>(t, "community"@)
    }

    open spec fn agrees(&self, t: JsonTree) -> bool {
        &&& required_agrees(self.community, t, "community"@)
    }

    fn to_json(&self) -> (out: JsonValue) {
        let mut members: Vec<(String, JsonValue)> = Vec::new();
        assert(members_view(members@) =~= Seq::empty());
        put(&mut members, "community", &self.community);
        object(members)
    }

    fn from_json(v: &JsonValue) -> (res: Option<Self>) {
        if !v.is_object() {
            return None;
        }
        let community = required::<CommunityModeratorView>(v, "community")?;
        Some(AddModToCommunityResponse { community })
    }

    proof fn lemma_round_trip(&self) {
        Self::lemma_members(self.community.tree());
        self.community.lemma_round_trip();
    }

    proof fn lemma_reads_one(&self, other: &Self, t: JsonTree) {
        lemma_required_reads_one(self.community, other.community, t, "community"@);
    }
}

#[derive(Clone, Debug, PartialEq, Default)]
pub struct BanFromCommunity {
    pub auth: String,
    pub ban: bool,
    pub community_id: i32,
    pub expires: Option<i32>,
    pub person_id: i32,
    pub reason: Option<String>,
    pub remove_data: Option<bool>,
}

impl BanFromCommunity {
    /// The members that a record is written as, from what is written for
    /// each of its fields.
    pub open spec fn members(
        auth: JsonTree,
        ban: JsonTree,
        community_id: JsonTree,
        expires: Option<JsonTree>,
        person_id: JsonTree,
        reason: Option<JsonTree>,
        remove_data: Option<JsonTree>,
    ) -> Seq<Member> {
        let members = Seq::empty();
        let members = with_field(members, "auth"@, auth);
        let members = with_field(members, "ban"@, ban);
        let members = with_field(members, "community_id"@, community_id);
        let members = with_optional(members, "expires"@, expires);
        let members = with_field(members, "person_id"@, person_id);
        let members = with_optional(members, "reason"@, reason);
        let members = with_optional(members, "remove_data"@, remove_data);
        members
    }

    /// Each key leads to what was written under it, and to nothing where
    /// nothing was written.
    pub proof fn lemma_members(
        auth: JsonTree,
        ban: JsonTree,
        community_id: JsonTree,
        expires: Option<JsonTree>,
        person_id: JsonTree,
        reason: Option<JsonTree>,
        remove_data: Option<JsonTree>,
    )
        ensures
            ({
                let members = Self::members(
                    auth,
                    ban,
                    community_id,
                    expires,
                    person_id,
                    reason,
                    remove_data,
                );
                &&& lookup(members, "auth"@) == Some(auth)
                &&& lookup(members, "ban"@) == Some(ban)
                &&& lookup(members, "community_id"@) == Some(community_id)
                &&& lookup(members, "expires"@) == expires
                &&& lookup(members, "person_id"@) == Some(person_id)
                &&& lookup(members, "reason"@) == reason
                &&& lookup(members, "remove_data"@) == remove_data
            }),
    {
        broadcast use group_written_members;

        reveal_strlit("auth");
        reveal_strlit("ban");
        reveal_strlit("community_id");
        reveal_strlit("expires");
        reveal_strlit("person_id");
        reveal_strlit("reason");
        reveal_strlit("remove_data");
        assert("auth"@.len() == 4);
        assert("ban"@.len() == 3);
        assert("community_id"@.len() == 12);
        assert("expires"@.len() == 7);
        assert("person_id"@.len() == 9);
        assert("reason"@.len() == 6);
        assert("remove_data"@.len() == 11);
    }

    /// With every optional field absent, the mandatory fields are written
    /// and nothing else.
    pub proof fn lemma_mandatory_fields_alone(
        auth: JsonTree,
        ban: JsonTree,
        community_id: JsonTree,
        person_id: JsonTree,
    )
        ensures
            Self::members(
                auth,
                ban,
                community_id,
                None,
                person_id,
                None,
                None,
            ) == Seq::<Member>::empty()
                .push(("auth"@, auth))
                .push(("ban"@, ban))
                .push(("community_id"@, community_id))
                .push(("person_id"@, person_id)),
    {
        reveal(with_field);
        reveal(with_optional);
    }
}

impl Payload for BanFromCommunity {
    open spec fn tree(&self) -> JsonTree {
        JsonTree::Object(
            Self::members(
                self.auth.tree(),
                self.ban.tree(),
                self.community_id.tree(),
                written(self.expires),
                self.person_id.tree(),
                written(self.reason),
                written(self.remove_data),
            ),
        )
    }

    open spec fn admits(t: JsonTree) -> bool {
        &&& t is Object
        &&& required_admits::<String>(t, "auth"@)
        &&& required_admits::<bool>(t, "ban"@)
        &&& required_admits::<i32>(t, "community_id"@)
        &&& optional_admits::<i32>(t, "expires"@)
        &&& required_admits::<i32>(t, "person_id"@)
        &&& optional_admits::<String>(t, "reason"@)
        &&& optional_admits::<bool>(t, "remove_data"@)
    }

    open spec fn agrees(&self, t: JsonTree) -> bool {
        &&& required_agrees(self.auth, t, "auth"@)
        &&& required_agrees(self.ban, t, "ban"@)
        &&& required_agrees(self.community_id, t, "community_id"@)
        &&& optional_agrees(self.expires, t, "expires"@)
        &&& required_agrees(self.person_id, t, "person_id"@)
        &&& optional_agrees(self.reason, t, "reason"@)
        &&& optional_agrees(self.remove_data, t, "remove_data"@)
    }

    fn to_json(&self) -> (out: JsonValue) {
        let mut members: Vec<(String, JsonValue)> = Vec::new();
        assert(members_view(members@) =~= Seq::empty());
        put(&mut members, "auth", &self.auth);
        put(&mut members, "ban", &self.ban);
        put(&mut members, "community_id", &self.community_id);
        put_optional(&mut members, "expires", &self.expires);
        put(&mut members, "person_id", &self.person_id);
        put_optional(&mut members, "reason", &self.reason);
        put_optional(&mut members, "remove_data", &self.remove_data);
        object(members)
    }

    fn from_json(v: &JsonValue) -> (res: Option<Self>) {
        if !v.is_object() {
            return None;
        }
        let auth = required::<String>(v, "auth")?;
        let ban = required::<bool>(v, "ban")?;
        let community_id = required::<i32>(v, "community_id")?;
        let expires = optional::<i32>(v, "expires")?;
        let person_id = required::<i32>(v, "person_id")?;
        let reason = optional::<String>(v, "reason")?;
        let remove_data = optional::<bool>(v, "remove_data")?;
        Some(BanFromCommunity { auth, ban, community_id, expires, person_id, reason, remove_data })
    }

    proof fn lemma_round_trip(&self) {
        Self::lemma_members(
            self.auth.tree(),
            self.ban.tree(),
            self.community_id.tree(),
            written(self.expires),
            self.person_id.tree(),
            written(self.reason),
            written(self.remove_data),
        );
        self.auth.lemma_round_trip();
        self.ban.lemma_round_trip();
        self.community_id.lemma_round_trip();
        lemma_optional_round_trip(self.expires);
        self.person_id.lemma_round_trip();
        lemma_optional_round_trip(self.reason);
        lemma_optional_round_trip(self.remove_data);
    }

    proof fn lemma_reads_one(&self, other: &Self, t: JsonTree) {
        lemma_required_reads_one(self.auth, other.auth, t, "auth"@);
        lemma_required_reads_one(self.ban, other.ban, t, "ban"@);
        lemma_required_reads_one(self.community_id, other.community_id, t, "community_id"@);
        lemma_optional_reads_one(self.expires, other.expires, t, "expires"@);
        lemma_required_reads_one(self.person_id, other.person_id, t, "person_id"@);
        lemma_optional_reads_one(self.reason, other.reason, t, "reason"@);
        lemma_optional_reads_one(self.remove_data, other.remove_data, t, "remove_data"@);
    }
}

#[derive(Clone, Debug, PartialEq, Default)]
pub struct BanFromCommunityResponse {
    pub banned: bool,
    pub person_view: Option<PersonView>,
}

impl BanFromCommunityResponse {
    /// The members that a record is written as, from what is written for
    /// each of its fields.
    pub open spec fn members(banned: JsonTree, person_view: Option<JsonTree>) -> Seq<Member> {
        let members = Seq::empty();
        let members = with_field(members, "banned"@, banned);
        let members = with_optional(members, "person_view"@, person_view);
        members
    }

    /// Each key leads to what was written under it, and to nothing where
    /// nothing was written.
    pub proof fn lemma_members(banned: JsonTree, person_view: Option<JsonTree>)
        ensures
            ({
                let members = Self::members(banned, person_view);
                &&& lookup(members, "banned"@) == Some(banned)
                &&& lookup(members, "person_view"@) == person_view
            }),
    {
        broadcast use group_written_members;

        reveal_strlit("banned");
        reveal_strlit("person_view");
        assert("banned"@.len() == 6);
        assert("person_view"@.len() == 11);
    }

    /// With every optional field absent, the mandatory fields are written
    /// and nothing else.
    pub proof fn lemma_mandatory_fields_alone(banned: JsonTree)
        ensures
            Self::members(banned, None) == Seq::<Member>::empty()
                .push(("banned"@, banned)),
    {
        reveal(with_field);
        reveal(with_optional);
    }
}

impl Payload for BanFromCommunityResponse {
    open spec fn tree(&self) -> JsonTree {
        JsonTree::Object(Self::members(self.banned.tree(), written(self.person_view)))
    }

    open spec fn admits(t: JsonTree) -> bool {
        &&& t is Object
        &&& required_admits::<bool>(t, "banned"@)
        &&& optional_admits::<PersonView>(t, "person_view"@)
    }

    open spec fn agrees(&self, t: JsonTree) -> bool {
        &&& required_agrees(self.banned, t, "banned"@)
        &&& optional_agrees(self.person_view, t, "person_view"@)
    }

    fn to_json(&self) -> (out: JsonValue) {
        let mut members: Vec<(String, JsonValue)> = Vec::new();
        assert(members_view(members@) =~= Seq::empty());
        put(&mut members, "banned", &self.banned);
        put_optional(&mut members, "person_view", &self.person_view);
        object(members)
    }

    fn from_json(v: &JsonValue) -> (res: Option<Self>) {
        if !v.is_object() {
            return None;
        }
        let banned = required::<bool>(v, "banned")?;
        let person_view = optional::<PersonView>(v, "person_view")?;
        Some(BanFromCommunityResponse { banned, person_view })
    }

    proof fn lemma_round_trip(&self) {
        Self::lemma_members(self.banned.tree(), written(self.person_view));
        self.banned.lemma_round_trip();
        lemma_optional_round_trip(self.person_view);
    }

    proof fn lemma_reads_one(&self, other: &Self, t: JsonTree) {
        lemma_required_reads_one(self.banned, other.banned, t, "banned"@);
        lemma_optional_reads_one(self.person_view, other.person_view, t, "person_view"@);
    }
}

#[derive(Clone, Debug, PartialEq, Default)]
pub struct BlockCommunity {
    pub auth: String,
    pub block: bool,
    pub community_id: i32,
}

impl BlockCommunity {
    /// The members that a record is written as, from what is written for
    /// each of its fields.
    pub open spec fn members(
        auth: JsonTree,
        block: JsonTree,
        community_id: JsonTree,
    ) -> Seq<Member> {
        let members = Seq::empty();
        let members = with_field(members, "auth"@, auth);
        let members = with_field(members, "block"@, block);
        let members = with_field(members, "community_id"@, community_id);
        members
    }

    /// Each key leads to what was written under it, and to nothing where
    /// nothing was written.
    pub proof fn lemma_members(auth: JsonTree, block: JsonTree, community_id: JsonTree)
        ensures
            ({
                let members = Self::members(auth, block, community_id);
                &&& lookup(members, "auth"@) == Some(auth)
                &&& lookup(members, "block"@) == Some(block)
                &&& lookup(members, "community_id"@) == Some(community_id)
            }),
    {
        broadcast use group_written_members;

        reveal_strlit("auth");
        reveal_strlit("block");
        reveal_strlit("community_id");
        assert("auth"@.len() == 4);
        assert("block"@.len() == 5);
        assert("community_id"@.len() == 12);
    }

    /// Every field is mandatory: each is written, in order, and nothing
    /// else.
    pub proof fn lemma_mandatory_fields_alone(
        auth: JsonTree,
        block: JsonTree,
        community_id: JsonTree,
    )
        ensures
            Self::members(auth, block, community_id) == Seq::<Member>::empty()
                .push(("auth"@, auth))
                .push(("block"@, block))
                .push(("community_id"@, community_id)),
    {
        reveal(with_field);
        reveal(with_optional);
    }
}

impl Payload for BlockCommunity {
    open spec fn tree(&self) -> JsonTree {
        JsonTree::Object(
            Self::members(self.auth.tree(), self.block.tree(), self.community_id.tree()),
        )
    }

    open spec fn admits(t: JsonTree) -> bool {
        &&& t is Object
        &&& required_admits::<String>(t, "auth"@)
        &&& required_admits::<bool>(t, "block"@)
        &&& required_admits::<i32>(t, "community_id"@)
    }

    open spec fn agrees(&self, t: JsonTree) -> bool {
        &&& required_agrees(self.auth, t, "auth"@)
        &&& required_agrees(self.block, t, "block"@)
        &&& required_agrees(self.community_id, t, "community_id"@)
    }

    fn to_json(&self) -> (out: JsonValue) {
        let mut members: Vec<(String, JsonValue)> = Vec::new();
        assert(members_view(members@) =~= Seq::empty());
        put(&mut members, "auth", &self.auth);
        put(&mut members, "block", &self.block);
        put(&mut members, "community_id", &self.community_id);
        object(members)
    }

    fn from_json(v: &JsonValue) -> (res: Option<Self>) {
        if !v.is_object() {
            return None;
        }
        let auth = required::<String>(v, "auth")?;
        let block = required::<bool>(v, "block")?;
        let community_id = required::<i32>(v, "community_id")?;
        Some(BlockCommunity { auth, block, community_id })
    }

    proof fn lemma_round_trip(&self) {
        Self::lemma_members(self.auth.tree(), self.block.tree(), self.community_id.tree());
        self.auth.lemma_round_trip();
        self.block.lemma_round_trip();
        self.community_id.lemma_round_trip();
    }

    proof fn lemma_reads_one(&self, other: &Self, t: JsonTree) {
        lemma_required_reads_one(self.auth, other.auth, t, "auth"@);
        lemma_required_reads_one(self.block, other.block, t, "block"@);
        lemma_required_reads_one(self.community_id, other.community_id, t, "community_id"@);
    }
}

#[derive(Clone, Debug, PartialEq, Default)]
pub struct BlockCommunityResponse {
    pub blocked: bool,
    pub community: CommunityView,
}

impl BlockCommunityResponse {
    /// The members that a record is written as, from what is written for
    /// each of its fields.
    pub open spec fn members(blocked: JsonTree, community: JsonTree) -> Seq<Member> {
        let members = Seq::empty();
        let members = with_field(members, "blocked"@, blocked);
        let members = with_field(members, "community"@, community);
        members
    }

    /// Each key leads to what was written under it, and to nothing where
    /// nothing was written.
    pub proof fn lemma_members(blocked: JsonTree, community: JsonTree)
        ensures
            ({
                let members = Self::members(blocked, community);
                &&& lookup(members, "blocked"@) == Some(blocked)
                &&& lookup(members, "community"@) == Some(community)
            }),
    {
        broadcast use group_written_members;

        reveal_strlit("blocked");
        reveal_strlit("community");
        assert("blocked"@.len() == 7);
        assert("community"@.len() == 9);
    }

    /// Every field is mandatory: each is written, in order, and nothing
    /// else.
    pub proof fn lemma_mandatory_fields_alone(blocked: JsonTree, community: JsonTree)
        ensures
            Self::members(blocked, community) == Seq::<Member>::empty()
                .push(("blocked"@, blocked))
                .push(("community"@, community)),
    {
        reveal(with_field);
        reveal(with_optional);
    }
}

impl Payload for BlockCommunityResponse {
    open spec fn tree(&self) -> JsonTree {
        JsonTree::Object(Self::members(self.blocked.tree(), self.community.tree()))
    }

    open spec fn admits(t: JsonTree) -> bool {
        &&& t is Object
        &&& required_admits::<bool>(t, "blocked"@)
        &&& required_admits::<CommunityView>(t, "community"@)
    }

    open spec fn agrees(&self, t: JsonTree) -> bool {
        &&& required_agrees(self.blocked, t, "blocked"@)
        &&& required_agrees(self.community, t, "community"@)
    }

    fn to_json(&self) -> (out: JsonValue) {
        let mut members: Vec<(String, JsonValue)> = Vec::new();
        assert(members_view(members@) =~= Seq::empty());
        put(&mut members, "blocked", &self.blocked);
        put(&mut members, "community", &self.community);
        object(members)
    }

    fn from_json(v: &JsonValue) -> (res: Option<Self>) {
        if !v.is_object() {
            return None;
        }
        let blocked = required::<bool>(v, "blocked")?;
        let community = required::<CommunityView>(v, "community")?;
        Some(BlockCommunityResponse { blocked, community })
    }

    proof fn lemma_round_trip(&self) {
        Self::lemma_members(self.blocked.tree(), self.community.tree());
        self.blocked.lemma_round_trip();
        self.community.lemma_round_trip();
    }

    proof fn lemma_reads_one(&self, other: &Self, t: JsonTree) {
        lemma_required_reads_one(self.blocked, other.blocked, t, "blocked"@);
        lemma_required_reads_one(self.community, other.community, t, "community"@);
    }
}

#[derive(Clone, Debug, PartialEq, Default)]
pub struct Community {
    pub actor_id: String,
    pub banner: Option<String>,
    pub deleted: bool,
    pub description: Option<String>,
    pub followers_url: Option<String>,
    pub hidden: bool,
    pub icon: Option<String>,
    pub id: i32,
    pub inbox_url: Option<String>,
    pub instance_id: i32,
    pub local: bool,
    pub name: String,
    pub nsfw: bool,
    pub posting_restricted_to_mods: bool,
    pub published: String,
    pub removed: bool,
    pub title: String,
    pub updated: Option<String>,
}

impl Community {
    /// The members that a record is written as, from what is written for
    /// each of its fields.
    pub open spec fn members(
        actor_id: JsonTree,
        banner: Option<JsonTree>,
        deleted: JsonTree,
        description: Option<JsonTree>,
        followers_url: Option<JsonTree>,
        hidden: JsonTree,
        icon: Option<JsonTree>,
        id: JsonTree,
        inbox_url: Option<JsonTree>,
        instance_id: JsonTree,
        local: JsonTree,
        name: JsonTree,
        nsfw: JsonTree,
        posting_restricted_to_mods: JsonTree,
        published: JsonTree,
        removed: JsonTree,
        title: JsonTree,
        updated: Option<JsonTree>,
    ) -> Seq<Member> {
        let members = Seq::empty();
        let members = with_field(members, "actor_id"@, actor_id);
        let members = with_optional(members, "banner"@, banner);
        let members = with_field(members, "deleted"@, deleted);
        let members = with_optional(members, "description"@, description);
        let members = with_optional(members, "followers_url"@, followers_url);
        let members = with_field(members, "hidden"@, hidden);
        let members = with_optional(members, "icon"@, icon);
        let members = with_field(members, "id"@, id);
        let members = with_optional(members, "inbox_url"@, inbox_url);
        let members = with_field(members, "instance_id"@, instance_id);
        let members = with_field(members, "local"@, local);
        let members = with_field(members, "name"@, name);
        let members = with_field(members, "nsfw"@, nsfw);
        let members = with_field(
            members,
            "posting_restricted_to_mods"@,
            posting_restricted_to_mods,
        );
        let members = with_field(members, "published"@, published);
        let members = with_field(members, "removed"@, removed);
        let members = with_field(members, "title"@, title);
        let members = with_optional(members, "updated"@, updated);
        members
    }

    /// Each key leads to what was written under it, and to nothing where
    /// nothing was written.
    pub proof fn lemma_members(
        actor_id: JsonTree,
        banner: Option<JsonTree>,
        deleted: JsonTree,
        description: Option<JsonTree>,
        followers_url: Option<JsonTree>,
        hidden: JsonTree,
        icon: Option<JsonTree>,
        id: JsonTree,
        inbox_url: Option<JsonTree>,
        instance_id: JsonTree,
        local: JsonTree,
        name: JsonTree,
        nsfw: JsonTree,
        posting_restricted_to_mods: JsonTree,
        published: JsonTree,
        removed: JsonTree,
        title: JsonTree,
        updated: Option<JsonTree>,
    )
        ensures
            ({
                let members = Self::members(
                    actor_id,
                    banner,
                    deleted,
                    description,
                    followers_url,
                    hidden,
                    icon,
                    id,
                    inbox_url,
                    instance_id,
                    local,
                    name,
                    nsfw,
                    posting_restricted_to_mods,
                    published,
                    removed,
                    title,
                    updated,
                );
                &&& lookup(members, "actor_id"@) == Some(actor_id)
                &&& lookup(members, "banner"@) == banner
                &&& lookup(members, "deleted"@) == Some(deleted)
                &&& lookup(members, "description"@) == description
                &&& lookup(members, "followers_url"@) == followers_url
                &&& lookup(members, "hidden"@) == Some(hidden)
                &&& lookup(members, "icon"@) == icon
                &&& lookup(members, "id"@) == Some(id)
                &&& lookup(members, "inbox_url"@) == inbox_url
                &&& lookup(members, "instance_id"@) == Some(instance_id)
                &&& lookup(members, "local"@) == Some(local)
                &&& lookup(members, "name"@) == Some(name)
                &&& lookup(members, "nsfw"@) == Some(nsfw)
                &&& lookup(members, "posting_restricted_to_mods"@)
                    == Some(posting_restricted_to_mods)
                &&& lookup(members, "published"@) == Some(published)
                &&& lookup(members, "removed"@) == Some(removed)
                &&& lookup(members, "title"@) == Some(title)
                &&& lookup(members, "updated"@) == updated
            }),
    {
        broadcast use group_written_members;

        reveal_strlit("actor_id");
        reveal_strlit("banner");
        reveal_strlit("deleted");
        reveal_strlit("description");
        reveal_strlit("followers_url");
        reveal_strlit("hidden");
        reveal_strlit("icon");
        reveal_strlit("id");
        reveal_strlit("inbox_url");
        reveal_strlit("instance_id");
        reveal_strlit("local");
        reveal_strlit("name");
        reveal_strlit("nsfw");
        reveal_strlit("posting_restricted_to_mods");
        reveal_strlit("published");
        reveal_strlit("removed");
        reveal_strlit("title");
        reveal_strlit("updated");
        assert("actor_id"@.len() == 8);
        assert("banner"@.len() == 6 && "banner"@[0] == 'b');
        assert("deleted"@.len() == 7 && "deleted"@[0] == 'd');
        assert("description"@.len() == 11 && "description"@[0] == 'd');
        assert("followers_url"@.len() == 13);
        assert("hidden"@.len() == 6 && "hidden"@[0] == 'h');
        assert("icon"@.len() == 4 && "icon"@[0] == 'i');
        assert("id"@.len() == 2);
        assert("inbox_url"@.len() == 9 && "inbox_url"@[0] == 'i');
        assert("instance_id"@.len() == 11 && "instance_id"@[0] == 'i');
        assert("local"@.len() == 5 && "local"@[0] == 'l');
        assert("name"@.len() == 4 && "name"@[0] == 'n' && "name"@[1] == 'a');
        assert("nsfw"@.len() == 4 && "nsfw"@[0] == 'n' && "nsfw"@[1] == 's');
        assert("posting_restricted_to_mods"@.len() == 26);
        assert("published"@.len() == 9 && "published"@[0] == 'p');
        assert("removed"@.len() == 7 && "removed"@[0] == 'r');
        assert("title"@.len() == 5 && "title"@[0] == 't');
        assert("updated"@.len() == 7 && "updated"@[0] == 'u');
    }

    /// With every optional field absent, the mandatory fields are written
    /// and nothing else.
    pub proof fn lemma_mandatory_fields_alone(
        actor_id: JsonTree,
        deleted: JsonTree,
        hidden: JsonTree,
        id: JsonTree,
        instance_id: JsonTree,
        local: JsonTree,
        name: JsonTree,
        nsfw: JsonTree,
        posting_restricted_to_mods: JsonTree,
        published: JsonTree,
        removed: JsonTree,
        title: JsonTree,
    )
        ensures
            Self::members(
                actor_id,
                None,
                deleted,
                None,
                None,
                hidden,
                None,
                id,
                None,
                instance_id,
                local,
                name,
                nsfw,
                posting_restricted_to_mods,
                published,
                removed,
                title,
                None,
            ) == Seq::<Member>::empty()
                .push(("actor_id"@, actor_id))
                .push(("deleted"@, deleted))
                .push(("hidden"@, hidden))
                .push(("id"@, id))
                .push(("instance_id"@, instance_id))
                .push(("local"@, local))
                .push(("name"@, name))
                .push(("nsfw"@, nsfw))
                .push(("posting_restricted_to_mods"@, posting_restricted_to_mods))
                .push(("published"@, published))
                .push(("removed"@, removed))
                .push(("title"@, title)),
    {
        reveal(with_field);
        reveal(with_optional);
    }
}

impl Payload for Community {
    open spec fn tree(&self) -> JsonTree {
        JsonTree::Object(
            Self::members(
                self.actor_id.tree(),
                written(self.banner),
                self.deleted.tree(),
                written(self.description),
                written(self.followers_url),
                self.hidden.tree(),
                written(self.icon),
                self.id.tree(),
                written(self.inbox_url),
                self.instance_id.tree(),
                self.local.tree(),
                self.name.tree(),
                self.nsfw.tree(),
                self.posting_restricted_to_mods.tree(),
                self.published.tree(),
                self.removed.tree(),
                self.title.tree(),
                written(self.updated),
            ),
        )
    }

    open spec fn admits(t: JsonTree) -> bool {
        &&& t is Object
        &&& required_admits::<String>(t, "actor_id"@)
        &&& optional_admits::<String>(t, "banner"@)
        &&& required_admits::<bool>(t, "deleted"@)
        &&& optional_admits::<String>(t, "description"@)
        &&& optional_admits::<String>(t, "followers_url"@)
        &&& required_admits::<bool>(t, "hidden"@)
        &&& optional_admits::<String>(t, "icon"@)
        &&& required_admits::<i32>(t, "id"@)
        &&& optional_admits::<String>(t, "inbox_url"@)
        &&& required_admits::<i32>(t, "instance_id"@)
        &&& required_admits::<bool>(t, "local"@)
        &&& required_admits::<String>(t, "name"@)
        &&& required_admits::<bool>(t, "nsfw"@)
        &&& required_admits::<bool>(t, "posting_restricted_to_mods"@)
        &&& required_admits::<String>(t, "published"@)
        &&& required_admits::<bool>(t, "removed"@)
        &&& required_admits::<String>(t, "title"@)
        &&& optional_admits::<String>(t, "updated"@)
    }

    open spec fn agrees(&self, t: JsonTree) -> bool {
        &&& required_agrees(self.actor_id, t, "actor_id"@)
        &&& optional_agrees(self.banner, t, "banner"@)
        &&& required_agrees(self.deleted, t, "deleted"@)
        &&& optional_agrees(self.description, t, "description"@)
        &&& optional_agrees(self.followers_url, t, "followers_url"@)
        &&& required_agrees(self.hidden, t, "hidden"@)
        &&& optional_agrees(self.icon, t, "icon"@)
        &&& required_agrees(self.id, t, "id"@)
        &&& optional_agrees(self.inbox_url, t, "inbox_url"@)
        &&& required_agrees(self.instance_id, t, "instance_id"@)
        &&& required_agrees(self.local, t, "local"@)
        &&& required_agrees(self.name, t, "name"@)
        &&& required_agrees(self.nsfw, t, "nsfw"@)
        &&& required_agrees(self.posting_restricted_to_mods, t, "posting_restricted_to_mods"@)
        &&& required_agrees(self.published, t, "published"@)
        &&& required_agrees(self.removed, t, "removed"@)
        &&& required_agrees(self.title, t, "title"@)
        &&& optional_agrees(self.updated, t, "updated"@)
    }

    fn to_json(&self) -> (out: JsonValue) {
        let mut members: Vec<(String, JsonValue)> = Vec::new();
        assert(members_view(members@) =~= Seq::empty());
        put(&mut members, "actor_id", &self.actor_id);
        put_optional(&mut members, "banner", &self.banner);
        put(&mut members, "deleted", &self.deleted);
        put_optional(&mut members, "description", &self.description);
        put_optional(&mut members, "followers_url", &self.followers_url);
        put(&mut members, "hidden", &self.hidden);
        put_optional(&mut members, "icon", &self.icon);
        put(&mut members, "id", &self.id);
        put_optional(&mut members, "inbox_url", &self.inbox_url);
        put(&mut members, "instance_id", &self.instance_id);
        put(&mut members, "local", &self.local);
        put(&mut members, "name", &self.name);
        put(&mut members, "nsfw", &self.nsfw);
        put(&mut members, "posting_restricted_to_mods", &self.posting_restricted_to_mods);
        put(&mut members, "published", &self.published);
        put(&mut members, "removed", &self.removed);
        put(&mut members, "title", &self.title);
        put_optional(&mut members, "updated", &self.updated);
        object(members)
    }

    fn from_json(v: &JsonValue) -> (res: Option<Self>) {
        if !v.is_object() {
            return None;
        }
        let actor_id = required::<String>(v, "actor_id")?;
        let banner = optional::<String>(v, "banner")?;
        let deleted = required::<bool>(v, "deleted")?;
        let description = optional::<String>(v, "description")?;
        let followers_url = optional::<String>(v, "followers_url")?;
        let hidden = required::<bool>(v, "hidden")?;
        let icon = optional::<String>(v, "icon")?;
        let id = required::<i32>(v, "id")?;
        let inbox_url = optional::<String>(v, "inbox_url")?;
        let instance_id = required::<i32>(v, "instance_id")?;
        let local = required::<bool>(v, "local")?;
        let name = required::<String>(v, "name")?;
        let nsfw = required::<bool>(v, "nsfw")?;
        let posting_restricted_to_mods = required::<bool>(v, "posting_restricted_to_mods")?;
        let published = required::<String>(v, "published")?;
        let removed = required::<bool>(v, "removed")?;
        let title = required::<String>(v, "title")?;
        let updated = optional::<String>(v, "updated")?;
        Some(
            Community {
                actor_id,
                banner,
                deleted,
                description,
                followers_url,
                hidden,
                icon,
                id,
                inbox_url,
                instance_id,
                local,
                name,
                nsfw,
                posting_restricted_to_mods,
                published,
                removed,
                title,
                updated,
            },
        )
    }

    proof fn lemma_round_trip(&self) {
        Self::lemma_members(
            self.actor_id.tree(),
            written(self.banner),
            self.deleted.tree(),
            written(self.description),
            written(self.followers_url),
            self.hidden.tree(),
            written(self.icon),
            self.id.tree(),
            written(self.inbox_url),
            self.instance_id.tree(),
            self.local.tree(),
            self.name.tree(),
            self.nsfw.tree(),
            self.posting_restricted_to_mods.tree(),
            self.published.tree(),
            self.removed.tree(),
            self.title.tree(),
            written(self.updated),
        );
        self.actor_id.lemma_round_trip();
        lemma_optional_round_trip(self.banner);
        self.deleted.lemma_round_trip();
        lemma_optional_round_trip(self.description);
        lemma_optional_round_trip(self.followers_url);
        self.hidden.lemma_round_trip();
        lemma_optional_round_trip(self.icon);
        self.id.lemma_round_trip();
        lemma_optional_round_trip(self.inbox_url);
        self.instance_id.lemma_round_trip();
        self.local.lemma_round_trip();
        self.name.lemma_round_trip();
        self.nsfw.lemma_round_trip();
        self.posting_restricted_to_mods.lemma_round_trip();
        self.published.lemma_round_trip();
        self.removed.lemma_round_trip();
        self.title.lemma_round_trip();
        lemma_optional_round_trip(self.updated);
    }

    proof fn lemma_reads_one(&self, other: &Self, t: JsonTree) {
        lemma_required_reads_one(self.actor_id, other.actor_id, t, "actor_id"@);
        lemma_optional_reads_one(self.banner, other.banner, t, "banner"@);
        lemma_required_reads_one(self.deleted, other.deleted, t, "deleted"@);
        lemma_optional_reads_one(self.description, other.description, t, "description"@);
        lemma_optional_reads_one(self.followers_url, other.followers_url, t, "followers_url"@);
        lemma_required_reads_one(self.hidden, other.hidden, t, "hidden"@);
        lemma_optional_reads_one(self.icon, other.icon, t, "icon"@);
        lemma_required_reads_one(self.id, other.id, t, "id"@);
        lemma_optional_reads_one(self.inbox_url, other.inbox_url, t, "inbox_url"@);
        lemma_required_reads_one(self.instance_id, other.instance_id, t, "instance_id"@);
        lemma_required_reads_one(self.local, other.local, t, "local"@);
        lemma_required_reads_one(self.name, other.name, t, "name"@);
        lemma_required_reads_one(self.nsfw, other.nsfw, t, "nsfw"@);
        lemma_required_reads_one(
            self.posting_restricted_to_mods,
            other.posting_restricted_to_mods,
            t,
            "posting_restricted_to_mods"@,
        );
        lemma_required_reads_one(self.published, other.published, t, "published"@);
        lemma_required_reads_one(self.removed, other.removed, t, "removed"@);
        lemma_required_reads_one(self.title, other.title, t, "title"@);
        lemma_optional_reads_one(self.updated, other.updated, t, "updated"@);
    }
}

#[derive(Clone, Debug, PartialEq, Default)]
pub struct CommunityAggregates {
    pub comments: i32,
    pub community_id: i32,
    pub hot_rank: i32,
    pub id: i32,
    pub posts: i32,
    pub published: String,
    pub subscribers: i32,
    pub users_active_day: i32,
    pub users_active_half_year: i32,
    pub users_active_month: i32,
    pub users_active_week: i32,
}

impl CommunityAggregates {
    /// The members that a record is written as, from what is written for
    /// each of its fields.
    pub open spec fn members(
        comments: JsonTree,
        community_id: JsonTree,
        hot_rank: JsonTree,
        id: JsonTree,
        posts: JsonTree,
        published: JsonTree,
        subscribers: JsonTree,
        users_active_day: JsonTree,
        users_active_half_year: JsonTree,
        users_active_month: JsonTree,
        users_active_week: JsonTree,
    ) -> Seq<Member> {
        let members = Seq::empty();
        let members = with_field(members, "comments"@, comments);
        let members = with_field(members, "community_id"@, community_id);
        let members = with_field(members, "hot_rank"@, hot_rank);
        let members = with_field(members, "id"@, id);
        let members = with_field(members, "posts"@, posts);
        let members = with_field(members, "published"@, published);
        let members = with_field(members, "subscribers"@, subscribers);
        let members = with_field(members, "users_active_day"@, users_active_day);
        let members = with_field(members, "users_active_half_year"@, users_active_half_year);
        let members = with_field(members, "users_active_month"@, users_active_month);
        let members = with_field(members, "users_active_week"@, users_active_week);
        members
    }

    /// Each key leads to what was written under it, and to nothing where
    /// nothing was written.
    pub proof fn lemma_members(
        comments: JsonTree,
        community_id: JsonTree,
        hot_rank: JsonTree,
        id: JsonTree,
        posts: JsonTree,
        published: JsonTree,
        subscribers: JsonTree,
        users_active_day: JsonTree,
        users_active_half_year: JsonTree,
        users_active_month: JsonTree,
        users_active_week: JsonTree,
    )
        ensures
            ({
                let members = Self::members(
                    comments,
                    community_id,
                    hot_rank,
                    id,
                    posts,
                    published,
                    subscribers,
                    users_active_day,
                    users_active_half_year,
                    users_active_month,
                    users_active_week,
                );
                &&& lookup(members, "comments"@) == Some(comments)
                &&& lookup(members, "community_id"@) == Some(community_id)
                &&& lookup(members, "hot_rank"@) == Some(hot_rank)
                &&& lookup(members, "id"@) == Some(id)
                &&& lookup(members, "posts"@) == Some(posts)
                &&& lookup(members, "published"@) == Some(published)
                &&& lookup(members, "subscribers"@) == Some(subscribers)
                &&& lookup(members, "users_active_day"@) == Some(users_active_day)
                &&& lookup(members, "users_active_half_year"@) == Some(users_active_half_year)
                &&& lookup(members, "users_active_month"@) == Some(users_active_month)
                &&& lookup(members, "users_active_week"@) == Some(users_active_week)
            }),
    {
        broadcast use group_written_members;

        reveal_strlit("comments");
        reveal_strlit("community_id");
        reveal_strlit("hot_rank");
        reveal_strlit("id");
        reveal_strlit("posts");
        reveal_strlit("published");
        reveal_strlit("subscribers");
        reveal_strlit("users_active_day");
        reveal_strlit("users_active_half_year");
        reveal_strlit("users_active_month");
        reveal_strlit("users_active_week");
        assert("comments"@.len() == 8 && "comments"@[0] == 'c');
        assert("community_id"@.len() == 12);
        assert("hot_rank"@.len() == 8 && "hot_rank"@[0] == 'h');
        assert("id"@.len() == 2);
        assert("posts"@.len() == 5);
        assert("published"@.len() == 9);
        assert("subscribers"@.len() == 11);
        assert("users_active_day"@.len() == 16);
        assert("users_active_half_year"@.len() == 22);
        assert("users_active_month"@.len() == 18);
        assert("users_active_week"@.len() == 17);
    }

    /// Every field is mandatory: each is written, in order, and nothing
    /// else.
    pub proof fn lemma_mandatory_fields_alone(
        comments: JsonTree,
        community_id: JsonTree,
        hot_rank: JsonTree,
        id: JsonTree,
        posts: JsonTree,
        published: JsonTree,
        subscribers: JsonTree,
        users_active_day: JsonTree,
        users_active_half_year: JsonTree,
        users_active_month: JsonTree,
        users_active_week: JsonTree,
    )
        ensures
            Self::members(
                comments,
                community_id,
                hot_rank,
                id,
                posts,
                published,
                subscribers,
                users_active_day,
                users_active_half_year,
                users_active_month,
                users_active_week,
            ) == Seq::<Member>::empty()
                .push(("comments"@, comments))
                .push(("community_id"@, community_id))
                .push(("hot_rank"@, hot_rank))
                .push(("id"@, id))
                .push(("posts"@, posts))
                .push(("published"@, published))
                .push(("subscribers"@, subscribers))
                .push(("users_active_day"@, users_active_day))
                .push(("users_active_half_year"@, users_active_half_year))
                .push(("users_active_month"@, users_active_month))
                .push(("users_active_week"@, users_active_week)),
    {
        reveal(with_field);
        reveal(with_optional);
    }
}

impl Payload for CommunityAggregates {
    open spec fn tree(&self) -> JsonTree {
        JsonTree::Object(
            Self::members(
                self.comments.tree(),
                self.community_id.tree(),
                self.hot_rank.tree(),
                self.id.tree(),
                self.posts.tree(),
                self.published.tree(),
                self.subscribers.tree(),
                self.users_active_day.tree(),
                self.users_active_half_year.tree(),
                self.users_active_month.tree(),
                self.users_active_week.tree(),
            ),
        )
    }

    open spec fn admits(t: JsonTree) -> bool {
        &&& t is Object
        &&& required_admits::<i32>(t, "comments"@)
        &&& required_admits::<i32>(t, "community_id"@)
        &&& required_admits::<i32>(t, "hot_rank"@)
        &&& required_admits::<i32>(t, "id"@)
        &&& required_admits::<i32>(t, "posts"@)
        &&& required_admits::<String>(t, "published"@)
        &&& required_admits::<i32>(t, "subscribers"@)
        &&& required_admits::<i32>(t, "users_active_day"@)
        &&& required_admits::<i32>(t, "users_active_half_year"@)
        &&& required_admits::<i32>(t, "users_active_month"@)
        &&& required_admits::<i32>(t, "users_active_week"@)
    }

    open spec fn agrees(&self, t: JsonTree) -> bool {
        &&& required_agrees(self.comments, t, "comments"@)
        &&& required_agrees(self.community_id, t, "community_id"@)
        &&& required_agrees(self.hot_rank, t, "hot_rank"@)
        &&& required_agrees(self.id, t, "id"@)
        &&& required_agrees(self.posts, t, "posts"@)
        &&& required_agrees(self.published, t, "published"@)
        &&& required_agrees(self.subscribers, t, "subscribers"@)
        &&& required_agrees(self.users_active_day, t, "users_active_day"@)
        &&& required_agrees(self.users_active_half_year, t, "users_active_half_year"@)
        &&& required_agrees(self.users_active_month, t, "users_active_month"@)
        &&& required_agrees(self.users_active_week, t, "users_active_week"@)
    }

    fn to_json(&self) -> (out: JsonValue) {
        let mut members: Vec<(String, JsonValue)> = Vec::new();
        assert(members_view(members@) =~= Seq::empty());
        put(&mut members, "comments", &self.comments);
        put(&mut members, "community_id", &self.community_id);
        put(&mut members, "hot_rank", &self.hot_rank);
        put(&mut members, "id", &self.id);
        put(&mut members, "posts", &self.posts);
        put(&mut members, "published", &self.published);
        put(&mut members, "subscribers", &self.subscribers);
        put(&mut members, "users_active_day", &self.users_active_day);
        put(&mut members, "users_active_half_year", &self.users_active_half_year);
        put(&mut members, "users_active_month", &self.users_active_month);
        put(&mut members, "users_active_week", &self.users_active_week);
        object(members)
    }

    fn from_json(v: &JsonValue) -> (res: Option<Self>) {
        if !v.is_object() {
            return None;
        }
        let comments = required::<i32>(v, "comments")?;
        let community_id = required::<i32>(v, "community_id")?;
        let hot_rank = required::<i32>(v, "hot_rank")?;
        let id = required::<i32>(v, "id")?;
        let posts = required::<i32>(v, "posts")?;
        let published = required::<String>(v, "published")?;
        let subscribers = required::<i32>(v, "subscribers")?;
        let users_active_day = required::<i32>(v, "users_active_day")?;
        let users_active_half_year = required::<i32>(v, "users_active_half_year")?;
        let users_active_month = required::<i32>(v, "users_active_month")?;
        let users_active_week = required::<i32>(v, "users_active_week")?;
        Some(
            CommunityAggregates {
                comments,
                community_id,
                hot_rank,
                id,
                posts,
                published,
                subscribers,
                users_active_day,
                users_active_half_year,
                users_active_month,
                users_active_week,
            },
        )
    }

    proof fn lemma_round_trip(&self) {
        Self::lemma_members(
            self.comments.tree(),
            self.community_id.tree(),
            self.hot_rank.tree(),
            self.id.tree(),
            self.posts.tree(),
            self.published.tree(),
            self.subscribers.tree(),
            self.users_active_day.tree(),
            self.users_active_half_year.tree(),
            self.users_active_month.tree(),
            self.users_active_week.tree(),
        );
        self.comments.lemma_round_trip();
        self.community_id.lemma_round_trip();
        self.hot_rank.lemma_round_trip();
        self.id.lemma_round_trip();
        self.posts.lemma_round_trip();
        self.published.lemma_round_trip();
        self.subscribers.lemma_round_trip();
        self.users_active_day.lemma_round_trip();
        self.users_active_half_year.lemma_round_trip();
        self.users_active_month.lemma_round_trip();
        self.users_active_week.lemma_round_trip();
    }

    proof fn lemma_reads_one(&self, other: &Self, t: JsonTree) {
        lemma_required_reads_one(self.comments, other.comments, t, "comments"@);
        lemma_required_reads_one(self.community_id, other.community_id, t, "community_id"@);
        lemma_required_reads_one(self.hot_rank, other.hot_rank, t, "hot_rank"@);
        lemma_required_reads_one(self.id, other.id, t, "id"@);
        lemma_required_reads_one(self.posts, other.posts, t, "posts"@);
        lemma_required_reads_one(self.published, other.published, t, "published"@);
        lemma_required_reads_one(self.subscribers, other.subscribers, t, "subscribers"@);
        lemma_required_reads_one(
            self.users_active_day,
            other.users_active_day,
            t,
            "users_active_day"@,
        );
        lemma_required_reads_one(
            self.users_active_half_year,
            other.users_active_half_year,
            t,
            "users_active_half_year"@,
        );
        lemma_required_reads_one(
            self.users_active_month,
            other.users_active_month,
            t,
            "users_active_month"@,
        );
        lemma_required_reads_one(
            self.users_active_week,
            other.users_active_week,
            t,
            "users_active_week"@,
        );
    }
}

#[derive(Clone, Debug, PartialEq, Default)]
pub struct CommunityBlockView {
    pub community: Community,
    pub person: Person,
}

impl CommunityBlockView {
    /// The members that a record is written as, from what is written for
    /// each of its fields.
    pub open spec fn members(community: JsonTree, person: JsonTree) -> Seq<Member> {
        let members = Seq::empty();
        let members = with_field(members, "community"@, community);
        let members = with_field(members, "person"@, person);
        members
    }

    /// Each key leads to what was written under it, and to nothing where
    /// nothing was written.
    pub proof fn lemma_members(community: JsonTree, person: JsonTree)
        ensures
            ({
                let members = Self::members(community, person);
                &&& lookup(members, "community"@) == Some(community)
                &&& lookup(members, "person"@) == Some(person)
            }),
    {
        broadcast use group_written_members;

        reveal_strlit("community");
        reveal_strlit("person");
        assert("community"@.len() == 9);
        assert("person"@.len() == 6);
    }

    /// Every field is mandatory: each is written, in order, and nothing
    /// else.
    pub proof fn lemma_mandatory_fields_alone(community: JsonTree, person: JsonTree)
        ensures
            Self::members(community, person) == Seq::<Member>::empty()
                .push(("community"@, community))
                .push(("person"@, person)),
    {
        reveal(with_field);
        reveal(with_optional);
    }
}

impl Payload for CommunityBlockView {
    open spec fn tree(&self) -> JsonTree {
        JsonTree::Object(Self::members(self.community.tree(), self.person.tree()))
    }

    open spec fn admits(t: JsonTree) -> bool {
        &&& t is Object
        &&& required_admits::<Community>(t, "community"@)
        &&& required_admits::<Person>(t, "person"@)
    }

    open spec fn agrees(&self, t: JsonTree) -> bool {
        &&& required_agrees(self.community, t, "community"@)
        &&& required_agrees(self.person, t, "person"@)
    }

    fn to_json(&self) -> (out: JsonValue) {
        let mut members: Vec<(String, JsonValue)> = Vec::new();
        assert(members_view(members@) =~= Seq::empty());
        put(&mut members, "community", &self.community);
        put(&mut members, "person", &self.person);
        object(members)
    }

    fn from_json(v: &JsonValue) -> (res: Option<Self>) {
        if !v.is_object() {
            return None;
        }
        let community = required::<Community>(v, "community")?;
        let person = required::<Person>(v, "person")?;
        Some(CommunityBlockView { community, person })
    }

    proof fn lemma_round_trip(&self) {
        Self::lemma_members(self.community.tree(), self.person.tree());
        self.community.lemma_round_trip();
        self.person.lemma_round_trip();
    }

    proof fn lemma_reads_one(&self, other: &Self, t: JsonTree) {
        lemma_required_reads_one(self.community, other.community, t, "community"@);
        lemma_required_reads_one(self.person, other.person, t, "person"@);
    }
}

#[derive(Clone, Debug, PartialEq, Default)]
pub struct CommunityFollowerView {
    pub community: Community,
    pub person: Person,
}

impl CommunityFollowerView {
    /// The members that a record is written as, from what is written for
    /// each of its fields.
    pub open spec fn members(community: JsonTree, person: JsonTree) -> Seq<Member> {
        let members = Seq::empty();
        let members = with_field(members, "community"@, community);
        let members = with_field(members, "person"@, person);
        members
    }

    /// Each key leads to what was written under it, and to nothing where
    /// nothing was written.
    pub proof fn lemma_members(community: JsonTree, person: JsonTree)
        ensures
            ({
                let members = Self::members(community, person);
                &&& lookup(members, "community"@) == Some(community)
                &&& lookup(members, "person"@) == Some(person)
            }),
    {
        broadcast use group_written_members;

        reveal_strlit("community");
        reveal_strlit("person");
        assert("community"@.len() == 9);
        assert("person"@.len() == 6);
    }

    /// Every field is mandatory: each is written, in order, and nothing
    /// else.
    pub proof fn lemma_mandatory_fields_alone(community: JsonTree, person: JsonTree)
        ensures
            Self::members(community, person) == Seq::<Member>::empty()
                .push(("community"@, community))
                .push(("person"@, person)),
    {
        reveal(with_field);
        reveal(with_optional);
    }
}

impl Payload for CommunityFollowerView {
    open spec fn tree(&self) -> JsonTree {
        JsonTree::Object(Self::members(self.community.tree(), self.person.tree()))
    }

    open spec fn admits(t: JsonTree) -> bool {
        &&& t is Object
        &&& required_admits::<Community>(t, "community"@)
        &&& required_admits::<Person>(t, "person"@)
    }

    open spec fn agrees(&self, t: JsonTree) -> bool {
        &&& required_agrees(self.community, t, "community"@)
        &&& required_agrees(self.person, t, "person"@)
    }

    fn to_json(&self) -> (out: JsonValue) {
        let mut members: Vec<(String, JsonValue)> = Vec::new();
        assert(members_view(members@) =~= Seq::empty());
        put(&mut members, "community", &self.community);
        put(&mut members, "person", &self.person);
        object(members)
    }

    fn from_json(v: &JsonValue) -> (res: Option<Self>) {
        if !v.is_object() {
            return None;
        }
        let community = required::<Community>(v, "community")?;
        let person = required::<Person>(v, "person")?;
        Some(CommunityFollowerView { community, person })
    }

    proof fn lemma_round_trip(&self) {
        Self::lemma_members(self.community.tree(), self.person.tree());
        self.community.lemma_round_trip();
        self.person.lemma_round_trip();
    }

    proof fn lemma_reads_one(&self, other: &Self, t: JsonTree) {
        lemma_required_reads_one(self.community, other.community, t, "community"@);
        lemma_required_reads_one(self.person, other.person, t, "person"@);
    }
}

#[derive(Clone, Debug, PartialEq, Default)]
pub struct CommunityJoin {
    pub community_id: i32,
}

impl CommunityJoin {
    /// The members that a record is written as, from what is written for
    /// each of its fields.
    pub open spec fn members(community_id: JsonTree) -> Seq<Member> {
        let members = Seq::empty();
        let members = with_field(members, "community_id"@, community_id);
        members
    }

    /// Each key leads to what was written under it, and to nothing where
    /// nothing was written.
    pub proof fn lemma_members(community_id: JsonTree)
        ensures
            ({
                let members = Self::members(community_id);
                &&& lookup(members, "community_id"@) == Some(community_id)
            }),
    {
        broadcast use group_written_members;

        reveal_strlit("community_id");
        assert("community_id"@.len() == 12);
    }

    /// Every field is mandatory: each is written, in order, and nothing
    /// else.
    pub proof fn lemma_mandatory_fields_alone(community_id: JsonTree)
        ensures
            Self::members(community_id) == Seq::<Member>::empty()
                .push(("community_id"@, community_id)),
    {
        reveal(with_field);
        reveal(with_optional);
    }
}

impl Payload for CommunityJoin {
    open spec fn tree(&self) -> JsonTree {
        JsonTree::Object(Self::members(self.community_id.tree()))
    }

    open spec fn admits(t: JsonTree) -> bool {
        &&& t is Object
        &&& required_admits::<i32>(t, "community_id"@)
    }

    open spec fn agrees(&self, t: JsonTree) -> bool {
        &&& required_agrees(self.community_id, t, "community_id"@)
    }

    fn to_json(&self) -> (out: JsonValue) {
        let mut members: Vec<(String, JsonValue)> = Vec::new();
        assert(members_view(members@) =~= Seq::empty());
        put(&mut members, "community_id", &self.community_id);
        object(members)
    }

    fn from_json(v: &JsonValue) -> (res: Option<Self>) {
        if !v.is_object() {
            return None;
        }
        let community_id = required::<i32>(v, "community_id")?;
        Some(CommunityJoin { community_id })
    }

    proof fn lemma_round_trip(&self) {
        Self::lemma_members(self.community_id.tree());
        self.community_id.lemma_round_trip();
    }

    proof fn lemma_reads_one(&self, other: &Self, t: JsonTree) {
        lemma_required_reads_one(self.community_id, other.community_id, t, "community_id"@);
    }
}

#[derive(Clone, Debug, PartialEq, Default)]
pub struct CommunityJoinResponse {
    pub joined: bool,
}

impl CommunityJoinResponse {
    /// The members that a record is written as, from what is written for
    /// each of its fields.
    pub open spec fn members(joined: JsonTree) -> Seq<Member> {
        let members = Seq::empty();
        let members = with_field(members, "joined"@, joined);
        members
    }

    /// Each key leads to what was written under it, and to nothing where
    /// nothing was written.
    pub proof fn lemma_members(joined: JsonTree)
        ensures
            ({
                let members = Self::members(joined);
                &&& lookup(members, "joined"@) == Some(joined)
            }),
    {
        broadcast use group_written_members;

        reveal_strlit("joined");
        assert("joined"@.len() == 6);
    }

    /// Every field is mandatory: each is written, in order, and nothing
    /// else.
    pub proof fn lemma_mandatory_fields_alone(joined: JsonTree)
        ensures
            Self::members(joined) == Seq::<Member>::empty()
                .push(("joined"@, joined)),
    {
        reveal(with_field);
        reveal(with_optional);
    }
}

impl Payload for CommunityJoinResponse {
    open spec fn tree(&self) -> JsonTree {
        JsonTree::Object(Self::members(self.joined.tree()))
    }

    open spec fn admits(t: JsonTree) -> bool {
        &&& t is Object
        &&& required_admits::<bool>(t, "joined"@)
    }

    open spec fn agrees(&self, t: JsonTree) -> bool {
        &&& required_agrees(self.joined, t, "joined"@)
    }

    fn to_json(&self) -> (out: JsonValue) {
        let mut members: Vec<(String, JsonValue)> = Vec::new();
        assert(members_view(members@) =~= Seq::empty());
        put(&mut members, "joined", &self.joined);
        object(members)
    }

    fn from_json(v: &JsonValue) -> (res: Option<Self>) {
        if !v.is_object() {
            return None;
        }
        let joined = required::<bool>(v, "joined")?;
        Some(CommunityJoinResponse { joined })
    }

    proof fn lemma_round_trip(&self) {
        Self::lemma_members(self.joined.tree());
        self.joined.lemma_round_trip();
    }

    proof fn lemma_reads_one(&self, other: &Self, t: JsonTree) {
        lemma_required_reads_one(self.joined, other.joined, t, "joined"@);
    }
}

#[derive(Clone, Debug, PartialEq, Default)]
pub struct CommunityModeratorView {
    pub community: Community,
    pub moderator: Person,
}

impl CommunityModeratorView {
    /// The members that a record is written as, from what is written for
    /// each of its fields.
    pub open spec fn members(community: JsonTree, moderator: JsonTree) -> Seq<Member> {
        let members = Seq::empty();
        let members = with_field(members, "community"@, community);
        let members = with_field(members, "moderator"@, moderator);
        members
    }

    /// Each key leads to what was written under it, and to nothing where
    /// nothing was written.
    pub proof fn lemma_members(community: JsonTree, moderator: JsonTree)
        ensures
            ({
                let members = Self::members(community, moderator);
                &&& lookup(members, "community"@) == Some(community)
                &&& lookup(members, "moderator"@) == Some(moderator)
            }),
    {
        broadcast use group_written_members;

        reveal_strlit("community");
        reveal_strlit("moderator");
        assert("community"@.len() == 9 && "community"@[0] == 'c');
        assert("moderator"@.len() == 9 && "moderator"@[0] == 'm');
    }

    /// Every field is mandatory: each is written, in order, and nothing
    /// else.
    pub proof fn lemma_mandatory_fields_alone(community: JsonTree, moderator: JsonTree)
        ensures
            Self::members(community, moderator) == Seq::<Member>::empty()
                .push(("community"@, community))
                .push(("moderator"@, moderator)),
    {
        reveal(with_field);
        reveal(with_optional);
    }
}

impl Payload for CommunityModeratorView {
    open spec fn tree(&self) -> JsonTree {
        JsonTree::Object(Self::members(self.community.tree(), self.moderator.tree()))
    }

    open spec fn admits(t: JsonTree) -> bool {
        &&& t is Object
        &&& required_admits::<Community>(t, "community"@)
        &&& required_admits::<Person>(t, "moderator"@)
    }

    open spec fn agrees(&self, t: JsonTree) -> bool {
        &&& required_agrees(self.community, t, "community"@)
        &&& required_agrees(self.moderator, t, "moderator"@)
    }

    fn to_json(&self) -> (out: JsonValue) {
        let mut members: Vec<(String, JsonValue)> = Vec::new();
        assert(members_view(members@) =~= Seq::empty());
        put(&mut members, "community", &self.community);
        put(&mut members, "moderator", &self.moderator);
        object(members)
    }

    fn from_json(v: &JsonValue) -> (res: Option<Self>) {
        if !v.is_object() {
            return None;
        }
        let community = required::<Community>(v, "community")?;
        let moderator = required::<Person>(v, "moderator")?;
        Some(CommunityModeratorView { community, moderator })
    }

    proof fn lemma_round_trip(&self) {
        Self::lemma_members(self.community.tree(), self.moderator.tree());
        self.community.lemma_round_trip();
        self.moderator.lemma_round_trip();
    }

    proof fn lemma_reads_one(&self, other: &Self, t: JsonTree) {
        lemma_required_reads_one(self.community, other.community, t, "community"@);
        lemma_required_reads_one(self.moderator, other.moderator, t, "moderator"@);
    }
}

#[derive(Clone, Debug, PartialEq, Default)]
pub struct CommunityResponse {
    pub community_view: CommunityView,
    pub discussion_languages: Vec<i32>,
}

impl CommunityResponse {
    /// The members that a record is written as, from what is written for
    /// each of its fields.
    pub open spec fn members(
        community_view: JsonTree,
        discussion_languages: JsonTree,
    ) -> Seq<Member> {
        let members = Seq::empty();
        let members = with_field(members, "community_view"@, community_view);
        let members = with_field(members, "discussion_languages"@, discussion_languages);
        members
    }

    /// Each key leads to what was written under it, and to nothing where
    /// nothing was written.
    pub proof fn lemma_members(community_view: JsonTree, discussion_languages: JsonTree)
        ensures
            ({
                let members = Self::members(community_view, discussion_languages);
                &&& lookup(members, "community_view"@) == Some(community_view)
                &&& lookup(members, "discussion_languages"@) == Some(discussion_languages)
            }),
    {
        broadcast use group_written_members;

        reveal_strlit("community_view");
        reveal_strlit("discussion_languages");
        assert("community_view"@.len() == 14);
        assert("discussion_languages"@.len() == 20);
    }

    /// Every field is mandatory: each is written, in order, and nothing
    /// else.
    pub proof fn lemma_mandatory_fields_alone(
        community_view: JsonTree,
        discussion_languages: JsonTree,
    )
        ensures
            Self::members(community_view, discussion_languages) == Seq::<Member>::empty()
                .push(("community_view"@, community_view))
                .push(("discussion_languages"@, discussion_languages)),
    {
        reveal(with_field);
        reveal(with_optional);
    }
}

impl Payload for CommunityResponse {
    open spec fn tree(&self) -> JsonTree {
        JsonTree::Object(
            Self::members(self.community_view.tree(), self.discussion_languages.tree()),
        )
    }

    open spec fn admits(t: JsonTree) -> bool {
        &&& t is Object
        &&& required_admits::<CommunityView>(t, "community_view"@)
        &&& required_admits::<Vec<i32>>(t, "discussion_languages"@)
    }

    open spec fn agrees(&self, t: JsonTree) -> bool {
        &&& required_agrees(self.community_view, t, "community_view"@)
        &&& required_agrees(self.discussion_languages, t, "discussion_languages"@)
    }

    fn to_json(&self) -> (out: JsonValue) {
        let mut members: Vec<(String, JsonValue)> = Vec::new();
        assert(members_view(members@) =~= Seq::empty());
        put(&mut members, "community_view", &self.community_view);
        put(&mut members, "discussion_languages", &self.discussion_languages);
        object(members)
    }

    fn from_json(v: &JsonValue) -> (res: Option<Self>) {
        if !v.is_object() {
            return None;
        }
        let community_view = required::<CommunityView>(v, "community_view")?;
        let discussion_languages = required::<Vec<i32>>(v, "discussion_languages")?;
        Some(CommunityResponse { community_view, discussion_languages })
    }

    proof fn lemma_round_trip(&self) {
        Self::lemma_members(self.community_view.tree(), self.discussion_languages.tree());
        self.community_view.lemma_round_trip();
        self.discussion_languages.lemma_round_trip();
    }

    proof fn lemma_reads_one(&self, other: &Self, t: JsonTree) {
        lemma_required_reads_one(self.community_view, other.community_view, t, "community_view"@);
        lemma_required_reads_one(
            self.discussion_languages,
            other.discussion_languages,
            t,
            "discussion_languages"@,
        );
    }
}

#[derive(Clone, Debug, PartialEq, Default)]
pub struct CommunityView {
    pub blocked: bool,
    pub community: Community,
    pub counts: CommunityAggregates,
    pub subscribed: SubscribedType,
}

impl CommunityView {
    /// The members that a record is written as, from what is written for
    /// each of its fields.
    pub open spec fn members(
        blocked: JsonTree,
        community: JsonTree,
        counts: JsonTree,
        subscribed: JsonTree,
    ) -> Seq<Member> {
        let members = Seq::empty();
        let members = with_field(members, "blocked"@, blocked);
        let members = with_field(members, "community"@, community);
        let members = with_field(members, "counts"@, counts);
        let members = with_field(members, "subscribed"@, subscribed);
        members
    }

    /// Each key leads to what was written under it, and to nothing where
    /// nothing was written.
    pub proof fn lemma_members(
        blocked: JsonTree,
        community: JsonTree,
        counts: JsonTree,
        subscribed: JsonTree,
    )
        ensures
            ({
                let members = Self::members(blocked, community, counts, subscribed);
                &&& lookup(members, "blocked"@) == Some(blocked)
                &&& lookup(members, "community"@) == Some(community)
                &&& lookup(members, "counts"@) == Some(counts)
                &&& lookup(members, "subscribed"@) == Some(subscribed)
            }),
    {
        broadcast use group_written_members;

        reveal_strlit("blocked");
        reveal_strlit("community");
        reveal_strlit("counts");
        reveal_strlit("subscribed");
        assert("blocked"@.len() == 7);
        assert("community"@.len() == 9);
        assert("counts"@.len() == 6);
        assert("subscribed"@.len() == 10);
    }

    /// Every field is mandatory: each is written, in order, and nothing
    /// else.
    pub proof fn lemma_mandatory_fields_alone(
        blocked: JsonTree,
        community: JsonTree,
        counts: JsonTree,
        subscribed: JsonTree,
    )
        ensures
            Self::members(blocked, community, counts, subscribed) == Seq::<Member>::empty()
                .push(("blocked"@, blocked))
                .push(("community"@, community))
                .push(("counts"@, counts))
                .push(("subscribed"@, subscribed)),
    {
        reveal(with_field);
        reveal(with_optional);
    }
}

impl Payload for CommunityView {
    open spec fn tree(&self) -> JsonTree {
        JsonTree::Object(
            Self::members(
                self.blocked.tree(),
                self.community.tree(),
                self.counts.tree(),
                self.subscribed.tree(),
            ),
        )
    }

    open spec fn admits(t: JsonTree) -> bool {
        &&& t is Object
        &&& required_admits::<bool>(t, "blocked"@)
        &&& required_admits::<Community>(t, "community"@)
        &&& required_admits::<CommunityAggregates>(t, "counts"@)
        &&& required_admits::<SubscribedType>(t, "subscribed"@)
    }

    open spec fn agrees(&self, t: JsonTree) -> bool {
        &&& required_agrees(self.blocked, t, "blocked"@)
        &&& required_agrees(self.community, t, "community"@)
        &&& required_agrees(self.counts, t, "counts"@)
        &&& required_agrees(self.subscribed, t, "subscribed"@)
    }

    fn to_json(&self) -> (out: JsonValue) {
        let mut members: Vec<(String, JsonValue)> = Vec::new();
        assert(members_view(members@) =~= Seq::empty());
        put(&mut members, "blocked", &self.blocked);
        put(&mut members, "community", &self.community);
        put(&mut members, "counts", &self.counts);
        put(&mut members, "subscribed", &self.subscribed);
        object(members)
    }

    fn from_json(v: &JsonValue) -> (res: Option<Self>) {
        if !v.is_object() {
            return None;
        }
        let blocked = required::<bool>(v, "blocked")?;
        let community = required::<Community>(v, "community")?;
        let counts = required::<CommunityAggregates>(v, "counts")?;
        let subscribed = required::<SubscribedType>(v, "subscribed")?;
        Some(CommunityView { blocked, community, counts, subscribed })
    }

    proof fn lemma_round_trip(&self) {
        Self::lemma_members(
            self.blocked.tree(),
            self.community.tree(),
            self.counts.tree(),
            self.subscribed.tree(),
        );
        self.blocked.lemma_round_trip();
        self.community.lemma_round_trip();
        self.counts.lemma_round_trip();
        self.subscribed.lemma_round_trip();
    }

    proof fn lemma_reads_one(&self, other: &Self, t: JsonTree) {
        lemma_required_reads_one(self.blocked, other.blocked, t, "blocked"@);
        lemma_required_reads_one(self.community, other.community, t, "community"@);
        lemma_required_reads_one(self.counts, other.counts, t, "counts"@);
        lemma_required_reads_one(self.subscribed, other.subscribed, t, "subscribed"@);
    }
}

#[derive(Clone, Debug, PartialEq, Default)]
pub struct CreateCommunity {
    pub auth: String,
    pub banner: Option<String>,
    pub description: Option<String>,
    pub discussion_languages: Option<Vec<i32>>,
    pub icon: Option<String>,
    pub name: String,
    pub nsfw: Option<bool>,
    pub posting_restricted_to_mods: Option<bool>,
    pub title: String,
}

impl CreateCommunity {
    /// The members that a record is written as, from what is written for
    /// each of its fields.
    pub open spec fn members(
        auth: JsonTree,
        banner: Option<JsonTree>,
        description: Option<JsonTree>,
        discussion_languages: Option<JsonTree>,
        icon: Option<JsonTree>,
        name: JsonTree,
        nsfw: Option<JsonTree>,
        posting_restricted_to_mods: Option<JsonTree>,
        title: JsonTree,
    ) -> Seq<Member> {
        let members = Seq::empty();
        let members = with_field(members, "auth"@, auth);
        let members = with_optional(members, "banner"@, banner);
        let members = with_optional(members, "description"@, description);
        let members = with_optional(members, "discussion_languages"@, discussion_languages);
        let members = with_optional(members, "icon"@, icon);
        let members = with_field(members, "name"@, name);
        let members = with_optional(members, "nsfw"@, nsfw);
        let members = with_optional(
            members,
            "posting_restricted_to_mods"@,
            posting_restricted_to_mods,
        );
        let members = with_field(members, "title"@, title);
        members
    }

    /// Each key leads to what was written under it, and to nothing where
    /// nothing was written.
    pub proof fn lemma_members(
        auth: JsonTree,
        banner: Option<JsonTree>,
        description: Option<JsonTree>,
        discussion_languages: Option<JsonTree>,
        icon: Option<JsonTree>,
        name: JsonTree,
        nsfw: Option<JsonTree>,
        posting_restricted_to_mods: Option<JsonTree>,
        title: JsonTree,
    )
        ensures
            ({
                let members = Self::members(
                    auth,
                    banner,
                    description,
                    discussion_languages,
                    icon,
                    name,
                    nsfw,
                    posting_restricted_to_mods,
                    title,
                );
                &&& lookup(members, "auth"@) == Some(auth)
                &&& lookup(members, "banner"@) == banner
                &&& lookup(members, "description"@) == description
                &&& lookup(members, "discussion_languages"@) == discussion_languages
                &&& lookup(members, "icon"@) == icon
                &&& lookup(members, "name"@) == Some(name)
                &&& lookup(members, "nsfw"@) == nsfw
                &&& lookup(members, "posting_restricted_to_mods"@) == posting_restricted_to_mods
                &&& lookup(members, "title"@) == Some(title)
            }),
    {
        broadcast use group_written_members;

        reveal_strlit("auth");
        reveal_strlit("banner");
        reveal_strlit("description");
        reveal_strlit("discussion_languages");
        reveal_strlit("icon");
        reveal_strlit("name");
        reveal_strlit("nsfw");
        reveal_strlit("posting_restricted_to_mods");
        reveal_strlit("title");
        assert("auth"@.len() == 4 && "auth"@[0] == 'a');
        assert("banner"@.len() == 6);
        assert("description"@.len() == 11);
        assert("discussion_languages"@.len() == 20);
        assert("icon"@.len() == 4 && "icon"@[0] == 'i');
        assert("name"@.len() == 4 && "name"@[0] == 'n' && "name"@[1] == 'a');
        assert("nsfw"@.len() == 4 && "nsfw"@[0] == 'n' && "nsfw"@[1] == 's');
        assert("posting_restricted_to_mods"@.len() == 26);
        assert("title"@.len() == 5);
    }

    /// With every optional field absent, the mandatory fields are written
    /// and nothing else.
    pub proof fn lemma_mandatory_fields_alone(auth: JsonTree, name: JsonTree, title: JsonTree)
        ensures
            Self::members(
                auth,
                None,
                None,
                None,
                None,
                name,
                None,
                None,
                title,
            ) == Seq::<Member>::empty()
                .push(("auth"@, auth))
                .push(("name"@, name))
                .push(("title"@, title)),
    {
        reveal(with_field);
        reveal(with_optional);
    }
}

impl Payload for CreateCommunity {
    open spec fn tree(&self) -> JsonTree {
        JsonTree::Object(
            Self::members(
                self.auth.tree(),
                written(self.banner),
                written(self.description),
                written(self.discussion_languages),
                written(self.icon),
                self.name.tree(),
                written(self.nsfw),
                written(self.posting_restricted_to_mods),
                self.title.tree(),
            ),
        )
    }

    open spec fn admits(t: JsonTree) -> bool {
        &&& t is Object
        &&& required_admits::<String>(t, "auth"@)
        &&& optional_admits::<String>(t, "banner"@)
        &&& optional_admits::<String>(t, "description"@)
        &&& optional_admits::<Vec<i32>>(t, "discussion_languages"@)
        &&& optional_admits::<String>(t, "icon"@)
        &&& required_admits::<String>(t, "name"@)
        &&& optional_admits::<bool>(t, "nsfw"@)
        &&& optional_admits::<bool>(t, "posting_restricted_to_mods"@)
        &&& required_admits::<String>(t, "title"@)
    }

    open spec fn agrees(&self, t: JsonTree) -> bool {
        &&& required_agrees(self.auth, t, "auth"@)
        &&& optional_agrees(self.banner, t, "banner"@)
        &&& optional_agrees(self.description, t, "description"@)
        &&& optional_agrees(self.discussion_languages, t, "discussion_languages"@)
        &&& optional_agrees(self.icon, t, "icon"@)
        &&& required_agrees(self.name, t, "name"@)
        &&& optional_agrees(self.nsfw, t, "nsfw"@)
        &&& optional_agrees(self.posting_restricted_to_mods, t, "posting_restricted_to_mods"@)
        &&& required_agrees(self.title, t, "title"@)
    }

    fn to_json(&self) -> (out: JsonValue) {
        let mut members: Vec<(String, JsonValue)> = Vec::new();
        assert(members_view(members@) =~= Seq::empty());
        put(&mut members, "auth", &self.auth);
        put_optional(&mut members, "banner", &self.banner);
        put_optional(&mut members, "description", &self.description);
        put_optional(&mut members, "discussion_languages", &self.discussion_languages);
        put_optional(&mut members, "icon", &self.icon);
        put(&mut members, "name", &self.name);
        put_optional(&mut members, "nsfw", &self.nsfw);
        put_optional(&mut members, "posting_restricted_to_mods", &self.posting_restricted_to_mods);
        put(&mut members, "title", &self.title);
        object(members)
    }

    fn from_json(v: &JsonValue) -> (res: Option<Self>) {
        if !v.is_object() {
            return None;
        }
        let auth = required::<String>(v, "auth")?;
        let banner = optional::<String>(v, "banner")?;
        let description = optional::<String>(v, "description")?;
        let discussion_languages = optional::<Vec<i32>>(v, "discussion_languages")?;
        let icon = optional::<String>(v, "icon")?;
        let name = required::<String>(v, "name")?;
        let nsfw = optional::<bool>(v, "nsfw")?;
        let posting_restricted_to_mods = optional::<bool>(v, "posting_restricted_to_mods")?;
        let title = required::<String>(v, "title")?;
        Some(
            CreateCommunity {
                auth,
                banner,
                description,
                discussion_languages,
                icon,
                name,
                nsfw,
                posting_restricted_to_mods,
                title,
            },
        )
    }

    proof fn lemma_round_trip(&self) {
        Self::lemma_members(
            self.auth.tree(),
            written(self.banner),
            written(self.description),
            written(self.discussion_languages),
            written(self.icon),
            self.name.tree(),
            written(self.nsfw),
            written(self.posting_restricted_to_mods),
            self.title.tree(),
        );
        self.auth.lemma_round_trip();
        lemma_optional_round_trip(self.banner);
        lemma_optional_round_trip(self.description);
        lemma_optional_round_trip(self.discussion_languages);
        lemma_optional_round_trip(self.icon);
        self.name.lemma_round_trip();
        lemma_optional_round_trip(self.nsfw);
        lemma_optional_round_trip(self.posting_restricted_to_mods);
        self.title.lemma_round_trip();
    }

    proof fn lemma_reads_one(&self, other: &Self, t: JsonTree) {
        lemma_required_reads_one(self.auth, other.auth, t, "auth"@);
        lemma_optional_reads_one(self.banner, other.banner, t, "banner"@);
        lemma_optional_reads_one(self.description, other.description, t, "description"@);
        lemma_optional_reads_one(
            self.discussion_languages,
            other.discussion_languages,
            t,
            "discussion_languages"@,
        );
        lemma_optional_reads_one(self.icon, other.icon, t, "icon"@);
        lemma_required_reads_one(self.name, other.name, t, "name"@);
        lemma_optional_reads_one(self.nsfw, other.nsfw, t, "nsfw"@);
        lemma_optional_reads_one(
            self.posting_restricted_to_mods,
            other.posting_restricted_to_mods,
            t,
            "posting_restricted_to_mods"@,
        );
        lemma_required_reads_one(self.title, other.title, t, "title"@);
    }
}

#[derive(Clone, Debug, PartialEq, Default)]
pub struct DeleteCommunity {
    pub auth: String,
    pub community_id: i32,
    pub deleted: bool,
}

impl DeleteCommunity {
    /// The members that a record is written as, from what is written for
    /// each of its fields.
    pub open spec fn members(
        auth: JsonTree,
        community_id: JsonTree,
        deleted: JsonTree,
    ) -> Seq<Member> {
        let members = Seq::empty();
        let members = with_field(members, "auth"@, auth);
        let members = with_field(members, "community_id"@, community_id);
        let members = with_field(members, "deleted"@, deleted);
        members
    }

    /// Each key leads to what was written under it, and to nothing where
    /// nothing was written.
    pub proof fn lemma_members(auth: JsonTree, community_id: JsonTree, deleted: JsonTree)
        ensures
            ({
                let members = Self::members(auth, community_id, deleted);
                &&& lookup(members, "auth"@) == Some(auth)
                &&& lookup(members, "community_id"@) == Some(community_id)
                &&& lookup(members, "deleted"@) == Some(deleted)
            }),
    {
        broadcast use group_written_members;

        reveal_strlit("auth");
        reveal_strlit("community_id");
        reveal_strlit("deleted");
        assert("auth"@.len() == 4);
        assert("community_id"@.len() == 12);
        assert("deleted"@.len() == 7);
    }

    /// Every field is mandatory: each is written, in order, and nothing
    /// else.
    pub proof fn lemma_mandatory_fields_alone(
        auth: JsonTree,
        community_id: JsonTree,
        deleted: JsonTree,
    )
        ensures
            Self::members(auth, community_id, deleted) == Seq::<Member>::empty()
                .push(("auth"@, auth))
                .push(("community_id"@, community_id))
                .push(("deleted"@, deleted)),
    {
        reveal(with_field);
        reveal(with_optional);
    }
}

impl Payload for DeleteCommunity {
    open spec fn tree(&self) -> JsonTree {
        JsonTree::Object(
            Self::members(self.auth.tree(), self.community_id.tree(), self.deleted.tree()),
        )
    }

    open spec fn admits(t: JsonTree) -> bool {
        &&& t is Object
        &&& required_admits::<String>(t, "auth"@)
        &&& required_admits::<i32>(t, "community_id"@)
        &&& required_admits::<bool>(t, "deleted"@)
    }

    open spec fn agrees(&self, t: JsonTree) -> bool {
        &&& required_agrees(self.auth, t, "auth"@)
        &&& required_agrees(self.community_id, t, "community_id"@)
        &&& required_agrees(self.deleted, t, "deleted"@)
    }

    fn to_json(&self) -> (out: JsonValue) {
        let mut members: Vec<(String, JsonValue)> = Vec::new();
        assert(members_view(members@) =~= Seq::empty());
        put(&mut members, "auth", &self.auth);
        put(&mut members, "community_id", &self.community_id);
        put(&mut members, "deleted", &self.deleted);
        object(members)
    }

    fn from_json(v: &JsonValue) -> (res: Option<Self>) {
        if !v.is_object() {
            return None;
        }
        let auth = required::<String>(v, "auth")?;
        let community_id = required::<i32>(v, "community_id")?;
        let deleted = required::<bool>(v, "deleted")?;
        Some(DeleteCommunity { auth, community_id, deleted })
    }

    proof fn lemma_round_trip(&self) {
        Self::lemma_members(self.auth.tree(), self.community_id.tree(), self.deleted.tree());
        self.auth.lemma_round_trip();
        self.community_id.lemma_round_trip();
        self.deleted.lemma_round_trip();
    }

    proof fn lemma_reads_one(&self, other: &Self, t: JsonTree) {
        lemma_required_reads_one(self.auth, other.auth, t, "auth"@);
        lemma_required_reads_one(self.community_id, other.community_id, t, "community_id"@);
        lemma_required_reads_one(self.deleted, other.deleted, t, "deleted"@);
    }
}

#[derive(Clone, Debug, PartialEq, Default)]
pub struct EditCommunity {
    pub auth: String,
    pub banner: Option<String>,
    pub community_id: i32,
    pub description: Option<String>,
    pub discussion_languages: Option<Vec<i32>>,
    pub icon: Option<String>,
    pub nsfw: Option<bool>,
    pub posting_restricted_to_mods: Option<bool>,
    pub title: Option<String>,
}

impl EditCommunity {
    /// The members that a record is written as, from what is written for
    /// each of its fields.
    pub open spec fn members(
        auth: JsonTree,
        banner: Option<JsonTree>,
        community_id: JsonTree,
        description: Option<JsonTree>,
        discussion_languages: Option<JsonTree>,
        icon: Option<JsonTree>,
        nsfw: Option<JsonTree>,
        posting_restricted_to_mods: Option<JsonTree>,
        title: Option<JsonTree>,
    ) -> Seq<Member> {
        let members = Seq::empty();
        let members = with_field(members, "auth"@, auth);
        let members = with_optional(members, "banner"@, banner);
        let members = with_field(members, "community_id"@, community_id);
        let members = with_optional(members, "description"@, description);
        let members = with_optional(members, "discussion_languages"@, discussion_languages);
        let members = with_optional(members, "icon"@, icon);
        let members = with_optional(members, "nsfw"@, nsfw);
        let members = with_optional(
            members,
            "posting_restricted_to_mods"@,
            posting_restricted_to_mods,
        );
        let members = with_optional(members, "title"@, title);
        members
    }

    /// Each key leads to what was written under it, and to nothing where
    /// nothing was written.
    pub proof fn lemma_members(
        auth: JsonTree,
        banner: Option<JsonTree>,
        community_id: JsonTree,
        description: Option<JsonTree>,
        discussion_languages: Option<JsonTree>,
        icon: Option<JsonTree>,
        nsfw: Option<JsonTree>,
        posting_restricted_to_mods: Option<JsonTree>,
        title: Option<JsonTree>,
    )
        ensures
            ({
                let members = Self::members(
                    auth,
                    banner,
                    community_id,
                    description,
                    discussion_languages,
                    icon,
                    nsfw,
                    posting_restricted_to_mods,
                    title,
                );
                &&& lookup(members, "auth"@) == Some(auth)
                &&& lookup(members, "banner"@) == banner
                &&& lookup(members, "community_id"@) == Some(community_id)
                &&& lookup(members, "description"@) == description
                &&& lookup(members, "discussion_languages"@) == discussion_languages
                &&& lookup(members, "icon"@) == icon
                &&& lookup(members, "nsfw"@) == nsfw
                &&& lookup(members, "posting_restricted_to_mods"@) == posting_restricted_to_mods
                &&& lookup(members, "title"@) == title
            }),
    {
        broadcast use group_written_members;

        reveal_strlit("auth");
        reveal_strlit("banner");
        reveal_strlit("community_id");
        reveal_strlit("description");
        reveal_strlit("discussion_languages");
        reveal_strlit("icon");
        reveal_strlit("nsfw");
        reveal_strlit("posting_restricted_to_mods");
        reveal_strlit("title");
        assert("auth"@.len() == 4 && "auth"@[0] == 'a');
        assert("banner"@.len() == 6);
        assert("community_id"@.len() == 12);
        assert("description"@.len() == 11);
        assert("discussion_languages"@.len() == 20);
        assert("icon"@.len() == 4 && "icon"@[0] == 'i');
        assert("nsfw"@.len() == 4 && "nsfw"@[0] == 'n');
        assert("posting_restricted_to_mods"@.len() == 26);
        assert("title"@.len() == 5);
    }

    /// With every optional field absent, the mandatory fields are written
    /// and nothing else.
    pub proof fn lemma_mandatory_fields_alone(auth: JsonTree, community_id: JsonTree)
        ensures
            Self::members(
                auth,
                None,
                community_id,
                None,
                None,
                None,
                None,
                None,
                None,
            ) == Seq::<Member>::empty()
                .push(("auth"@, auth))
                .push(("community_id"@, community_id)),
    {
        reveal(with_field);
        reveal(with_optional);
    }
}

impl Payload for EditCommunity {
    open spec fn tree(&self) -> JsonTree {
        JsonTree::Object(
            Self::members(
                self.auth.tree(),
                written(self.banner),
                self.community_id.tree(),
                written(self.description),
                written(self.discussion_languages),
                written(self.icon),
                written(self.nsfw),
                written(self.posting_restricted_to_mods),
                written(self.title),
            ),
        )
    }

    open spec fn admits(t: JsonTree) -> bool {
        &&& t is Object
        &&& required_admits::<String>(t, "auth"@)
        &&& optional_admits::<String>(t, "banner"@)
        &&& required_admits::<i32>(t, "community_id"@)
        &&& optional_admits::<String>(t, "description"@)
        &&& optional_admits::<Vec<i32>>(t, "discussion_languages"@)
        &&& optional_admits::<String>(t, "icon"@)
        &&& optional_admits::<bool>(t, "nsfw"@)
        &&& optional_admits::<bool>(t, "posting_restricted_to_mods"@)
        &&& optional_admits::<String>(t, "title"@)
    }

    open spec fn agrees(&self, t: JsonTree) -> bool {
        &&& required_agrees(self.auth, t, "auth"@)
        &&& optional_agrees(self.banner, t, "banner"@)
        &&& required_agrees(self.community_id, t, "community_id"@)
        &&& optional_agrees(self.description, t, "description"@)
        &&& optional_agrees(self.discussion_languages, t, "discussion_languages"@)
        &&& optional_agrees(self.icon, t, "icon"@)
        &&& optional_agrees(self.nsfw, t, "nsfw"@)
        &&& optional_agrees(self.posting_restricted_to_mods, t, "posting_restricted_to_mods"@)
        &&& optional_agrees(self.title, t, "title"@)
    }

    fn to_json(&self) -> (out: JsonValue) {
        let mut members: Vec<(String, JsonValue)> = Vec::new();
        assert(members_view(members@) =~= Seq::empty());
        put(&mut members, "auth", &self.auth);
        put_optional(&mut members, "banner", &self.banner);
        put(&mut members, "community_id", &self.community_id);
        put_optional(&mut members, "description", &self.description);
        put_optional(&mut members, "discussion_languages", &self.discussion_languages);
        put_optional(&mut members, "icon", &self.icon);
        put_optional(&mut members, "nsfw", &self.nsfw);
        put_optional(&mut members, "posting_restricted_to_mods", &self.posting_restricted_to_mods);
        put_optional(&mut members, "title", &self.title);
        object(members)
    }

    fn from_json(v: &JsonValue) -> (res: Option<Self>) {
        if !v.is_object() {
            return None;
        }
        let auth = required::<String>(v, "auth")?;
        let banner = optional::<String>(v, "banner")?;
        let community_id = required::<i32>(v, "community_id")?;
        let description = optional::<String>(v, "description")?;
        let discussion_languages = optional::<Vec<i32>>(v, "discussion_languages")?;
        let icon = optional::<String>(v, "icon")?;
        let nsfw = optional::<bool>(v, "nsfw")?;
        let posting_restricted_to_mods = optional::<bool>(v, "posting_restricted_to_mods")?;
        let title = optional::<String>(v, "title")?;
        Some(
            EditCommunity {
                auth,
                banner,
                community_id,
                description,
                discussion_languages,
                icon,
                nsfw,
                posting_restricted_to_mods,
                title,
            },
        )
    }

    proof fn lemma_round_trip(&self) {
        Self::lemma_members(
            self.auth.tree(),
            written(self.banner),
            self.community_id.tree(),
            written(self.description),
            written(self.discussion_languages),
            written(self.icon),
            written(self.nsfw),
            written(self.posting_restricted_to_mods),
            written(self.title),
        );
        self.auth.lemma_round_trip();
        lemma_optional_round_trip(self.banner);
        self.community_id.lemma_round_trip();
        lemma_optional_round_trip(self.description);
        lemma_optional_round_trip(self.discussion_languages);
        lemma_optional_round_trip(self.icon);
        lemma_optional_round_trip(self.nsfw);
        lemma_optional_round_trip(self.posting_restricted_to_mods);
        lemma_optional_round_trip(self.title);
    }

    proof fn lemma_reads_one(&self, other: &Self, t: JsonTree) {
        lemma_required_reads_one(self.auth, other.auth, t, "auth"@);
        lemma_optional_reads_one(self.banner, other.banner, t, "banner"@);
        lemma_required_reads_one(self.community_id, other.community_id, t, "community_id"@);
        lemma_optional_reads_one(self.description, other.description, t, "description"@);
        lemma_optional_reads_one(
            self.discussion_languages,
            other.discussion_languages,
            t,
            "discussion_languages"@,
        );
        lemma_optional_reads_one(self.icon, other.icon, t, "icon"@);
        lemma_optional_reads_one(self.nsfw, other.nsfw, t, "nsfw"@);
        lemma_optional_reads_one(
            self.posting_restricted_to_mods,
            other.posting_restricted_to_mods,
            t,
            "posting_restricted_to_mods"@,
        );
        lemma_optional_reads_one(self.title, other.title, t, "title"@);
    }
}

#[derive(Clone, Debug, PartialEq, Default)]
pub struct FollowCommunity {
    pub auth: String,
    pub community_id: i32,
    pub follow: bool,
}

impl FollowCommunity {
    /// The members that a record is written as, from what is written for
    /// each of its fields.
    pub open spec fn members(
        auth: JsonTree,
        community_id: JsonTree,
        follow: JsonTree,
    ) -> Seq<Member> {
        let members = Seq::empty();
        let members = with_field(members, "auth"@, auth);
        let members = with_field(members, "community_id"@, community_id);
        let members = with_field(members, "follow"@, follow);
        members
    }

    /// Each key leads to what was written under it, and to nothing where
    /// nothing was written.
    pub proof fn lemma_members(auth: JsonTree, community_id: JsonTree, follow: JsonTree)
        ensures
            ({
                let members = Self::members(auth, community_id, follow);
                &&& lookup(members, "auth"@) == Some(auth)
                &&& lookup(members, "community_id"@) == Some(community_id)
                &&& lookup(members, "follow"@) == Some(follow)
            }),
    {
        broadcast use group_written_members;

        reveal_strlit("auth");
        reveal_strlit("community_id");
        reveal_strlit("follow");
        assert("auth"@.len() == 4);
        assert("community_id"@.len() == 12);
        assert("follow"@.len() == 6);
    }

    /// Every field is mandatory: each is written, in order, and nothing
    /// else.
    pub proof fn lemma_mandatory_fields_alone(
        auth: JsonTree,
        community_id: JsonTree,
        follow: JsonTree,
    )
        ensures
            Self::members(auth, community_id, follow) == Seq::<Member>::empty()
                .push(("auth"@, auth))
                .push(("community_id"@, community_id))
                .push(("follow"@, follow)),
    {
        reveal(with_field);
        reveal(with_optional);
    }
}

impl Payload for FollowCommunity {
    open spec fn tree(&self) -> JsonTree {
        JsonTree::Object(
            Self::members(self.auth.tree(), self.community_id.tree(), self.follow.tree()),
        )
    }

    open spec fn admits(t: JsonTree) -> bool {
        &&& t is Object
        &&& required_admits::<String>(t, "auth"@)
        &&& required_admits::<i32>(t, "community_id"@)
        &&& required_admits::<bool>(t, "follow"@)
    }

    open spec fn agrees(&self, t: JsonTree) -> bool {
        &&& required_agrees(self.auth, t, "auth"@)
        &&& required_agrees(self.community_id, t, "community_id"@)
        &&& required_agrees(self.follow, t, "follow"@)
    }

    fn to_json(&self) -> (out: JsonValue) {
        let mut members: Vec<(String, JsonValue)> = Vec::new();
        assert(members_view(members@) =~= Seq::empty());
        put(&mut members, "auth", &self.auth);
        put(&mut members, "community_id", &self.community_id);
        put(&mut members, "follow", &self.follow);
        object(members)
    }

    fn from_json(v: &JsonValue) -> (res: Option<Self>) {
        if !v.is_object() {
            return None;
        }
        let auth = required::<String>(v, "auth")?;
        let community_id = required::<i32>(v, "community_id")?;
        let follow = required::<bool>(v, "follow")?;
        Some(FollowCommunity { auth, community_id, follow })
    }

    proof fn lemma_round_trip(&self) {
        Self::lemma_members(self.auth.tree(), self.community_id.tree(), self.follow.tree());
        self.auth.lemma_round_trip();
        self.community_id.lemma_round_trip();
        self.follow.lemma_round_trip();
    }

    proof fn lemma_reads_one(&self, other: &Self, t: JsonTree) {
        lemma_required_reads_one(self.auth, other.auth, t, "auth"@);
        lemma_required_reads_one(self.community_id, other.community_id, t, "community_id"@);
        lemma_required_reads_one(self.follow, other.follow, t, "follow"@);
    }
}

#[derive(Clone, Debug, PartialEq, Default)]
pub struct GetCommunity {
    pub auth: Option<String>,
    pub id: Option<i32>,
    pub name: Option<String>,
}

impl GetCommunity {
    /// The members that a record is written as, from what is written for
    /// each of its fields.
    pub open spec fn members(
        auth: Option<JsonTree>,
        id: Option<JsonTree>,
        name: Option<JsonTree>,
    ) -> Seq<Member> {
        let members = Seq::empty();
        let members = with_optional(members, "auth"@, auth);
        let members = with_optional(members, "id"@, id);
        let members = with_optional(members, "name"@, name);
        members
    }

    /// Each key leads to what was written under it, and to nothing where
    /// nothing was written.
    pub proof fn lemma_members(auth: Option<JsonTree>, id: Option<JsonTree>, name: Option<JsonTree>)
        ensures
            ({
                let members = Self::members(auth, id, name);
                &&& lookup(members, "auth"@) == auth
                &&& lookup(members, "id"@) == id
                &&& lookup(members, "name"@) == name
            }),
    {
        broadcast use group_written_members;

        reveal_strlit("auth");
        reveal_strlit("id");
        reveal_strlit("name");
        assert("auth"@.len() == 4 && "auth"@[0] == 'a');
        assert("id"@.len() == 2);
        assert("name"@.len() == 4 && "name"@[0] == 'n');
    }

    /// With every field absent, nothing is written.
    pub proof fn lemma_mandatory_fields_alone()
        ensures
            Self::members(None, None, None) == Seq::<Member>::empty(),
    {
        reveal(with_field);
        reveal(with_optional);
    }
}

impl Payload for GetCommunity {
    open spec fn tree(&self) -> JsonTree {
        JsonTree::Object(Self::members(written(self.auth), written(self.id), written(self.name)))
    }

    open spec fn admits(t: JsonTree) -> bool {
        &&& t is Object
        &&& optional_admits::<String>(t, "auth"@)
        &&& optional_admits::<i32>(t, "id"@)
        &&& optional_admits::<String>(t, "name"@)
    }

    open spec fn agrees(&self, t: JsonTree) -> bool {
        &&& optional_agrees(self.auth, t, "auth"@)
        &&& optional_agrees(self.id, t, "id"@)
        &&& optional_agrees(self.name, t, "name"@)
    }

    fn to_json(&self) -> (out: JsonValue) {
        let mut members: Vec<(String, JsonValue)> = Vec::new();
        assert(members_view(members@) =~= Seq::empty());
        put_optional(&mut members, "auth", &self.auth);
        put_optional(&mut members, "id", &self.id);
        put_optional(&mut members, "name", &self.name);
        object(members)
    }

    fn from_json(v: &JsonValue) -> (res: Option<Self>) {
        if !v.is_object() {
            return None;
        }
        let auth = optional::<String>(v, "auth")?;
        let id = optional::<i32>(v, "id")?;
        let name = optional::<String>(v, "name")?;
        Some(GetCommunity { auth, id, name })
    }

    proof fn lemma_round_trip(&self) {
        Self::lemma_members(written(self.auth), written(self.id), written(self.name));
        lemma_optional_round_trip(self.auth);
        lemma_optional_round_trip(self.id);
        lemma_optional_round_trip(self.name);
    }

    proof fn lemma_reads_one(&self, other: &Self, t: JsonTree) {
        lemma_optional_reads_one(self.auth, other.auth, t, "auth"@);
        lemma_optional_reads_one(self.id, other.id, t, "id"@);
        lemma_optional_reads_one(self.name, other.name, t, "name"@);
    }
}

#[derive(Clone, Debug, PartialEq, Default)]
pub struct GetCommunityResponse {
    pub community_view: CommunityView,
    pub discussion_languages: Vec<i32>,
    pub moderators: Vec<CommunityModeratorView>,
    pub site: Option<Site>,
}

impl GetCommunityResponse {
    /// The members that a record is written as, from what is written for
    /// each of its fields.
    pub open spec fn members(
        community_view: JsonTree,
        discussion_languages: JsonTree,
        moderators: JsonTree,
        site: Option<JsonTree>,
    ) -> Seq<Member> {
        let members = Seq::empty();
        let members = with_field(members, "community_view"@, community_view);
        let members = with_field(members, "discussion_languages"@, discussion_languages);
        let members = with_field(members, "moderators"@, moderators);
        let members = with_optional(members, "site"@, site);
        members
    }

    /// Each key leads to what was written under it, and to nothing where
    /// nothing was written.
    pub proof fn lemma_members(
        community_view: JsonTree,
        discussion_languages: JsonTree,
        moderators: JsonTree,
        site: Option<JsonTree>,
    )
        ensures
            ({
                let members = Self::members(community_view, discussion_languages, moderators, site);
                &&& lookup(members, "community_view"@) == Some(community_view)
                &&& lookup(members, "discussion_languages"@) == Some(discussion_languages)
                &&& lookup(members, "moderators"@) == Some(moderators)
                &&& lookup(members, "site"@) == site
            }),
    {
        broadcast use group_written_members;

        reveal_strlit("community_view");
        reveal_strlit("discussion_languages");
        reveal_strlit("moderators");
        reveal_strlit("site");
        assert("community_view"@.len() == 14);
        assert("discussion_languages"@.len() == 20);
        assert("moderators"@.len() == 10);
        assert("site"@.len() == 4);
    }

    /// With every optional field absent, the mandatory fields are written
    /// and nothing else.
    pub proof fn lemma_mandatory_fields_alone(
        community_view: JsonTree,
        discussion_languages: JsonTree,
        moderators: JsonTree,
    )
        ensures
            Self::members(
                community_view,
                discussion_languages,
                moderators,
                None,
            ) == Seq::<Member>::empty()
                .push(("community_view"@, community_view))
                .push(("discussion_languages"@, discussion_languages))
                .push(("moderators"@, moderators)),
    {
        reveal(with_field);
        reveal(with_optional);
    }
}

impl Payload for GetCommunityResponse {
    open spec fn tree(&self) -> JsonTree {
        JsonTree::Object(
            Self::members(
                self.community_view.tree(),
                self.discussion_languages.tree(),
                self.moderators.tree(),
                written(self.site),
            ),
        )
    }

    open spec fn admits(t: JsonTree) -> bool {
        &&& t is Object
        &&& required_admits::<CommunityView>(t, "community_view"@)
        &&& required_admits::<Vec<i32>>(t, "discussion_languages"@)
        &&& required_admits::<Vec<CommunityModeratorView>>(t, "moderators"@)
        &&& optional_admits::<Site>(t, "site"@)
    }

    open spec fn agrees(&self, t: JsonTree) -> bool {
        &&& required_agrees(self.community_view, t, "community_view"@)
        &&& required_agrees(self.discussion_languages, t, "discussion_languages"@)
        &&& required_agrees(self.moderators, t, "moderators"@)
        &&& optional_agrees(self.site, t, "site"@)
    }

    fn to_json(&self) -> (out: JsonValue) {
        let mut members: Vec<(String, JsonValue)> = Vec::new();
        assert(members_view(members@) =~= Seq::empty());
        put(&mut members, "community_view", &self.community_view);
        put(&mut members, "discussion_languages", &self.discussion_languages);
        put(&mut members, "moderators", &self.moderators);
        put_optional(&mut members, "site", &self.site);
        object(members)
    }

    fn from_json(v: &JsonValue) -> (res: Option<Self>) {
        if !v.is_object() {
            return None;
        }
        let community_view = required::<CommunityView>(v, "community_view")?;
        let discussion_languages = required::<Vec<i32>>(v, "discussion_languages")?;
        let moderators = required::<Vec<CommunityModeratorView>>(v, "moderators")?;
        let site = optional::<Site>(v, "site")?;
        Some(GetCommunityResponse { community_view, discussion_languages, moderators, site })
    }

    proof fn lemma_round_trip(&self) {
        Self::lemma_members(
            self.community_view.tree(),
            self.discussion_languages.tree(),
            self.moderators.tree(),
            written(self.site),
        );
        self.community_view.lemma_round_trip();
        self.discussion_languages.lemma_round_trip();
        self.moderators.lemma_round_trip();
        lemma_optional_round_trip(self.site);
    }

    proof fn lemma_reads_one(&self, other: &Self, t: JsonTree) {
        lemma_required_reads_one(self.community_view, other.community_view, t, "community_view"@);
        lemma_required_reads_one(
            self.discussion_languages,
            other.discussion_languages,
            t,
            "discussion_languages"@,
        );
        lemma_required_reads_one(self.moderators, other.moderators, t, "moderators"@);
        lemma_optional_reads_one(self.site, other.site, t, "site"@);
    }
}

#[derive(Clone, Debug, PartialEq, Default)]
pub struct HideCommunity {
    pub auth: String,
    pub community_id: i32,
    pub hidden: bool,
    pub reason: Option<String>,
}

impl HideCommunity {
    /// The members that a record is written as, from what is written for
    /// each of its fields.
    pub open spec fn members(
        auth: JsonTree,
        community_id: JsonTree,
        hidden: JsonTree,
        reason: Option<JsonTree>,
    ) -> Seq<Member> {
        let members = Seq::empty();
        let members = with_field(members, "auth"@, auth);
        let members = with_field(members, "community_id"@, community_id);
        let members = with_field(members, "hidden"@, hidden);
        let members = with_optional(members, "reason"@, reason);
        members
    }

    /// Each key leads to what was written under it, and to nothing where
    /// nothing was written.
    pub proof fn lemma_members(
        auth: JsonTree,
        community_id: JsonTree,
        hidden: JsonTree,
        reason: Option<JsonTree>,
    )
        ensures
            ({
                let members = Self::members(auth, community_id, hidden, reason);
                &&& lookup(members, "auth"@) == Some(auth)
                &&& lookup(members, "community_id"@) == Some(community_id)
                &&& lookup(members, "hidden"@) == Some(hidden)
                &&& lookup(members, "reason"@) == reason
            }),
    {
        broadcast use group_written_members;

        reveal_strlit("auth");
        reveal_strlit("community_id");
        reveal_strlit("hidden");
        reveal_strlit("reason");
        assert("auth"@.len() == 4);
        assert("community_id"@.len() == 12);
        assert("hidden"@.len() == 6 && "hidden"@[0] == 'h');
        assert("reason"@.len() == 6 && "reason"@[0] == 'r');
    }

    /// With every optional field absent, the mandatory fields are written
    /// and nothing else.
    pub proof fn lemma_mandatory_fields_alone(
        auth: JsonTree,
        community_id: JsonTree,
        hidden: JsonTree,
    )
        ensures
            Self::members(auth, community_id, hidden, None) == Seq::<Member>::empty()
                .push(("auth"@, auth))
                .push(("community_id"@, community_id))
                .push(("hidden"@, hidden)),
    {
        reveal(with_field);
        reveal(with_optional);
    }
}

impl Payload for HideCommunity {
    open spec fn tree(&self) -> JsonTree {
        JsonTree::Object(
            Self::members(
                self.auth.tree(),
                self.community_id.tree(),
                self.hidden.tree(),
                written(self.reason),
            ),
        )
    }

    open spec fn admits(t: JsonTree) -> bool {
        &&& t is Object
        &&& required_admits::<String>(t, "auth"@)
        &&& required_admits::<i32>(t, "community_id"@)
        &&& required_admits::<bool>(t, "hidden"@)
        &&& optional_admits::<String>(t, "reason"@)
    }

    open spec fn agrees(&self, t: JsonTree) -> bool {
        &&& required_agrees(self.auth, t, "auth"@)
        &&& required_agrees(self.community_id, t, "community_id"@)
        &&& required_agrees(self.hidden, t, "hidden"@)
        &&& optional_agrees(self.reason, t, "reason"@)
    }

    fn to_json(&self) -> (out: JsonValue) {
        let mut members: Vec<(String, JsonValue)> = Vec::new();
        assert(members_view(members@) =~= Seq::empty());
        put(&mut members, "auth", &self.auth);
        put(&mut members, "community_id", &self.community_id);
        put(&mut members, "hidden", &self.hidden);
        put_optional(&mut members, "reason", &self.reason);
        object(members)
    }

    fn from_json(v: &JsonValue) -> (res: Option<Self>) {
        if !v.is_object() {
            return None;
        }
        let auth = required::<String>(v, "auth")?;
        let community_id = required::<i32>(v, "community_id")?;
        let hidden = required::<bool>(v, "hidden")?;
        let reason = optional::<String>(v, "reason")?;
        Some(HideCommunity { auth, community_id, hidden, reason })
    }

    proof fn lemma_round_trip(&self) {
        Self::lemma_members(
            self.auth.tree(),
            self.community_id.tree(),
            self.hidden.tree(),
            written(self.reason),
        );
        self.auth.lemma_round_trip();
        self.community_id.lemma_round_trip();
        self.hidden.lemma_round_trip();
        lemma_optional_round_trip(self.reason);
    }

    proof fn lemma_reads_one(&self, other: &Self, t: JsonTree) {
        lemma_required_reads_one(self.auth, other.auth, t, "auth"@);
        lemma_required_reads_one(self.community_id, other.community_id, t, "community_id"@);
        lemma_required_reads_one(self.hidden, other.hidden, t, "hidden"@);
        lemma_optional_reads_one(self.reason, other.reason, t, "reason"@);
    }
}

#[derive(Clone, Debug, PartialEq, Default)]
pub struct ListCommunities {
    pub auth: Option<String>,
    pub limit: Option<i32>,
    pub page: Option<i32>,
    pub show_nsfw: Option<bool>,
    pub sort: Option<SortType>,
    pub type_: Option<ListingType>,
}

impl ListCommunities {
    /// The members that a record is written as, from what is written for
    /// each of its fields.
    pub open spec fn members(
        auth: Option<JsonTree>,
        limit: Option<JsonTree>,
        page: Option<JsonTree>,
        show_nsfw: Option<JsonTree>,
        sort: Option<JsonTree>,
        type_: Option<JsonTree>,
    ) -> Seq<Member> {
        let members = Seq::empty();
        let members = with_optional(members, "auth"@, auth);
        let members = with_optional(members, "limit"@, limit);
        let members = with_optional(members, "page"@, page);
        let members = with_optional(members, "show_nsfw"@, show_nsfw);
        let members = with_optional(members, "sort"@, sort);
        let members = with_optional(members, "type_"@, type_);
        members
    }

    /// Each key leads to what was written under it, and to nothing where
    /// nothing was written.
    pub proof fn lemma_members(
        auth: Option<JsonTree>,
        limit: Option<JsonTree>,
        page: Option<JsonTree>,
        show_nsfw: Option<JsonTree>,
        sort: Option<JsonTree>,
        type_: Option<JsonTree>,
    )
        ensures
            ({
                let members = Self::members(auth, limit, page, show_nsfw, sort, type_);
                &&& lookup(members, "auth"@) == auth
                &&& lookup(members, "limit"@) == limit
                &&& lookup(members, "page"@) == page
                &&& lookup(members, "show_nsfw"@) == show_nsfw
                &&& lookup(members, "sort"@) == sort
                &&& lookup(members, "type_"@) == type_
            }),
    {
        broadcast use group_written_members;

        reveal_strlit("auth");
        reveal_strlit("limit");
        reveal_strlit("page");
        reveal_strlit("show_nsfw");
        reveal_strlit("sort");
        reveal_strlit("type_");
        assert("auth"@.len() == 4 && "auth"@[0] == 'a');
        assert("limit"@.len() == 5 && "limit"@[0] == 'l');
        assert("page"@.len() == 4 && "page"@[0] == 'p');
        assert("show_nsfw"@.len() == 9);
        assert("sort"@.len() == 4 && "sort"@[0] == 's');
        assert("type_"@.len() == 5 && "type_"@[0] == 't');
    }

    /// With every field absent, nothing is written.
    pub proof fn lemma_mandatory_fields_alone()
        ensures
            Self::members(None, None, None, None, None, None) == Seq::<Member>::empty(),
    {
        reveal(with_field);
        reveal(with_optional);
    }
}

impl Payload for ListCommunities {
    open spec fn tree(&self) -> JsonTree {
        JsonTree::Object(
            Self::members(
                written(self.auth),
                written(self.limit),
                written(self.page),
                written(self.show_nsfw),
                written(self.sort),
                written(self.type_),
            ),
        )
    }

    open spec fn admits(t: JsonTree) -> bool {
        &&& t is Object
        &&& optional_admits::<String>(t, "auth"@)
        &&& optional_admits::<i32>(t, "limit"@)
        &&& optional_admits::<i32>(t, "page"@)
        &&& optional_admits::<bool>(t, "show_nsfw"@)
        &&& optional_admits::<SortType>(t, "sort"@)
        &&& optional_admits::<ListingType>(t, "type_"@)
    }

    open spec fn agrees(&self, t: JsonTree) -> bool {
        &&& optional_agrees(self.auth, t, "auth"@)
        &&& optional_agrees(self.limit, t, "limit"@)
        &&& optional_agrees(self.page, t, "page"@)
        &&& optional_agrees(self.show_nsfw, t, "show_nsfw"@)
        &&& optional_agrees(self.sort, t, "sort"@)
        &&& optional_agrees(self.type_, t, "type_"@)
    }

    fn to_json(&self) -> (out: JsonValue) {
        let mut members: Vec<(String, JsonValue)> = Vec::new();
        assert(members_view(members@) =~= Seq::empty());
        put_optional(&mut members, "auth", &self.auth);
        put_optional(&mut members, "limit", &self.limit);
        put_optional(&mut members, "page", &self.page);
        put_optional(&mut members, "show_nsfw", &self.show_nsfw);
        put_optional(&mut members, "sort", &self.sort);
        put_optional(&mut members, "type_", &self.type_);
        object(members)
    }

    fn from_json(v: &JsonValue) -> (res: Option<Self>) {
        if !v.is_object() {
            return None;
        }
        let auth = optional::<String>(v, "auth")?;
        let limit = optional::<i32>(v, "limit")?;
        let page = optional::<i32>(v, "page")?;
        let show_nsfw = optional::<bool>(v, "show_nsfw")?;
        let sort = optional::<SortType>(v, "sort")?;
        let type_ = optional::<ListingType>(v, "type_")?;
        Some(ListCommunities { auth, limit, page, show_nsfw, sort, type_ })
    }

    proof fn lemma_round_trip(&self) {
        Self::lemma_members(
            written(self.auth),
            written(self.limit),
            written(self.page),
            written(self.show_nsfw),
            written(self.sort),
            written(self.type_),
        );
        lemma_optional_round_trip(self.auth);
        lemma_optional_round_trip(self.limit);
        lemma_optional_round_trip(self.page);
        lemma_optional_round_trip(self.show_nsfw);
        lemma_optional_round_trip(self.sort);
        lemma_optional_round_trip(self.type_);
    }

    proof fn lemma_reads_one(&self, other: &Self, t: JsonTree) {
        lemma_optional_reads_one(self.auth, other.auth, t, "auth"@);
        lemma_optional_reads_one(self.limit, other.limit, t, "limit"@);
        lemma_optional_reads_one(self.page, other.page, t, "page"@);
        lemma_optional_reads_one(self.show_nsfw, other.show_nsfw, t, "show_nsfw"@);
        lemma_optional_reads_one(self.sort, other.sort, t, "sort"@);
        lemma_optional_reads_one(self.type_, other.type_, t, "type_"@);
    }
}

#[derive(Clone, Debug, PartialEq, Default)]
pub struct ListCommunitiesResponse {
    pub communities: Vec<CommunityView>,
}

impl ListCommunitiesResponse {
    /// The members that a record is written as, from what is written for
    /// each of its fields.
    pub open spec fn members(communities: JsonTree) -> Seq<Member> {
        let members = Seq::empty();
        let members = with_field(members, "communities"@, communities);
        members
    }

    /// Each key leads to what was written under it, and to nothing where
    /// nothing was written.
    pub proof fn lemma_members(communities: JsonTree)
        ensures
            ({
                let members = Self::members(communities);
                &&& lookup(members, "communities"@) == Some(communities)
            }),
    {
        broadcast use group_written_members;

        reveal_strlit("communities");
        assert("communities"@.len() == 11);
    }

    /// Every field is mandatory: each is written, in order, and nothing
    /// else.
    pub proof fn lemma_mandatory_fields_alone(communities: JsonTree)
        ensures
            Self::members(communities) == Seq::<Member>::empty()
                .push(("communities"@, communities)),
    {
        reveal(with_field);
        reveal(with_optional);
    }
}

impl Payload for ListCommunitiesResponse {
    open spec fn tree(&self) -> JsonTree {
        JsonTree::Object(Self::members(self.communities.tree()))
    }

    open spec fn admits(t: JsonTree) -> bool {
        &&& t is Object
        &&& required_admits::<Vec<CommunityView>>(t, "communities"@)
    }

    open spec fn agrees(&self, t: JsonTree) -> bool {
        &&& required_agrees(self.communities, t, "communities"@)
    }

    fn to_json(&self) -> (out: JsonValue) {
        let mut members: Vec<(String, JsonValue)> = Vec::new();
        assert(members_view(members@) =~= Seq::empty());
        put(&mut members, "communities", &self.communities);
        object(members)
    }

    fn from_json(v: &JsonValue) -> (res: Option<Self>) {
        if !v.is_object() {
            return None;
        }
        let communities = required::<Vec<CommunityView>>(v, "communities")?;
        Some(ListCommunitiesResponse { communities })
    }

    proof fn lemma_round_trip(&self) {
        Self::lemma_members(self.communities.tree());
        self.communities.lemma_round_trip();
    }

    proof fn lemma_reads_one(&self, other: &Self, t: JsonTree) {
        lemma_required_reads_one(self.communities, other.communities, t, "communities"@);
    }
}

#[derive(Clone, Debug, PartialEq, Default)]
pub struct PurgeCommunity {
    pub auth: String,
    pub community_id: i32,
    pub reason: Option<String>,
}

impl PurgeCommunity {
    /// The members that a record is written as, from what is written for
    /// each of its fields.
    pub open spec fn members(
        auth: JsonTree,
        community_id: JsonTree,
        reason: Option<JsonTree>,
    ) -> Seq<Member> {
        let members = Seq::empty();
        let members = with_field(members, "auth"@, auth);
        let members = with_field(members, "community_id"@, community_id);
        let members = with_optional(members, "reason"@, reason);
        members
    }

    /// Each key leads to what was written under it, and to nothing where
    /// nothing was written.
    pub proof fn lemma_members(auth: JsonTree, community_id: JsonTree, reason: Option<JsonTree>)
        ensures
            ({
                let members = Self::members(auth, community_id, reason);
                &&& lookup(members, "auth"@) == Some(auth)
                &&& lookup(members, "community_id"@) == Some(community_id)
                &&& lookup(members, "reason"@) == reason
            }),
    {
        broadcast use group_written_members;

        reveal_strlit("auth");
        reveal_strlit("community_id");
        reveal_strlit("reason");
        assert("auth"@.len() == 4);
        assert("community_id"@.len() == 12);
        assert("reason"@.len() == 6);
    }

    /// With every optional field absent, the mandatory fields are written
    /// and nothing else.
    pub proof fn lemma_mandatory_fields_alone(auth: JsonTree, community_id: JsonTree)
        ensures
            Self::members(auth, community_id, None) == Seq::<Member>::empty()
                .push(("auth"@, auth))
                .push(("community_id"@, community_id)),
    {
        reveal(with_field);
        reveal(with_optional);
    }
}

impl Payload for PurgeCommunity {
    open spec fn tree(&self) -> JsonTree {
        JsonTree::Object(
            Self::members(self.auth.tree(), self.community_id.tree(), written(self.reason)),
        )
    }

    open spec fn admits(t: JsonTree) -> bool {
        &&& t is Object
        &&& required_admits::<String>(t, "auth"@)
        &&& required_admits::<i32>(t, "community_id"@)
        &&& optional_admits::<String>(t, "reason"@)
    }

    open spec fn agrees(&self, t: JsonTree) -> bool {
        &&& required_agrees(self.auth, t, "auth"@)
        &&& required_agrees(self.community_id, t, "community_id"@)
        &&& optional_agrees(self.reason, t, "reason"@)
    }

    fn to_json(&self) -> (out: JsonValue) {
        let mut members: Vec<(String, JsonValue)> = Vec::new();
        assert(members_view(members@) =~= Seq::empty());
        put(&mut members, "auth", &self.auth);
        put(&mut members, "community_id", &self.community_id);
        put_optional(&mut members, "reason", &self.reason);
        object(members)
    }

    fn from_json(v: &JsonValue) -> (res: Option<Self>) {
        if !v.is_object() {
            return None;
        }
        let auth = required::<String>(v, "auth")?;
        let community_id = required::<i32>(v, "community_id")?;
        let reason = optional::<String>(v, "reason")?;
        Some(PurgeCommunity { auth, community_id, reason })
    }

    proof fn lemma_round_trip(&self) {
        Self::lemma_members(self.auth.tree(), self.community_id.tree(), written(self.reason));
        self.auth.lemma_round_trip();
        self.community_id.lemma_round_trip();
        lemma_optional_round_trip(self.reason);
    }

    proof fn lemma_reads_one(&self, other: &Self, t: JsonTree) {
        lemma_required_reads_one(self.auth, other.auth, t, "auth"@);
        lemma_required_reads_one(self.community_id, other.community_id, t, "community_id"@);
        lemma_optional_reads_one(self.reason, other.reason, t, "reason"@);
    }
}

#[derive(Clone, Debug, PartialEq, Default)]
pub struct RemoveCommunity {
    pub auth: String,
    pub community_id: i32,
    pub expires: Option<String>,
    pub reason: Option<String>,
    pub removed: bool,
}

impl RemoveCommunity {
    /// The members that a record is written as, from what is written for
    /// each of its fields.
    pub open spec fn members(
        auth: JsonTree,
        community_id: JsonTree,
        expires: Option<JsonTree>,
        reason: Option<JsonTree>,
        removed: JsonTree,
    ) -> Seq<Member> {
        let members = Seq::empty();
        let members = with_field(members, "auth"@, auth);
        let members = with_field(members, "community_id"@, community_id);
        let members = with_optional(members, "expires"@, expires);
        let members = with_optional(members, "reason"@, reason);
        let members = with_field(members, "removed"@, removed);
        members
    }

    /// Each key leads to what was written under it, and to nothing where
    /// nothing was written.
    pub proof fn lemma_members(
        auth: JsonTree,
        community_id: JsonTree,
        expires: Option<JsonTree>,
        reason: Option<JsonTree>,
        removed: JsonTree,
    )
        ensures
            ({
                let members = Self::members(auth, community_id, expires, reason, removed);
                &&& lookup(members, "auth"@) == Some(auth)
                &&& lookup(members, "community_id"@) == Some(community_id)
                &&& lookup(members, "expires"@) == expires
                &&& lookup(members, "reason"@) == reason
                &&& lookup(members, "removed"@) == Some(removed)
            }),
    {
        broadcast use group_written_members;

        reveal_strlit("auth");
        reveal_strlit("community_id");
        reveal_strlit("expires");
        reveal_strlit("reason");
        reveal_strlit("removed");
        assert("auth"@.len() == 4);
        assert("community_id"@.len() == 12);
        assert("expires"@.len() == 7 && "expires"@[0] == 'e');
        assert("reason"@.len() == 6);
        assert("removed"@.len() == 7 && "removed"@[0] == 'r');
    }

    /// With every optional field absent, the mandatory fields are written
    /// and nothing else.
    pub proof fn lemma_mandatory_fields_alone(
        auth: JsonTree,
        community_id: JsonTree,
        removed: JsonTree,
    )
        ensures
            Self::members(auth, community_id, None, None, removed) == Seq::<Member>::empty()
                .push(("auth"@, auth))
                .push(("community_id"@, community_id))
                .push(("removed"@, removed)),
    {
        reveal(with_field);
        reveal(with_optional);
    }
}

impl Payload for RemoveCommunity {
    open spec fn tree(&self) -> JsonTree {
        JsonTree::Object(
            Self::members(
                self.auth.tree(),
                self.community_id.tree(),
                written(self.expires),
                written(self.reason),
                self.removed.tree(),
            ),
        )
    }

    open spec fn admits(t: JsonTree) -> bool {
        &&& t is Object
        &&& required_admits::<String>(t, "auth"@)
        &&& required_admits::<i32>(t, "community_id"@)
        &&& optional_admits::<String>(t, "expires"@)
        &&& optional_admits::<String>(t, "reason"@)
        &&& required_admits::<bool>(t, "removed"@)
    }

    open spec fn agrees(&self, t: JsonTree) -> bool {
        &&& required_agrees(self.auth, t, "auth"@)
        &&& required_agrees(self.community_id, t, "community_id"@)
        &&& optional_agrees(self.expires, t, "expires"@)
        &&& optional_agrees(self.reason, t, "reason"@)
        &&& required_agrees(self.removed, t, "removed"@)
    }

    fn to_json(&self) -> (out: JsonValue) {
        let mut members: Vec<(String, JsonValue)> = Vec::new();
        assert(members_view(members@) =~= Seq::empty());
        put(&mut members, "auth", &self.auth);
        put(&mut members, "community_id", &self.community_id);
        put_optional(&mut members, "expires", &self.expires);
        put_optional(&mut members, "reason", &self.reason);
        put(&mut members, "removed", &self.removed);
        object(members)
    }

    fn from_json(v: &JsonValue) -> (res: Option<Self>) {
        if !v.is_object() {
            return None;
        }
        let auth = required::<String>(v, "auth")?;
        let community_id = required::<i32>(v, "community_id")?;
        let expires = optional::<String>(v, "expires")?;
        let reason = optional::<String>(v, "reason")?;
        let removed = required::<bool>(v, "removed")?;
        Some(RemoveCommunity { auth, community_id, expires, reason, removed })
    }

    proof fn lemma_round_trip(&self) {
        Self::lemma_members(
            self.auth.tree(),
            self.community_id.tree(),
            written(self.expires),
            written(self.reason),
            self.removed.tree(),
        );
        self.auth.lemma_round_trip();
        self.community_id.lemma_round_trip();
        lemma_optional_round_trip(self.expires);
        lemma_optional_round_trip(self.reason);
        self.removed.lemma_round_trip();
    }

    proof fn lemma_reads_one(&self, other: &Self, t: JsonTree) {
        lemma_required_reads_one(self.auth, other.auth, t, "auth"@);
        lemma_required_reads_one(self.community_id, other.community_id, t, "community_id"@);
        lemma_optional_reads_one(self.expires, other.expires, t, "expires"@);
        lemma_optional_reads_one(self.reason, other.reason, t, "reason"@);
        lemma_required_reads_one(self.removed, other.removed, t, "removed"@);
    }
}

#[derive(Clone, Debug, PartialEq, Default)]
pub struct TransferCommunity {
    pub auth: String,
    pub community_id: i32,
    pub person_id: i32,
}

impl TransferCommunity {
    /// The members that a record is written as, from what is written for
    /// each of its fields.
    pub open spec fn members(
        auth: JsonTree,
        community_id: JsonTree,
        person_id: JsonTree,
    ) -> Seq<Member> {
        let members = Seq::empty();
        let members = with_field(members, "auth"@, auth);
        let members = with_field(members, "community_id"@, community_id);
        let members = with_field(members, "person_id"@, person_id);
        members
    }

    /// Each key leads to what was written under it, and to nothing where
    /// nothing was written.
    pub proof fn lemma_members(auth: JsonTree, community_id: JsonTree, person_id: JsonTree)
        ensures
            ({
                let members = Self::members(auth, community_id, person_id);
                &&& lookup(members, "auth"@) == Some(auth)
                &&& lookup(members, "community_id"@) == Some(community_id)
                &&& lookup(members, "person_id"@) == Some(person_id)
            }),
    {
        broadcast use group_written_members;

        reveal_strlit("auth");
        reveal_strlit("community_id");
        reveal_strlit("person_id");
        assert("auth"@.len() == 4);
        assert("community_id"@.len() == 12);
        assert("person_id"@.len() == 9);
    }

    /// Every field is mandatory: each is written, in order, and nothing
    /// else.
    pub proof fn lemma_mandatory_fields_alone(
        auth: JsonTree,
        community_id: JsonTree,
        person_id: JsonTree,
    )
        ensures
            Self::members(auth, community_id, person_id) == Seq::<Member>::empty()
                .push(("auth"@, auth))
                .push(("community_id"@, community_id))
                .push(("person_id"@, person_id)),
    {
        reveal(with_field);
        reveal(with_optional);
    }
}

impl Payload for TransferCommunity {
    open spec fn tree(&self) -> JsonTree {
        JsonTree::Object(
            Self::members(self.auth.tree(), self.community_id.tree(), self.person_id.tree()),
        )
    }

    open spec fn admits(t: JsonTree) -> bool {
        &&& t is Object
        &&& required_admits::<String>(t, "auth"@)
        &&& required_admits::<i32>(t, "community_id"@)
        &&& required_admits::<i32>(t, "person_id"@)
    }

    open spec fn agrees(&self, t: JsonTree) -> bool {
        &&& required_agrees(self.auth, t, "auth"@)
        &&& required_agrees(self.community_id, t, "community_id"@)
        &&& required_agrees(self.person_id, t, "person_id"@)
    }

    fn to_json(&self) -> (out: JsonValue) {
        let mut members: Vec<(String, JsonValue)> = Vec::new();
        assert(members_view(members@) =~= Seq::empty());
        put(&mut members, "auth", &self.auth);
        put(&mut members, "community_id", &self.community_id);
        put(&mut members, "person_id", &self.person_id);
        object(members)
    }

    fn from_json(v: &JsonValue) -> (res: Option<Self>) {
        if !v.is_object() {
            return None;
        }
        let auth = required::<String>(v, "auth")?;
        let community_id = required::<i32>(v, "community_id")?;
        let person_id = required::<i32>(v, "person_id")?;
        Some(TransferCommunity { auth, community_id, person_id })
    }

    proof fn lemma_round_trip(&self) {
        Self::lemma_members(self.auth.tree(), self.community_id.tree(), self.person_id.tree());
        self.auth.lemma_round_trip();
        self.community_id.lemma_round_trip();
        self.person_id.lemma_round_trip();
    }

    proof fn lemma_reads_one(&self, other: &Self, t: JsonTree) {
        lemma_required_reads_one(self.auth, other.auth, t, "auth"@);
        lemma_required_reads_one(self.community_id, other.community_id, t, "community_id"@);
        lemma_required_reads_one(self.person_id, other.person_id, t, "person_id"@);
    }
}

} // verus!
