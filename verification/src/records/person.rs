//! Records of persons and accounts: logging in, registering, mentions,
//! replies, and the work of administrators.

use vstd::prelude::*;
use crate::json::{lookup, JsonTree, JsonValue, Member};
use crate::payload::{
    group_written_members, lemma_optional_reads_one, lemma_optional_round_trip,
    lemma_required_reads_one, members_view, object, optional, optional_admits, optional_agrees,
    put, put_optional, required, required_admits, required_agrees, with_field, with_optional,
    written, Payload,
};
use crate::enums::{CommentSortType, ListingType, SortType, SubscribedType};
use crate::records::comment::{Comment, CommentAggregates, CommentReplyView, CommentView};
use crate::records::community::{
    Community, CommunityBlockView, CommunityFollowerView, CommunityModeratorView,
};
use crate::records::post::{Post, PostView};

verus! {

#[derive(Clone, Debug, PartialEq, Default)]
pub struct AddAdmin {
    pub added: bool,
    pub auth: String,
    pub person_id: i32,
}

impl AddAdmin {
    /// The members that a record is written as, from what is written for
    /// each of its fields.
    pub open spec fn members(added: JsonTree, auth: JsonTree, person_id: JsonTree) -> Seq<Member> {
        let members = Seq::empty();
        let members = with_field(members, "added"@, added);
        let members = with_field(members, "auth"@, auth);
        let members = with_field(members, "person_id"@, person_id);
        members
    }

    /// Each key leads to what was written under it, and to nothing where
    /// nothing was written.
    pub proof fn lemma_members(added: JsonTree, auth: JsonTree, person_id: JsonTree)
        ensures
            ({
                let members = Self::members(added, auth, person_id);
                &&& lookup(members, "added"@) == Some(added)
                &&& lookup(members, "auth"@) == Some(auth)
                &&& lookup(members, "person_id"@) == Some(person_id)
            }),
    {
        broadcast use group_written_members;

        reveal_strlit("added");
        reveal_strlit("auth");
        reveal_strlit("person_id");
        assert("added"@.len() == 5);
        assert("auth"@.len() == 4);
        assert("person_id"@.len() == 9);
    }

    /// Every field is mandatory: each is written, in order, and nothing
    /// else.
    pub proof fn lemma_mandatory_fields_alone(added: JsonTree, auth: JsonTree, person_id: JsonTree)
        ensures
            Self::members(added, auth, person_id) == Seq::<Member>::empty()
                .push(("added"@, added))
                .push(("auth"@, auth))
                .push(("person_id"@, person_id)),
    {
        reveal(with_field);
        reveal(with_optional);
    }
}

impl Payload for AddAdmin {
    open spec fn tree(&self) -> JsonTree {
        JsonTree::Object(Self::members(self.added.tree(), self.auth.tree(), self.person_id.tree()))
    }

    open spec fn admits(t: JsonTree) -> bool {
        &&& t is Object
        &&& required_admits::<bool>(t, "added"@)
        &&& required_admits::<String>(t, "auth"@)
        &&& required_admits::<i32>(t, "person_id"@)
    }

    open spec fn agrees(&self, t: JsonTree) -> bool {
        &&& required_agrees(self.added, t, "added"@)
        &&& required_agrees(self.auth, t, "auth"@)
        &&& required_agrees(self.person_id, t, "person_id"@)
    }

    fn to_json(&self) -> (out: JsonValue) {
        let mut members: Vec<(String, JsonValue)> = Vec::new();
        assert(members_view(members@) =~= Seq::empty());
        put(&mut members, "added", &self.added);
        put(&mut members, "auth", &self.auth);
        put(&mut members, "person_id", &self.person_id);
        object(members)
    }

    fn from_json(v: &JsonValue) -> (res: Option<Self>) {
        if !v.is_object() {
            return None;
        }
        let added = required::<bool>(v, "added")?;
        let auth = required::<String>(v, "auth")?;
        let person_id = required::<i32>(v, "person_id")?;
        Some(AddAdmin { added, auth, person_id })
    }

    proof fn lemma_round_trip(&self) {
        Self::lemma_members(self.added.tree(), self.auth.tree(), self.person_id.tree());
        self.added.lemma_round_trip();
        self.auth.lemma_round_trip();
        self.person_id.lemma_round_trip();
    }

    proof fn lemma_reads_one(&self, other: &Self, t: JsonTree) {
        lemma_required_reads_one(self.added, other.added, t, "added"@);
        lemma_required_reads_one(self.auth, other.auth, t, "auth"@);
        lemma_required_reads_one(self.person_id, other.person_id, t, "person_id"@);
    }
}

#[derive(Clone, Debug, PartialEq, Default)]
pub struct AddAdminResponse {
    pub admins: PersonView,
}

impl AddAdminResponse {
    /// The members that a record is written as, from what is written for
    /// each of its fields.
    pub open spec fn members(admins: JsonTree) -> Seq<Member> {
        let members = Seq::empty();
        let members = with_field(members, "admins"@, admins);
        members
    }

    /// Each key leads to what was written under it, and to nothing where
    /// nothing was written.
    pub proof fn lemma_members(admins: JsonTree)
        ensures
            ({
                let members = Self::members(admins);
                &&& lookup(members, "admins"@) == Some(admins)
            }),
    {
        broadcast use group_written_members;

        reveal_strlit("admins");
        assert("admins"@.len() == 6);
    }

    /// Every field is mandatory: each is written, in order, and nothing
    /// else.
    pub proof fn lemma_mandatory_fields_alone(admins: JsonTree)
        ensures
            Self::members(admins) == Seq::<Member>::empty()
                .push(("admins"@, admins)),
    {
        reveal(with_field);
        reveal(with_optional);
    }
}

impl Payload for AddAdminResponse {
    open spec fn tree(&self) -> JsonTree {
        JsonTree::Object(Self::members(self.admins.tree()))
    }

    open spec fn admits(t: JsonTree) -> bool {
        &&& t is Object
        &&& required_admits::<PersonView>(t, "admins"@)
    }

    open spec fn agrees(&self, t: JsonTree) -> bool {
        &&& required_agrees(self.admins, t, "admins"@)
    }

    fn to_json(&self) -> (out: JsonValue) {
        let mut members: Vec<(String, JsonValue)> = Vec::new();
        assert(members_view(members@) =~= Seq::empty());
        put(&mut members, "admins", &self.admins);
        object(members)
    }

    fn from_json(v: &JsonValue) -> (res: Option<Self>) {
        if !v.is_object() {
            return None;
        }
        let admins = required::<PersonView>(v, "admins")?;
        Some(AddAdminResponse { admins })
    }

    proof fn lemma_round_trip(&self) {
        Self::lemma_members(self.admins.tree());
        self.admins.lemma_round_trip();
    }

    proof fn lemma_reads_one(&self, other: &Self, t: JsonTree) {
        lemma_required_reads_one(self.admins, other.admins, t, "admins"@);
    }
}

#[derive(Clone, Debug, PartialEq, Default)]
pub struct ApproveRegistrationApplication {
    pub approve: bool,
    pub auth: String,
    pub deny_reason: Option<String>,
    pub id: i32,
}

impl ApproveRegistrationApplication {
    /// The members that a record is written as, from what is written for
    /// each of its fields.
    pub open spec fn members(
        approve: JsonTree,
        auth: JsonTree,
        deny_reason: Option<JsonTree>,
        id: JsonTree,
    ) -> Seq<Member> {
        let members = Seq::empty();
        let members = with_field(members, "approve"@, approve);
        let members = with_field(members, "auth"@, auth);
        let members = with_optional(members, "deny_reason"@, deny_reason);
        let members = with_field(members, "id"@, id);
        members
    }

    /// Each key leads to what was written under it, and to nothing where
    /// nothing was written.
    pub proof fn lemma_members(
        approve: JsonTree,
        auth: JsonTree,
        deny_reason: Option<JsonTree>,
        id: JsonTree,
    )
        ensures
            ({
                let members = Self::members(approve, auth, deny_reason, id);
                &&& lookup(members, "approve"@) == Some(approve)
                &&& lookup(members, "auth"@) == Some(auth)
                &&& lookup(members, "deny_reason"@) == deny_reason
                &&& lookup(members, "id"@) == Some(id)
            }),
    {
        broadcast use group_written_members;

        reveal_strlit("approve");
        reveal_strlit("auth");
        reveal_strlit("deny_reason");
        reveal_strlit("id");
        assert("approve"@.len() == 7);
        assert("auth"@.len() == 4);
        assert("deny_reason"@.len() == 11);
        assert("id"@.len() == 2);
    }

    /// With every optional field absent, the mandatory fields are written
    /// and nothing else.
    pub proof fn lemma_mandatory_fields_alone(approve: JsonTree, auth: JsonTree, id: JsonTree)
        ensures
            Self::members(approve, auth, None, id) == Seq::<Member>::empty()
                .push(("approve"@, approve))
                .push(("auth"@, auth))
                .push(("id"@, id)),
    {
        reveal(with_field);
        reveal(with_optional);
    }
}

impl Payload for ApproveRegistrationApplication {
    open spec fn tree(&self) -> JsonTree {
        JsonTree::Object(
            Self::members(
                self.approve.tree(),
                self.auth.tree(),
                written(self.deny_reason),
                self.id.tree(),
            ),
        )
    }

    open spec fn admits(t: JsonTree) -> bool {
        &&& t is Object
        &&& required_admits::<bool>(t, "approve"@)
        &&& required_admits::<String>(t, "auth"@)
        &&& optional_admits::<String>(t, "deny_reason"@)
        &&& required_admits::<i32>(t, "id"@)
    }

    open spec fn agrees(&self, t: JsonTree) -> bool {
        &&& required_agrees(self.approve, t, "approve"@)
        &&& required_agrees(self.auth, t, "auth"@)
        &&& optional_agrees(self.deny_reason, t, "deny_reason"@)
        &&& required_agrees(self.id, t, "id"@)
    }

    fn to_json(&self) -> (out: JsonValue) {
        let mut members: Vec<(String, JsonValue)> = Vec::new();
        assert(members_view(members@) =~= Seq::empty());
        put(&mut members, "approve", &self.approve);
        put(&mut members, "auth", &self.auth);
        put_optional(&mut members, "deny_reason", &self.deny_reason);
        put(&mut members, "id", &self.id);
        object(members)
    }

    fn from_json(v: &JsonValue) -> (res: Option<Self>) {
        if !v.is_object() {
            return None;
        }
        let approve = required::<bool>(v, "approve")?;
        let auth = required::<String>(v, "auth")?;
        let deny_reason = optional::<String>(v, "deny_reason")?;
        let id = required::<i32>(v, "id")?;
        Some(ApproveRegistrationApplication { approve, auth, deny_reason, id })
    }

    proof fn lemma_round_trip(&self) {
        Self::lemma_members(
            self.approve.tree(),
            self.auth.tree(),
            written(self.deny_reason),
            self.id.tree(),
        );
        self.approve.lemma_round_trip();
        self.auth.lemma_round_trip();
        lemma_optional_round_trip(self.deny_reason);
        self.id.lemma_round_trip();
    }

    proof fn lemma_reads_one(&self, other: &Self, t: JsonTree) {
        lemma_required_reads_one(self.approve, other.approve, t, "approve"@);
        lemma_required_reads_one(self.auth, other.auth, t, "auth"@);
        lemma_optional_reads_one(self.deny_reason, other.deny_reason, t, "deny_reason"@);
        lemma_required_reads_one(self.id, other.id, t, "id"@);
    }
}

#[derive(Clone, Debug, PartialEq, Default)]
pub struct BanPerson {
    pub auth: String,
    pub ban: bool,
    pub expires: Option<i32>,
    pub person_id: i32,
    pub reason: Option<String>,
    pub remove_data: Option<bool>,
}

impl BanPerson {
    /// The members that a record is written as, from what is written for
    /// each of its fields.
    pub open spec fn members(
        auth: JsonTree,
        ban: JsonTree,
        expires: Option<JsonTree>,
        person_id: JsonTree,
        reason: Option<JsonTree>,
        remove_data: Option<JsonTree>,
    ) -> Seq<Member> {
        let members = Seq::empty();
        let members = with_field(members, "auth"@, auth);
        let members = with_field(members, "ban"@, ban);
        let members = with_optional(members, "expires"@, expires);
        let members = with_field(members, "person_id"@, person_id);
        let members = with_optional(members, "reason"@, reason);
        let members = with_optional(members, "remove_data"@, remove_data);
        members
    }

    /// Each key leads to what was written under it, and to nothing where
    /// nothing was written.
    pub proof fn lemma_members(
        auth: JsonTree,
        ban: JsonTree,
        expires: Option<JsonTree>,
        person_id: JsonTree,
        reason: Option<JsonTree>,
        remove_data: Option<JsonTree>,
    )
        ensures
            ({
                let members = Self::members(auth, ban, expires, person_id, reason, remove_data);
                &&& lookup(members, "auth"@) == Some(auth)
                &&& lookup(members, "ban"@) == Some(ban)
                &&& lookup(members, "expires"@) == expires
                &&& lookup(members, "person_id"@) == Some(person_id)
                &&& lookup(members, "reason"@) == reason
                &&& lookup(members, "remove_data"@) == remove_data
            }),
    {
        broadcast use group_written_members;

        reveal_strlit("auth");
        reveal_strlit("ban");
        reveal_strlit("expires");
        reveal_strlit("person_id");
        reveal_strlit("reason");
        reveal_strlit("remove_data");
        assert("auth"@.len() == 4);
        assert("ban"@.len() == 3);
        assert("expires"@.len() == 7);
        assert("person_id"@.len() == 9);
        assert("reason"@.len() == 6);
        assert("remove_data"@.len() == 11);
    }

    /// With every optional field absent, the mandatory fields are written
    /// and nothing else.
    pub proof fn lemma_mandatory_fields_alone(auth: JsonTree, ban: JsonTree, person_id: JsonTree)
        ensures
            Self::members(auth, ban, None, person_id, None, None) == Seq::<Member>::empty()
                .push(("auth"@, auth))
                .push(("ban"@, ban))
                .push(("person_id"@, person_id)),
    {
        reveal(with_field);
        reveal(with_optional);
    }
}

impl Payload for BanPerson {
    open spec fn tree(&self) -> JsonTree {
        JsonTree::Object(
            Self::members(
                self.auth.tree(),
                self.ban.tree(),
                written(self.expires),
                self.person_id.tree(),
                written(self.reason),
                written(self.remove_data),
            ),
        )
    }

    open spec fn admits(t: JsonTree) -> bool {
        &&& t is Object
        &&& required_admits::<String>(t, "auth"@)
        &&& required_admits::<bool>(t, "ban"@)
        &&& optional_admits::<i32>(t, "expires"@)
        &&& required_admits::<i32>(t, "person_id"@)
        &&& optional_admits::<String>(t, "reason"@)
        &&& optional_admits::<bool>(t, "remove_data"@)
    }

    open spec fn agrees(&self, t: JsonTree) -> bool {
        &&& required_agrees(self.auth, t, "auth"@)
        &&& required_agrees(self.ban, t, "ban"@)
        &&& optional_agrees(self.expires, t, "expires"@)
        &&& required_agrees(self.person_id, t, "person_id"@)
        &&& optional_agrees(self.reason, t, "reason"@)
        &&& optional_agrees(self.remove_data, t, "remove_data"@)
    }

    fn to_json(&self) -> (out: JsonValue) {
        let mut members: Vec<(String, JsonValue)> = Vec::new();
        assert(members_view(members@) =~= Seq::empty());
        put(&mut members, "auth", &self.auth);
        put(&mut members, "ban", &self.ban);
        put_optional(&mut members, "expires", &self.expires);
        put(&mut members, "person_id", &self.person_id);
        put_optional(&mut members, "reason", &self.reason);
        put_optional(&mut members, "remove_data", &self.remove_data);
        object(members)
    }

    fn from_json(v: &JsonValue) -> (res: Option<Self>) {
        if !v.is_object() {
            return None;
        }
        let auth = required::<String>(v, "auth")?;
        let ban = required::<bool>(v, "ban")?;
        let expires = optional::<i32>(v, "expires")?;
        let person_id = required::<i32>(v, "person_id")?;
        let reason = optional::<String>(v, "reason")?;
        let remove_data = optional::<bool>(v, "remove_data")?;
        Some(BanPerson { auth, ban, expires, person_id, reason, remove_data })
    }

    proof fn lemma_round_trip(&self) {
        Self::lemma_members(
            self.auth.tree(),
            self.ban.tree(),
            written(self.expires),
            self.person_id.tree(),
            written(self.reason),
            written(self.remove_data),
        );
        self.auth.lemma_round_trip();
        self.ban.lemma_round_trip();
        lemma_optional_round_trip(self.expires);
        self.person_id.lemma_round_trip();
        lemma_optional_round_trip(self.reason);
        lemma_optional_round_trip(self.remove_data);
    }

    proof fn lemma_reads_one(&self, other: &Self, t: JsonTree) {
        lemma_required_reads_one(self.auth, other.auth, t, "auth"@);
        lemma_required_reads_one(self.ban, other.ban, t, "ban"@);
        lemma_optional_reads_one(self.expires, other.expires, t, "expires"@);
        lemma_required_reads_one(self.person_id, other.person_id, t, "person_id"@);
        lemma_optional_reads_one(self.reason, other.reason, t, "reason"@);
        lemma_optional_reads_one(self.remove_data, other.remove_data, t, "remove_data"@);
    }
}

#[derive(Clone, Debug, PartialEq, Default)]
pub struct BanPersonResponse {
    pub banned: bool,
    pub person_view: Option<PersonView>,
}

impl BanPersonResponse {
    /// The members that a record is written as, from what is written for
    /// each of its fields.
    pub open spec fn members(banned: JsonTree, person_view: Option<JsonTree>) -> Seq<Member> {
        let members = Seq::empty();
        let members = with_field(members, "banned"@, banned);
        let members = with_optional(members, "person_view"@, person_view);
        members
    }

    /// Each key leads to what was written under it, and to nothing where
    /// nothing was written.
    pub proof fn lemma_members(banned: JsonTree, person_view: Option<JsonTree>)
        ensures
            ({
                let members = Self::members(banned, person_view);
                &&& lookup(members, "banned"@) == Some(banned)
                &&& lookup(members, "person_view"@) == person_view
            }),
    {
        broadcast use group_written_members;

        reveal_strlit("banned");
        reveal_strlit("person_view");
        assert("banned"@.len() == 6);
        assert("person_view"@.len() == 11);
    }

    /// With every optional field absent, the mandatory fields are written
    /// and nothing else.
    pub proof fn lemma_mandatory_fields_alone(banned: JsonTree)
        ensures
            Self::members(banned, None) == Seq::<Member>::empty()
                .push(("banned"@, banned)),
    {
        reveal(with_field);
        reveal(with_optional);
    }
}

impl Payload for BanPersonResponse {
    open spec fn tree(&self) -> JsonTree {
        JsonTree::Object(Self::members(self.banned.tree(), written(self.person_view)))
    }

    open spec fn admits(t: JsonTree) -> bool {
        &&& t is Object
        &&& required_admits::<bool>(t, "banned"@)
        &&& optional_admits::<PersonView>(t, "person_view"@)
    }

    open spec fn agrees(&self, t: JsonTree) -> bool {
        &&& required_agrees(self.banned, t, "banned"@)
        &&& optional_agrees(self.person_view, t, "person_view"@)
    }

    fn to_json(&self) -> (out: JsonValue) {
        let mut members: Vec<(String, JsonValue)> = Vec::new();
        assert(members_view(members@) =~= Seq::empty());
        put(&mut members, "banned", &self.banned);
        put_optional(&mut members, "person_view", &self.person_view);
        object(members)
    }

    fn from_json(v: &JsonValue) -> (res: Option<Self>) {
        if !v.is_object() {
            return None;
        }
        let banned = required::<bool>(v, "banned")?;
        let person_view = optional::<PersonView>(v, "person_view")?;
        Some(BanPersonResponse { banned, person_view })
    }

    proof fn lemma_round_trip(&self) {
        Self::lemma_members(self.banned.tree(), written(self.person_view));
        self.banned.lemma_round_trip();
        lemma_optional_round_trip(self.person_view);
    }

    proof fn lemma_reads_one(&self, other: &Self, t: JsonTree) {
        lemma_required_reads_one(self.banned, other.banned, t, "banned"@);
        lemma_optional_reads_one(self.person_view, other.person_view, t, "person_view"@);
    }
}

#[derive(Clone, Debug, PartialEq, Default)]
pub struct BannedPersonsResponse {
    pub banned: PersonView,
}

impl BannedPersonsResponse {
    /// The members that a record is written as, from what is written for
    /// each of its fields.
    pub open spec fn members(banned: JsonTree) -> Seq<Member> {
        let members = Seq::empty();
        let members = with_field(members, "banned"@, banned);
        members
    }

    /// Each key leads to what was written under it, and to nothing where
    /// nothing was written.
    pub proof fn lemma_members(banned: JsonTree)
        ensures
            ({
                let members = Self::members(banned);
                &&& lookup(members, "banned"@) == Some(banned)
            }),
    {
        broadcast use group_written_members;

        reveal_strlit("banned");
        assert("banned"@.len() == 6);
    }

    /// Every field is mandatory: each is written, in order, and nothing
    /// else.
    pub proof fn lemma_mandatory_fields_alone(banned: JsonTree)
        ensures
            Self::members(banned) == Seq::<Member>::empty()
                .push(("banned"@, banned)),
    {
        reveal(with_field);
        reveal(with_optional);
    }
}

impl Payload for BannedPersonsResponse {
    open spec fn tree(&self) -> JsonTree {
        JsonTree::Object(Self::members(self.banned.tree()))
    }

    open spec fn admits(t: JsonTree) -> bool {
        &&& t is Object
        &&& required_admits::<PersonView>(t, "banned"@)
    }

    open spec fn agrees(&self, t: JsonTree) -> bool {
        &&& required_agrees(self.banned, t, "banned"@)
    }

    fn to_json(&self) -> (out: JsonValue) {
        let mut members: Vec<(String, JsonValue)> = Vec::new();
        assert(members_view(members@) =~= Seq::empty());
        put(&mut members, "banned", &self.banned);
        object(members)
    }

    fn from_json(v: &JsonValue) -> (res: Option<Self>) {
        if !v.is_object() {
            return None;
        }
        let banned = required::<PersonView>(v, "banned")?;
        Some(BannedPersonsResponse { banned })
    }

    proof fn lemma_round_trip(&self) {
        Self::lemma_members(self.banned.tree());
        self.banned.lemma_round_trip();
    }

    proof fn lemma_reads_one(&self, other: &Self, t: JsonTree) {
        lemma_required_reads_one(self.banned, other.banned, t, "banned"@);
    }
}

#[derive(Clone, Debug, PartialEq, Default)]
pub struct BlockPerson {
    pub auth: String,
    pub block: bool,
    pub person_id: i32,
}

impl BlockPerson {
    /// The members that a record is written as, from what is written for
    /// each of its fields.
    pub open spec fn members(auth: JsonTree, block: JsonTree, person_id: JsonTree) -> Seq<Member> {
        let members = Seq::empty();
        let members = with_field(members, "auth"@, auth);
        let members = with_field(members, "block"@, block);
        let members = with_field(members, "person_id"@, person_id);
        members
    }

    /// Each key leads to what was written under it, and to nothing where
    /// nothing was written.
    pub proof fn lemma_members(auth: JsonTree, block: JsonTree, person_id: JsonTree)
        ensures
            ({
                let members = Self::members(auth, block, person_id);
                &&& lookup(members, "auth"@) == Some(auth)
                &&& lookup(members, "block"@) == Some(block)
                &&& lookup(members, "person_id"@) == Some(person_id)
            }),
    {
        broadcast use group_written_members;

        reveal_strlit("auth");
        reveal_strlit("block");
        reveal_strlit("person_id");
        assert("auth"@.len() == 4);
        assert("block"@.len() == 5);
        assert("person_id"@.len() == 9);
    }

    /// Every field is mandatory: each is written, in order, and nothing
    /// else.
    pub proof fn lemma_mandatory_fields_alone(auth: JsonTree, block: JsonTree, person_id: JsonTree)
        ensures
            Self::members(auth, block, person_id) == Seq::<Member>::empty()
                .push(("auth"@, auth))
                .push(("block"@, block))
                .push(("person_id"@, person_id)),
    {
        reveal(with_field);
        reveal(with_optional);
    }
}

impl Payload for BlockPerson {
    open spec fn tree(&self) -> JsonTree {
        JsonTree::Object(Self::members(self.auth.tree(), self.block.tree(), self.person_id.tree()))
    }

    open spec fn admits(t: JsonTree) -> bool {
        &&& t is Object
        &&& required_admits::<String>(t, "auth"@)
        &&& required_admits::<bool>(t, "block"@)
        &&& required_admits::<i32>(t, "person_id"@)
    }

    open spec fn agrees(&self, t: JsonTree) -> bool {
        &&& required_agrees(self.auth, t, "auth"@)
        &&& required_agrees(self.block, t, "block"@)
        &&& required_agrees(self.person_id, t, "person_id"@)
    }

    fn to_json(&self) -> (out: JsonValue) {
        let mut members: Vec<(String, JsonValue)> = Vec::new();
        assert(members_view(members@) =~= Seq::empty());
        put(&mut members, "auth", &self.auth);
        put(&mut members, "block", &self.block);
        put(&mut members, "person_id", &self.person_id);
        object(members)
    }

    fn from_json(v: &JsonValue) -> (res: Option<Self>) {
        if !v.is_object() {
            return None;
        }
        let auth = required::<String>(v, "auth")?;
        let block = required::<bool>(v, "block")?;
        let person_id = required::<i32>(v, "person_id")?;
        Some(BlockPerson { auth, block, person_id })
    }

    proof fn lemma_round_trip(&self) {
        Self::lemma_members(self.auth.tree(), self.block.tree(), self.person_id.tree());
        self.auth.lemma_round_trip();
        self.block.lemma_round_trip();
        self.person_id.lemma_round_trip();
    }

    proof fn lemma_reads_one(&self, other: &Self, t: JsonTree) {
        lemma_required_reads_one(self.auth, other.auth, t, "auth"@);
        lemma_required_reads_one(self.block, other.block, t, "block"@);
        lemma_required_reads_one(self.person_id, other.person_id, t, "person_id"@);
    }
}

#[derive(Clone, Debug, PartialEq, Default)]
pub struct BlockPersonResponse {
    pub blocked: bool,
    pub person: PersonView,
}

impl BlockPersonResponse {
    /// The members that a record is written as, from what is written for
    /// each of its fields.
    pub open spec fn members(blocked: JsonTree, person: JsonTree) -> Seq<Member> {
        let members = Seq::empty();
        let members = with_field(members, "blocked"@, blocked);
        let members = with_field(members, "person"@, person);
        members
    }

    /// Each key leads to what was written under it, and to nothing where
    /// nothing was written.
    pub proof fn lemma_members(blocked: JsonTree, person: JsonTree)
        ensures
            ({
                let members = Self::members(blocked, person);
                &&& lookup(members, "blocked"@) == Some(blocked)
                &&& lookup(members, "person"@) == Some(person)
            }),
    {
        broadcast use group_written_members;

        reveal_strlit("blocked");
        reveal_strlit("person");
        assert("blocked"@.len() == 7);
        assert("person"@.len() == 6);
    }

    /// Every field is mandatory: each is written, in order, and nothing
    /// else.
    pub proof fn lemma_mandatory_fields_alone(blocked: JsonTree, person: JsonTree)
        ensures
            Self::members(blocked, person) == Seq::<Member>::empty()
                .push(("blocked"@, blocked))
                .push(("person"@, person)),
    {
        reveal(with_field);
        reveal(with_optional);
    }
}

impl Payload for BlockPersonResponse {
    open spec fn tree(&self) -> JsonTree {
        JsonTree::Object(Self::members(self.blocked.tree(), self.person.tree()))
    }

    open spec fn admits(t: JsonTree) -> bool {
        &&& t is Object
        &&& required_admits::<bool>(t, "blocked"@)
        &&& required_admits::<PersonView>(t, "person"@)
    }

    open spec fn agrees(&self, t: JsonTree) -> bool {
        &&& required_agrees(self.blocked, t, "blocked"@)
        &&& required_agrees(self.person, t, "person"@)
    }

    fn to_json(&self) -> (out: JsonValue) {
        let mut members: Vec<(String, JsonValue)> = Vec::new();
        assert(members_view(members@) =~= Seq::empty());
        put(&mut members, "blocked", &self.blocked);
        put(&mut members, "person", &self.person);
        object(members)
    }

    fn from_json(v: &JsonValue) -> (res: Option<Self>) {
        if !v.is_object() {
            return None;
        }
        let blocked = required::<bool>(v, "blocked")?;
        let person = required::<PersonView>(v, "person")?;
        Some(BlockPersonResponse { blocked, person })
    }

    proof fn lemma_round_trip(&self) {
        Self::lemma_members(self.blocked.tree(), self.person.tree());
        self.blocked.lemma_round_trip();
        self.person.lemma_round_trip();
    }

    proof fn lemma_reads_one(&self, other: &Self, t: JsonTree) {
        lemma_required_reads_one(self.blocked, other.blocked, t, "blocked"@);
        lemma_required_reads_one(self.person, other.person, t, "person"@);
    }
}

#[derive(Clone, Debug, PartialEq, Default)]
pub struct CaptchaResponse {
    pub png: String,
    pub uuid: String,
    pub wav: String,
}

impl CaptchaResponse {
    /// The members that a record is written as, from what is written for
    /// each of its fields.
    pub open spec fn members(png: JsonTree, uuid: JsonTree, wav: JsonTree) -> Seq<Member> {
        let members = Seq::empty();
        let members = with_field(members, "png"@, png);
        let members = with_field(members, "uuid"@, uuid);
        let members = with_field(members, "wav"@, wav);
        members
    }

    /// Each key leads to what was written under it, and to nothing where
    /// nothing was written.
    pub proof fn lemma_members(png: JsonTree, uuid: JsonTree, wav: JsonTree)
        ensures
            ({
                let members = Self::members(png, uuid, wav);
                &&& lookup(members, "png"@) == Some(png)
                &&& lookup(members, "uuid"@) == Some(uuid)
                &&& lookup(members, "wav"@) == Some(wav)
            }),
    {
        broadcast use group_written_members;

        reveal_strlit("png");
        reveal_strlit("uuid");
        reveal_strlit("wav");
        assert("png"@.len() == 3 && "png"@[0] == 'p');
        assert("uuid"@.len() == 4);
        assert("wav"@.len() == 3 && "wav"@[0] == 'w');
    }

    /// Every field is mandatory: each is written, in order, and nothing
    /// else.
    pub proof fn lemma_mandatory_fields_alone(png: JsonTree, uuid: JsonTree, wav: JsonTree)
        ensures
            Self::members(png, uuid, wav) == Seq::<Member>::empty()
                .push(("png"@, png))
                .push(("uuid"@, uuid))
                .push(("wav"@, wav)),
    {
        reveal(with_field);
        reveal(with_optional);
    }
}

impl Payload for CaptchaResponse {
    open spec fn tree(&self) -> JsonTree {
        JsonTree::Object(Self::members(self.png.tree(), self.uuid.tree(), self.wav.tree()))
    }

    open spec fn admits(t: JsonTree) -> bool {
        &&& t is Object
        &&& required_admits::<String>(t, "png"@)
        &&& required_admits::<String>(t, "uuid"@)
        &&& required_admits::<String>(t, "wav"@)
    }

    open spec fn agrees(&self, t: JsonTree) -> bool {
        &&& required_agrees(self.png, t, "png"@)
        &&& required_agrees(self.uuid, t, "uuid"@)
        &&& required_agrees(self.wav, t, "wav"@)
    }

    fn to_json(&self) -> (out: JsonValue) {
        let mut members: Vec<(String, JsonValue)> = Vec::new();
        assert(members_view(members@) =~= Seq::empty());
        put(&mut members, "png", &self.png);
        put(&mut members, "uuid", &self.uuid);
        put(&mut members, "wav", &self.wav);
        object(members)
    }

    fn from_json(v: &JsonValue) -> (res: Option<Self>) {
        if !v.is_object() {
            return None;
        }
        let png = required::<String>(v, "png")?;
        let uuid = required::<String>(v, "uuid")?;
        let wav = required::<String>(v, "wav")?;
        Some(CaptchaResponse { png, uuid, wav })
    }

    proof fn lemma_round_trip(&self) {
        Self::lemma_members(self.png.tree(), self.uuid.tree(), self.wav.tree());
        self.png.lemma_round_trip();
        self.uuid.lemma_round_trip();
        self.wav.lemma_round_trip();
    }

    proof fn lemma_reads_one(&self, other: &Self, t: JsonTree) {
        lemma_required_reads_one(self.png, other.png, t, "png"@);
        lemma_required_reads_one(self.uuid, other.uuid, t, "uuid"@);
        lemma_required_reads_one(self.wav, other.wav, t, "wav"@);
    }
}

#[derive(Clone, Debug, PartialEq, Default)]
pub struct ChangePassword {
    pub auth: String,
    pub new_password: String,
    pub new_password_verify: String,
    pub old_password: String,
}

impl ChangePassword {
    /// The members that a record is written as, from what is written for
    /// each of its fields.
    pub open spec fn members(
        auth: JsonTree,
        new_password: JsonTree,
        new_password_verify: JsonTree,
        old_password: JsonTree,
    ) -> Seq<Member> {
        let members = Seq::empty();
        let members = with_field(members, "auth"@, auth);
        let members = with_field(members, "new_password"@, new_password);
        let members = with_field(members, "new_password_verify"@, new_password_verify);
        let members = with_field(members, "old_password"@, old_password);
        members
    }

    /// Each key leads to what was written under it, and to nothing where
    /// nothing was written.
    pub proof fn lemma_members(
        auth: JsonTree,
        new_password: JsonTree,
        new_password_verify: JsonTree,
        old_password: JsonTree,
    )
        ensures
            ({
                let members = Self::members(auth, new_password, new_password_verify, old_password);
                &&& lookup(members, "auth"@) == Some(auth)
                &&& lookup(members, "new_password"@) == Some(new_password)
                &&& lookup(members, "new_password_verify"@) == Some(new_password_verify)
                &&& lookup(members, "old_password"@) == Some(old_password)
            }),
    {
        broadcast use group_written_members;

        reveal_strlit("auth");
        reveal_strlit("new_password");
        reveal_strlit("new_password_verify");
        reveal_strlit("old_password");
        assert("auth"@.len() == 4);
        assert("new_password"@.len() == 12 && "new_password"@[0] == 'n');
        assert("new_password_verify"@.len() == 19);
        assert("old_password"@.len() == 12 && "old_password"@[0] == 'o');
    }

    /// Every field is mandatory: each is written, in order, and nothing
    /// else.
    pub proof fn lemma_mandatory_fields_alone(
        auth: JsonTree,
        new_password: JsonTree,
        new_password_verify: JsonTree,
        old_password: JsonTree,
    )
        ensures
            Self::members(
                auth,
                new_password,
                new_password_verify,
                old_password,
            ) == Seq::<Member>::empty()
                .push(("auth"@, auth))
                .push(("new_password"@, new_password))
                .push(("new_password_verify"@, new_password_verify))
                .push(("old_password"@, old_password)),
    {
        reveal(with_field);
        reveal(with_optional);
    }
}

impl Payload for ChangePassword {
    open spec fn tree(&self) -> JsonTree {
        JsonTree::Object(
            Self::members(
                self.auth.tree(),
                self.new_password.tree(),
                self.new_password_verify.tree(),
                self.old_password.tree(),
            ),
        )
    }

    open spec fn admits(t: JsonTree) -> bool {
        &&& t is Object
        &&& required_admits::<String>(t, "auth"@)
        &&& required_admits::<String>(t, "new_password"@)
        &&& required_admits::<String>(t, "new_password_verify"@)
        &&& required_admits::<String>(t, "old_password"@)
    }

    open spec fn agrees(&self, t: JsonTree) -> bool {
        &&& required_agrees(self.auth, t, "auth"@)
        &&& required_agrees(self.new_password, t, "new_password"@)
        &&& required_agrees(self.new_password_verify, t, "new_password_verify"@)
        &&& required_agrees(self.old_password, t, "old_password"@)
    }

    fn to_json(&self) -> (out: JsonValue) {
        let mut members: Vec<(String, JsonValue)> = Vec::new();
        assert(members_view(members@) =~= Seq::empty());
        put(&mut members, "auth", &self.auth);
        put(&mut members, "new_password", &self.new_password);
        put(&mut members, "new_password_verify", &self.new_password_verify);
        put(&mut members, "old_password", &self.old_password);
        object(members)
    }

    fn from_json(v: &JsonValue) -> (res: Option<Self>) {
        if !v.is_object() {
            return None;
        }
        let auth = required::<String>(v, "auth")?;
        let new_password = required::<String>(v, "new_password")?;
        let new_password_verify = required::<String>(v, "new_password_verify")?;
        let old_password = required::<String>(v, "old_password")?;
        Some(ChangePassword { auth, new_password, new_password_verify, old_password })
    }

    proof fn lemma_round_trip(&self) {
        Self::lemma_members(
            self.auth.tree(),
            self.new_password.tree(),
            self.new_password_verify.tree(),
            self.old_password.tree(),
        );
        self.auth.lemma_round_trip();
        self.new_password.lemma_round_trip();
        self.new_password_verify.lemma_round_trip();
        self.old_password.lemma_round_trip();
    }

    proof fn lemma_reads_one(&self, other: &Self, t: JsonTree) {
        lemma_required_reads_one(self.auth, other.auth, t, "auth"@);
        lemma_required_reads_one(self.new_password, other.new_password, t, "new_password"@);
        lemma_required_reads_one(
            self.new_password_verify,
            other.new_password_verify,
            t,
            "new_password_verify"@,
        );
        lemma_required_reads_one(self.old_password, other.old_password, t, "old_password"@);
    }
}

#[derive(Clone, Debug, PartialEq, Default)]
pub struct DeleteAccount {
    pub auth: String,
    pub password: String,
}

impl DeleteAccount {
    /// The members that a record is written as, from what is written for
    /// each of its fields.
    pub open spec fn members(auth: JsonTree, password: JsonTree) -> Seq<Member> {
        let members = Seq::empty();
        let members = with_field(members, "auth"@, auth);
        let members = with_field(members, "password"@, password);
        members
    }

    /// Each key leads to what was written under it, and to nothing where
    /// nothing was written.
    pub proof fn lemma_members(auth: JsonTree, password: JsonTree)
        ensures
            ({
                let members = Self::members(auth, password);
                &&& lookup(members, "auth"@) == Some(auth)
                &&& lookup(members, "password"@) == Some(password)
            }),
    {
        broadcast use group_written_members;

        reveal_strlit("auth");
        reveal_strlit("password");
        assert("auth"@.len() == 4);
        assert("password"@.len() == 8);
    }

    /// Every field is mandatory: each is written, in order, and nothing
    /// else.
    pub proof fn lemma_mandatory_fields_alone(auth: JsonTree, password: JsonTree)
        ensures
            Self::members(auth, password) == Seq::<Member>::empty()
                .push(("auth"@, auth))
                .push(("password"@, password)),
    {
        reveal(with_field);
        reveal(with_optional);
    }
}

impl Payload for DeleteAccount {
    open spec fn tree(&self) -> JsonTree {
        JsonTree::Object(Self::members(self.auth.tree(), self.password.tree()))
    }

    open spec fn admits(t: JsonTree) -> bool {
        &&& t is Object
        &&& required_admits::<String>(t, "auth"@)
        &&& required_admits::<String>(t, "password"@)
    }

    open spec fn agrees(&self, t: JsonTree) -> bool {
        &&& required_agrees(self.auth, t, "auth"@)
        &&& required_agrees(self.password, t, "password"@)
    }

    fn to_json(&self) -> (out: JsonValue) {
        let mut members: Vec<(String, JsonValue)> = Vec::new();
        assert(members_view(members@) =~= Seq::empty());
        put(&mut members, "auth", &self.auth);
        put(&mut members, "password", &self.password);
        object(members)
    }

    fn from_json(v: &JsonValue) -> (res: Option<Self>) {
        if !v.is_object() {
            return None;
        }
        let auth = required::<String>(v, "auth")?;
        let password = required::<String>(v, "password")?;
        Some(DeleteAccount { auth, password })
    }

    proof fn lemma_round_trip(&self) {
        Self::lemma_members(self.auth.tree(), self.password.tree());
        self.auth.lemma_round_trip();
        self.password.lemma_round_trip();
    }

    proof fn lemma_reads_one(&self, other: &Self, t: JsonTree) {
        lemma_required_reads_one(self.auth, other.auth, t, "auth"@);
        lemma_required_reads_one(self.password, other.password, t, "password"@);
    }
}

#[derive(Clone, Debug, PartialEq, Default)]
pub struct GetBannedPersons {
    pub auth: String,
}

impl GetBannedPersons {
    /// The members that a record is written as, from what is written for
    /// each of its fields.
    pub open spec fn members(auth: JsonTree) -> Seq<Member> {
        let members = Seq::empty();
        let members = with_field(members, "auth"@, auth);
        members
    }

    /// Each key leads to what was written under it, and to nothing where
    /// nothing was written.
    pub proof fn lemma_members(auth: JsonTree)
        ensures
            ({
                let members = Self::members(auth);
                &&& lookup(members, "auth"@) == Some(auth)
            }),
    {
        broadcast use group_written_members;

        reveal_strlit("auth");
        assert("auth"@.len() == 4);
    }

    /// Every field is mandatory: each is written, in order, and nothing
    /// else.
    pub proof fn lemma_mandatory_fields_alone(auth: JsonTree)
        ensures
            Self::members(auth) == Seq::<Member>::empty()
                .push(("auth"@, auth)),
    {
        reveal(with_field);
        reveal(with_optional);
    }
}

impl Payload for GetBannedPersons {
    open spec fn tree(&self) -> JsonTree {
        JsonTree::Object(Self::members(self.auth.tree()))
    }

    open spec fn admits(t: JsonTree) -> bool {
        &&& t is Object
        &&& required_admits::<String>(t, "auth"@)
    }

    open spec fn agrees(&self, t: JsonTree) -> bool {
        &&& required_agrees(self.auth, t, "auth"@)
    }

    fn to_json(&self) -> (out: JsonValue) {
        let mut members: Vec<(String, JsonValue)> = Vec::new();
        assert(members_view(members@) =~= Seq::empty());
        put(&mut members, "auth", &self.auth);
        object(members)
    }

    fn from_json(v: &JsonValue) -> (res: Option<Self>) {
        if !v.is_object() {
            return None;
        }
        let auth = required::<String>(v, "auth")?;
        Some(GetBannedPersons { auth })
    }

    proof fn lemma_round_trip(&self) {
        Self::lemma_members(self.auth.tree());
        self.auth.lemma_round_trip();
    }

    proof fn lemma_reads_one(&self, other: &Self, t: JsonTree) {
        lemma_required_reads_one(self.auth, other.auth, t, "auth"@);
    }
}

#[derive(Clone, Debug, PartialEq, Default)]
pub struct GetCaptcha {
    pub auth: Option<String>,
}

impl GetCaptcha {
    /// The members that a record is written as, from what is written for
    /// each of its fields.
    pub open spec fn members(auth: Option<JsonTree>) -> Seq<Member> {
        let members = Seq::empty();
        let members = with_optional(members, "auth"@, auth);
        members
    }

    /// Each key leads to what was written under it, and to nothing where
    /// nothing was written.
    pub proof fn lemma_members(auth: Option<JsonTree>)
        ensures
            ({
                let members = Self::members(auth);
                &&& lookup(members, "auth"@) == auth
            }),
    {
        broadcast use group_written_members;

        reveal_strlit("auth");
        assert("auth"@.len() == 4);
    }

    /// With every field absent, nothing is written.
    pub proof fn lemma_mandatory_fields_alone()
        ensures
            Self::members(None) == Seq::<Member>::empty(),
    {
        reveal(with_field);
        reveal(with_optional);
    }
}

impl Payload for GetCaptcha {
    open spec fn tree(&self) -> JsonTree {
        JsonTree::Object(Self::members(written(self.auth)))
    }

    open spec fn admits(t: JsonTree) -> bool {
        &&& t is Object
        &&& optional_admits::<String>(t, "auth"@)
    }

    open spec fn agrees(&self, t: JsonTree) -> bool {
        &&& optional_agrees(self.auth, t, "auth"@)
    }

    fn to_json(&self) -> (out: JsonValue) {
        let mut members: Vec<(String, JsonValue)> = Vec::new();
        assert(members_view(members@) =~= Seq::empty());
        put_optional(&mut members, "auth", &self.auth);
        object(members)
    }

    fn from_json(v: &JsonValue) -> (res: Option<Self>) {
        if !v.is_object() {
            return None;
        }
        let auth = optional::<String>(v, "auth")?;
        Some(GetCaptcha { auth })
    }

    proof fn lemma_round_trip(&self) {
        Self::lemma_members(written(self.auth));
        lemma_optional_round_trip(self.auth);
    }

    proof fn lemma_reads_one(&self, other: &Self, t: JsonTree) {
        lemma_optional_reads_one(self.auth, other.auth, t, "auth"@);
    }
}

#[derive(Clone, Debug, PartialEq, Default)]
pub struct GetCaptchaResponse {
    pub ok: Option<CaptchaResponse>,
}

impl GetCaptchaResponse {
    /// The members that a record is written as, from what is written for
    /// each of its fields.
    pub open spec fn members(ok: Option<JsonTree>) -> Seq<Member> {
        let members = Seq::empty();
        let members = with_optional(members, "ok"@, ok);
        members
    }

    /// Each key leads to what was written under it, and to nothing where
    /// nothing was written.
    pub proof fn lemma_members(ok: Option<JsonTree>)
        ensures
            ({
                let members = Self::members(ok);
                &&& lookup(members, "ok"@) == ok
            }),
    {
        broadcast use group_written_members;

        reveal_strlit("ok");
        assert("ok"@.len() == 2);
    }

    /// With every field absent, nothing is written.
    pub proof fn lemma_mandatory_fields_alone()
        ensures
            Self::members(None) == Seq::<Member>::empty(),
    {
        reveal(with_field);
        reveal(with_optional);
    }
}

impl Payload for GetCaptchaResponse {
    open spec fn tree(&self) -> JsonTree {
        JsonTree::Object(Self::members(written(self.ok)))
    }

    open spec fn admits(t: JsonTree) -> bool {
        &&& t is Object
        &&& optional_admits::<CaptchaResponse>(t, "ok"@)
    }

    open spec fn agrees(&self, t: JsonTree) -> bool {
        &&& optional_agrees(self.ok, t, "ok"@)
    }

    fn to_json(&self) -> (out: JsonValue) {
        let mut members: Vec<(String, JsonValue)> = Vec::new();
        assert(members_view(members@) =~= Seq::empty());
        put_optional(&mut members, "ok", &self.ok);
        object(members)
    }

    fn from_json(v: &JsonValue) -> (res: Option<Self>) {
        if !v.is_object() {
            return None;
        }
        let ok = optional::<CaptchaResponse>(v, "ok")?;
        Some(GetCaptchaResponse { ok })
    }

    proof fn lemma_round_trip(&self) {
        Self::lemma_members(written(self.ok));
        lemma_optional_round_trip(self.ok);
    }

    proof fn lemma_reads_one(&self, other: &Self, t: JsonTree) {
        lemma_optional_reads_one(self.ok, other.ok, t, "ok"@);
    }
}

#[derive(Clone, Debug, PartialEq, Default)]
pub struct GetPersonDetails {
    pub auth: Option<String>,
    pub community_id: Option<i32>,
    pub limit: Option<i32>,
    pub page: Option<i32>,
    pub person_id: Option<i32>,
    pub saved_only: Option<bool>,
    pub sort: Option<SortType>,
    pub username: Option<String>,
}

impl GetPersonDetails {
    /// The members that a record is written as, from what is written for
    /// each of its fields.
    pub open spec fn members(
        auth: Option<JsonTree>,
        community_id: Option<JsonTree>,
        limit: Option<JsonTree>,
        page: Option<JsonTree>,
        person_id: Option<JsonTree>,
        saved_only: Option<JsonTree>,
        sort: Option<JsonTree>,
        username: Option<JsonTree>,
    ) -> Seq<Member> {
        let members = Seq::empty();
        let members = with_optional(members, "auth"@, auth);
        let members = with_optional(members, "community_id"@, community_id);
        let members = with_optional(members, "limit"@, limit);
        let members = with_optional(members, "page"@, page);
        let members = with_optional(members, "person_id"@, person_id);
        let members = with_optional(members, "saved_only"@, saved_only);
        let members = with_optional(members, "sort"@, sort);
        let members = with_optional(members, "username"@, username);
        members
    }

    /// Each key leads to what was written under it, and to nothing where
    /// nothing was written.
    pub proof fn lemma_members(
        auth: Option<JsonTree>,
        community_id: Option<JsonTree>,
        limit: Option<JsonTree>,
        page: Option<JsonTree>,
        person_id: Option<JsonTree>,
        saved_only: Option<JsonTree>,
        sort: Option<JsonTree>,
        username: Option<JsonTree>,
    )
        ensures
            ({
                let members = Self::members(
                    auth,
                    community_id,
                    limit,
                    page,
                    person_id,
                    saved_only,
                    sort,
                    username,
                );
                &&& lookup(members, "auth"@) == auth
                &&& lookup(members, "community_id"@) == community_id
                &&& lookup(members, "limit"@) == limit
                &&& lookup(members, "page"@) == page
                &&& lookup(members, "person_id"@) == person_id
                &&& lookup(members, "saved_only"@) == saved_only
                &&& lookup(members, "sort"@) == sort
                &&& lookup(members, "username"@) == username
            }),
    {
        broadcast use group_written_members;

        reveal_strlit("auth");
        reveal_strlit("community_id");
        reveal_strlit("limit");
        reveal_strlit("page");
        reveal_strlit("person_id");
        reveal_strlit("saved_only");
        reveal_strlit("sort");
        reveal_strlit("username");
        assert("auth"@.len() == 4 && "auth"@[0] == 'a');
        assert("community_id"@.len() == 12);
        assert("limit"@.len() == 5);
        assert("page"@.len() == 4 && "page"@[0] == 'p');
        assert("person_id"@.len() == 9);
        assert("saved_only"@.len() == 10);
        assert("sort"@.len() == 4 && "sort"@[0] == 's');
        assert("username"@.len() == 8);
    }

    /// With every field absent, nothing is written.
    pub proof fn lemma_mandatory_fields_alone()
        ensures
            Self::members(None, None, None, None, None, None, None, None) == Seq::<Member>::empty(),
    {
        reveal(with_field);
        reveal(with_optional);
    }
}

impl Payload for GetPersonDetails {
    open spec fn tree(&self) -> JsonTree {
        JsonTree::Object(
            Self::members(
                written(self.auth),
                written(self.community_id),
                written(self.limit),
                written(self.page),
                written(self.person_id),
                written(self.saved_only),
                written(self.sort),
                written(self.username),
            ),
        )
    }

    open spec fn admits(t: JsonTree) -> bool {
        &&& t is Object
        &&& optional_admits::<String>(t, "auth"@)
        &&& optional_admits::<i32>(t, "community_id"@)
        &&& optional_admits::<i32>(t, "limit"@)
        &&& optional_admits::<i32>(t, "page"@)
        &&& optional_admits::<i32>(t, "person_id"@)
        &&& optional_admits::<bool>(t, "saved_only"@)
        &&& optional_admits::<SortType>(t, "sort"@)
        &&& optional_admits::<String>(t, "username"@)
    }

    open spec fn agrees(&self, t: JsonTree) -> bool {
        &&& optional_agrees(self.auth, t, "auth"@)
        &&& optional_agrees(self.community_id, t, "community_id"@)
        &&& optional_agrees(self.limit, t, "limit"@)
        &&& optional_agrees(self.page, t, "page"@)
        &&& optional_agrees(self.person_id, t, "person_id"@)
        &&& optional_agrees(self.saved_only, t, "saved_only"@)
        &&& optional_agrees(self.sort, t, "sort"@)
        &&& optional_agrees(self.username, t, "username"@)
    }

    fn to_json(&self) -> (out: JsonValue) {
        let mut members: Vec<(String, JsonValue)> = Vec::new();
        assert(members_view(members@) =~= Seq::empty());
        put_optional(&mut members, "auth", &self.auth);
        put_optional(&mut members, "community_id", &self.community_id);
        put_optional(&mut members, "limit", &self.limit);
        put_optional(&mut members, "page", &self.page);
        put_optional(&mut members, "person_id", &self.person_id);
        put_optional(&mut members, "saved_only", &self.saved_only);
        put_optional(&mut members, "sort", &self.sort);
        put_optional(&mut members, "username", &self.username);
        object(members)
    }

    fn from_json(v: &JsonValue) -> (res: Option<Self>) {
        if !v.is_object() {
            return None;
        }
        let auth = optional::<String>(v, "auth")?;
        let community_id = optional::<i32>(v, "community_id")?;
        let limit = optional::<i32>(v, "limit")?;
        let page = optional::<i32>(v, "page")?;
        let person_id = optional::<i32>(v, "person_id")?;
        let saved_only = optional::<bool>(v, "saved_only")?;
        let sort = optional::<SortType>(v, "sort")?;
        let username = optional::<String>(v, "username")?;
        Some(
            GetPersonDetails {
                auth,
                community_id,
                limit,
                page,
                person_id,
                saved_only,
                sort,
                username,
            },
        )
    }

    proof fn lemma_round_trip(&self) {
        Self::lemma_members(
            written(self.auth),
            written(self.community_id),
            written(self.limit),
            written(self.page),
            written(self.person_id),
            written(self.saved_only),
            written(self.sort),
            written(self.username),
        );
        lemma_optional_round_trip(self.auth);
        lemma_optional_round_trip(self.community_id);
        lemma_optional_round_trip(self.limit);
        lemma_optional_round_trip(self.page);
        lemma_optional_round_trip(self.person_id);
        lemma_optional_round_trip(self.saved_only);
        lemma_optional_round_trip(self.sort);
        lemma_optional_round_trip(self.username);
    }

    proof fn lemma_reads_one(&self, other: &Self, t: JsonTree) {
        lemma_optional_reads_one(self.auth, other.auth, t, "auth"@);
        lemma_optional_reads_one(self.community_id, other.community_id, t, "community_id"@);
        lemma_optional_reads_one(self.limit, other.limit, t, "limit"@);
        lemma_optional_reads_one(self.page, other.page, t, "page"@);
        lemma_optional_reads_one(self.person_id, other.person_id, t, "person_id"@);
        lemma_optional_reads_one(self.saved_only, other.saved_only, t, "saved_only"@);
        lemma_optional_reads_one(self.sort, other.sort, t, "sort"@);
        lemma_optional_reads_one(self.username, other.username, t, "username"@);
    }
}

#[derive(Clone, Debug, PartialEq, Default)]
pub struct GetPersonDetailsResponse {
    pub comments: Vec<CommentView>,
    pub moderates: Vec<CommunityModeratorView>,
    pub person_view: PersonView,
    pub posts: Vec<PostView>,
}

impl GetPersonDetailsResponse {
    /// The members that a record is written as, from what is written for
    /// each of its fields.
    pub open spec fn members(
        comments: JsonTree,
        moderates: JsonTree,
        person_view: JsonTree,
        posts: JsonTree,
    ) -> Seq<Member> {
        let members = Seq::empty();
        let members = with_field(members, "comments"@, comments);
        let members = with_field(members, "moderates"@, moderates);
        let members = with_field(members, "person_view"@, person_view);
        let members = with_field(members, "posts"@, posts);
        members
    }

    /// Each key leads to what was written under it, and to nothing where
    /// nothing was written.
    pub proof fn lemma_members(
        comments: JsonTree,
        moderates: JsonTree,
        person_view: JsonTree,
        posts: JsonTree,
    )
        ensures
            ({
                let members = Self::members(comments, moderates, person_view, posts);
                &&& lookup(members, "comments"@) == Some(comments)
                &&& lookup(members, "moderates"@) == Some(moderates)
                &&& lookup(members, "person_view"@) == Some(person_view)
                &&& lookup(members, "posts"@) == Some(posts)
            }),
    {
        broadcast use group_written_members;

        reveal_strlit("comments");
        reveal_strlit("moderates");
        reveal_strlit("person_view");
        reveal_strlit("posts");
        assert("comments"@.len() == 8);
        assert("moderates"@.len() == 9);
        assert("person_view"@.len() == 11);
        assert("posts"@.len() == 5);
    }

    /// Every field is mandatory: each is written, in order, and nothing
    /// else.
    pub proof fn lemma_mandatory_fields_alone(
        comments: JsonTree,
        moderates: JsonTree,
        person_view: JsonTree,
        posts: JsonTree,
    )
        ensures
            Self::members(comments, moderates, person_view, posts) == Seq::<Member>::empty()
                .push(("comments"@, comments))
                .push(("moderates"@, moderates))
                .push(("person_view"@, person_view))
                .push(("posts"@, posts)),
    {
        reveal(with_field);
        reveal(with_optional);
    }
}

impl Payload for GetPersonDetailsResponse {
    open spec fn tree(&self) -> JsonTree {
        JsonTree::Object(
            Self::members(
                self.comments.tree(),
                self.moderates.tree(),
                self.person_view.tree(),
                self.posts.tree(),
            ),
        )
    }

    open spec fn admits(t: JsonTree) -> bool {
        &&& t is Object
        &&& required_admits::<Vec<CommentView>>(t, "comments"@)
        &&& required_admits::<Vec<CommunityModeratorView>>(t, "moderates"@)
        &&& required_admits::<PersonView>(t, "person_view"@)
        &&& required_admits::<Vec<PostView>>(t, "posts"@)
    }

    open spec fn agrees(&self, t: JsonTree) -> bool {
        &&& required_agrees(self.comments, t, "comments"@)
        &&& required_agrees(self.moderates, t, "moderates"@)
        &&& required_agrees(self.person_view, t, "person_view"@)
        &&& required_agrees(self.posts, t, "posts"@)
    }

    fn to_json(&self) -> (out: JsonValue) {
        let mut members: Vec<(String, JsonValue)> = Vec::new();
        assert(members_view(members@) =~= Seq::empty());
        put(&mut members, "comments", &self.comments);
        put(&mut members, "moderates", &self.moderates);
        put(&mut members, "person_view", &self.person_view);
        put(&mut members, "posts", &self.posts);
        object(members)
    }

    fn from_json(v: &JsonValue) -> (res: Option<Self>) {
        if !v.is_object() {
            return None;
        }
        let comments = required::<Vec<CommentView>>(v, "comments")?;
        let moderates = required::<Vec<CommunityModeratorView>>(v, "moderates")?;
        let person_view = required::<PersonView>(v, "person_view")?;
        let posts = required::<Vec<PostView>>(v, "posts")?;
        Some(GetPersonDetailsResponse { comments, moderates, person_view, posts })
    }

    proof fn lemma_round_trip(&self) {
        Self::lemma_members(
            self.comments.tree(),
            self.moderates.tree(),
            self.person_view.tree(),
            self.posts.tree(),
        );
        self.comments.lemma_round_trip();
        self.moderates.lemma_round_trip();
        self.person_view.lemma_round_trip();
        self.posts.lemma_round_trip();
    }

    proof fn lemma_reads_one(&self, other: &Self, t: JsonTree) {
        lemma_required_reads_one(self.comments, other.comments, t, "comments"@);
        lemma_required_reads_one(self.moderates, other.moderates, t, "moderates"@);
        lemma_required_reads_one(self.person_view, other.person_view, t, "person_view"@);
        lemma_required_reads_one(self.posts, other.posts, t, "posts"@);
    }
}

#[derive(Clone, Debug, PartialEq, Default)]
pub struct GetPersonMentions {
    pub auth: String,
    pub limit: Option<i32>,
    pub page: Option<i32>,
    pub sort: Option<CommentSortType>,
    pub unread_only: Option<bool>,
}

impl GetPersonMentions {
    /// The members that a record is written as, from what is written for
    /// each of its fields.
    pub open spec fn members(
        auth: JsonTree,
        limit: Option<JsonTree>,
        page: Option<JsonTree>,
        sort: Option<JsonTree>,
        unread_only: Option<JsonTree>,
    ) -> Seq<Member> {
        let members = Seq::empty();
        let members = with_field(members, "auth"@, auth);
        let members = with_optional(members, "limit"@, limit);
        let members = with_optional(members, "page"@, page);
        let members = with_optional(members, "sort"@, sort);
        let members = with_optional(members, "unread_only"@, unread_only);
        members
    }

    /// Each key leads to what was written under it, and to nothing where
    /// nothing was written.
    pub proof fn lemma_members(
        auth: JsonTree,
        limit: Option<JsonTree>,
        page: Option<JsonTree>,
        sort: Option<JsonTree>,
        unread_only: Option<JsonTree>,
    )
        ensures
            ({
                let members = Self::members(auth, limit, page, sort, unread_only);
                &&& lookup(members, "auth"@) == Some(auth)
                &&& lookup(members, "limit"@) == limit
                &&& lookup(members, "page"@) == page
                &&& lookup(members, "sort"@) == sort
                &&& lookup(members, "unread_only"@) == unread_only
            }),
    {
        broadcast use group_written_members;

        reveal_strlit("auth");
        reveal_strlit("limit");
        reveal_strlit("page");
        reveal_strlit("sort");
        reveal_strlit("unread_only");
        assert("auth"@.len() == 4 && "auth"@[0] == 'a');
        assert("limit"@.len() == 5);
        assert("page"@.len() == 4 && "page"@[0] == 'p');
        assert("sort"@.len() == 4 && "sort"@[0] == 's');
        assert("unread_only"@.len() == 11);
    }

    /// With every optional field absent, the mandatory fields are written
    /// and nothing else.
    pub proof fn lemma_mandatory_fields_alone(auth: JsonTree)
        ensures
            Self::members(auth, None, None, None, None) == Seq::<Member>::empty()
                .push(("auth"@, auth)),
    {
        reveal(with_field);
        reveal(with_optional);
    }
}

impl Payload for GetPersonMentions {
    open spec fn tree(&self) -> JsonTree {
        JsonTree::Object(
            Self::members(
                self.auth.tree(),
                written(self.limit),
                written(self.page),
                written(self.sort),
                written(self.unread_only),
            ),
        )
    }

    open spec fn admits(t: JsonTree) -> bool {
        &&& t is Object
        &&& required_admits::<String>(t, "auth"@)
        &&& optional_admits::<i32>(t, "limit"@)
        &&& optional_admits::<i32>(t, "page"@)
        &&& optional_admits::<CommentSortType>(t, "sort"@)
        &&& optional_admits::<bool>(t, "unread_only"@)
    }

    open spec fn agrees(&self, t: JsonTree) -> bool {
        &&& required_agrees(self.auth, t, "auth"@)
        &&& optional_agrees(self.limit, t, "limit"@)
        &&& optional_agrees(self.page, t, "page"@)
        &&& optional_agrees(self.sort, t, "sort"@)
        &&& optional_agrees(self.unread_only, t, "unread_only"@)
    }

    fn to_json(&self) -> (out: JsonValue) {
        let mut members: Vec<(String, JsonValue)> = Vec::new();
        assert(members_view(members@) =~= Seq::empty());
        put(&mut members, "auth", &self.auth);
        put_optional(&mut members, "limit", &self.limit);
        put_optional(&mut members, "page", &self.page);
        put_optional(&mut members, "sort", &self.sort);
        put_optional(&mut members, "unread_only", &self.unread_only);
        object(members)
    }

    fn from_json(v: &JsonValue) -> (res: Option<Self>) {
        if !v.is_object() {
            return None;
        }
        let auth = required::<String>(v, "auth")?;
        let limit = optional::<i32>(v, "limit")?;
        let page = optional::<i32>(v, "page")?;
        let sort = optional::<CommentSortType>(v, "sort")?;
        let unread_only = optional::<bool>(v, "unread_only")?;
        Some(GetPersonMentions { auth, limit, page, sort, unread_only })
    }

    proof fn lemma_round_trip(&self) {
        Self::lemma_members(
            self.auth.tree(),
            written(self.limit),
            written(self.page),
            written(self.sort),
            written(self.unread_only),
        );
        self.auth.lemma_round_trip();
        lemma_optional_round_trip(self.limit);
        lemma_optional_round_trip(self.page);
        lemma_optional_round_trip(self.sort);
        lemma_optional_round_trip(self.unread_only);
    }

    proof fn lemma_reads_one(&self, other: &Self, t: JsonTree) {
        lemma_required_reads_one(self.auth, other.auth, t, "auth"@);
        lemma_optional_reads_one(self.limit, other.limit, t, "limit"@);
        lemma_optional_reads_one(self.page, other.page, t, "page"@);
        lemma_optional_reads_one(self.sort, other.sort, t, "sort"@);
        lemma_optional_reads_one(self.unread_only, other.unread_only, t, "unread_only"@);
    }
}

#[derive(Clone, Debug, PartialEq, Default)]
pub struct GetPersonMentionsResponse {
    pub mentions: Vec<PersonMentionView>,
}

impl GetPersonMentionsResponse {
    /// The members that a record is written as, from what is written for
    /// each of its fields.
    pub open spec fn members(mentions: JsonTree) -> Seq<Member> {
        let members = Seq::empty();
        let members = with_field(members, "mentions"@, mentions);
        members
    }

    /// Each key leads to what was written under it, and to nothing where
    /// nothing was written.
    pub proof fn lemma_members(mentions: JsonTree)
        ensures
            ({
                let members = Self::members(mentions);
                &&& lookup(members, "mentions"@) == Some(mentions)
            }),
    {
        broadcast use group_written_members;

        reveal_strlit("mentions");
        assert("mentions"@.len() == 8);
    }

    /// Every field is mandatory: each is written, in order, and nothing
    /// else.
    pub proof fn lemma_mandatory_fields_alone(mentions: JsonTree)
        ensures
            Self::members(mentions) == Seq::<Member>::empty()
                .push(("mentions"@, mentions)),
    {
        reveal(with_field);
        reveal(with_optional);
    }
}

impl Payload for GetPersonMentionsResponse {
    open spec fn tree(&self) -> JsonTree {
        JsonTree::Object(Self::members(self.mentions.tree()))
    }

    open spec fn admits(t: JsonTree) -> bool {
        &&& t is Object
        &&& required_admits::<Vec<PersonMentionView>>(t, "mentions"@)
    }

    open spec fn agrees(&self, t: JsonTree) -> bool {
        &&& required_agrees(self.mentions, t, "mentions"@)
    }

    fn to_json(&self) -> (out: JsonValue) {
        let mut members: Vec<(String, JsonValue)> = Vec::new();
        assert(members_view(members@) =~= Seq::empty());
        put(&mut members, "mentions", &self.mentions);
        object(members)
    }

    fn from_json(v: &JsonValue) -> (res: Option<Self>) {
        if !v.is_object() {
            return None;
        }
        let mentions = required::<Vec<PersonMentionView>>(v, "mentions")?;
        Some(GetPersonMentionsResponse { mentions })
    }

    proof fn lemma_round_trip(&self) {
        Self::lemma_members(self.mentions.tree());
        self.mentions.lemma_round_trip();
    }

    proof fn lemma_reads_one(&self, other: &Self, t: JsonTree) {
        lemma_required_reads_one(self.mentions, other.mentions, t, "mentions"@);
    }
}

#[derive(Clone, Debug, PartialEq, Default)]
pub struct GetReplies {
    pub auth: String,
    pub limit: Option<i32>,
    pub page: Option<i32>,
    pub sort: Option<CommentSortType>,
    pub unread_only: Option<bool>,
}

impl GetReplies {
    /// The members that a record is written as, from what is written for
    /// each of its fields.
    pub open spec fn members(
        auth: JsonTree,
        limit: Option<JsonTree>,
        page: Option<JsonTree>,
        sort: Option<JsonTree>,
        unread_only: Option<JsonTree>,
    ) -> Seq<Member> {
        let members = Seq::empty();
        let members = with_field(members, "auth"@, auth);
        let members = with_optional(members, "limit"@, limit);
        let members = with_optional(members, "page"@, page);
        let members = with_optional(members, "sort"@, sort);
        let members = with_optional(members, "unread_only"@, unread_only);
        members
    }

    /// Each key leads to what was written under it, and to nothing where
    /// nothing was written.
    pub proof fn lemma_members(
        auth: JsonTree,
        limit: Option<JsonTree>,
        page: Option<JsonTree>,
        sort: Option<JsonTree>,
        unread_only: Option<JsonTree>,
    )
        ensures
            ({
                let members = Self::members(auth, limit, page, sort, unread_only);
                &&& lookup(members, "auth"@) == Some(auth)
                &&& lookup(members, "limit"@) == limit
                &&& lookup(members, "page"@) == page
                &&& lookup(members, "sort"@) == sort
                &&& lookup(members, "unread_only"@) == unread_only
            }),
    {
        broadcast use group_written_members;

        reveal_strlit("auth");
        reveal_strlit("limit");
        reveal_strlit("page");
        reveal_strlit("sort");
        reveal_strlit("unread_only");
        assert("auth"@.len() == 4 && "auth"@[0] == 'a');
        assert("limit"@.len() == 5);
        assert("page"@.len() == 4 && "page"@[0] == 'p');
        assert("sort"@.len() == 4 && "sort"@[0] == 's');
        assert("unread_only"@.len() == 11);
    }

    /// With every optional field absent, the mandatory fields are written
    /// and nothing else.
    pub proof fn lemma_mandatory_fields_alone(auth: JsonTree)
        ensures
            Self::members(auth, None, None, None, None) == Seq::<Member>::empty()
                .push(("auth"@, auth)),
    {
        reveal(with_field);
        reveal(with_optional);
    }
}

impl Payload for GetReplies {
    open spec fn tree(&self) -> JsonTree {
        JsonTree::Object(
            Self::members(
                self.auth.tree(),
                written(self.limit),
                written(self.page),
                written(self.sort),
                written(self.unread_only),
            ),
        )
    }

    open spec fn admits(t: JsonTree) -> bool {
        &&& t is Object
        &&& required_admits::<String>(t, "auth"@)
        &&& optional_admits::<i32>(t, "limit"@)
        &&& optional_admits::<i32>(t, "page"@)
        &&& optional_admits::<CommentSortType>(t, "sort"@)
        &&& optional_admits::<bool>(t, "unread_only"@)
    }

    open spec fn agrees(&self, t: JsonTree) -> bool {
        &&& required_agrees(self.auth, t, "auth"@)
        &&& optional_agrees(self.limit, t, "limit"@)
        &&& optional_agrees(self.page, t, "page"@)
        &&& optional_agrees(self.sort, t, "sort"@)
        &&& optional_agrees(self.unread_only, t, "unread_only"@)
    }

    fn to_json(&self) -> (out: JsonValue) {
        let mut members: Vec<(String, JsonValue)> = Vec::new();
        assert(members_view(members@) =~= Seq::empty());
        put(&mut members, "auth", &self.auth);
        put_optional(&mut members, "limit", &self.limit);
        put_optional(&mut members, "page", &self.page);
        put_optional(&mut members, "sort", &self.sort);
        put_optional(&mut members, "unread_only", &self.unread_only);
        object(members)
    }

    fn from_json(v: &JsonValue) -> (res: Option<Self>) {
        if !v.is_object() {
            return None;
        }
        let auth = required::<String>(v, "auth")?;
        let limit = optional::<i32>(v, "limit")?;
        let page = optional::<i32>(v, "page")?;
        let sort = optional::<CommentSortType>(v, "sort")?;
        let unread_only = optional::<bool>(v, "unread_only")?;
        Some(GetReplies { auth, limit, page, sort, unread_only })
    }

    proof fn lemma_round_trip(&self) {
        Self::lemma_members(
            self.auth.tree(),
            written(self.limit),
            written(self.page),
            written(self.sort),
            written(self.unread_only),
        );
        self.auth.lemma_round_trip();
        lemma_optional_round_trip(self.limit);
        lemma_optional_round_trip(self.page);
        lemma_optional_round_trip(self.sort);
        lemma_optional_round_trip(self.unread_only);
    }

    proof fn lemma_reads_one(&self, other: &Self, t: JsonTree) {
        lemma_required_reads_one(self.auth, other.auth, t, "auth"@);
        lemma_optional_reads_one(self.limit, other.limit, t, "limit"@);
        lemma_optional_reads_one(self.page, other.page, t, "page"@);
        lemma_optional_reads_one(self.sort, other.sort, t, "sort"@);
        lemma_optional_reads_one(self.unread_only, other.unread_only, t, "unread_only"@);
    }
}

#[derive(Clone, Debug, PartialEq, Default)]
pub struct GetRepliesResponse {
    pub replies: Vec<CommentReplyView>,
}

impl GetRepliesResponse {
    /// The members that a record is written as, from what is written for
    /// each of its fields.
    pub open spec fn members(replies: JsonTree) -> Seq<Member> {
        let members = Seq::empty();
        let members = with_field(members, "replies"@, replies);
        members
    }

    /// Each key leads to what was written under it, and to nothing where
    /// nothing was written.
    pub proof fn lemma_members(replies: JsonTree)
        ensures
            ({
                let members = Self::members(replies);
                &&& lookup(members, "replies"@) == Some(replies)
            }),
    {
        broadcast use group_written_members;

        reveal_strlit("replies");
        assert("replies"@.len() == 7);
    }

    /// Every field is mandatory: each is written, in order, and nothing
    /// else.
    pub proof fn lemma_mandatory_fields_alone(replies: JsonTree)
        ensures
            Self::members(replies) == Seq::<Member>::empty()
                .push(("replies"@, replies)),
    {
        reveal(with_field);
        reveal(with_optional);
    }
}

impl Payload for GetRepliesResponse {
    open spec fn tree(&self) -> JsonTree {
        JsonTree::Object(Self::members(self.replies.tree()))
    }

    open spec fn admits(t: JsonTree) -> bool {
        &&& t is Object
        &&& required_admits::<Vec<CommentReplyView>>(t, "replies"@)
    }

    open spec fn agrees(&self, t: JsonTree) -> bool {
        &&& required_agrees(self.replies, t, "replies"@)
    }

    fn to_json(&self) -> (out: JsonValue) {
        let mut members: Vec<(String, JsonValue)> = Vec::new();
        assert(members_view(members@) =~= Seq::empty());
        put(&mut members, "replies", &self.replies);
        object(members)
    }

    fn from_json(v: &JsonValue) -> (res: Option<Self>) {
        if !v.is_object() {
            return None;
        }
        let replies = required::<Vec<CommentReplyView>>(v, "replies")?;
        Some(GetRepliesResponse { replies })
    }

    proof fn lemma_round_trip(&self) {
        Self::lemma_members(self.replies.tree());
        self.replies.lemma_round_trip();
    }

    proof fn lemma_reads_one(&self, other: &Self, t: JsonTree) {
        lemma_required_reads_one(self.replies, other.replies, t, "replies"@);
    }
}

#[derive(Clone, Debug, PartialEq, Default)]
pub struct GetUnreadCount {
    pub auth: String,
}

impl GetUnreadCount {
    /// The members that a record is written as, from what is written for
    /// each of its fields.
    pub open spec fn members(auth: JsonTree) -> Seq<Member> {
        let members = Seq::empty();
        let members = with_field(members, "auth"@, auth);
        members
    }

    /// Each key leads to what was written under it, and to nothing where
    /// nothing was written.
    pub proof fn lemma_members(auth: JsonTree)
        ensures
            ({
                let members = Self::members(auth);
                &&& lookup(members, "auth"@) == Some(auth)
            }),
    {
        broadcast use group_written_members;

        reveal_strlit("auth");
        assert("auth"@.len() == 4);
    }

    /// Every field is mandatory: each is written, in order, and nothing
    /// else.
    pub proof fn lemma_mandatory_fields_alone(auth: JsonTree)
        ensures
            Self::members(auth) == Seq::<Member>::empty()
                .push(("auth"@, auth)),
    {
        reveal(with_field);
        reveal(with_optional);
    }
}

impl Payload for GetUnreadCount {
    open spec fn tree(&self) -> JsonTree {
        JsonTree::Object(Self::members(self.auth.tree()))
    }

    open spec fn admits(t: JsonTree) -> bool {
        &&& t is Object
        &&& required_admits::<String>(t, "auth"@)
    }

    open spec fn agrees(&self, t: JsonTree) -> bool {
        &&& required_agrees(self.auth, t, "auth"@)
    }

    fn to_json(&self) -> (out: JsonValue) {
        let mut members: Vec<(String, JsonValue)> = Vec::new();
        assert(members_view(members@) =~= Seq::empty());
        put(&mut members, "auth", &self.auth);
        object(members)
    }

    fn from_json(v: &JsonValue) -> (res: Option<Self>) {
        if !v.is_object() {
            return None;
        }
        let auth = required::<String>(v, "auth")?;
        Some(GetUnreadCount { auth })
    }

    proof fn lemma_round_trip(&self) {
        Self::lemma_members(self.auth.tree());
        self.auth.lemma_round_trip();
    }

    proof fn lemma_reads_one(&self, other: &Self, t: JsonTree) {
        lemma_required_reads_one(self.auth, other.auth, t, "auth"@);
    }
}

#[derive(Clone, Debug, PartialEq, Default)]
pub struct GetUnreadCountResponse {
    pub mentions: i32,
    pub private_messages: i32,
    pub replies: i32,
}

impl GetUnreadCountResponse {
    /// The members that a record is written as, from what is written for
    /// each of its fields.
    pub open spec fn members(
        mentions: JsonTree,
        private_messages: JsonTree,
        replies: JsonTree,
    ) -> Seq<Member> {
        let members = Seq::empty();
        let members = with_field(members, "mentions"@, mentions);
        let members = with_field(members, "private_messages"@, private_messages);
        let members = with_field(members, "replies"@, replies);
        members
    }

    /// Each key leads to what was written under it, and to nothing where
    /// nothing was written.
    pub proof fn lemma_members(mentions: JsonTree, private_messages: JsonTree, replies: JsonTree)
        ensures
            ({
                let members = Self::members(mentions, private_messages, replies);
                &&& lookup(members, "mentions"@) == Some(mentions)
                &&& lookup(members, "private_messages"@) == Some(private_messages)
                &&& lookup(members, "replies"@) == Some(replies)
            }),
    {
        broadcast use group_written_members;

        reveal_strlit("mentions");
        reveal_strlit("private_messages");
        reveal_strlit("replies");
        assert("mentions"@.len() == 8);
        assert("private_messages"@.len() == 16);
        assert("replies"@.len() == 7);
    }

    /// Every field is mandatory: each is written, in order, and nothing
    /// else.
    pub proof fn lemma_mandatory_fields_alone(
        mentions: JsonTree,
        private_messages: JsonTree,
        replies: JsonTree,
    )
        ensures
            Self::members(mentions, private_messages, replies) == Seq::<Member>::empty()
                .push(("mentions"@, mentions))
                .push(("private_messages"@, private_messages))
                .push(("replies"@, replies)),
    {
        reveal(with_field);
        reveal(with_optional);
    }
}

impl Payload for GetUnreadCountResponse {
    open spec fn tree(&self) -> JsonTree {
        JsonTree::Object(
            Self::members(self.mentions.tree(), self.private_messages.tree(), self.replies.tree()),
        )
    }

    open spec fn admits(t: JsonTree) -> bool {
        &&& t is Object
        &&& required_admits::<i32>(t, "mentions"@)
        &&& required_admits::<i32>(t, "private_messages"@)
        &&& required_admits::<i32>(t, "replies"@)
    }

    open spec fn agrees(&self, t: JsonTree) -> bool {
        &&& required_agrees(self.mentions, t, "mentions"@)
        &&& required_agrees(self.private_messages, t, "private_messages"@)
        &&& required_agrees(self.replies, t, "replies"@)
    }

    fn to_json(&self) -> (out: JsonValue) {
        let mut members: Vec<(String, JsonValue)> = Vec::new();
        assert(members_view(members@) =~= Seq::empty());
        put(&mut members, "mentions", &self.mentions);
        put(&mut members, "private_messages", &self.private_messages);
        put(&mut members, "replies", &self.replies);
        object(members)
    }

    fn from_json(v: &JsonValue) -> (res: Option<Self>) {
        if !v.is_object() {
            return None;
        }
        let mentions = required::<i32>(v, "mentions")?;
        let private_messages = required::<i32>(v, "private_messages")?;
        let replies = required::<i32>(v, "replies")?;
        Some(GetUnreadCountResponse { mentions, private_messages, replies })
    }

    proof fn lemma_round_trip(&self) {
        Self::lemma_members(
            self.mentions.tree(),
            self.private_messages.tree(),
            self.replies.tree(),
        );
        self.mentions.lemma_round_trip();
        self.private_messages.lemma_round_trip();
        self.replies.lemma_round_trip();
    }

    proof fn lemma_reads_one(&self, other: &Self, t: JsonTree) {
        lemma_required_reads_one(self.mentions, other.mentions, t, "mentions"@);
        lemma_required_reads_one(
            self.private_messages,
            other.private_messages,
            t,
            "private_messages"@,
        );
        lemma_required_reads_one(self.replies, other.replies, t, "replies"@);
    }
}

#[derive(Clone, Debug, PartialEq, Default)]
pub struct GetUnreadRegistrationApplicationCount {
    pub auth: String,
}

impl GetUnreadRegistrationApplicationCount {
    /// The members that a record is written as, from what is written for
    /// each of its fields.
    pub open spec fn members(auth: JsonTree) -> Seq<Member> {
        let members = Seq::empty();
        let members = with_field(members, "auth"@, auth);
        members
    }

    /// Each key leads to what was written under it, and to nothing where
    /// nothing was written.
    pub proof fn lemma_members(auth: JsonTree)
        ensures
            ({
                let members = Self::members(auth);
                &&& lookup(members, "auth"@) == Some(auth)
            }),
    {
        broadcast use group_written_members;

        reveal_strlit("auth");
        assert("auth"@.len() == 4);
    }

    /// Every field is mandatory: each is written, in order, and nothing
    /// else.
    pub proof fn lemma_mandatory_fields_alone(auth: JsonTree)
        ensures
            Self::members(auth) == Seq::<Member>::empty()
                .push(("auth"@, auth)),
    {
        reveal(with_field);
        reveal(with_optional);
    }
}

impl Payload for GetUnreadRegistrationApplicationCount {
    open spec fn tree(&self) -> JsonTree {
        JsonTree::Object(Self::members(self.auth.tree()))
    }

    open spec fn admits(t: JsonTree) -> bool {
        &&& t is Object
        &&& required_admits::<String>(t, "auth"@)
    }

    open spec fn agrees(&self, t: JsonTree) -> bool {
        &&& required_agrees(self.auth, t, "auth"@)
    }

    fn to_json(&self) -> (out: JsonValue) {
        let mut members: Vec<(String, JsonValue)> = Vec::new();
        assert(members_view(members@) =~= Seq::empty());
        put(&mut members, "auth", &self.auth);
        object(members)
    }

    fn from_json(v: &JsonValue) -> (res: Option<Self>) {
        if !v.is_object() {
            return None;
        }
        let auth = required::<String>(v, "auth")?;
        Some(GetUnreadRegistrationApplicationCount { auth })
    }

    proof fn lemma_round_trip(&self) {
        Self::lemma_members(self.auth.tree());
        self.auth.lemma_round_trip();
    }

    proof fn lemma_reads_one(&self, other: &Self, t: JsonTree) {
        lemma_required_reads_one(self.auth, other.auth, t, "auth"@);
    }
}

#[derive(Clone, Debug, PartialEq, Default)]
pub struct GetUnreadRegistrationApplicationCountResponse {
    pub registration_applications: i32,
}

impl GetUnreadRegistrationApplicationCountResponse {
    /// The members that a record is written as, from what is written for
    /// each of its fields.
    pub open spec fn members(registration_applications: JsonTree) -> Seq<Member> {
        let members = Seq::empty();
        let members = with_field(members, "registration_applications"@, registration_applications);
        members
    }

    /// Each key leads to what was written under it, and to nothing where
    /// nothing was written.
    pub proof fn lemma_members(registration_applications: JsonTree)
        ensures
            ({
                let members = Self::members(registration_applications);
                &&& lookup(members, "registration_applications"@) == Some(registration_applications)
            }),
    {
        broadcast use group_written_members;

        reveal_strlit("registration_applications");
        assert("registration_applications"@.len() == 25);
    }

    /// Every field is mandatory: each is written, in order, and nothing
    /// else.
    pub proof fn lemma_mandatory_fields_alone(registration_applications: JsonTree)
        ensures
            Self::members(registration_applications) == Seq::<Member>::empty()
                .push(("registration_applications"@, registration_applications)),
    {
        reveal(with_field);
        reveal(with_optional);
    }
}

impl Payload for GetUnreadRegistrationApplicationCountResponse {
    open spec fn tree(&self) -> JsonTree {
        JsonTree::Object(Self::members(self.registration_applications.tree()))
    }

    open spec fn admits(t: JsonTree) -> bool {
        &&& t is Object
        &&& required_admits::<i32>(t, "registration_applications"@)
    }

    open spec fn agrees(&self, t: JsonTree) -> bool {
        &&& required_agrees(self.registration_applications, t, "registration_applications"@)
    }

    fn to_json(&self) -> (out: JsonValue) {
        let mut members: Vec<(String, JsonValue)> = Vec::new();
        assert(members_view(members@) =~= Seq::empty());
        put(&mut members, "registration_applications", &self.registration_applications);
        object(members)
    }

    fn from_json(v: &JsonValue) -> (res: Option<Self>) {
        if !v.is_object() {
            return None;
        }
        let registration_applications = required::<i32>(v, "registration_applications")?;
        Some(GetUnreadRegistrationApplicationCountResponse { registration_applications })
    }

    proof fn lemma_round_trip(&self) {
        Self::lemma_members(self.registration_applications.tree());
        self.registration_applications.lemma_round_trip();
    }

    proof fn lemma_reads_one(&self, other: &Self, t: JsonTree) {
        lemma_required_reads_one(
            self.registration_applications,
            other.registration_applications,
            t,
            "registration_applications"@,
        );
    }
}

#[derive(Clone, Debug, PartialEq, Default)]
pub struct LeaveAdmin {
    pub auth: String,
}

impl LeaveAdmin {
    /// The members that a record is written as, from what is written for
    /// each of its fields.
    pub open spec fn members(auth: JsonTree) -> Seq<Member> {
        let members = Seq::empty();
        let members = with_field(members, "auth"@, auth);
        members
    }

    /// Each key leads to what was written under it, and to nothing where
    /// nothing was written.
    pub proof fn lemma_members(auth: JsonTree)
        ensures
            ({
                let members = Self::members(auth);
                &&& lookup(members, "auth"@) == Some(auth)
            }),
    {
        broadcast use group_written_members;

        reveal_strlit("auth");
        assert("auth"@.len() == 4);
    }

    /// Every field is mandatory: each is written, in order, and nothing
    /// else.
    pub proof fn lemma_mandatory_fields_alone(auth: JsonTree)
        ensures
            Self::members(auth) == Seq::<Member>::empty()
                .push(("auth"@, auth)),
    {
        reveal(with_field);
        reveal(with_optional);
    }
}

impl Payload for LeaveAdmin {
    open spec fn tree(&self) -> JsonTree {
        JsonTree::Object(Self::members(self.auth.tree()))
    }

    open spec fn admits(t: JsonTree) -> bool {
        &&& t is Object
        &&& required_admits::<String>(t, "auth"@)
    }

    open spec fn agrees(&self, t: JsonTree) -> bool {
        &&& required_agrees(self.auth, t, "auth"@)
    }

    fn to_json(&self) -> (out: JsonValue) {
        let mut members: Vec<(String, JsonValue)> = Vec::new();
        assert(members_view(members@) =~= Seq::empty());
        put(&mut members, "auth", &self.auth);
        object(members)
    }

    fn from_json(v: &JsonValue) -> (res: Option<Self>) {
        if !v.is_object() {
            return None;
        }
        let auth = required::<String>(v, "auth")?;
        Some(LeaveAdmin { auth })
    }

    proof fn lemma_round_trip(&self) {
        Self::lemma_members(self.auth.tree());
        self.auth.lemma_round_trip();
    }

    proof fn lemma_reads_one(&self, other: &Self, t: JsonTree) {
        lemma_required_reads_one(self.auth, other.auth, t, "auth"@);
    }
}

#[derive(Clone, Debug, PartialEq, Default)]
pub struct ListRegistrationApplications {
    pub auth: String,
    pub limit: Option<i32>,
    pub page: Option<i32>,
    pub unresolved_only: Option<bool>,
}

impl ListRegistrationApplications {
    /// The members that a record is written as, from what is written for
    /// each of its fields.
    pub open spec fn members(
        auth: JsonTree,
        limit: Option<JsonTree>,
        page: Option<JsonTree>,
        unresolved_only: Option<JsonTree>,
    ) -> Seq<Member> {
        let members = Seq::empty();
        let members = with_field(members, "auth"@, auth);
        let members = with_optional(members, "limit"@, limit);
        let members = with_optional(members, "page"@, page);
        let members = with_optional(members, "unresolved_only"@, unresolved_only);
        members
    }

    /// Each key leads to what was written under it, and to nothing where
    /// nothing was written.
    pub proof fn lemma_members(
        auth: JsonTree,
        limit: Option<JsonTree>,
        page: Option<JsonTree>,
        unresolved_only: Option<JsonTree>,
    )
        ensures
            ({
                let members = Self::members(auth, limit, page, unresolved_only);
                &&& lookup(members, "auth"@) == Some(auth)
                &&& lookup(members, "limit"@) == limit
                &&& lookup(members, "page"@) == page
                &&& lookup(members, "unresolved_only"@) == unresolved_only
            }),
    {
        broadcast use group_written_members;

        reveal_strlit("auth");
        reveal_strlit("limit");
        reveal_strlit("page");
        reveal_strlit("unresolved_only");
        assert("auth"@.len() == 4 && "auth"@[0] == 'a');
        assert("limit"@.len() == 5);
        assert("page"@.len() == 4 && "page"@[0] == 'p');
        assert("unresolved_only"@.len() == 15);
    }

    /// With every optional field absent, the mandatory fields are written
    /// and nothing else.
    pub proof fn lemma_mandatory_fields_alone(auth: JsonTree)
        ensures
            Self::members(auth, None, None, None) == Seq::<Member>::empty()
                .push(("auth"@, auth)),
    {
        reveal(with_field);
        reveal(with_optional);
    }
}

impl Payload for ListRegistrationApplications {
    open spec fn tree(&self) -> JsonTree {
        JsonTree::Object(
            Self::members(
                self.auth.tree(),
                written(self.limit),
                written(self.page),
                written(self.unresolved_only),
            ),
        )
    }

    open spec fn admits(t: JsonTree) -> bool {
        &&& t is Object
        &&& required_admits::<String>(t, "auth"@)
        &&& optional_admits::<i32>(t, "limit"@)
        &&& optional_admits::<i32>(t, "page"@)
        &&& optional_admits::<bool>(t, "unresolved_only"@)
    }

    open spec fn agrees(&self, t: JsonTree) -> bool {
        &&& required_agrees(self.auth, t, "auth"@)
        &&& optional_agrees(self.limit, t, "limit"@)
        &&& optional_agrees(self.page, t, "page"@)
        &&& optional_agrees(self.unresolved_only, t, "unresolved_only"@)
    }

    fn to_json(&self) -> (out: JsonValue) {
        let mut members: Vec<(String, JsonValue)> = Vec::new();
        assert(members_view(members@) =~= Seq::empty());
        put(&mut members, "auth", &self.auth);
        put_optional(&mut members, "limit", &self.limit);
        put_optional(&mut members, "page", &self.page);
        put_optional(&mut members, "unresolved_only", &self.unresolved_only);
        object(members)
    }

    fn from_json(v: &JsonValue) -> (res: Option<Self>) {
        if !v.is_object() {
            return None;
        }
        let auth = required::<String>(v, "auth")?;
        let limit = optional::<i32>(v, "limit")?;
        let page = optional::<i32>(v, "page")?;
        let unresolved_only = optional::<bool>(v, "unresolved_only")?;
        Some(ListRegistrationApplications { auth, limit, page, unresolved_only })
    }

    proof fn lemma_round_trip(&self) {
        Self::lemma_members(
            self.auth.tree(),
            written(self.limit),
            written(self.page),
            written(self.unresolved_only),
        );
        self.auth.lemma_round_trip();
        lemma_optional_round_trip(self.limit);
        lemma_optional_round_trip(self.page);
        lemma_optional_round_trip(self.unresolved_only);
    }

    proof fn lemma_reads_one(&self, other: &Self, t: JsonTree) {
        lemma_required_reads_one(self.auth, other.auth, t, "auth"@);
        lemma_optional_reads_one(self.limit, other.limit, t, "limit"@);
        lemma_optional_reads_one(self.page, other.page, t, "page"@);
        lemma_optional_reads_one(
            self.unresolved_only,
            other.unresolved_only,
            t,
            "unresolved_only"@,
        );
    }
}

#[derive(Clone, Debug, PartialEq, Default)]
pub struct ListRegistrationApplicationsResponse {
    pub registration_applications: Vec<RegistrationApplicationView>,
}

impl ListRegistrationApplicationsResponse {
    /// The members that a record is written as, from what is written for
    /// each of its fields.
    pub open spec fn members(registration_applications: JsonTree) -> Seq<Member> {
        let members = Seq::empty();
        let members = with_field(members, "registration_applications"@, registration_applications);
        members
    }

    /// Each key leads to what was written under it, and to nothing where
    /// nothing was written.
    pub proof fn lemma_members(registration_applications: JsonTree)
        ensures
            ({
                let members = Self::members(registration_applications);
                &&& lookup(members, "registration_applications"@) == Some(registration_applications)
            }),
    {
        broadcast use group_written_members;

        reveal_strlit("registration_applications");
        assert("registration_applications"@.len() == 25);
    }

    /// Every field is mandatory: each is written, in order, and nothing
    /// else.
    pub proof fn lemma_mandatory_fields_alone(registration_applications: JsonTree)
        ensures
            Self::members(registration_applications) == Seq::<Member>::empty()
                .push(("registration_applications"@, registration_applications)),
    {
        reveal(with_field);
        reveal(with_optional);
    }
}

impl Payload for ListRegistrationApplicationsResponse {
    open spec fn tree(&self) -> JsonTree {
        JsonTree::Object(Self::members(self.registration_applications.tree()))
    }

    open spec fn admits(t: JsonTree) -> bool {
        &&& t is Object
        &&& required_admits::<Vec<RegistrationApplicationView>>(t, "registration_applications"@)
    }

    open spec fn agrees(&self, t: JsonTree) -> bool {
        &&& required_agrees(self.registration_applications, t, "registration_applications"@)
    }

    fn to_json(&self) -> (out: JsonValue) {
        let mut members: Vec<(String, JsonValue)> = Vec::new();
        assert(members_view(members@) =~= Seq::empty());
        put(&mut members, "registration_applications", &self.registration_applications);
        object(members)
    }

    fn from_json(v: &JsonValue) -> (res: Option<Self>) {
        if !v.is_object() {
            return None;
        }
        let registration_applications = required::<Vec<RegistrationApplicationView>>(
            v,
            "registration_applications",
        )?;
        Some(ListRegistrationApplicationsResponse { registration_applications })
    }

    proof fn lemma_round_trip(&self) {
        Self::lemma_members(self.registration_applications.tree());
        self.registration_applications.lemma_round_trip();
    }

    proof fn lemma_reads_one(&self, other: &Self, t: JsonTree) {
        lemma_required_reads_one(
            self.registration_applications,
            other.registration_applications,
            t,
            "registration_applications"@,
        );
    }
}

#[derive(Clone, Debug, PartialEq, Default)]
pub struct LocalUser {
    pub acepted_application: bool,
    pub default_listing_type: ListingType,
    pub default_sort_type: SortType,
    pub email: Option<String>,
    pub email_verified: bool,
    pub id: i32,
    pub interface_language: String,
    pub open_links_in_new_tab: bool,
    pub person_id: i32,
    pub send_notifications_to_email: bool,
    pub show_avatars: bool,
    pub show_bot_accounts: bool,
    pub show_new_post_notifs: bool,
    pub show_nsfw: bool,
    pub show_read_posts: bool,
    pub show_scores: bool,
    pub theme: String,
    pub totp_2fa_url: Option<String>,
    pub validator_time: String,
}

impl LocalUser {
    /// The members that a record is written as, from what is written for
    /// each of its fields.
    pub open spec fn members(
        acepted_application: JsonTree,
        default_listing_type: JsonTree,
        default_sort_type: JsonTree,
        email: Option<JsonTree>,
        email_verified: JsonTree,
        id: JsonTree,
        interface_language: JsonTree,
        open_links_in_new_tab: JsonTree,
        person_id: JsonTree,
        send_notifications_to_email: JsonTree,
        show_avatars: JsonTree,
        show_bot_accounts: JsonTree,
        show_new_post_notifs: JsonTree,
        show_nsfw: JsonTree,
        show_read_posts: JsonTree,
        show_scores: JsonTree,
        theme: JsonTree,
        totp_2fa_url: Option<JsonTree>,
        validator_time: JsonTree,
    ) -> Seq<Member> {
        let members = Seq::empty();
        let members = with_field(members, "acepted_application"@, acepted_application);
        let members = with_field(members, "default_listing_type"@, default_listing_type);
        let members = with_field(members, "default_sort_type"@, default_sort_type);
        let members = with_optional(members, "email"@, email);
        let members = with_field(members, "email_verified"@, email_verified);
        let members = with_field(members, "id"@, id);
        let members = with_field(members, "interface_language"@, interface_language);
        let members = with_field(members, "open_links_in_new_tab"@, open_links_in_new_tab);
        let members = with_field(members, "person_id"@, person_id);
        let members = with_field(
            members,
            "send_notifications_to_email"@,
            send_notifications_to_email,
        );
        let members = with_field(members, "show_avatars"@, show_avatars);
        let members = with_field(members, "show_bot_accounts"@, show_bot_accounts);
        let members = with_field(members, "show_new_post_notifs"@, show_new_post_notifs);
        let members = with_field(members, "show_nsfw"@, show_nsfw);
        let members = with_field(members, "show_read_posts"@, show_read_posts);
        let members = with_field(members, "show_scores"@, show_scores);
        let members = with_field(members, "theme"@, theme);
        let members = with_optional(members, "totp_2fa_url"@, totp_2fa_url);
        let members = with_field(members, "validator_time"@, validator_time);
        members
    }

    /// Each key leads to what was written under it, and to nothing where
    /// nothing was written.
    pub proof fn lemma_members(
        acepted_application: JsonTree,
        default_listing_type: JsonTree,
        default_sort_type: JsonTree,
        email: Option<JsonTree>,
        email_verified: JsonTree,
        id: JsonTree,
        interface_language: JsonTree,
        open_links_in_new_tab: JsonTree,
        person_id: JsonTree,
        send_notifications_to_email: JsonTree,
        show_avatars: JsonTree,
        show_bot_accounts: JsonTree,
        show_new_post_notifs: JsonTree,
        show_nsfw: JsonTree,
        show_read_posts: JsonTree,
        show_scores: JsonTree,
        theme: JsonTree,
        totp_2fa_url: Option<JsonTree>,
        validator_time: JsonTree,
    )
        ensures
            ({
                let members = Self::members(
                    acepted_application,
                    default_listing_type,
                    default_sort_type,
                    email,
                    email_verified,
                    id,
                    interface_language,
                    open_links_in_new_tab,
                    person_id,
                    send_notifications_to_email,
                    show_avatars,
                    show_bot_accounts,
                    show_new_post_notifs,
                    show_nsfw,
                    show_read_posts,
                    show_scores,
                    theme,
                    totp_2fa_url,
                    validator_time,
                );
                &&& lookup(members, "acepted_application"@) == Some(acepted_application)
                &&& lookup(members, "default_listing_type"@) == Some(default_listing_type)
                &&& lookup(members, "default_sort_type"@) == Some(default_sort_type)
                &&& lookup(members, "email"@) == email
                &&& lookup(members, "email_verified"@) == Some(email_verified)
                &&& lookup(members, "id"@) == Some(id)
                &&& lookup(members, "interface_language"@) == Some(interface_language)
                &&& lookup(members, "open_links_in_new_tab"@) == Some(open_links_in_new_tab)
                &&& lookup(members, "person_id"@) == Some(person_id)
                &&& lookup(members, "send_notifications_to_email"@)
                    == Some(send_notifications_to_email)
                &&& lookup(members, "show_avatars"@) == Some(show_avatars)
                &&& lookup(members, "show_bot_accounts"@) == Some(show_bot_accounts)
                &&& lookup(members, "show_new_post_notifs"@) == Some(show_new_post_notifs)
                &&& lookup(members, "show_nsfw"@) == Some(show_nsfw)
                &&& lookup(members, "show_read_posts"@) == Some(show_read_posts)
                &&& lookup(members, "show_scores"@) == Some(show_scores)
                &&& lookup(members, "theme"@) == Some(theme)
                &&& lookup(members, "totp_2fa_url"@) == totp_2fa_url
                &&& lookup(members, "validator_time"@) == Some(validator_time)
            }),
    {
        broadcast use group_written_members;

        reveal_strlit("acepted_application");
        reveal_strlit("default_listing_type");
        reveal_strlit("default_sort_type");
        reveal_strlit("email");
        reveal_strlit("email_verified");
        reveal_strlit("id");
        reveal_strlit("interface_language");
        reveal_strlit("open_links_in_new_tab");
        reveal_strlit("person_id");
        reveal_strlit("send_notifications_to_email");
        reveal_strlit("show_avatars");
        reveal_strlit("show_bot_accounts");
        reveal_strlit("show_new_post_notifs");
        reveal_strlit("show_nsfw");
        reveal_strlit("show_read_posts");
        reveal_strlit("show_scores");
        reveal_strlit("theme");
        reveal_strlit("totp_2fa_url");
        reveal_strlit("validator_time");
        assert("acepted_application"@.len() == 19);
        assert("default_listing_type"@.len() == 20 && "default_listing_type"@[0] == 'd');
        assert("default_sort_type"@.len() == 17 && "default_sort_type"@[0] == 'd');
        assert("email"@.len() == 5 && "email"@[0] == 'e');
        assert("email_verified"@.len() == 14 && "email_verified"@[0] == 'e');
        assert("id"@.len() == 2);
        assert("interface_language"@.len() == 18);
        assert("open_links_in_new_tab"@.len() == 21);
        assert("person_id"@.len() == 9 && "person_id"@[0] == 'p');
        assert("send_notifications_to_email"@.len() == 27);
        assert("show_avatars"@.len() == 12 && "show_avatars"@[0] == 's');
        assert("show_bot_accounts"@.len() == 17 && "show_bot_accounts"@[0] == 's');
        assert("show_new_post_notifs"@.len() == 20 && "show_new_post_notifs"@[0] == 's');
        assert("show_nsfw"@.len() == 9 && "show_nsfw"@[0] == 's');
        assert("show_read_posts"@.len() == 15);
        assert("show_scores"@.len() == 11);
        assert("theme"@.len() == 5 && "theme"@[0] == 't');
        assert("totp_2fa_url"@.len() == 12 && "totp_2fa_url"@[0] == 't');
        assert("validator_time"@.len() == 14 && "validator_time"@[0] == 'v');
    }

    /// With every optional field absent, the mandatory fields are written
    /// and nothing else.
    pub proof fn lemma_mandatory_fields_alone(
        acepted_application: JsonTree,
        default_listing_type: JsonTree,
        default_sort_type: JsonTree,
        email_verified: JsonTree,
        id: JsonTree,
        interface_language: JsonTree,
        open_links_in_new_tab: JsonTree,
        person_id: JsonTree,
        send_notifications_to_email: JsonTree,
        show_avatars: JsonTree,
        show_bot_accounts: JsonTree,
        show_new_post_notifs: JsonTree,
        show_nsfw: JsonTree,
        show_read_posts: JsonTree,
        show_scores: JsonTree,
        theme: JsonTree,
        validator_time: JsonTree,
    )
        ensures
            Self::members(
                acepted_application,
                default_listing_type,
                default_sort_type,
                None,
                email_verified,
                id,
                interface_language,
                open_links_in_new_tab,
                person_id,
                send_notifications_to_email,
                show_avatars,
                show_bot_accounts,
                show_new_post_notifs,
                show_nsfw,
                show_read_posts,
                show_scores,
                theme,
                None,
                validator_time,
            ) == Seq::<Member>::empty()
                .push(("acepted_application"@, acepted_application))
                .push(("default_listing_type"@, default_listing_type))
                .push(("default_sort_type"@, default_sort_type))
                .push(("email_verified"@, email_verified))
                .push(("id"@, id))
                .push(("interface_language"@, interface_language))
                .push(("open_links_in_new_tab"@, open_links_in_new_tab))
                .push(("person_id"@, person_id))
                .push(("send_notifications_to_email"@, send_notifications_to_email))
                .push(("show_avatars"@, show_avatars))
                .push(("show_bot_accounts"@, show_bot_accounts))
                .push(("show_new_post_notifs"@, show_new_post_notifs))
                .push(("show_nsfw"@, show_nsfw))
                .push(("show_read_posts"@, show_read_posts))
                .push(("show_scores"@, show_scores))
                .push(("theme"@, theme))
                .push(("validator_time"@, validator_time)),
    {
        reveal(with_field);
        reveal(with_optional);
    }
}

impl Payload for LocalUser {
    open spec fn tree(&self) -> JsonTree {
        JsonTree::Object(
            Self::members(
                self.acepted_application.tree(),
                self.default_listing_type.tree(),
                self.default_sort_type.tree(),
                written(self.email),
                self.email_verified.tree(),
                self.id.tree(),
                self.interface_language.tree(),
                self.open_links_in_new_tab.tree(),
                self.person_id.tree(),
                self.send_notifications_to_email.tree(),
                self.show_avatars.tree(),
                self.show_bot_accounts.tree(),
                self.show_new_post_notifs.tree(),
                self.show_nsfw.tree(),
                self.show_read_posts.tree(),
                self.show_scores.tree(),
                self.theme.tree(),
                written(self.totp_2fa_url),
                self.validator_time.tree(),
            ),
        )
    }

    open spec fn admits(t: JsonTree) -> bool {
        &&& t is Object
        &&& required_admits::<bool>(t, "acepted_application"@)
        &&& required_admits::<ListingType>(t, "default_listing_type"@)
        &&& required_admits::<SortType>(t, "default_sort_type"@)
        &&& optional_admits::<String>(t, "email"@)
        &&& required_admits::<bool>(t, "email_verified"@)
        &&& required_admits::<i32>(t, "id"@)
        &&& required_admits::<String>(t, "interface_language"@)
        &&& required_admits::<bool>(t, "open_links_in_new_tab"@)
        &&& required_admits::<i32>(t, "person_id"@)
        &&& required_admits::<bool>(t, "send_notifications_to_email"@)
        &&& required_admits::<bool>(t, "show_avatars"@)
        &&& required_admits::<bool>(t, "show_bot_accounts"@)
        &&& required_admits::<bool>(t, "show_new_post_notifs"@)
        &&& required_admits::<bool>(t, "show_nsfw"@)
        &&& required_admits::<bool>(t, "show_read_posts"@)
        &&& required_admits::<bool>(t, "show_scores"@)
        &&& required_admits::<String>(t, "theme"@)
        &&& optional_admits::<String>(t, "totp_2fa_url"@)
        &&& required_admits::<String>(t, "validator_time"@)
    }

    open spec fn agrees(&self, t: JsonTree) -> bool {
        &&& required_agrees(self.acepted_application, t, "acepted_application"@)
        &&& required_agrees(self.default_listing_type, t, "default_listing_type"@)
        &&& required_agrees(self.default_sort_type, t, "default_sort_type"@)
        &&& optional_agrees(self.email, t, "email"@)
        &&& required_agrees(self.email_verified, t, "email_verified"@)
        &&& required_agrees(self.id, t, "id"@)
        &&& required_agrees(self.interface_language, t, "interface_language"@)
        &&& required_agrees(self.open_links_in_new_tab, t, "open_links_in_new_tab"@)
        &&& required_agrees(self.person_id, t, "person_id"@)
        &&& required_agrees(self.send_notifications_to_email, t, "send_notifications_to_email"@)
        &&& required_agrees(self.show_avatars, t, "show_avatars"@)
        &&& required_agrees(self.show_bot_accounts, t, "show_bot_accounts"@)
        &&& required_agrees(self.show_new_post_notifs, t, "show_new_post_notifs"@)
        &&& required_agrees(self.show_nsfw, t, "show_nsfw"@)
        &&& required_agrees(self.show_read_posts, t, "show_read_posts"@)
        &&& required_agrees(self.show_scores, t, "show_scores"@)
        &&& required_agrees(self.theme, t, "theme"@)
        &&& optional_agrees(self.totp_2fa_url, t, "totp_2fa_url"@)
        &&& required_agrees(self.validator_time, t, "validator_time"@)
    }

    fn to_json(&self) -> (out: JsonValue) {
        let mut members: Vec<(String, JsonValue)> = Vec::new();
        assert(members_view(members@) =~= Seq::empty());
        put(&mut members, "acepted_application", &self.acepted_application);
        put(&mut members, "default_listing_type", &self.default_listing_type);
        put(&mut members, "default_sort_type", &self.default_sort_type);
        put_optional(&mut members, "email", &self.email);
        put(&mut members, "email_verified", &self.email_verified);
        put(&mut members, "id", &self.id);
        put(&mut members, "interface_language", &self.interface_language);
        put(&mut members, "open_links_in_new_tab", &self.open_links_in_new_tab);
        put(&mut members, "person_id", &self.person_id);
        put(&mut members, "send_notifications_to_email", &self.send_notifications_to_email);
        put(&mut members, "show_avatars", &self.show_avatars);
        put(&mut members, "show_bot_accounts", &self.show_bot_accounts);
        put(&mut members, "show_new_post_notifs", &self.show_new_post_notifs);
        put(&mut members, "show_nsfw", &self.show_nsfw);
        put(&mut members, "show_read_posts", &self.show_read_posts);
        put(&mut members, "show_scores", &self.show_scores);
        put(&mut members, "theme", &self.theme);
        put_optional(&mut members, "totp_2fa_url", &self.totp_2fa_url);
        put(&mut members, "validator_time", &self.validator_time);
        object(members)
    }

    fn from_json(v: &JsonValue) -> (res: Option<Self>) {
        if !v.is_object() {
            return None;
        }
        let acepted_application = required::<bool>(v, "acepted_application")?;
        let default_listing_type = required::<ListingType>(v, "default_listing_type")?;
        let default_sort_type = required::<SortType>(v, "default_sort_type")?;
        let email = optional::<String>(v, "email")?;
        let email_verified = required::<bool>(v, "email_verified")?;
        let id = required::<i32>(v, "id")?;
        let interface_language = required::<String>(v, "interface_language")?;
        let open_links_in_new_tab = required::<bool>(v, "open_links_in_new_tab")?;
        let person_id = required::<i32>(v, "person_id")?;
        let send_notifications_to_email = required::<bool>(v, "send_notifications_to_email")?;
        let show_avatars = required::<bool>(v, "show_avatars")?;
        let show_bot_accounts = required::<bool>(v, "show_bot_accounts")?;
        let show_new_post_notifs = required::<bool>(v, "show_new_post_notifs")?;
        let show_nsfw = required::<bool>(v, "show_nsfw")?;
        let show_read_posts = required::<bool>(v, "show_read_posts")?;
        let show_scores = required::<bool>(v, "show_scores")?;
        let theme = required::<String>(v, "theme")?;
        let totp_2fa_url = optional::<String>(v, "totp_2fa_url")?;
        let validator_time = required::<String>(v, "validator_time")?;
        Some(
            LocalUser {
                acepted_application,
                default_listing_type,
                default_sort_type,
                email,
                email_verified,
                id,
                interface_language,
                open_links_in_new_tab,
                person_id,
                send_notifications_to_email,
                show_avatars,
                show_bot_accounts,
                show_new_post_notifs,
                show_nsfw,
                show_read_posts,
                show_scores,
                theme,
                totp_2fa_url,
                validator_time,
            },
        )
    }

    proof fn lemma_round_trip(&self) {
        Self::lemma_members(
            self.acepted_application.tree(),
            self.default_listing_type.tree(),
            self.default_sort_type.tree(),
            written(self.email),
            self.email_verified.tree(),
            self.id.tree(),
            self.interface_language.tree(),
            self.open_links_in_new_tab.tree(),
            self.person_id.tree(),
            self.send_notifications_to_email.tree(),
            self.show_avatars.tree(),
            self.show_bot_accounts.tree(),
            self.show_new_post_notifs.tree(),
            self.show_nsfw.tree(),
            self.show_read_posts.tree(),
            self.show_scores.tree(),
            self.theme.tree(),
            written(self.totp_2fa_url),
            self.validator_time.tree(),
        );
        self.acepted_application.lemma_round_trip();
        self.default_listing_type.lemma_round_trip();
        self.default_sort_type.lemma_round_trip();
        lemma_optional_round_trip(self.email);
        self.email_verified.lemma_round_trip();
        self.id.lemma_round_trip();
        self.interface_language.lemma_round_trip();
        self.open_links_in_new_tab.lemma_round_trip();
        self.person_id.lemma_round_trip();
        self.send_notifications_to_email.lemma_round_trip();
        self.show_avatars.lemma_round_trip();
        self.show_bot_accounts.lemma_round_trip();
        self.show_new_post_notifs.lemma_round_trip();
        self.show_nsfw.lemma_round_trip();
        self.show_read_posts.lemma_round_trip();
        self.show_scores.lemma_round_trip();
        self.theme.lemma_round_trip();
        lemma_optional_round_trip(self.totp_2fa_url);
        self.validator_time.lemma_round_trip();
    }

    proof fn lemma_reads_one(&self, other: &Self, t: JsonTree) {
        lemma_required_reads_one(
            self.acepted_application,
            other.acepted_application,
            t,
            "acepted_application"@,
        );
        lemma_required_reads_one(
            self.default_listing_type,
            other.default_listing_type,
            t,
            "default_listing_type"@,
        );
        lemma_required_reads_one(
            self.default_sort_type,
            other.default_sort_type,
            t,
            "default_sort_type"@,
        );
        lemma_optional_reads_one(self.email, other.email, t, "email"@);
        lemma_required_reads_one(self.email_verified, other.email_verified, t, "email_verified"@);
        lemma_required_reads_one(self.id, other.id, t, "id"@);
        lemma_required_reads_one(
            self.interface_language,
            other.interface_language,
            t,
            "interface_language"@,
        );
        lemma_required_reads_one(
            self.open_links_in_new_tab,
            other.open_links_in_new_tab,
            t,
            "open_links_in_new_tab"@,
        );
        lemma_required_reads_one(self.person_id, other.person_id, t, "person_id"@);
        lemma_required_reads_one(
            self.send_notifications_to_email,
            other.send_notifications_to_email,
            t,
            "send_notifications_to_email"@,
        );
        lemma_required_reads_one(self.show_avatars, other.show_avatars, t, "show_avatars"@);
        lemma_required_reads_one(
            self.show_bot_accounts,
            other.show_bot_accounts,
            t,
            "show_bot_accounts"@,
        );
        lemma_required_reads_one(
            self.show_new_post_notifs,
            other.show_new_post_notifs,
            t,
            "show_new_post_notifs"@,
        );
        lemma_required_reads_one(self.show_nsfw, other.show_nsfw, t, "show_nsfw"@);
        lemma_required_reads_one(
            self.show_read_posts,
            other.show_read_posts,
            t,
            "show_read_posts"@,
        );
        lemma_required_reads_one(self.show_scores, other.show_scores, t, "show_scores"@);
        lemma_required_reads_one(self.theme, other.theme, t, "theme"@);
        lemma_optional_reads_one(self.totp_2fa_url, other.totp_2fa_url, t, "totp_2fa_url"@);
        lemma_required_reads_one(self.validator_time, other.validator_time, t, "validator_time"@);
    }
}

#[derive(Clone, Debug, PartialEq, Default)]
pub struct LocalUserView {
    pub counts: PersonAggregates,
    pub local_user: LocalUser,
    pub person: Person,
}

impl LocalUserView {
    /// The members that a record is written as, from what is written for
    /// each of its fields.
    pub open spec fn members(
        counts: JsonTree,
        local_user: JsonTree,
        person: JsonTree,
    ) -> Seq<Member> {
        let members = Seq::empty();
        let members = with_field(members, "counts"@, counts);
        let members = with_field(members, "local_user"@, local_user);
        let members = with_field(members, "person"@, person);
        members
    }

    /// Each key leads to what was written under it, and to nothing where
    /// nothing was written.
    pub proof fn lemma_members(counts: JsonTree, local_user: JsonTree, person: JsonTree)
        ensures
            ({
                let members = Self::members(counts, local_user, person);
                &&& lookup(members, "counts"@) == Some(counts)
                &&& lookup(members, "local_user"@) == Some(local_user)
                &&& lookup(members, "person"@) == Some(person)
            }),
    {
        broadcast use group_written_members;

        reveal_strlit("counts");
        reveal_strlit("local_user");
        reveal_strlit("person");
        assert("counts"@.len() == 6 && "counts"@[0] == 'c');
        assert("local_user"@.len() == 10);
        assert("person"@.len() == 6 && "person"@[0] == 'p');
    }

    /// Every field is mandatory: each is written, in order, and nothing
    /// else.
    pub proof fn lemma_mandatory_fields_alone(
        counts: JsonTree,
        local_user: JsonTree,
        person: JsonTree,
    )
        ensures
            Self::members(counts, local_user, person) == Seq::<Member>::empty()
                .push(("counts"@, counts))
                .push(("local_user"@, local_user))
                .push(("person"@, person)),
    {
        reveal(with_field);
        reveal(with_optional);
    }
}

impl Payload for LocalUserView {
    open spec fn tree(&self) -> JsonTree {
        JsonTree::Object(
            Self::members(self.counts.tree(), self.local_user.tree(), self.person.tree()),
        )
    }

    open spec fn admits(t: JsonTree) -> bool {
        &&& t is Object
        &&& required_admits::<PersonAggregates>(t, "counts"@)
        &&& required_admits::<LocalUser>(t, "local_user"@)
        &&& required_admits::<Person>(t, "person"@)
    }

    open spec fn agrees(&self, t: JsonTree) -> bool {
        &&& required_agrees(self.counts, t, "counts"@)
        &&& required_agrees(self.local_user, t, "local_user"@)
        &&& required_agrees(self.person, t, "person"@)
    }

    fn to_json(&self) -> (out: JsonValue) {
        let mut members: Vec<(String, JsonValue)> = Vec::new();
        assert(members_view(members@) =~= Seq::empty());
        put(&mut members, "counts", &self.counts);
        put(&mut members, "local_user", &self.local_user);
        put(&mut members, "person", &self.person);
        object(members)
    }

    fn from_json(v: &JsonValue) -> (res: Option<Self>) {
        if !v.is_object() {
            return None;
        }
        let counts = required::<PersonAggregates>(v, "counts")?;
        let local_user = required::<LocalUser>(v, "local_user")?;
        let person = required::<Person>(v, "person")?;
        Some(LocalUserView { counts, local_user, person })
    }

    proof fn lemma_round_trip(&self) {
        Self::lemma_members(self.counts.tree(), self.local_user.tree(), self.person.tree());
        self.counts.lemma_round_trip();
        self.local_user.lemma_round_trip();
        self.person.lemma_round_trip();
    }

    proof fn lemma_reads_one(&self, other: &Self, t: JsonTree) {
        lemma_required_reads_one(self.counts, other.counts, t, "counts"@);
        lemma_required_reads_one(self.local_user, other.local_user, t, "local_user"@);
        lemma_required_reads_one(self.person, other.person, t, "person"@);
    }
}

#[derive(Clone, Debug, PartialEq, Default)]
pub struct Login {
    pub password: String,
    pub totp_2fa_token: Option<String>,
    pub username_or_email: String,
}

impl Login {
    /// The members that a record is written as, from what is written for
    /// each of its fields.
    pub open spec fn members(
        password: JsonTree,
        totp_2fa_token: Option<JsonTree>,
        username_or_email: JsonTree,
    ) -> Seq<Member> {
        let members = Seq::empty();
        let members = with_field(members, "password"@, password);
        let members = with_optional(members, "totp_2fa_token"@, totp_2fa_token);
        let members = with_field(members, "username_or_email"@, username_or_email);
        members
    }

    /// Each key leads to what was written under it, and to nothing where
    /// nothing was written.
    pub proof fn lemma_members(
        password: JsonTree,
        totp_2fa_token: Option<JsonTree>,
        username_or_email: JsonTree,
    )
        ensures
            ({
                let members = Self::members(password, totp_2fa_token, username_or_email);
                &&& lookup(members, "password"@) == Some(password)
                &&& lookup(members, "totp_2fa_token"@) == totp_2fa_token
                &&& lookup(members, "username_or_email"@) == Some(username_or_email)
            }),
    {
        broadcast use group_written_members;

        reveal_strlit("password");
        reveal_strlit("totp_2fa_token");
        reveal_strlit("username_or_email");
        assert("password"@.len() == 8);
        assert("totp_2fa_token"@.len() == 14);
        assert("username_or_email"@.len() == 17);
    }

    /// With every optional field absent, the mandatory fields are written
    /// and nothing else.
    pub proof fn lemma_mandatory_fields_alone(password: JsonTree, username_or_email: JsonTree)
        ensures
            Self::members(password, None, username_or_email) == Seq::<Member>::empty()
                .push(("password"@, password))
                .push(("username_or_email"@, username_or_email)),
    {
        reveal(with_field);
        reveal(with_optional);
    }
}

impl Payload for Login {
    open spec fn tree(&self) -> JsonTree {
        JsonTree::Object(
            Self::members(
                self.password.tree(),
                written(self.totp_2fa_token),
                self.username_or_email.tree(),
            ),
        )
    }

    open spec fn admits(t: JsonTree) -> bool {
        &&& t is Object
        &&& required_admits::<String>(t, "password"@)
        &&& optional_admits::<String>(t, "totp_2fa_token"@)
        &&& required_admits::<String>(t, "username_or_email"@)
    }

    open spec fn agrees(&self, t: JsonTree) -> bool {
        &&& required_agrees(self.password, t, "password"@)
        &&& optional_agrees(self.totp_2fa_token, t, "totp_2fa_token"@)
        &&& required_agrees(self.username_or_email, t, "username_or_email"@)
    }

    fn to_json(&self) -> (out: JsonValue) {
        let mut members: Vec<(String, JsonValue)> = Vec::new();
        assert(members_view(members@) =~= Seq::empty());
        put(&mut members, "password", &self.password);
        put_optional(&mut members, "totp_2fa_token", &self.totp_2fa_token);
        put(&mut members, "username_or_email", &self.username_or_email);
        object(members)
    }

    fn from_json(v: &JsonValue) -> (res: Option<Self>) {
        if !v.is_object() {
            return None;
        }
        let password = required::<String>(v, "password")?;
        let totp_2fa_token = optional::<String>(v, "totp_2fa_token")?;
        let username_or_email = required::<String>(v, "username_or_email")?;
        Some(Login { password, totp_2fa_token, username_or_email })
    }

    proof fn lemma_round_trip(&self) {
        Self::lemma_members(
            self.password.tree(),
            written(self.totp_2fa_token),
            self.username_or_email.tree(),
        );
        self.password.lemma_round_trip();
        lemma_optional_round_trip(self.totp_2fa_token);
        self.username_or_email.lemma_round_trip();
    }

    proof fn lemma_reads_one(&self, other: &Self, t: JsonTree) {
        lemma_required_reads_one(self.password, other.password, t, "password"@);
        lemma_optional_reads_one(self.totp_2fa_token, other.totp_2fa_token, t, "totp_2fa_token"@);
        lemma_required_reads_one(
            self.username_or_email,
            other.username_or_email,
            t,
            "username_or_email"@,
        );
    }
}

#[derive(Clone, Debug, PartialEq, Default)]
pub struct LoginResponse {
    pub jwt: String,
    pub registration_created: bool,
    pub verify_email_sent: bool,
}

impl LoginResponse {
    /// The members that a record is written as, from what is written for
    /// each of its fields.
    pub open spec fn members(
        jwt: JsonTree,
        registration_created: JsonTree,
        verify_email_sent: JsonTree,
    ) -> Seq<Member> {
        let members = Seq::empty();
        let members = with_field(members, "jwt"@, jwt);
        let members = with_field(members, "registration_created"@, registration_created);
        let members = with_field(members, "verify_email_sent"@, verify_email_sent);
        members
    }

    /// Each key leads to what was written under it, and to nothing where
    /// nothing was written.
    pub proof fn lemma_members(
        jwt: JsonTree,
        registration_created: JsonTree,
        verify_email_sent: JsonTree,
    )
        ensures
            ({
                let members = Self::members(jwt, registration_created, verify_email_sent);
                &&& lookup(members, "jwt"@) == Some(jwt)
                &&& lookup(members, "registration_created"@) == Some(registration_created)
                &&& lookup(members, "verify_email_sent"@) == Some(verify_email_sent)
            }),
    {
        broadcast use group_written_members;

        reveal_strlit("jwt");
        reveal_strlit("registration_created");
        reveal_strlit("verify_email_sent");
        assert("jwt"@.len() == 3);
        assert("registration_created"@.len() == 20);
        assert("verify_email_sent"@.len() == 17);
    }

    /// Every field is mandatory: each is written, in order, and nothing
    /// else.
    pub proof fn lemma_mandatory_fields_alone(
        jwt: JsonTree,
        registration_created: JsonTree,
        verify_email_sent: JsonTree,
    )
        ensures
            Self::members(jwt, registration_created, verify_email_sent) == Seq::<Member>::empty()
                .push(("jwt"@, jwt))
                .push(("registration_created"@, registration_created))
                .push(("verify_email_sent"@, verify_email_sent)),
    {
        reveal(with_field);
        reveal(with_optional);
    }
}

impl Payload for LoginResponse {
    open spec fn tree(&self) -> JsonTree {
        JsonTree::Object(
            Self::members(
                self.jwt.tree(),
                self.registration_created.tree(),
                self.verify_email_sent.tree(),
            ),
        )
    }

    open spec fn admits(t: JsonTree) -> bool {
        &&& t is Object
        &&& required_admits::<String>(t, "jwt"@)
        &&& required_admits::<bool>(t, "registration_created"@)
        &&& required_admits::<bool>(t, "verify_email_sent"@)
    }

    open spec fn agrees(&self, t: JsonTree) -> bool {
        &&& required_agrees(self.jwt, t, "jwt"@)
        &&& required_agrees(self.registration_created, t, "registration_created"@)
        &&& required_agrees(self.verify_email_sent, t, "verify_email_sent"@)
    }

    fn to_json(&self) -> (out: JsonValue) {
        let mut members: Vec<(String, JsonValue)> = Vec::new();
        assert(members_view(members@) =~= Seq::empty());
        put(&mut members, "jwt", &self.jwt);
        put(&mut members, "registration_created", &self.registration_created);
        put(&mut members, "verify_email_sent", &self.verify_email_sent);
        object(members)
    }

    fn from_json(v: &JsonValue) -> (res: Option<Self>) {
        if !v.is_object() {
            return None;
        }
        let jwt = required::<String>(v, "jwt")?;
        let registration_created = required::<bool>(v, "registration_created")?;
        let verify_email_sent = required::<bool>(v, "verify_email_sent")?;
        Some(LoginResponse { jwt, registration_created, verify_email_sent })
    }

    proof fn lemma_round_trip(&self) {
        Self::lemma_members(
            self.jwt.tree(),
            self.registration_created.tree(),
            self.verify_email_sent.tree(),
        );
        self.jwt.lemma_round_trip();
        self.registration_created.lemma_round_trip();
        self.verify_email_sent.lemma_round_trip();
    }

    proof fn lemma_reads_one(&self, other: &Self, t: JsonTree) {
        lemma_required_reads_one(self.jwt, other.jwt, t, "jwt"@);
        lemma_required_reads_one(
            self.registration_created,
            other.registration_created,
            t,
            "registration_created"@,
        );
        lemma_required_reads_one(
            self.verify_email_sent,
            other.verify_email_sent,
            t,
            "verify_email_sent"@,
        );
    }
}

#[derive(Clone, Debug, PartialEq, Default)]
pub struct MarkAllAsRead {
    pub auth: String,
}

impl MarkAllAsRead {
    /// The members that a record is written as, from what is written for
    /// each of its fields.
    pub open spec fn members(auth: JsonTree) -> Seq<Member> {
        let members = Seq::empty();
        let members = with_field(members, "auth"@, auth);
        members
    }

    /// Each key leads to what was written under it, and to nothing where
    /// nothing was written.
    pub proof fn lemma_members(auth: JsonTree)
        ensures
            ({
                let members = Self::members(auth);
                &&& lookup(members, "auth"@) == Some(auth)
            }),
    {
        broadcast use group_written_members;

        reveal_strlit("auth");
        assert("auth"@.len() == 4);
    }

    /// Every field is mandatory: each is written, in order, and nothing
    /// else.
    pub proof fn lemma_mandatory_fields_alone(auth: JsonTree)
        ensures
            Self::members(auth) == Seq::<Member>::empty()
                .push(("auth"@, auth)),
    {
        reveal(with_field);
        reveal(with_optional);
    }
}

impl Payload for MarkAllAsRead {
    open spec fn tree(&self) -> JsonTree {
        JsonTree::Object(Self::members(self.auth.tree()))
    }

    open spec fn admits(t: JsonTree) -> bool {
        &&& t is Object
        &&& required_admits::<String>(t, "auth"@)
    }

    open spec fn agrees(&self, t: JsonTree) -> bool {
        &&& required_agrees(self.auth, t, "auth"@)
    }

    fn to_json(&self) -> (out: JsonValue) {
        let mut members: Vec<(String, JsonValue)> = Vec::new();
        assert(members_view(members@) =~= Seq::empty());
        put(&mut members, "auth", &self.auth);
        object(members)
    }

    fn from_json(v: &JsonValue) -> (res: Option<Self>) {
        if !v.is_object() {
            return None;
        }
        let auth = required::<String>(v, "auth")?;
        Some(MarkAllAsRead { auth })
    }

    proof fn lemma_round_trip(&self) {
        Self::lemma_members(self.auth.tree());
        self.auth.lemma_round_trip();
    }

    proof fn lemma_reads_one(&self, other: &Self, t: JsonTree) {
        lemma_required_reads_one(self.auth, other.auth, t, "auth"@);
    }
}

#[derive(Clone, Debug, PartialEq, Default)]
pub struct MarkPersonMentionAsRead {
    pub auth: String,
    pub person_mention_id: i32,
    pub read: bool,
}

impl MarkPersonMentionAsRead {
    /// The members that a record is written as, from what is written for
    /// each of its fields.
    pub open spec fn members(
        auth: JsonTree,
        person_mention_id: JsonTree,
        read: JsonTree,
    ) -> Seq<Member> {
        let members = Seq::empty();
        let members = with_field(members, "auth"@, auth);
        let members = with_field(members, "person_mention_id"@, person_mention_id);
        let members = with_field(members, "read"@, read);
        members
    }

    /// Each key leads to what was written under it, and to nothing where
    /// nothing was written.
    pub proof fn lemma_members(auth: JsonTree, person_mention_id: JsonTree, read: JsonTree)
        ensures
            ({
                let members = Self::members(auth, person_mention_id, read);
                &&& lookup(members, "auth"@) == Some(auth)
                &&& lookup(members, "person_mention_id"@) == Some(person_mention_id)
                &&& lookup(members, "read"@) == Some(read)
            }),
    {
        broadcast use group_written_members;

        reveal_strlit("auth");
        reveal_strlit("person_mention_id");
        reveal_strlit("read");
        assert("auth"@.len() == 4 && "auth"@[0] == 'a');
        assert("person_mention_id"@.len() == 17);
        assert("read"@.len() == 4 && "read"@[0] == 'r');
    }

    /// Every field is mandatory: each is written, in order, and nothing
    /// else.
    pub proof fn lemma_mandatory_fields_alone(
        auth: JsonTree,
        person_mention_id: JsonTree,
        read: JsonTree,
    )
        ensures
            Self::members(auth, person_mention_id, read) == Seq::<Member>::empty()
                .push(("auth"@, auth))
                .push(("person_mention_id"@, person_mention_id))
                .push(("read"@, read)),
    {
        reveal(with_field);
        reveal(with_optional);
    }
}

impl Payload for MarkPersonMentionAsRead {
    open spec fn tree(&self) -> JsonTree {
        JsonTree::Object(
            Self::members(self.auth.tree(), self.person_mention_id.tree(), self.read.tree()),
        )
    }

    open spec fn admits(t: JsonTree) -> bool {
        &&& t is Object
        &&& required_admits::<String>(t, "auth"@)
        &&& required_admits::<i32>(t, "person_mention_id"@)
        &&& required_admits::<bool>(t, "read"@)
    }

    open spec fn agrees(&self, t: JsonTree) -> bool {
        &&& required_agrees(self.auth, t, "auth"@)
        &&& required_agrees(self.person_mention_id, t, "person_mention_id"@)
        &&& required_agrees(self.read, t, "read"@)
    }

    fn to_json(&self) -> (out: JsonValue) {
        let mut members: Vec<(String, JsonValue)> = Vec::new();
        assert(members_view(members@) =~= Seq::empty());
        put(&mut members, "auth", &self.auth);
        put(&mut members, "person_mention_id", &self.person_mention_id);
        put(&mut members, "read", &self.read);
        object(members)
    }

    fn from_json(v: &JsonValue) -> (res: Option<Self>) {
        if !v.is_object() {
            return None;
        }
        let auth = required::<String>(v, "auth")?;
        let person_mention_id = required::<i32>(v, "person_mention_id")?;
        let read = required::<bool>(v, "read")?;
        Some(MarkPersonMentionAsRead { auth, person_mention_id, read })
    }

    proof fn lemma_round_trip(&self) {
        Self::lemma_members(self.auth.tree(), self.person_mention_id.tree(), self.read.tree());
        self.auth.lemma_round_trip();
        self.person_mention_id.lemma_round_trip();
        self.read.lemma_round_trip();
    }

    proof fn lemma_reads_one(&self, other: &Self, t: JsonTree) {
        lemma_required_reads_one(self.auth, other.auth, t, "auth"@);
        lemma_required_reads_one(
            self.person_mention_id,
            other.person_mention_id,
            t,
            "person_mention_id"@,
        );
        lemma_required_reads_one(self.read, other.read, t, "read"@);
    }
}

#[derive(Clone, Debug, PartialEq, Default)]
pub struct MyUserInfo {
    pub community_blocks: Vec<CommunityBlockView>,
    pub discussion_languages: Vec<i32>,
    pub follows: Vec<CommunityFollowerView>,
    pub local_user_view: LocalUserView,
    pub moderates: Vec<CommunityModeratorView>,
    pub person_blocks: Vec<PersonBlockView>,
}

impl MyUserInfo {
    /// The members that a record is written as, from what is written for
    /// each of its fields.
    pub open spec fn members(
        community_blocks: JsonTree,
        discussion_languages: JsonTree,
        follows: JsonTree,
        local_user_view: JsonTree,
        moderates: JsonTree,
        person_blocks: JsonTree,
    ) -> Seq<Member> {
        let members = Seq::empty();
        let members = with_field(members, "community_blocks"@, community_blocks);
        let members = with_field(members, "discussion_languages"@, discussion_languages);
        let members = with_field(members, "follows"@, follows);
        let members = with_field(members, "local_user_view"@, local_user_view);
        let members = with_field(members, "moderates"@, moderates);
        let members = with_field(members, "person_blocks"@, person_blocks);
        members
    }

    /// Each key leads to what was written under it, and to nothing where
    /// nothing was written.
    pub proof fn lemma_members(
        community_blocks: JsonTree,
        discussion_languages: JsonTree,
        follows: JsonTree,
        local_user_view: JsonTree,
        moderates: JsonTree,
        person_blocks: JsonTree,
    )
        ensures
            ({
                let members = Self::members(
                    community_blocks,
                    discussion_languages,
                    follows,
                    local_user_view,
                    moderates,
                    person_blocks,
                );
                &&& lookup(members, "community_blocks"@) == Some(community_blocks)
                &&& lookup(members, "discussion_languages"@) == Some(discussion_languages)
                &&& lookup(members, "follows"@) == Some(follows)
                &&& lookup(members, "local_user_view"@) == Some(local_user_view)
                &&& lookup(members, "moderates"@) == Some(moderates)
                &&& lookup(members, "person_blocks"@) == Some(person_blocks)
            }),
    {
        broadcast use group_written_members;

        reveal_strlit("community_blocks");
        reveal_strlit("discussion_languages");
        reveal_strlit("follows");
        reveal_strlit("local_user_view");
        reveal_strlit("moderates");
        reveal_strlit("person_blocks");
        assert("community_blocks"@.len() == 16);
        assert("discussion_languages"@.len() == 20);
        assert("follows"@.len() == 7);
        assert("local_user_view"@.len() == 15);
        assert("moderates"@.len() == 9);
        assert("person_blocks"@.len() == 13);
    }

    /// Every field is mandatory: each is written, in order, and nothing
    /// else.
    pub proof fn lemma_mandatory_fields_alone(
        community_blocks: JsonTree,
        discussion_languages: JsonTree,
        follows: JsonTree,
        local_user_view: JsonTree,
        moderates: JsonTree,
        person_blocks: JsonTree,
    )
        ensures
            Self::members(
                community_blocks,
                discussion_languages,
                follows,
                local_user_view,
                moderates,
                person_blocks,
            ) == Seq::<Member>::empty()
                .push(("community_blocks"@, community_blocks))
                .push(("discussion_languages"@, discussion_languages))
                .push(("follows"@, follows))
                .push(("local_user_view"@, local_user_view))
                .push(("moderates"@, moderates))
                .push(("person_blocks"@, person_blocks)),
    {
        reveal(with_field);
        reveal(with_optional);
    }
}

impl Payload for MyUserInfo {
    open spec fn tree(&self) -> JsonTree {
        JsonTree::Object(
            Self::members(
                self.community_blocks.tree(),
                self.discussion_languages.tree(),
                self.follows.tree(),
                self.local_user_view.tree(),
                self.moderates.tree(),
                self.person_blocks.tree(),
            ),
        )
    }

    open spec fn admits(t: JsonTree) -> bool {
        &&& t is Object
        &&& required_admits::<Vec<CommunityBlockView>>(t, "community_blocks"@)
        &&& required_admits::<Vec<i32>>(t, "discussion_languages"@)
        &&& required_admits::<Vec<CommunityFollowerView>>(t, "follows"@)
        &&& required_admits::<LocalUserView>(t, "local_user_view"@)
        &&& required_admits::<Vec<CommunityModeratorView>>(t, "moderates"@)
        &&& required_admits::<Vec<PersonBlockView>>(t, "person_blocks"@)
    }

    open spec fn agrees(&self, t: JsonTree) -> bool {
        &&& required_agrees(self.community_blocks, t, "community_blocks"@)
        &&& required_agrees(self.discussion_languages, t, "discussion_languages"@)
        &&& required_agrees(self.follows, t, "follows"@)
        &&& required_agrees(self.local_user_view, t, "local_user_view"@)
        &&& required_agrees(self.moderates, t, "moderates"@)
        &&& required_agrees(self.person_blocks, t, "person_blocks"@)
    }

    fn to_json(&self) -> (out: JsonValue) {
        let mut members: Vec<(String, JsonValue)> = Vec::new();
        assert(members_view(members@) =~= Seq::empty());
        put(&mut members, "community_blocks", &self.community_blocks);
        put(&mut members, "discussion_languages", &self.discussion_languages);
        put(&mut members, "follows", &self.follows);
        put(&mut members, "local_user_view", &self.local_user_view);
        put(&mut members, "moderates", &self.moderates);
        put(&mut members, "person_blocks", &self.person_blocks);
        object(members)
    }

    fn from_json(v: &JsonValue) -> (res: Option<Self>) {
        if !v.is_object() {
            return None;
        }
        let community_blocks = required::<Vec<CommunityBlockView>>(v, "community_blocks")?;
        let discussion_languages = required::<Vec<i32>>(v, "discussion_languages")?;
        let follows = required::<Vec<CommunityFollowerView>>(v, "follows")?;
        let local_user_view = required::<LocalUserView>(v, "local_user_view")?;
        let moderates = required::<Vec<CommunityModeratorView>>(v, "moderates")?;
        let person_blocks = required::<Vec<PersonBlockView>>(v, "person_blocks")?;
        Some(
            MyUserInfo {
                community_blocks,
                discussion_languages,
                follows,
                local_user_view,
                moderates,
                person_blocks,
            },
        )
    }

    proof fn lemma_round_trip(&self) {
        Self::lemma_members(
            self.community_blocks.tree(),
            self.discussion_languages.tree(),
            self.follows.tree(),
            self.local_user_view.tree(),
            self.moderates.tree(),
            self.person_blocks.tree(),
        );
        self.community_blocks.lemma_round_trip();
        self.discussion_languages.lemma_round_trip();
        self.follows.lemma_round_trip();
        self.local_user_view.lemma_round_trip();
        self.moderates.lemma_round_trip();
        self.person_blocks.lemma_round_trip();
    }

    proof fn lemma_reads_one(&self, other: &Self, t: JsonTree) {
        lemma_required_reads_one(
            self.community_blocks,
            other.community_blocks,
            t,
            "community_blocks"@,
        );
        lemma_required_reads_one(
            self.discussion_languages,
            other.discussion_languages,
            t,
            "discussion_languages"@,
        );
        lemma_required_reads_one(self.follows, other.follows, t, "follows"@);
        lemma_required_reads_one(
            self.local_user_view,
            other.local_user_view,
            t,
            "local_user_view"@,
        );
        lemma_required_reads_one(self.moderates, other.moderates, t, "moderates"@);
        lemma_required_reads_one(self.person_blocks, other.person_blocks, t, "person_blocks"@);
    }
}

#[derive(Clone, Debug, PartialEq, Default)]
pub struct PasswordChangeAfterReset {
    pub password: String,
    pub password_verify: String,
    pub token: String,
}

impl PasswordChangeAfterReset {
    /// The members that a record is written as, from what is written for
    /// each of its fields.
    pub open spec fn members(
        password: JsonTree,
        password_verify: JsonTree,
        token: JsonTree,
    ) -> Seq<Member> {
        let members = Seq::empty();
        let members = with_field(members, "password"@, password);
        let members = with_field(members, "password_verify"@, password_verify);
        let members = with_field(members, "token"@, token);
        members
    }

    /// Each key leads to what was written under it, and to nothing where
    /// nothing was written.
    pub proof fn lemma_members(password: JsonTree, password_verify: JsonTree, token: JsonTree)
        ensures
            ({
                let members = Self::members(password, password_verify, token);
                &&& lookup(members, "password"@) == Some(password)
                &&& lookup(members, "password_verify"@) == Some(password_verify)
                &&& lookup(members, "token"@) == Some(token)
            }),
    {
        broadcast use group_written_members;

        reveal_strlit("password");
        reveal_strlit("password_verify");
        reveal_strlit("token");
        assert("password"@.len() == 8);
        assert("password_verify"@.len() == 15);
        assert("token"@.len() == 5);
    }

    /// Every field is mandatory: each is written, in order, and nothing
    /// else.
    pub proof fn lemma_mandatory_fields_alone(
        password: JsonTree,
        password_verify: JsonTree,
        token: JsonTree,
    )
        ensures
            Self::members(password, password_verify, token) == Seq::<Member>::empty()
                .push(("password"@, password))
                .push(("password_verify"@, password_verify))
                .push(("token"@, token)),
    {
        reveal(with_field);
        reveal(with_optional);
    }
}

impl Payload for PasswordChangeAfterReset {
    open spec fn tree(&self) -> JsonTree {
        JsonTree::Object(
            Self::members(self.password.tree(), self.password_verify.tree(), self.token.tree()),
        )
    }

    open spec fn admits(t: JsonTree) -> bool {
        &&& t is Object
        &&& required_admits::<String>(t, "password"@)
        &&& required_admits::<String>(t, "password_verify"@)
        &&& required_admits::<String>(t, "token"@)
    }

    open spec fn agrees(&self, t: JsonTree) -> bool {
        &&& required_agrees(self.password, t, "password"@)
        &&& required_agrees(self.password_verify, t, "password_verify"@)
        &&& required_agrees(self.token, t, "token"@)
    }

    fn to_json(&self) -> (out: JsonValue) {
        let mut members: Vec<(String, JsonValue)> = Vec::new();
        assert(members_view(members@) =~= Seq::empty());
        put(&mut members, "password", &self.password);
        put(&mut members, "password_verify", &self.password_verify);
        put(&mut members, "token", &self.token);
        object(members)
    }

    fn from_json(v: &JsonValue) -> (res: Option<Self>) {
        if !v.is_object() {
            return None;
        }
        let password = required::<String>(v, "password")?;
        let password_verify = required::<String>(v, "password_verify")?;
        let token = required::<String>(v, "token")?;
        Some(PasswordChangeAfterReset { password, password_verify, token })
    }

    proof fn lemma_round_trip(&self) {
        Self::lemma_members(self.password.tree(), self.password_verify.tree(), self.token.tree());
        self.password.lemma_round_trip();
        self.password_verify.lemma_round_trip();
        self.token.lemma_round_trip();
    }

    proof fn lemma_reads_one(&self, other: &Self, t: JsonTree) {
        lemma_required_reads_one(self.password, other.password, t, "password"@);
        lemma_required_reads_one(
            self.password_verify,
            other.password_verify,
            t,
            "password_verify"@,
        );
        lemma_required_reads_one(self.token, other.token, t, "token"@);
    }
}

#[derive(Clone, Debug, PartialEq, Default)]
pub struct PasswordReset {
    pub email: String,
}

impl PasswordReset {
    /// The members that a record is written as, from what is written for
    /// each of its fields.
    pub open spec fn members(email: JsonTree) -> Seq<Member> {
        let members = Seq::empty();
        let members = with_field(members, "email"@, email);
        members
    }

    /// Each key leads to what was written under it, and to nothing where
    /// nothing was written.
    pub proof fn lemma_members(email: JsonTree)
        ensures
            ({
                let members = Self::members(email);
                &&& lookup(members, "email"@) == Some(email)
            }),
    {
        broadcast use group_written_members;

        reveal_strlit("email");
        assert("email"@.len() == 5);
    }

    /// Every field is mandatory: each is written, in order, and nothing
    /// else.
    pub proof fn lemma_mandatory_fields_alone(email: JsonTree)
        ensures
            Self::members(email) == Seq::<Member>::empty()
                .push(("email"@, email)),
    {
        reveal(with_field);
        reveal(with_optional);
    }
}

impl Payload for PasswordReset {
    open spec fn tree(&self) -> JsonTree {
        JsonTree::Object(Self::members(self.email.tree()))
    }

    open spec fn admits(t: JsonTree) -> bool {
        &&& t is Object
        &&& required_admits::<String>(t, "email"@)
    }

    open spec fn agrees(&self, t: JsonTree) -> bool {
        &&& required_agrees(self.email, t, "email"@)
    }

    fn to_json(&self) -> (out: JsonValue) {
        let mut members: Vec<(String, JsonValue)> = Vec::new();
        assert(members_view(members@) =~= Seq::empty());
        put(&mut members, "email", &self.email);
        object(members)
    }

    fn from_json(v: &JsonValue) -> (res: Option<Self>) {
        if !v.is_object() {
            return None;
        }
        let email = required::<String>(v, "email")?;
        Some(PasswordReset { email })
    }

    proof fn lemma_round_trip(&self) {
        Self::lemma_members(self.email.tree());
        self.email.lemma_round_trip();
    }

    proof fn lemma_reads_one(&self, other: &Self, t: JsonTree) {
        lemma_required_reads_one(self.email, other.email, t, "email"@);
    }
}

#[derive(Clone, Debug, PartialEq, Default)]
pub struct Person {
    pub actor_id: String,
    pub admin: bool,
    pub avatar: Option<String>,
    pub ban_expires: Option<String>,
    pub banned: bool,
    pub banner: Option<String>,
    pub bio: Option<String>,
    pub bot_account: bool,
    pub deleted: bool,
    pub display_name: Option<String>,
    pub id: i32,
    pub inbox_url: Option<String>,
    pub instance_id: i32,
    pub local: bool,
    pub matrix_user_id: Option<String>,
    pub name: String,
    pub published: String,
    pub updated: Option<String>,
}

impl Person {
    /// The members that a record is written as, from what is written for
    /// each of its fields.
    pub open spec fn members(
        actor_id: JsonTree,
        admin: JsonTree,
        avatar: Option<JsonTree>,
        ban_expires: Option<JsonTree>,
        banned: JsonTree,
        banner: Option<JsonTree>,
        bio: Option<JsonTree>,
        bot_account: JsonTree,
        deleted: JsonTree,
        display_name: Option<JsonTree>,
        id: JsonTree,
        inbox_url: Option<JsonTree>,
        instance_id: JsonTree,
        local: JsonTree,
        matrix_user_id: Option<JsonTree>,
        name: JsonTree,
        published: JsonTree,
        updated: Option<JsonTree>,
    ) -> Seq<Member> {
        let members = Seq::empty();
        let members = with_field(members, "actor_id"@, actor_id);
        let members = with_field(members, "admin"@, admin);
        let members = with_optional(members, "avatar"@, avatar);
        let members = with_optional(members, "ban_expires"@, ban_expires);
        let members = with_field(members, "banned"@, banned);
        let members = with_optional(members, "banner"@, banner);
        let members = with_optional(members, "bio"@, bio);
        let members = with_field(members, "bot_account"@, bot_account);
        let members = with_field(members, "deleted"@, deleted);
        let members = with_optional(members, "display_name"@, display_name);
        let members = with_field(members, "id"@, id);
        let members = with_optional(members, "inbox_url"@, inbox_url);
        let members = with_field(members, "instance_id"@, instance_id);
        let members = with_field(members, "local"@, local);
        let members = with_optional(members, "matrix_user_id"@, matrix_user_id);
        let members = with_field(members, "name"@, name);
        let members = with_field(members, "published"@, published);
        let members = with_optional(members, "updated"@, updated);
        members
    }

    /// Each key leads to what was written under it, and to nothing where
    /// nothing was written.
    pub proof fn lemma_members(
        actor_id: JsonTree,
        admin: JsonTree,
        avatar: Option<JsonTree>,
        ban_expires: Option<JsonTree>,
        banned: JsonTree,
        banner: Option<JsonTree>,
        bio: Option<JsonTree>,
        bot_account: JsonTree,
        deleted: JsonTree,
        display_name: Option<JsonTree>,
        id: JsonTree,
        inbox_url: Option<JsonTree>,
        instance_id: JsonTree,
        local: JsonTree,
        matrix_user_id: Option<JsonTree>,
        name: JsonTree,
        published: JsonTree,
        updated: Option<JsonTree>,
    )
        ensures
            ({
                let members = Self::members(
                    actor_id,
                    admin,
                    avatar,
                    ban_expires,
                    banned,
                    banner,
                    bio,
                    bot_account,
                    deleted,
                    display_name,
                    id,
                    inbox_url,
                    instance_id,
                    local,
                    matrix_user_id,
                    name,
                    published,
                    updated,
                );
                &&& lookup(members, "actor_id"@) == Some(actor_id)
                &&& lookup(members, "admin"@) == Some(admin)
                &&& lookup(members, "avatar"@) == avatar
                &&& lookup(members, "ban_expires"@) == ban_expires
                &&& lookup(members, "banned"@) == Some(banned)
                &&& lookup(members, "banner"@) == banner
                &&& lookup(members, "bio"@) == bio
                &&& lookup(members, "bot_account"@) == Some(bot_account)
                &&& lookup(members, "deleted"@) == Some(deleted)
                &&& lookup(members, "display_name"@) == display_name
                &&& lookup(members, "id"@) == Some(id)
                &&& lookup(members, "inbox_url"@) == inbox_url
                &&& lookup(members, "instance_id"@) == Some(instance_id)
                &&& lookup(members, "local"@) == Some(local)
                &&& lookup(members, "matrix_user_id"@) == matrix_user_id
                &&& lookup(members, "name"@) == Some(name)
                &&& lookup(members, "published"@) == Some(published)
                &&& lookup(members, "updated"@) == updated
            }),
    {
        broadcast use group_written_members;

        reveal_strlit("actor_id");
        reveal_strlit("admin");
        reveal_strlit("avatar");
        reveal_strlit("ban_expires");
        reveal_strlit("banned");
        reveal_strlit("banner");
        reveal_strlit("bio");
        reveal_strlit("bot_account");
        reveal_strlit("deleted");
        reveal_strlit("display_name");
        reveal_strlit("id");
        reveal_strlit("inbox_url");
        reveal_strlit("instance_id");
        reveal_strlit("local");
        reveal_strlit("matrix_user_id");
        reveal_strlit("name");
        reveal_strlit("published");
        reveal_strlit("updated");
        assert("actor_id"@.len() == 8);
        assert("admin"@.len() == 5 && "admin"@[0] == 'a');
        assert("avatar"@.len() == 6 && "avatar"@[0] == 'a');
        assert("ban_expires"@.len() == 11 && "ban_expires"@[0] == 'b' && "ban_expires"@[1] == 'a');
        assert("banned"@.len() == 6 && "banned"@[0] == 'b' && "banned"@[5] == 'd');
        assert("banner"@.len() == 6 && "banner"@[0] == 'b' && "banner"@[5] == 'r');
        assert("bio"@.len() == 3);
        assert("bot_account"@.len() == 11 && "bot_account"@[0] == 'b' && "bot_account"@[1] == 'o');
        assert("deleted"@.len() == 7 && "deleted"@[0] == 'd');
        assert("display_name"@.len() == 12);
        assert("id"@.len() == 2);
        assert("inbox_url"@.len() == 9 && "inbox_url"@[0] == 'i');
        assert("instance_id"@.len() == 11 && "instance_id"@[0] == 'i');
        assert("local"@.len() == 5 && "local"@[0] == 'l');
        assert("matrix_user_id"@.len() == 14);
        assert("name"@.len() == 4);
        assert("published"@.len() == 9 && "published"@[0] == 'p');
        assert("updated"@.len() == 7 && "updated"@[0] == 'u');
    }

    /// With every optional field absent, the mandatory fields are written
    /// and nothing else.
    pub proof fn lemma_mandatory_fields_alone(
        actor_id: JsonTree,
        admin: JsonTree,
        banned: JsonTree,
        bot_account: JsonTree,
        deleted: JsonTree,
        id: JsonTree,
        instance_id: JsonTree,
        local: JsonTree,
        name: JsonTree,
        published: JsonTree,
    )
        ensures
            Self::members(
                actor_id,
                admin,
                None,
                None,
                banned,
                None,
                None,
                bot_account,
                deleted,
                None,
                id,
                None,
                instance_id,
                local,
                None,
                name,
                published,
                None,
            ) == Seq::<Member>::empty()
                .push(("actor_id"@, actor_id))
                .push(("admin"@, admin))
                .push(("banned"@, banned))
                .push(("bot_account"@, bot_account))
                .push(("deleted"@, deleted))
                .push(("id"@, id))
                .push(("instance_id"@, instance_id))
                .push(("local"@, local))
                .push(("name"@, name))
                .push(("published"@, published)),
    {
        reveal(with_field);
        reveal(with_optional);
    }
}

impl Payload for Person {
    open spec fn tree(&self) -> JsonTree {
        JsonTree::Object(
            Self::members(
                self.actor_id.tree(),
                self.admin.tree(),
                written(self.avatar),
                written(self.ban_expires),
                self.banned.tree(),
                written(self.banner),
                written(self.bio),
                self.bot_account.tree(),
                self.deleted.tree(),
                written(self.display_name),
                self.id.tree(),
                written(self.inbox_url),
                self.instance_id.tree(),
                self.local.tree(),
                written(self.matrix_user_id),
                self.name.tree(),
                self.published.tree(),
                written(self.updated),
            ),
        )
    }

    open spec fn admits(t: JsonTree) -> bool {
        &&& t is Object
        &&& required_admits::<String>(t, "actor_id"@)
        &&& required_admits::<bool>(t, "admin"@)
        &&& optional_admits::<String>(t, "avatar"@)
        &&& optional_admits::<String>(t, "ban_expires"@)
        &&& required_admits::<bool>(t, "banned"@)
        &&& optional_admits::<String>(t, "banner"@)
        &&& optional_admits::<String>(t, "bio"@)
        &&& required_admits::<bool>(t, "bot_account"@)
        &&& required_admits::<bool>(t, "deleted"@)
        &&& optional_admits::<String>(t, "display_name"@)
        &&& required_admits::<i32>(t, "id"@)
        &&& optional_admits::<String>(t, "inbox_url"@)
        &&& required_admits::<i32>(t, "instance_id"@)
        &&& required_admits::<bool>(t, "local"@)
        &&& optional_admits::<String>(t, "matrix_user_id"@)
        &&& required_admits::<String>(t, "name"@)
        &&& required_admits::<String>(t, "published"@)
        &&& optional_admits::<String>(t, "updated"@)
    }

    open spec fn agrees(&self, t: JsonTree) -> bool {
        &&& required_agrees(self.actor_id, t, "actor_id"@)
        &&& required_agrees(self.admin, t, "admin"@)
        &&& optional_agrees(self.avatar, t, "avatar"@)
        &&& optional_agrees(self.ban_expires, t, "ban_expires"@)
        &&& required_agrees(self.banned, t, "banned"@)
        &&& optional_agrees(self.banner, t, "banner"@)
        &&& optional_agrees(self.bio, t, "bio"@)
        &&& required_agrees(self.bot_account, t, "bot_account"@)
        &&& required_agrees(self.deleted, t, "deleted"@)
        &&& optional_agrees(self.display_name, t, "display_name"@)
        &&& required_agrees(self.id, t, "id"@)
        &&& optional_agrees(self.inbox_url, t, "inbox_url"@)
        &&& required_agrees(self.instance_id, t, "instance_id"@)
        &&& required_agrees(self.local, t, "local"@)
        &&& optional_agrees(self.matrix_user_id, t, "matrix_user_id"@)
        &&& required_agrees(self.name, t, "name"@)
        &&& required_agrees(self.published, t, "published"@)
        &&& optional_agrees(self.updated, t, "updated"@)
    }

    fn to_json(&self) -> (out: JsonValue) {
        let mut members: Vec<(String, JsonValue)> = Vec::new();
        assert(members_view(members@) =~= Seq::empty());
        put(&mut members, "actor_id", &self.actor_id);
        put(&mut members, "admin", &self.admin);
        put_optional(&mut members, "avatar", &self.avatar);
        put_optional(&mut members, "ban_expires", &self.ban_expires);
        put(&mut members, "banned", &self.banned);
        put_optional(&mut members, "banner", &self.banner);
        put_optional(&mut members, "bio", &self.bio);
        put(&mut members, "bot_account", &self.bot_account);
        put(&mut members, "deleted", &self.deleted);
        put_optional(&mut members, "display_name", &self.display_name);
        put(&mut members, "id", &self.id);
        put_optional(&mut members, "inbox_url", &self.inbox_url);
        put(&mut members, "instance_id", &self.instance_id);
        put(&mut members, "local", &self.local);
        put_optional(&mut members, "matrix_user_id", &self.matrix_user_id);
        put(&mut members, "name", &self.name);
        put(&mut members, "published", &self.published);
        put_optional(&mut members, "updated", &self.updated);
        object(members)
    }

    fn from_json(v: &JsonValue) -> (res: Option<Self>) {
        if !v.is_object() {
            return None;
        }
        let actor_id = required::<String>(v, "actor_id")?;
        let admin = required::<bool>(v, "admin")?;
        let avatar = optional::<String>(v, "avatar")?;
        let ban_expires = optional::<String>(v, "ban_expires")?;
        let banned = required::<bool>(v, "banned")?;
        let banner = optional::<String>(v, "banner")?;
        let bio = optional::<String>(v, "bio")?;
        let bot_account = required::<bool>(v, "bot_account")?;
        let deleted = required::<bool>(v, "deleted")?;
        let display_name = optional::<String>(v, "display_name")?;
        let id = required::<i32>(v, "id")?;
        let inbox_url = optional::<String>(v, "inbox_url")?;
        let instance_id = required::<i32>(v, "instance_id")?;
        let local = required::<bool>(v, "local")?;
        let matrix_user_id = optional::<String>(v, "matrix_user_id")?;
        let name = required::<String>(v, "name")?;
        let published = required::<String>(v, "published")?;
        let updated = optional::<String>(v, "updated")?;
        Some(
            Person {
                actor_id,
                admin,
                avatar,
                ban_expires,
                banned,
                banner,
                bio,
                bot_account,
                deleted,
                display_name,
                id,
                inbox_url,
                instance_id,
                local,
                matrix_user_id,
                name,
                published,
                updated,
            },
        )
    }

    proof fn lemma_round_trip(&self) {
        Self::lemma_members(
            self.actor_id.tree(),
            self.admin.tree(),
            written(self.avatar),
            written(self.ban_expires),
            self.banned.tree(),
            written(self.banner),
            written(self.bio),
            self.bot_account.tree(),
            self.deleted.tree(),
            written(self.display_name),
            self.id.tree(),
            written(self.inbox_url),
            self.instance_id.tree(),
            self.local.tree(),
            written(self.matrix_user_id),
            self.name.tree(),
            self.published.tree(),
            written(self.updated),
        );
        self.actor_id.lemma_round_trip();
        self.admin.lemma_round_trip();
        lemma_optional_round_trip(self.avatar);
        lemma_optional_round_trip(self.ban_expires);
        self.banned.lemma_round_trip();
        lemma_optional_round_trip(self.banner);
        lemma_optional_round_trip(self.bio);
        self.bot_account.lemma_round_trip();
        self.deleted.lemma_round_trip();
        lemma_optional_round_trip(self.display_name);
        self.id.lemma_round_trip();
        lemma_optional_round_trip(self.inbox_url);
        self.instance_id.lemma_round_trip();
        self.local.lemma_round_trip();
        lemma_optional_round_trip(self.matrix_user_id);
        self.name.lemma_round_trip();
        self.published.lemma_round_trip();
        lemma_optional_round_trip(self.updated);
    }

    proof fn lemma_reads_one(&self, other: &Self, t: JsonTree) {
        lemma_required_reads_one(self.actor_id, other.actor_id, t, "actor_id"@);
        lemma_required_reads_one(self.admin, other.admin, t, "admin"@);
        lemma_optional_reads_one(self.avatar, other.avatar, t, "avatar"@);
        lemma_optional_reads_one(self.ban_expires, other.ban_expires, t, "ban_expires"@);
        lemma_required_reads_one(self.banned, other.banned, t, "banned"@);
        lemma_optional_reads_one(self.banner, other.banner, t, "banner"@);
        lemma_optional_reads_one(self.bio, other.bio, t, "bio"@);
        lemma_required_reads_one(self.bot_account, other.bot_account, t, "bot_account"@);
        lemma_required_reads_one(self.deleted, other.deleted, t, "deleted"@);
        lemma_optional_reads_one(self.display_name, other.display_name, t, "display_name"@);
        lemma_required_reads_one(self.id, other.id, t, "id"@);
        lemma_optional_reads_one(self.inbox_url, other.inbox_url, t, "inbox_url"@);
        lemma_required_reads_one(self.instance_id, other.instance_id, t, "instance_id"@);
        lemma_required_reads_one(self.local, other.local, t, "local"@);
        lemma_optional_reads_one(self.matrix_user_id, other.matrix_user_id, t, "matrix_user_id"@);
        lemma_required_reads_one(self.name, other.name, t, "name"@);
        lemma_required_reads_one(self.published, other.published, t, "published"@);
        lemma_optional_reads_one(self.updated, other.updated, t, "updated"@);
    }
}

#[derive(Clone, Debug, PartialEq, Default)]
pub struct PersonAggregates {
    pub comment_count: i32,
    pub comment_score: i32,
    pub id: i32,
    pub person_id: i32,
    pub post_count: i32,
    pub post_score: i32,
}

impl PersonAggregates {
    /// The members that a record is written as, from what is written for
    /// each of its fields.
    pub open spec fn members(
        comment_count: JsonTree,
        comment_score: JsonTree,
        id: JsonTree,
        person_id: JsonTree,
        post_count: JsonTree,
        post_score: JsonTree,
    ) -> Seq<Member> {
        let members = Seq::empty();
        let members = with_field(members, "comment_count"@, comment_count);
        let members = with_field(members, "comment_score"@, comment_score);
        let members = with_field(members, "id"@, id);
        let members = with_field(members, "person_id"@, person_id);
        let members = with_field(members, "post_count"@, post_count);
        let members = with_field(members, "post_score"@, post_score);
        members
    }

    /// Each key leads to what was written under it, and to nothing where
    /// nothing was written.
    pub proof fn lemma_members(
        comment_count: JsonTree,
        comment_score: JsonTree,
        id: JsonTree,
        person_id: JsonTree,
        post_count: JsonTree,
        post_score: JsonTree,
    )
        ensures
            ({
                let members = Self::members(
                    comment_count,
                    comment_score,
                    id,
                    person_id,
                    post_count,
                    post_score,
                );
                &&& lookup(members, "comment_count"@) == Some(comment_count)
                &&& lookup(members, "comment_score"@) == Some(comment_score)
                &&& lookup(members, "id"@) == Some(id)
                &&& lookup(members, "person_id"@) == Some(person_id)
                &&& lookup(members, "post_count"@) == Some(post_count)
                &&& lookup(members, "post_score"@) == Some(post_score)
            }),
    {
        broadcast use group_written_members;

        reveal_strlit("comment_count");
        reveal_strlit("comment_score");
        reveal_strlit("id");
        reveal_strlit("person_id");
        reveal_strlit("post_count");
        reveal_strlit("post_score");
        assert("comment_count"@.len() == 13 && "comment_count"@[8] == 'c');
        assert("comment_score"@.len() == 13 && "comment_score"@[8] == 's');
        assert("id"@.len() == 2);
        assert("person_id"@.len() == 9);
        assert("post_count"@.len() == 10 && "post_count"@[5] == 'c');
        assert("post_score"@.len() == 10 && "post_score"@[5] == 's');
    }

    /// Every field is mandatory: each is written, in order, and nothing
    /// else.
    pub proof fn lemma_mandatory_fields_alone(
        comment_count: JsonTree,
        comment_score: JsonTree,
        id: JsonTree,
        person_id: JsonTree,
        post_count: JsonTree,
        post_score: JsonTree,
    )
        ensures
            Self::members(
                comment_count,
                comment_score,
                id,
                person_id,
                post_count,
                post_score,
            ) == Seq::<Member>::empty()
                .push(("comment_count"@, comment_count))
                .push(("comment_score"@, comment_score))
                .push(("id"@, id))
                .push(("person_id"@, person_id))
                .push(("post_count"@, post_count))
                .push(("post_score"@, post_score)),
    {
        reveal(with_field);
        reveal(with_optional);
    }
}

impl Payload for PersonAggregates {
    open spec fn tree(&self) -> JsonTree {
        JsonTree::Object(
            Self::members(
                self.comment_count.tree(),
                self.comment_score.tree(),
                self.id.tree(),
                self.person_id.tree(),
                self.post_count.tree(),
                self.post_score.tree(),
            ),
        )
    }

    open spec fn admits(t: JsonTree) -> bool {
        &&& t is Object
        &&& required_admits::<i32>(t, "comment_count"@)
        &&& required_admits::<i32>(t, "comment_score"@)
        &&& required_admits::<i32>(t, "id"@)
        &&& required_admits::<i32>(t, "person_id"@)
        &&& required_admits::<i32>(t, "post_count"@)
        &&& required_admits::<i32>(t, "post_score"@)
    }

    open spec fn agrees(&self, t: JsonTree) -> bool {
        &&& required_agrees(self.comment_count, t, "comment_count"@)
        &&& required_agrees(self.comment_score, t, "comment_score"@)
        &&& required_agrees(self.id, t, "id"@)
        &&& required_agrees(self.person_id, t, "person_id"@)
        &&& required_agrees(self.post_count, t, "post_count"@)
        &&& required_agrees(self.post_score, t, "post_score"@)
    }

    fn to_json(&self) -> (out: JsonValue) {
        let mut members: Vec<(String, JsonValue)> = Vec::new();
        assert(members_view(members@) =~= Seq::empty());
        put(&mut members, "comment_count", &self.comment_count);
        put(&mut members, "comment_score", &self.comment_score);
        put(&mut members, "id", &self.id);
        put(&mut members, "person_id", &self.person_id);
        put(&mut members, "post_count", &self.post_count);
        put(&mut members, "post_score", &self.post_score);
        object(members)
    }

    fn from_json(v: &JsonValue) -> (res: Option<Self>) {
        if !v.is_object() {
            return None;
        }
        let comment_count = required::<i32>(v, "comment_count")?;
        let comment_score = required::<i32>(v, "comment_score")?;
        let id = required::<i32>(v, "id")?;
        let person_id = required::<i32>(v, "person_id")?;
        let post_count = required::<i32>(v, "post_count")?;
        let post_score = required::<i32>(v, "post_score")?;
        Some(
            PersonAggregates {
                comment_count,
                comment_score,
                id,
                person_id,
                post_count,
                post_score,
            },
        )
    }

    proof fn lemma_round_trip(&self) {
        Self::lemma_members(
            self.comment_count.tree(),
            self.comment_score.tree(),
            self.id.tree(),
            self.person_id.tree(),
            self.post_count.tree(),
            self.post_score.tree(),
        );
        self.comment_count.lemma_round_trip();
        self.comment_score.lemma_round_trip();
        self.id.lemma_round_trip();
        self.person_id.lemma_round_trip();
        self.post_count.lemma_round_trip();
        self.post_score.lemma_round_trip();
    }

    proof fn lemma_reads_one(&self, other: &Self, t: JsonTree) {
        lemma_required_reads_one(self.comment_count, other.comment_count, t, "comment_count"@);
        lemma_required_reads_one(self.comment_score, other.comment_score, t, "comment_score"@);
        lemma_required_reads_one(self.id, other.id, t, "id"@);
        lemma_required_reads_one(self.person_id, other.person_id, t, "person_id"@);
        lemma_required_reads_one(self.post_count, other.post_count, t, "post_count"@);
        lemma_required_reads_one(self.post_score, other.post_score, t, "post_score"@);
    }
}

#[derive(Clone, Debug, PartialEq, Default)]
pub struct PersonBlockView {
    pub person: Person,
    pub target: Person,
}

impl PersonBlockView {
    /// The members that a record is written as, from what is written for
    /// each of its fields.
    pub open spec fn members(person: JsonTree, target: JsonTree) -> Seq<Member> {
        let members = Seq::empty();
        let members = with_field(members, "person"@, person);
        let members = with_field(members, "target"@, target);
        members
    }

    /// Each key leads to what was written under it, and to nothing where
    /// nothing was written.
    pub proof fn lemma_members(person: JsonTree, target: JsonTree)
        ensures
            ({
                let members = Self::members(person, target);
                &&& lookup(members, "person"@) == Some(person)
                &&& lookup(members, "target"@) == Some(target)
            }),
    {
        broadcast use group_written_members;

        reveal_strlit("person");
        reveal_strlit("target");
        assert("person"@.len() == 6 && "person"@[0] == 'p');
        assert("target"@.len() == 6 && "target"@[0] == 't');
    }

    /// Every field is mandatory: each is written, in order, and nothing
    /// else.
    pub proof fn lemma_mandatory_fields_alone(person: JsonTree, target: JsonTree)
        ensures
            Self::members(person, target) == Seq::<Member>::empty()
                .push(("person"@, person))
                .push(("target"@, target)),
    {
        reveal(with_field);
        reveal(with_optional);
    }
}

impl Payload for PersonBlockView {
    open spec fn tree(&self) -> JsonTree {
        JsonTree::Object(Self::members(self.person.tree(), self.target.tree()))
    }

    open spec fn admits(t: JsonTree) -> bool {
        &&& t is Object
        &&& required_admits::<Person>(t, "person"@)
        &&& required_admits::<Person>(t, "target"@)
    }

    open spec fn agrees(&self, t: JsonTree) -> bool {
        &&& required_agrees(self.person, t, "person"@)
        &&& required_agrees(self.target, t, "target"@)
    }

    fn to_json(&self) -> (out: JsonValue) {
        let mut members: Vec<(String, JsonValue)> = Vec::new();
        assert(members_view(members@) =~= Seq::empty());
        put(&mut members, "person", &self.person);
        put(&mut members, "target", &self.target);
        object(members)
    }

    fn from_json(v: &JsonValue) -> (res: Option<Self>) {
        if !v.is_object() {
            return None;
        }
        let person = required::<Person>(v, "person")?;
        let target = required::<Person>(v, "target")?;
        Some(PersonBlockView { person, target })
    }

    proof fn lemma_round_trip(&self) {
        Self::lemma_members(self.person.tree(), self.target.tree());
        self.person.lemma_round_trip();
        self.target.lemma_round_trip();
    }

    proof fn lemma_reads_one(&self, other: &Self, t: JsonTree) {
        lemma_required_reads_one(self.person, other.person, t, "person"@);
        lemma_required_reads_one(self.target, other.target, t, "target"@);
    }
}

#[derive(Clone, Debug, PartialEq, Default)]
pub struct PersonMention {
    pub comment_id: i32,
    pub id: i32,
    pub published: String,
    pub read: bool,
    pub receipient_id: i32,
}

impl PersonMention {
    /// The members that a record is written as, from what is written for
    /// each of its fields.
    pub open spec fn members(
        comment_id: JsonTree,
        id: JsonTree,
        published: JsonTree,
        read: JsonTree,
        receipient_id: JsonTree,
    ) -> Seq<Member> {
        let members = Seq::empty();
        let members = with_field(members, "comment_id"@, comment_id);
        let members = with_field(members, "id"@, id);
        let members = with_field(members, "published"@, published);
        let members = with_field(members, "read"@, read);
        let members = with_field(members, "receipient_id"@, receipient_id);
        members
    }

    /// Each key leads to what was written under it, and to nothing where
    /// nothing was written.
    pub proof fn lemma_members(
        comment_id: JsonTree,
        id: JsonTree,
        published: JsonTree,
        read: JsonTree,
        receipient_id: JsonTree,
    )
        ensures
            ({
                let members = Self::members(comment_id, id, published, read, receipient_id);
                &&& lookup(members, "comment_id"@) == Some(comment_id)
                &&& lookup(members, "id"@) == Some(id)
                &&& lookup(members, "published"@) == Some(published)
                &&& lookup(members, "read"@) == Some(read)
                &&& lookup(members, "receipient_id"@) == Some(receipient_id)
            }),
    {
        broadcast use group_written_members;

        reveal_strlit("comment_id");
        reveal_strlit("id");
        reveal_strlit("published");
        reveal_strlit("read");
        reveal_strlit("receipient_id");
        assert("comment_id"@.len() == 10);
        assert("id"@.len() == 2);
        assert("published"@.len() == 9);
        assert("read"@.len() == 4);
        assert("receipient_id"@.len() == 13);
    }

    /// Every field is mandatory: each is written, in order, and nothing
    /// else.
    pub proof fn lemma_mandatory_fields_alone(
        comment_id: JsonTree,
        id: JsonTree,
        published: JsonTree,
        read: JsonTree,
        receipient_id: JsonTree,
    )
        ensures
            Self::members(comment_id, id, published, read, receipient_id) == Seq::<Member>::empty()
                .push(("comment_id"@, comment_id))
                .push(("id"@, id))
                .push(("published"@, published))
                .push(("read"@, read))
                .push(("receipient_id"@, receipient_id)),
    {
        reveal(with_field);
        reveal(with_optional);
    }
}

impl Payload for PersonMention {
    open spec fn tree(&self) -> JsonTree {
        JsonTree::Object(
            Self::members(
                self.comment_id.tree(),
                self.id.tree(),
                self.published.tree(),
                self.read.tree(),
                self.receipient_id.tree(),
            ),
        )
    }

    open spec fn admits(t: JsonTree) -> bool {
        &&& t is Object
        &&& required_admits::<i32>(t, "comment_id"@)
        &&& required_admits::<i32>(t, "id"@)
        &&& required_admits::<String>(t, "published"@)
        &&& required_admits::<bool>(t, "read"@)
        &&& required_admits::<i32>(t, "receipient_id"@)
    }

    open spec fn agrees(&self, t: JsonTree) -> bool {
        &&& required_agrees(self.comment_id, t, "comment_id"@)
        &&& required_agrees(self.id, t, "id"@)
        &&& required_agrees(self.published, t, "published"@)
        &&& required_agrees(self.read, t, "read"@)
        &&& required_agrees(self.receipient_id, t, "receipient_id"@)
    }

    fn to_json(&self) -> (out: JsonValue) {
        let mut members: Vec<(String, JsonValue)> = Vec::new();
        assert(members_view(members@) =~= Seq::empty());
        put(&mut members, "comment_id", &self.comment_id);
        put(&mut members, "id", &self.id);
        put(&mut members, "published", &self.published);
        put(&mut members, "read", &self.read);
        put(&mut members, "receipient_id", &self.receipient_id);
        object(members)
    }

    fn from_json(v: &JsonValue) -> (res: Option<Self>) {
        if !v.is_object() {
            return None;
        }
        let comment_id = required::<i32>(v, "comment_id")?;
        let id = required::<i32>(v, "id")?;
        let published = required::<String>(v, "published")?;
        let read = required::<bool>(v, "read")?;
        let receipient_id = required::<i32>(v, "receipient_id")?;
        Some(PersonMention { comment_id, id, published, read, receipient_id })
    }

    proof fn lemma_round_trip(&self) {
        Self::lemma_members(
            self.comment_id.tree(),
            self.id.tree(),
            self.published.tree(),
            self.read.tree(),
            self.receipient_id.tree(),
        );
        self.comment_id.lemma_round_trip();
        self.id.lemma_round_trip();
        self.published.lemma_round_trip();
        self.read.lemma_round_trip();
        self.receipient_id.lemma_round_trip();
    }

    proof fn lemma_reads_one(&self, other: &Self, t: JsonTree) {
        lemma_required_reads_one(self.comment_id, other.comment_id, t, "comment_id"@);
        lemma_required_reads_one(self.id, other.id, t, "id"@);
        lemma_required_reads_one(self.published, other.published, t, "published"@);
        lemma_required_reads_one(self.read, other.read, t, "read"@);
        lemma_required_reads_one(self.receipient_id, other.receipient_id, t, "receipient_id"@);
    }
}

#[derive(Clone, Debug, PartialEq, Default)]
pub struct PersonMentionResponse {
    pub person_mention_view: PersonMentionView,
}

impl PersonMentionResponse {
    /// The members that a record is written as, from what is written for
    /// each of its fields.
    pub open spec fn members(person_mention_view: JsonTree) -> Seq<Member> {
        let members = Seq::empty();
        let members = with_field(members, "person_mention_view"@, person_mention_view);
        members
    }

    /// Each key leads to what was written under it, and to nothing where
    /// nothing was written.
    pub proof fn lemma_members(person_mention_view: JsonTree)
        ensures
            ({
                let members = Self::members(person_mention_view);
                &&& lookup(members, "person_mention_view"@) == Some(person_mention_view)
            }),
    {
        broadcast use group_written_members;

        reveal_strlit("person_mention_view");
        assert("person_mention_view"@.len() == 19);
    }

    /// Every field is mandatory: each is written, in order, and nothing
    /// else.
    pub proof fn lemma_mandatory_fields_alone(person_mention_view: JsonTree)
        ensures
            Self::members(person_mention_view) == Seq::<Member>::empty()
                .push(("person_mention_view"@, person_mention_view)),
    {
        reveal(with_field);
        reveal(with_optional);
    }
}

impl Payload for PersonMentionResponse {
    open spec fn tree(&self) -> JsonTree {
        JsonTree::Object(Self::members(self.person_mention_view.tree()))
    }

    open spec fn admits(t: JsonTree) -> bool {
        &&& t is Object
        &&& required_admits::<PersonMentionView>(t, "person_mention_view"@)
    }

    open spec fn agrees(&self, t: JsonTree) -> bool {
        &&& required_agrees(self.person_mention_view, t, "person_mention_view"@)
    }

    fn to_json(&self) -> (out: JsonValue) {
        let mut members: Vec<(String, JsonValue)> = Vec::new();
        assert(members_view(members@) =~= Seq::empty());
        put(&mut members, "person_mention_view", &self.person_mention_view);
        object(members)
    }

    fn from_json(v: &JsonValue) -> (res: Option<Self>) {
        if !v.is_object() {
            return None;
        }
        let person_mention_view = required::<PersonMentionView>(v, "person_mention_view")?;
        Some(PersonMentionResponse { person_mention_view })
    }

    proof fn lemma_round_trip(&self) {
        Self::lemma_members(self.person_mention_view.tree());
        self.person_mention_view.lemma_round_trip();
    }

    proof fn lemma_reads_one(&self, other: &Self, t: JsonTree) {
        lemma_required_reads_one(
            self.person_mention_view,
            other.person_mention_view,
            t,
            "person_mention_view"@,
        );
    }
}

#[derive(Clone, Debug, PartialEq, Default)]
pub struct PersonMentionView {
    pub comment: Comment,
    pub community: Community,
    pub counts: CommentAggregates,
    pub creator: Person,
    pub creator_banned_from_community: bool,
    pub creator_blocked: bool,
    pub my_vote: Option<i32>,
    pub person_mention: PersonMention,
    pub post: Post,
    pub receipient: Person,
    pub saved: bool,
    pub subscribed: SubscribedType,
}

impl PersonMentionView {
    /// The members that a record is written as, from what is written for
    /// each of its fields.
    pub open spec fn members(
        comment: JsonTree,
        community: JsonTree,
        counts: JsonTree,
        creator: JsonTree,
        creator_banned_from_community: JsonTree,
        creator_blocked: JsonTree,
        my_vote: Option<JsonTree>,
        person_mention: JsonTree,
        post: JsonTree,
        receipient: JsonTree,
        saved: JsonTree,
        subscribed: JsonTree,
    ) -> Seq<Member> {
        let members = Seq::empty();
        let members = with_field(members, "comment"@, comment);
        let members = with_field(members, "community"@, community);
        let members = with_field(members, "counts"@, counts);
        let members = with_field(members, "creator"@, creator);
        let members = with_field(
            members,
            "creator_banned_from_community"@,
            creator_banned_from_community,
        );
        let members = with_field(members, "creator_blocked"@, creator_blocked);
        let members = with_optional(members, "my_vote"@, my_vote);
        let members = with_field(members, "person_mention"@, person_mention);
        let members = with_field(members, "post"@, post);
        let members = with_field(members, "receipient"@, receipient);
        let members = with_field(members, "saved"@, saved);
        let members = with_field(members, "subscribed"@, subscribed);
        members
    }

    /// Each key leads to what was written under it, and to nothing where
    /// nothing was written.
    pub proof fn lemma_members(
        comment: JsonTree,
        community: JsonTree,
        counts: JsonTree,
        creator: JsonTree,
        creator_banned_from_community: JsonTree,
        creator_blocked: JsonTree,
        my_vote: Option<JsonTree>,
        person_mention: JsonTree,
        post: JsonTree,
        receipient: JsonTree,
        saved: JsonTree,
        subscribed: JsonTree,
    )
        ensures
            ({
                let members = Self::members(
                    comment,
                    community,
                    counts,
                    creator,
                    creator_banned_from_community,
                    creator_blocked,
                    my_vote,
                    person_mention,
                    post,
                    receipient,
                    saved,
                    subscribed,
                );
                &&& lookup(members, "comment"@) == Some(comment)
                &&& lookup(members, "community"@) == Some(community)
                &&& lookup(members, "counts"@) == Some(counts)
                &&& lookup(members, "creator"@) == Some(creator)
                &&& lookup(members, "creator_banned_from_community"@)
                    == Some(creator_banned_from_community)
                &&& lookup(members, "creator_blocked"@) == Some(creator_blocked)
                &&& lookup(members, "my_vote"@) == my_vote
                &&& lookup(members, "person_mention"@) == Some(person_mention)
                &&& lookup(members, "post"@) == Some(post)
                &&& lookup(members, "receipient"@) == Some(receipient)
                &&& lookup(members, "saved"@) == Some(saved)
                &&& lookup(members, "subscribed"@) == Some(subscribed)
            }),
    {
        broadcast use group_written_members;

        reveal_strlit("comment");
        reveal_strlit("community");
        reveal_strlit("counts");
        reveal_strlit("creator");
        reveal_strlit("creator_banned_from_community");
        reveal_strlit("creator_blocked");
        reveal_strlit("my_vote");
        reveal_strlit("person_mention");
        reveal_strlit("post");
        reveal_strlit("receipient");
        reveal_strlit("saved");
        reveal_strlit("subscribed");
        assert("comment"@.len() == 7 && "comment"@[0] == 'c' && "comment"@[1] == 'o');
        assert("community"@.len() == 9);
        assert("counts"@.len() == 6);
        assert("creator"@.len() == 7 && "creator"@[0] == 'c' && "creator"@[1] == 'r');
        assert("creator_banned_from_community"@.len() == 29);
        assert("creator_blocked"@.len() == 15);
        assert("my_vote"@.len() == 7 && "my_vote"@[0] == 'm');
        assert("person_mention"@.len() == 14);
        assert("post"@.len() == 4);
        assert("receipient"@.len() == 10 && "receipient"@[0] == 'r');
        assert("saved"@.len() == 5);
        assert("subscribed"@.len() == 10 && "subscribed"@[0] == 's');
    }

    /// With every optional field absent, the mandatory fields are written
    /// and nothing else.
    pub proof fn lemma_mandatory_fields_alone(
        comment: JsonTree,
        community: JsonTree,
        counts: JsonTree,
        creator: JsonTree,
        creator_banned_from_community: JsonTree,
        creator_blocked: JsonTree,
        person_mention: JsonTree,
        post: JsonTree,
        receipient: JsonTree,
        saved: JsonTree,
        subscribed: JsonTree,
    )
        ensures
            Self::members(
                comment,
                community,
                counts,
                creator,
                creator_banned_from_community,
                creator_blocked,
                None,
                person_mention,
                post,
                receipient,
                saved,
                subscribed,
            ) == Seq::<Member>::empty()
                .push(("comment"@, comment))
                .push(("community"@, community))
                .push(("counts"@, counts))
                .push(("creator"@, creator))
                .push(("creator_banned_from_community"@, creator_banned_from_community))
                .push(("creator_blocked"@, creator_blocked))
                .push(("person_mention"@, person_mention))
                .push(("post"@, post))
                .push(("receipient"@, receipient))
                .push(("saved"@, saved))
                .push(("subscribed"@, subscribed)),
    {
        reveal(with_field);
        reveal(with_optional);
    }
}

impl Payload for PersonMentionView {
    open spec fn tree(&self) -> JsonTree {
        JsonTree::Object(
            Self::members(
                self.comment.tree(),
                self.community.tree(),
                self.counts.tree(),
                self.creator.tree(),
                self.creator_banned_from_community.tree(),
                self.creator_blocked.tree(),
                written(self.my_vote),
                self.person_mention.tree(),
                self.post.tree(),
                self.receipient.tree(),
                self.saved.tree(),
                self.subscribed.tree(),
            ),
        )
    }

    open spec fn admits(t: JsonTree) -> bool {
        &&& t is Object
        &&& required_admits::<Comment>(t, "comment"@)
        &&& required_admits::<Community>(t, "community"@)
        &&& required_admits::<CommentAggregates>(t, "counts"@)
        &&& required_admits::<Person>(t, "creator"@)
        &&& required_admits::<bool>(t, "creator_banned_from_community"@)
        &&& required_admits::<bool>(t, "creator_blocked"@)
        &&& optional_admits::<i32>(t, "my_vote"@)
        &&& required_admits::<PersonMention>(t, "person_mention"@)
        &&& required_admits::<Post>(t, "post"@)
        &&& required_admits::<Person>(t, "receipient"@)
        &&& required_admits::<bool>(t, "saved"@)
        &&& required_admits::<SubscribedType>(t, "subscribed"@)
    }

    open spec fn agrees(&self, t: JsonTree) -> bool {
        &&& required_agrees(self.comment, t, "comment"@)
        &&& required_agrees(self.community, t, "community"@)
        &&& required_agrees(self.counts, t, "counts"@)
        &&& required_agrees(self.creator, t, "creator"@)
        &&& required_agrees(self.creator_banned_from_community, t, "creator_banned_from_community"@)
        &&& required_agrees(self.creator_blocked, t, "creator_blocked"@)
        &&& optional_agrees(self.my_vote, t, "my_vote"@)
        &&& required_agrees(self.person_mention, t, "person_mention"@)
        &&& required_agrees(self.post, t, "post"@)
        &&& required_agrees(self.receipient, t, "receipient"@)
        &&& required_agrees(self.saved, t, "saved"@)
        &&& required_agrees(self.subscribed, t, "subscribed"@)
    }

    fn to_json(&self) -> (out: JsonValue) {
        let mut members: Vec<(String, JsonValue)> = Vec::new();
        assert(members_view(members@) =~= Seq::empty());
        put(&mut members, "comment", &self.comment);
        put(&mut members, "community", &self.community);
        put(&mut members, "counts", &self.counts);
        put(&mut members, "creator", &self.creator);
        put(&mut members, "creator_banned_from_community", &self.creator_banned_from_community);
        put(&mut members, "creator_blocked", &self.creator_blocked);
        put_optional(&mut members, "my_vote", &self.my_vote);
        put(&mut members, "person_mention", &self.person_mention);
        put(&mut members, "post", &self.post);
        put(&mut members, "receipient", &self.receipient);
        put(&mut members, "saved", &self.saved);
        put(&mut members, "subscribed", &self.subscribed);
        object(members)
    }

    fn from_json(v: &JsonValue) -> (res: Option<Self>) {
        if !v.is_object() {
            return None;
        }
        let comment = required::<Comment>(v, "comment")?;
        let community = required::<Community>(v, "community")?;
        let counts = required::<CommentAggregates>(v, "counts")?;
        let creator = required::<Person>(v, "creator")?;
        let creator_banned_from_community = required::<bool>(v, "creator_banned_from_community")?;
        let creator_blocked = required::<bool>(v, "creator_blocked")?;
        let my_vote = optional::<i32>(v, "my_vote")?;
        let person_mention = required::<PersonMention>(v, "person_mention")?;
        let post = required::<Post>(v, "post")?;
        let receipient = required::<Person>(v, "receipient")?;
        let saved = required::<bool>(v, "saved")?;
        let subscribed = required::<SubscribedType>(v, "subscribed")?;
        Some(
            PersonMentionView {
                comment,
                community,
                counts,
                creator,
                creator_banned_from_community,
                creator_blocked,
                my_vote,
                person_mention,
                post,
                receipient,
                saved,
                subscribed,
            },
        )
    }

    proof fn lemma_round_trip(&self) {
        Self::lemma_members(
            self.comment.tree(),
            self.community.tree(),
            self.counts.tree(),
            self.creator.tree(),
            self.creator_banned_from_community.tree(),
            self.creator_blocked.tree(),
            written(self.my_vote),
            self.person_mention.tree(),
            self.post.tree(),
            self.receipient.tree(),
            self.saved.tree(),
            self.subscribed.tree(),
        );
        self.comment.lemma_round_trip();
        self.community.lemma_round_trip();
        self.counts.lemma_round_trip();
        self.creator.lemma_round_trip();
        self.creator_banned_from_community.lemma_round_trip();
        self.creator_blocked.lemma_round_trip();
        lemma_optional_round_trip(self.my_vote);
        self.person_mention.lemma_round_trip();
        self.post.lemma_round_trip();
        self.receipient.lemma_round_trip();
        self.saved.lemma_round_trip();
        self.subscribed.lemma_round_trip();
    }

    proof fn lemma_reads_one(&self, other: &Self, t: JsonTree) {
        lemma_required_reads_one(self.comment, other.comment, t, "comment"@);
        lemma_required_reads_one(self.community, other.community, t, "community"@);
        lemma_required_reads_one(self.counts, other.counts, t, "counts"@);
        lemma_required_reads_one(self.creator, other.creator, t, "creator"@);
        lemma_required_reads_one(
            self.creator_banned_from_community,
            other.creator_banned_from_community,
            t,
            "creator_banned_from_community"@,
        );
        lemma_required_reads_one(
            self.creator_blocked,
            other.creator_blocked,
            t,
            "creator_blocked"@,
        );
        lemma_optional_reads_one(self.my_vote, other.my_vote, t, "my_vote"@);
        lemma_required_reads_one(self.person_mention, other.person_mention, t, "person_mention"@);
        lemma_required_reads_one(self.post, other.post, t, "post"@);
        lemma_required_reads_one(self.receipient, other.receipient, t, "receipient"@);
        lemma_required_reads_one(self.saved, other.saved, t, "saved"@);
        lemma_required_reads_one(self.subscribed, other.subscribed, t, "subscribed"@);
    }
}

#[derive(Clone, Debug, PartialEq, Default)]
pub struct PersonView {
    pub counts: PersonAggregates,
    pub person: Person,
}

impl PersonView {
    /// The members that a record is written as, from what is written for
    /// each of its fields.
    pub open spec fn members(counts: JsonTree, person: JsonTree) -> Seq<Member> {
        let members = Seq::empty();
        let members = with_field(members, "counts"@, counts);
        let members = with_field(members, "person"@, person);
        members
    }

    /// Each key leads to what was written under it, and to nothing where
    /// nothing was written.
    pub proof fn lemma_members(counts: JsonTree, person: JsonTree)
        ensures
            ({
                let members = Self::members(counts, person);
                &&& lookup(members, "counts"@) == Some(counts)
                &&& lookup(members, "person"@) == Some(person)
            }),
    {
        broadcast use group_written_members;

        reveal_strlit("counts");
        reveal_strlit("person");
        assert("counts"@.len() == 6 && "counts"@[0] == 'c');
        assert("person"@.len() == 6 && "person"@[0] == 'p');
    }

    /// Every field is mandatory: each is written, in order, and nothing
    /// else.
    pub proof fn lemma_mandatory_fields_alone(counts: JsonTree, person: JsonTree)
        ensures
            Self::members(counts, person) == Seq::<Member>::empty()
                .push(("counts"@, counts))
                .push(("person"@, person)),
    {
        reveal(with_field);
        reveal(with_optional);
    }
}

impl Payload for PersonView {
    open spec fn tree(&self) -> JsonTree {
        JsonTree::Object(Self::members(self.counts.tree(), self.person.tree()))
    }

    open spec fn admits(t: JsonTree) -> bool {
        &&& t is Object
        &&& required_admits::<PersonAggregates>(t, "counts"@)
        &&& required_admits::<Person>(t, "person"@)
    }

    open spec fn agrees(&self, t: JsonTree) -> bool {
        &&& required_agrees(self.counts, t, "counts"@)
        &&& required_agrees(self.person, t, "person"@)
    }

    fn to_json(&self) -> (out: JsonValue) {
        let mut members: Vec<(String, JsonValue)> = Vec::new();
        assert(members_view(members@) =~= Seq::empty());
        put(&mut members, "counts", &self.counts);
        put(&mut members, "person", &self.person);
        object(members)
    }

    fn from_json(v: &JsonValue) -> (res: Option<Self>) {
        if !v.is_object() {
            return None;
        }
        let counts = required::<PersonAggregates>(v, "counts")?;
        let person = required::<Person>(v, "person")?;
        Some(PersonView { counts, person })
    }

    proof fn lemma_round_trip(&self) {
        Self::lemma_members(self.counts.tree(), self.person.tree());
        self.counts.lemma_round_trip();
        self.person.lemma_round_trip();
    }

    proof fn lemma_reads_one(&self, other: &Self, t: JsonTree) {
        lemma_required_reads_one(self.counts, other.counts, t, "counts"@);
        lemma_required_reads_one(self.person, other.person, t, "person"@);
    }
}

#[derive(Clone, Debug, PartialEq, Default)]
pub struct PurgePerson {
    pub auth: String,
    pub person_id: i32,
    pub reason: Option<String>,
}

impl PurgePerson {
    /// The members that a record is written as, from what is written for
    /// each of its fields.
    pub open spec fn members(
        auth: JsonTree,
        person_id: JsonTree,
        reason: Option<JsonTree>,
    ) -> Seq<Member> {
        let members = Seq::empty();
        let members = with_field(members, "auth"@, auth);
        let members = with_field(members, "person_id"@, person_id);
        let members = with_optional(members, "reason"@, reason);
        members
    }

    /// Each key leads to what was written under it, and to nothing where
    /// nothing was written.
    pub proof fn lemma_members(auth: JsonTree, person_id: JsonTree, reason: Option<JsonTree>)
        ensures
            ({
                let members = Self::members(auth, person_id, reason);
                &&& lookup(members, "auth"@) == Some(auth)
                &&& lookup(members, "person_id"@) == Some(person_id)
                &&& lookup(members, "reason"@) == reason
            }),
    {
        broadcast use group_written_members;

        reveal_strlit("auth");
        reveal_strlit("person_id");
        reveal_strlit("reason");
        assert("auth"@.len() == 4);
        assert("person_id"@.len() == 9);
        assert("reason"@.len() == 6);
    }

    /// With every optional field absent, the mandatory fields are written
    /// and nothing else.
    pub proof fn lemma_mandatory_fields_alone(auth: JsonTree, person_id: JsonTree)
        ensures
            Self::members(auth, person_id, None) == Seq::<Member>::empty()
                .push(("auth"@, auth))
                .push(("person_id"@, person_id)),
    {
        reveal(with_field);
        reveal(with_optional);
    }
}

impl Payload for PurgePerson {
    open spec fn tree(&self) -> JsonTree {
        JsonTree::Object(
            Self::members(self.auth.tree(), self.person_id.tree(), written(self.reason)),
        )
    }

    open spec fn admits(t: JsonTree) -> bool {
        &&& t is Object
        &&& required_admits::<String>(t, "auth"@)
        &&& required_admits::<i32>(t, "person_id"@)
        &&& optional_admits::<String>(t, "reason"@)
    }

    open spec fn agrees(&self, t: JsonTree) -> bool {
        &&& required_agrees(self.auth, t, "auth"@)
        &&& required_agrees(self.person_id, t, "person_id"@)
        &&& optional_agrees(self.reason, t, "reason"@)
    }

    fn to_json(&self) -> (out: JsonValue) {
        let mut members: Vec<(String, JsonValue)> = Vec::new();
        assert(members_view(members@) =~= Seq::empty());
        put(&mut members, "auth", &self.auth);
        put(&mut members, "person_id", &self.person_id);
        put_optional(&mut members, "reason", &self.reason);
        object(members)
    }

    fn from_json(v: &JsonValue) -> (res: Option<Self>) {
        if !v.is_object() {
            return None;
        }
        let auth = required::<String>(v, "auth")?;
        let person_id = required::<i32>(v, "person_id")?;
        let reason = optional::<String>(v, "reason")?;
        Some(PurgePerson { auth, person_id, reason })
    }

    proof fn lemma_round_trip(&self) {
        Self::lemma_members(self.auth.tree(), self.person_id.tree(), written(self.reason));
        self.auth.lemma_round_trip();
        self.person_id.lemma_round_trip();
        lemma_optional_round_trip(self.reason);
    }

    proof fn lemma_reads_one(&self, other: &Self, t: JsonTree) {
        lemma_required_reads_one(self.auth, other.auth, t, "auth"@);
        lemma_required_reads_one(self.person_id, other.person_id, t, "person_id"@);
        lemma_optional_reads_one(self.reason, other.reason, t, "reason"@);
    }
}

#[derive(Clone, Debug, PartialEq, Default)]
pub struct Register {
    pub answer: Option<String>,
    pub captcha_answer: Option<String>,
    pub captcha_uuid: Option<String>,
    pub email: Option<String>,
    pub honeypot: Option<String>,
    pub password: String,
    pub password_verify: String,
    pub show_nsfw: bool,
    pub username: String,
}

impl Register {
    /// The members that a record is written as, from what is written for
    /// each of its fields.
    pub open spec fn members(
        answer: Option<JsonTree>,
        captcha_answer: Option<JsonTree>,
        captcha_uuid: Option<JsonTree>,
        email: Option<JsonTree>,
        honeypot: Option<JsonTree>,
        password: JsonTree,
        password_verify: JsonTree,
        show_nsfw: JsonTree,
        username: JsonTree,
    ) -> Seq<Member> {
        let members = Seq::empty();
        let members = with_optional(members, "answer"@, answer);
        let members = with_optional(members, "captcha_answer"@, captcha_answer);
        let members = with_optional(members, "captcha_uuid"@, captcha_uuid);
        let members = with_optional(members, "email"@, email);
        let members = with_optional(members, "honeypot"@, honeypot);
        let members = with_field(members, "password"@, password);
        let members = with_field(members, "password_verify"@, password_verify);
        let members = with_field(members, "show_nsfw"@, show_nsfw);
        let members = with_field(members, "username"@, username);
        members
    }

    /// Each key leads to what was written under it, and to nothing where
    /// nothing was written.
    pub proof fn lemma_members(
        answer: Option<JsonTree>,
        captcha_answer: Option<JsonTree>,
        captcha_uuid: Option<JsonTree>,
        email: Option<JsonTree>,
        honeypot: Option<JsonTree>,
        password: JsonTree,
        password_verify: JsonTree,
        show_nsfw: JsonTree,
        username: JsonTree,
    )
        ensures
            ({
                let members = Self::members(
                    answer,
                    captcha_answer,
                    captcha_uuid,
                    email,
                    honeypot,
                    password,
                    password_verify,
                    show_nsfw,
                    username,
                );
                &&& lookup(members, "answer"@) == answer
                &&& lookup(members, "captcha_answer"@) == captcha_answer
                &&& lookup(members, "captcha_uuid"@) == captcha_uuid
                &&& lookup(members, "email"@) == email
                &&& lookup(members, "honeypot"@) == honeypot
                &&& lookup(members, "password"@) == Some(password)
                &&& lookup(members, "password_verify"@) == Some(password_verify)
                &&& lookup(members, "show_nsfw"@) == Some(show_nsfw)
                &&& lookup(members, "username"@) == Some(username)
            }),
    {
        broadcast use group_written_members;

        reveal_strlit("answer");
        reveal_strlit("captcha_answer");
        reveal_strlit("captcha_uuid");
        reveal_strlit("email");
        reveal_strlit("honeypot");
        reveal_strlit("password");
        reveal_strlit("password_verify");
        reveal_strlit("show_nsfw");
        reveal_strlit("username");
        assert("answer"@.len() == 6);
        assert("captcha_answer"@.len() == 14);
        assert("captcha_uuid"@.len() == 12);
        assert("email"@.len() == 5);
        assert("honeypot"@.len() == 8 && "honeypot"@[0] == 'h');
        assert("password"@.len() == 8 && "password"@[0] == 'p');
        assert("password_verify"@.len() == 15);
        assert("show_nsfw"@.len() == 9);
        assert("username"@.len() == 8 && "username"@[0] == 'u');
    }

    /// With every optional field absent, the mandatory fields are written
    /// and nothing else.
    pub proof fn lemma_mandatory_fields_alone(
        password: JsonTree,
        password_verify: JsonTree,
        show_nsfw: JsonTree,
        username: JsonTree,
    )
        ensures
            Self::members(
                None,
                None,
                None,
                None,
                None,
                password,
                password_verify,
                show_nsfw,
                username,
            ) == Seq::<Member>::empty()
                .push(("password"@, password))
                .push(("password_verify"@, password_verify))
                .push(("show_nsfw"@, show_nsfw))
                .push(("username"@, username)),
    {
        reveal(with_field);
        reveal(with_optional);
    }
}

impl Payload for Register {
    open spec fn tree(&self) -> JsonTree {
        JsonTree::Object(
            Self::members(
                written(self.answer),
                written(self.captcha_answer),
                written(self.captcha_uuid),
                written(self.email),
                written(self.honeypot),
                self.password.tree(),
                self.password_verify.tree(),
                self.show_nsfw.tree(),
                self.username.tree(),
            ),
        )
    }

    open spec fn admits(t: JsonTree) -> bool {
        &&& t is Object
        &&& optional_admits::<String>(t, "answer"@)
        &&& optional_admits::<String>(t, "captcha_answer"@)
        &&& optional_admits::<String>(t, "captcha_uuid"@)
        &&& optional_admits::<String>(t, "email"@)
        &&& optional_admits::<String>(t, "honeypot"@)
        &&& required_admits::<String>(t, "password"@)
        &&& required_admits::<String>(t, "password_verify"@)
        &&& required_admits::<bool>(t, "show_nsfw"@)
        &&& required_admits::<String>(t, "username"@)
    }

    open spec fn agrees(&self, t: JsonTree) -> bool {
        &&& optional_agrees(self.answer, t, "answer"@)
        &&& optional_agrees(self.captcha_answer, t, "captcha_answer"@)
        &&& optional_agrees(self.captcha_uuid, t, "captcha_uuid"@)
        &&& optional_agrees(self.email, t, "email"@)
        &&& optional_agrees(self.honeypot, t, "honeypot"@)
        &&& required_agrees(self.password, t, "password"@)
        &&& required_agrees(self.password_verify, t, "password_verify"@)
        &&& required_agrees(self.show_nsfw, t, "show_nsfw"@)
        &&& required_agrees(self.username, t, "username"@)
    }

    fn to_json(&self) -> (out: JsonValue) {
        let mut members: Vec<(String, JsonValue)> = Vec::new();
        assert(members_view(members@) =~= Seq::empty());
        put_optional(&mut members, "answer", &self.answer);
        put_optional(&mut members, "captcha_answer", &self.captcha_answer);
        put_optional(&mut members, "captcha_uuid", &self.captcha_uuid);
        put_optional(&mut members, "email", &self.email);
        put_optional(&mut members, "honeypot", &self.honeypot);
        put(&mut members, "password", &self.password);
        put(&mut members, "password_verify", &self.password_verify);
        put(&mut members, "show_nsfw", &self.show_nsfw);
        put(&mut members, "username", &self.username);
        object(members)
    }

    fn from_json(v: &JsonValue) -> (res: Option<Self>) {
        if !v.is_object() {
            return None;
        }
        let answer = optional::<String>(v, "answer")?;
        let captcha_answer = optional::<String>(v, "captcha_answer")?;
        let captcha_uuid = optional::<String>(v, "captcha_uuid")?;
        let email = optional::<String>(v, "email")?;
        let honeypot = optional::<String>(v, "honeypot")?;
        let password = required::<String>(v, "password")?;
        let password_verify = required::<String>(v, "password_verify")?;
        let show_nsfw = required::<bool>(v, "show_nsfw")?;
        let username = required::<String>(v, "username")?;
        Some(
            Register {
                answer,
                captcha_answer,
                captcha_uuid,
                email,
                honeypot,
                password,
                password_verify,
                show_nsfw,
                username,
            },
        )
    }

    proof fn lemma_round_trip(&self) {
        Self::lemma_members(
            written(self.answer),
            written(self.captcha_answer),
            written(self.captcha_uuid),
            written(self.email),
            written(self.honeypot),
            self.password.tree(),
            self.password_verify.tree(),
            self.show_nsfw.tree(),
            self.username.tree(),
        );
        lemma_optional_round_trip(self.answer);
        lemma_optional_round_trip(self.captcha_answer);
        lemma_optional_round_trip(self.captcha_uuid);
        lemma_optional_round_trip(self.email);
        lemma_optional_round_trip(self.honeypot);
        self.password.lemma_round_trip();
        self.password_verify.lemma_round_trip();
        self.show_nsfw.lemma_round_trip();
        self.username.lemma_round_trip();
    }

    proof fn lemma_reads_one(&self, other: &Self, t: JsonTree) {
        lemma_optional_reads_one(self.answer, other.answer, t, "answer"@);
        lemma_optional_reads_one(self.captcha_answer, other.captcha_answer, t, "captcha_answer"@);
        lemma_optional_reads_one(self.captcha_uuid, other.captcha_uuid, t, "captcha_uuid"@);
        lemma_optional_reads_one(self.email, other.email, t, "email"@);
        lemma_optional_reads_one(self.honeypot, other.honeypot, t, "honeypot"@);
        lemma_required_reads_one(self.password, other.password, t, "password"@);
        lemma_required_reads_one(
            self.password_verify,
            other.password_verify,
            t,
            "password_verify"@,
        );
        lemma_required_reads_one(self.show_nsfw, other.show_nsfw, t, "show_nsfw"@);
        lemma_required_reads_one(self.username, other.username, t, "username"@);
    }
}

#[derive(Clone, Debug, PartialEq, Default)]
pub struct RegisterationApplication {
    pub admin_id: Option<i32>,
    pub answer: String,
    pub deny_reason: Option<String>,
    pub id: i32,
    pub local_user_id: i32,
    pub published: String,
}

impl RegisterationApplication {
    /// The members that a record is written as, from what is written for
    /// each of its fields.
    pub open spec fn members(
        admin_id: Option<JsonTree>,
        answer: JsonTree,
        deny_reason: Option<JsonTree>,
        id: JsonTree,
        local_user_id: JsonTree,
        published: JsonTree,
    ) -> Seq<Member> {
        let members = Seq::empty();
        let members = with_optional(members, "admin_id"@, admin_id);
        let members = with_field(members, "answer"@, answer);
        let members = with_optional(members, "deny_reason"@, deny_reason);
        let members = with_field(members, "id"@, id);
        let members = with_field(members, "local_user_id"@, local_user_id);
        let members = with_field(members, "published"@, published);
        members
    }

    /// Each key leads to what was written under it, and to nothing where
    /// nothing was written.
    pub proof fn lemma_members(
        admin_id: Option<JsonTree>,
        answer: JsonTree,
        deny_reason: Option<JsonTree>,
        id: JsonTree,
        local_user_id: JsonTree,
        published: JsonTree,
    )
        ensures
            ({
                let members = Self::members(
                    admin_id,
                    answer,
                    deny_reason,
                    id,
                    local_user_id,
                    published,
                );
                &&& lookup(members, "admin_id"@) == admin_id
                &&& lookup(members, "answer"@) == Some(answer)
                &&& lookup(members, "deny_reason"@) == deny_reason
                &&& lookup(members, "id"@) == Some(id)
                &&& lookup(members, "local_user_id"@) == Some(local_user_id)
                &&& lookup(members, "published"@) == Some(published)
            }),
    {
        broadcast use group_written_members;

        reveal_strlit("admin_id");
        reveal_strlit("answer");
        reveal_strlit("deny_reason");
        reveal_strlit("id");
        reveal_strlit("local_user_id");
        reveal_strlit("published");
        assert("admin_id"@.len() == 8);
        assert("answer"@.len() == 6);
        assert("deny_reason"@.len() == 11);
        assert("id"@.len() == 2);
        assert("local_user_id"@.len() == 13);
        assert("published"@.len() == 9);
    }

    /// With every optional field absent, the mandatory fields are written
    /// and nothing else.
    pub proof fn lemma_mandatory_fields_alone(
        answer: JsonTree,
        id: JsonTree,
        local_user_id: JsonTree,
        published: JsonTree,
    )
        ensures
            Self::members(
                None,
                answer,
                None,
                id,
                local_user_id,
                published,
            ) == Seq::<Member>::empty()
                .push(("answer"@, answer))
                .push(("id"@, id))
                .push(("local_user_id"@, local_user_id))
                .push(("published"@, published)),
    {
        reveal(with_field);
        reveal(with_optional);
    }
}

impl Payload for RegisterationApplication {
    open spec fn tree(&self) -> JsonTree {
        JsonTree::Object(
            Self::members(
                written(self.admin_id),
                self.answer.tree(),
                written(self.deny_reason),
                self.id.tree(),
                self.local_user_id.tree(),
                self.published.tree(),
            ),
        )
    }

    open spec fn admits(t: JsonTree) -> bool {
        &&& t is Object
        &&& optional_admits::<i32>(t, "admin_id"@)
        &&& required_admits::<String>(t, "answer"@)
        &&& optional_admits::<String>(t, "deny_reason"@)
        &&& required_admits::<i32>(t, "id"@)
        &&& required_admits::<i32>(t, "local_user_id"@)
        &&& required_admits::<String>(t, "published"@)
    }

    open spec fn agrees(&self, t: JsonTree) -> bool {
        &&& optional_agrees(self.admin_id, t, "admin_id"@)
        &&& required_agrees(self.answer, t, "answer"@)
        &&& optional_agrees(self.deny_reason, t, "deny_reason"@)
        &&& required_agrees(self.id, t, "id"@)
        &&& required_agrees(self.local_user_id, t, "local_user_id"@)
        &&& required_agrees(self.published, t, "published"@)
    }

    fn to_json(&self) -> (out: JsonValue) {
        let mut members: Vec<(String, JsonValue)> = Vec::new();
        assert(members_view(members@) =~= Seq::empty());
        put_optional(&mut members, "admin_id", &self.admin_id);
        put(&mut members, "answer", &self.answer);
        put_optional(&mut members, "deny_reason", &self.deny_reason);
        put(&mut members, "id", &self.id);
        put(&mut members, "local_user_id", &self.local_user_id);
        put(&mut members, "published", &self.published);
        object(members)
    }

    fn from_json(v: &JsonValue) -> (res: Option<Self>) {
        if !v.is_object() {
            return None;
        }
        let admin_id = optional::<i32>(v, "admin_id")?;
        let answer = required::<String>(v, "answer")?;
        let deny_reason = optional::<String>(v, "deny_reason")?;
        let id = required::<i32>(v, "id")?;
        let local_user_id = required::<i32>(v, "local_user_id")?;
        let published = required::<String>(v, "published")?;
        Some(
            RegisterationApplication {
                admin_id,
                answer,
                deny_reason,
                id,
                local_user_id,
                published,
            },
        )
    }

    proof fn lemma_round_trip(&self) {
        Self::lemma_members(
            written(self.admin_id),
            self.answer.tree(),
            written(self.deny_reason),
            self.id.tree(),
            self.local_user_id.tree(),
            self.published.tree(),
        );
        lemma_optional_round_trip(self.admin_id);
        self.answer.lemma_round_trip();
        lemma_optional_round_trip(self.deny_reason);
        self.id.lemma_round_trip();
        self.local_user_id.lemma_round_trip();
        self.published.lemma_round_trip();
    }

    proof fn lemma_reads_one(&self, other: &Self, t: JsonTree) {
        lemma_optional_reads_one(self.admin_id, other.admin_id, t, "admin_id"@);
        lemma_required_reads_one(self.answer, other.answer, t, "answer"@);
        lemma_optional_reads_one(self.deny_reason, other.deny_reason, t, "deny_reason"@);
        lemma_required_reads_one(self.id, other.id, t, "id"@);
        lemma_required_reads_one(self.local_user_id, other.local_user_id, t, "local_user_id"@);
        lemma_required_reads_one(self.published, other.published, t, "published"@);
    }
}

#[derive(Clone, Debug, PartialEq, Default)]
pub struct RegisterationApplicationResponse {
    pub registeration_application: RegistrationApplicationView,
}

impl RegisterationApplicationResponse {
    /// The members that a record is written as, from what is written for
    /// each of its fields.
    pub open spec fn members(registeration_application: JsonTree) -> Seq<Member> {
        let members = Seq::empty();
        let members = with_field(members, "registeration_application"@, registeration_application);
        members
    }

    /// Each key leads to what was written under it, and to nothing where
    /// nothing was written.
    pub proof fn lemma_members(registeration_application: JsonTree)
        ensures
            ({
                let members = Self::members(registeration_application);
                &&& lookup(members, "registeration_application"@) == Some(registeration_application)
            }),
    {
        broadcast use group_written_members;

        reveal_strlit("registeration_application");
        assert("registeration_application"@.len() == 25);
    }

    /// Every field is mandatory: each is written, in order, and nothing
    /// else.
    pub proof fn lemma_mandatory_fields_alone(registeration_application: JsonTree)
        ensures
            Self::members(registeration_application) == Seq::<Member>::empty()
                .push(("registeration_application"@, registeration_application)),
    {
        reveal(with_field);
        reveal(with_optional);
    }
}

impl Payload for RegisterationApplicationResponse {
    open spec fn tree(&self) -> JsonTree {
        JsonTree::Object(Self::members(self.registeration_application.tree()))
    }

    open spec fn admits(t: JsonTree) -> bool {
        &&& t is Object
        &&& required_admits::<RegistrationApplicationView>(t, "registeration_application"@)
    }

    open spec fn agrees(&self, t: JsonTree) -> bool {
        &&& required_agrees(self.registeration_application, t, "registeration_application"@)
    }

    fn to_json(&self) -> (out: JsonValue) {
        let mut members: Vec<(String, JsonValue)> = Vec::new();
        assert(members_view(members@) =~= Seq::empty());
        put(&mut members, "registeration_application", &self.registeration_application);
        object(members)
    }

    fn from_json(v: &JsonValue) -> (res: Option<Self>) {
        if !v.is_object() {
            return None;
        }
        let registeration_application = required::<RegistrationApplicationView>(
            v,
            "registeration_application",
        )?;
        Some(RegisterationApplicationResponse { registeration_application })
    }

    proof fn lemma_round_trip(&self) {
        Self::lemma_members(self.registeration_application.tree());
        self.registeration_application.lemma_round_trip();
    }

    proof fn lemma_reads_one(&self, other: &Self, t: JsonTree) {
        lemma_required_reads_one(
            self.registeration_application,
            other.registeration_application,
            t,
            "registeration_application"@,
        );
    }
}

#[derive(Clone, Debug, PartialEq, Default)]
pub struct RegistrationApplicationView {
    pub admin: Option<Person>,
    pub creator: Person,
    pub creator_local_user: LocalUser,
    pub registration_application: RegisterationApplication,
}

impl RegistrationApplicationView {
    /// The members that a record is written as, from what is written for
    /// each of its fields.
    pub open spec fn members(
        admin: Option<JsonTree>,
        creator: JsonTree,
        creator_local_user: JsonTree,
        registration_application: JsonTree,
    ) -> Seq<Member> {
        let members = Seq::empty();
        let members = with_optional(members, "admin"@, admin);
        let members = with_field(members, "creator"@, creator);
        let members = with_field(members, "creator_local_user"@, creator_local_user);
        let members = with_field(members, "registration_application"@, registration_application);
        members
    }

    /// Each key leads to what was written under it, and to nothing where
    /// nothing was written.
    pub proof fn lemma_members(
        admin: Option<JsonTree>,
        creator: JsonTree,
        creator_local_user: JsonTree,
        registration_application: JsonTree,
    )
        ensures
            ({
                let members = Self::members(
                    admin,
                    creator,
                    creator_local_user,
                    registration_application,
                );
                &&& lookup(members, "admin"@) == admin
                &&& lookup(members, "creator"@) == Some(creator)
                &&& lookup(members, "creator_local_user"@) == Some(creator_local_user)
                &&& lookup(members, "registration_application"@) == Some(registration_application)
            }),
    {
        broadcast use group_written_members;

        reveal_strlit("admin");
        reveal_strlit("creator");
        reveal_strlit("creator_local_user");
        reveal_strlit("registration_application");
        assert("admin"@.len() == 5);
        assert("creator"@.len() == 7);
        assert("creator_local_user"@.len() == 18);
        assert("registration_application"@.len() == 24);
    }

    /// With every optional field absent, the mandatory fields are written
    /// and nothing else.
    pub proof fn lemma_mandatory_fields_alone(
        creator: JsonTree,
        creator_local_user: JsonTree,
        registration_application: JsonTree,
    )
        ensures
            Self::members(
                None,
                creator,
                creator_local_user,
                registration_application,
            ) == Seq::<Member>::empty()
                .push(("creator"@, creator))
                .push(("creator_local_user"@, creator_local_user))
                .push(("registration_application"@, registration_application)),
    {
        reveal(with_field);
        reveal(with_optional);
    }
}

impl Payload for RegistrationApplicationView {
    open spec fn tree(&self) -> JsonTree {
        JsonTree::Object(
            Self::members(
                written(self.admin),
                self.creator.tree(),
                self.creator_local_user.tree(),
                self.registration_application.tree(),
            ),
        )
    }

    open spec fn admits(t: JsonTree) -> bool {
        &&& t is Object
        &&& optional_admits::<Person>(t, "admin"@)
        &&& required_admits::<Person>(t, "creator"@)
        &&& required_admits::<LocalUser>(t, "creator_local_user"@)
        &&& required_admits::<RegisterationApplication>(t, "registration_application"@)
    }

    open spec fn agrees(&self, t: JsonTree) -> bool {
        &&& optional_agrees(self.admin, t, "admin"@)
        &&& required_agrees(self.creator, t, "creator"@)
        &&& required_agrees(self.creator_local_user, t, "creator_local_user"@)
        &&& required_agrees(self.registration_application, t, "registration_application"@)
    }

    fn to_json(&self) -> (out: JsonValue) {
        let mut members: Vec<(String, JsonValue)> = Vec::new();
        assert(members_view(members@) =~= Seq::empty());
        put_optional(&mut members, "admin", &self.admin);
        put(&mut members, "creator", &self.creator);
        put(&mut members, "creator_local_user", &self.creator_local_user);
        put(&mut members, "registration_application", &self.registration_application);
        object(members)
    }

    fn from_json(v: &JsonValue) -> (res: Option<Self>) {
        if !v.is_object() {
            return None;
        }
        let admin = optional::<Person>(v, "admin")?;
        let creator = required::<Person>(v, "creator")?;
        let creator_local_user = required::<LocalUser>(v, "creator_local_user")?;
        let registration_application = required::<RegisterationApplication>(
            v,
            "registration_application",
        )?;
        Some(
            RegistrationApplicationView {
                admin,
                creator,
                creator_local_user,
                registration_application,
            },
        )
    }

    proof fn lemma_round_trip(&self) {
        Self::lemma_members(
            written(self.admin),
            self.creator.tree(),
            self.creator_local_user.tree(),
            self.registration_application.tree(),
        );
        lemma_optional_round_trip(self.admin);
        self.creator.lemma_round_trip();
        self.creator_local_user.lemma_round_trip();
        self.registration_application.lemma_round_trip();
    }

    proof fn lemma_reads_one(&self, other: &Self, t: JsonTree) {
        lemma_optional_reads_one(self.admin, other.admin, t, "admin"@);
        lemma_required_reads_one(self.creator, other.creator, t, "creator"@);
        lemma_required_reads_one(
            self.creator_local_user,
            other.creator_local_user,
            t,
            "creator_local_user"@,
        );
        lemma_required_reads_one(
            self.registration_application,
            other.registration_application,
            t,
            "registration_application"@,
        );
    }
}

#[derive(Clone, Debug, PartialEq, Default)]
pub struct SaveUserSettings {
    pub auth: String,
    pub avatar: Option<String>,
    pub banner: Option<String>,
    pub bio: Option<String>,
    pub bot_account: Option<bool>,
    pub default_listing_type: Option<ListingType>,
    pub default_sort_type: Option<SortType>,
    pub discussion_languages: Option<Vec<i32>>,
    pub display_name: Option<String>,
    pub email: Option<String>,
    pub generate_totp_2fa: Option<bool>,
    pub interface_language: Option<String>,
    pub matrix_user_id: Option<String>,
    pub open_links_in_new_tab: Option<bool>,
    pub send_notifications_to_email: Option<bool>,
    pub show_avatars: Option<bool>,
    pub show_bot_accounts: Option<bool>,
    pub show_new_post_notifs: Option<bool>,
    pub show_nsfw: Option<bool>,
    pub show_read_posts: Option<bool>,
    pub show_scores: Option<bool>,
    pub theme: Option<String>,
}

impl SaveUserSettings {
    /// The members that a record is written as, from what is written for
    /// each of its fields.
    pub open spec fn members(
        auth: JsonTree,
        avatar: Option<JsonTree>,
        banner: Option<JsonTree>,
        bio: Option<JsonTree>,
        bot_account: Option<JsonTree>,
        default_listing_type: Option<JsonTree>,
        default_sort_type: Option<JsonTree>,
        discussion_languages: Option<JsonTree>,
        display_name: Option<JsonTree>,
        email: Option<JsonTree>,
        generate_totp_2fa: Option<JsonTree>,
        interface_language: Option<JsonTree>,
        matrix_user_id: Option<JsonTree>,
        open_links_in_new_tab: Option<JsonTree>,
        send_notifications_to_email: Option<JsonTree>,
        show_avatars: Option<JsonTree>,
        show_bot_accounts: Option<JsonTree>,
        show_new_post_notifs: Option<JsonTree>,
        show_nsfw: Option<JsonTree>,
        show_read_posts: Option<JsonTree>,
        show_scores: Option<JsonTree>,
        theme: Option<JsonTree>,
    ) -> Seq<Member> {
        let members = Seq::empty();
        let members = with_field(members, "auth"@, auth);
        let members = with_optional(members, "avatar"@, avatar);
        let members = with_optional(members, "banner"@, banner);
        let members = with_optional(members, "bio"@, bio);
        let members = with_optional(members, "bot_account"@, bot_account);
        let members = with_optional(members, "default_listing_type"@, default_listing_type);
        let members = with_optional(members, "default_sort_type"@, default_sort_type);
        let members = with_optional(members, "discussion_languages"@, discussion_languages);
        let members = with_optional(members, "display_name"@, display_name);
        let members = with_optional(members, "email"@, email);
        let members = with_optional(members, "generate_totp_2fa"@, generate_totp_2fa);
        let members = with_optional(members, "interface_language"@, interface_language);
        let members = with_optional(members, "matrix_user_id"@, matrix_user_id);
        let members = with_optional(members, "open_links_in_new_tab"@, open_links_in_new_tab);
        let members = with_optional(
            members,
            "send_notifications_to_email"@,
            send_notifications_to_email,
        );
        let members = with_optional(members, "show_avatars"@, show_avatars);
        let members = with_optional(members, "show_bot_accounts"@, show_bot_accounts);
        let members = with_optional(members, "show_new_post_notifs"@, show_new_post_notifs);
        let members = with_optional(members, "show_nsfw"@, show_nsfw);
        let members = with_optional(members, "show_read_posts"@, show_read_posts);
        let members = with_optional(members, "show_scores"@, show_scores);
        let members = with_optional(members, "theme"@, theme);
        members
    }

    /// Each key leads to what was written under it, and to nothing where
    /// nothing was written.
    pub proof fn lemma_members(
        auth: JsonTree,
        avatar: Option<JsonTree>,
        banner: Option<JsonTree>,
        bio: Option<JsonTree>,
        bot_account: Option<JsonTree>,
        default_listing_type: Option<JsonTree>,
        default_sort_type: Option<JsonTree>,
        discussion_languages: Option<JsonTree>,
        display_name: Option<JsonTree>,
        email: Option<JsonTree>,
        generate_totp_2fa: Option<JsonTree>,
        interface_language: Option<JsonTree>,
        matrix_user_id: Option<JsonTree>,
        open_links_in_new_tab: Option<JsonTree>,
        send_notifications_to_email: Option<JsonTree>,
        show_avatars: Option<JsonTree>,
        show_bot_accounts: Option<JsonTree>,
        show_new_post_notifs: Option<JsonTree>,
        show_nsfw: Option<JsonTree>,
        show_read_posts: Option<JsonTree>,
        show_scores: Option<JsonTree>,
        theme: Option<JsonTree>,
    )
        ensures
            ({
                let members = Self::members(
                    auth,
                    avatar,
                    banner,
                    bio,
                    bot_account,
                    default_listing_type,
                    default_sort_type,
                    discussion_languages,
                    display_name,
                    email,
                    generate_totp_2fa,
                    interface_language,
                    matrix_user_id,
                    open_links_in_new_tab,
                    send_notifications_to_email,
                    show_avatars,
                    show_bot_accounts,
                    show_new_post_notifs,
                    show_nsfw,
                    show_read_posts,
                    show_scores,
                    theme,
                );
                &&& lookup(members, "auth"@) == Some(auth)
                &&& lookup(members, "avatar"@) == avatar
                &&& lookup(members, "banner"@) == banner
                &&& lookup(members, "bio"@) == bio
                &&& lookup(members, "bot_account"@) == bot_account
                &&& lookup(members, "default_listing_type"@) == default_listing_type
                &&& lookup(members, "default_sort_type"@) == default_sort_type
                &&& lookup(members, "discussion_languages"@) == discussion_languages
                &&& lookup(members, "display_name"@) == display_name
                &&& lookup(members, "email"@) == email
                &&& lookup(members, "generate_totp_2fa"@) == generate_totp_2fa
                &&& lookup(members, "interface_language"@) == interface_language
                &&& lookup(members, "matrix_user_id"@) == matrix_user_id
                &&& lookup(members, "open_links_in_new_tab"@) == open_links_in_new_tab
                &&& lookup(members, "send_notifications_to_email"@) == send_notifications_to_email
                &&& lookup(members, "show_avatars"@) == show_avatars
                &&& lookup(members, "show_bot_accounts"@) == show_bot_accounts
                &&& lookup(members, "show_new_post_notifs"@) == show_new_post_notifs
                &&& lookup(members, "show_nsfw"@) == show_nsfw
                &&& lookup(members, "show_read_posts"@) == show_read_posts
                &&& lookup(members, "show_scores"@) == show_scores
                &&& lookup(members, "theme"@) == theme
            }),
    {
        broadcast use group_written_members;

        reveal_strlit("auth");
        reveal_strlit("avatar");
        reveal_strlit("banner");
        reveal_strlit("bio");
        reveal_strlit("bot_account");
        reveal_strlit("default_listing_type");
        reveal_strlit("default_sort_type");
        reveal_strlit("discussion_languages");
        reveal_strlit("display_name");
        reveal_strlit("email");
        reveal_strlit("generate_totp_2fa");
        reveal_strlit("interface_language");
        reveal_strlit("matrix_user_id");
        reveal_strlit("open_links_in_new_tab");
        reveal_strlit("send_notifications_to_email");
        reveal_strlit("show_avatars");
        reveal_strlit("show_bot_accounts");
        reveal_strlit("show_new_post_notifs");
        reveal_strlit("show_nsfw");
        reveal_strlit("show_read_posts");
        reveal_strlit("show_scores");
        reveal_strlit("theme");
        assert("auth"@.len() == 4);
        assert("avatar"@.len() == 6 && "avatar"@[0] == 'a');
        assert("banner"@.len() == 6 && "banner"@[0] == 'b');
        assert("bio"@.len() == 3);
        assert("bot_account"@.len() == 11 && "bot_account"@[0] == 'b');
        assert("default_listing_type"@.len() == 20
            && "default_listing_type"@[0] == 'd'
            && "default_listing_type"@[1] == 'e');
        assert("default_sort_type"@.len() == 17 && "default_sort_type"@[0] == 'd');
        assert("discussion_languages"@.len() == 20
            && "discussion_languages"@[0] == 'd'
            && "discussion_languages"@[1] == 'i');
        assert("display_name"@.len() == 12 && "display_name"@[0] == 'd');
        assert("email"@.len() == 5 && "email"@[0] == 'e');
        assert("generate_totp_2fa"@.len() == 17 && "generate_totp_2fa"@[0] == 'g');
        assert("interface_language"@.len() == 18);
        assert("matrix_user_id"@.len() == 14);
        assert("open_links_in_new_tab"@.len() == 21);
        assert("send_notifications_to_email"@.len() == 27);
        assert("show_avatars"@.len() == 12 && "show_avatars"@[0] == 's');
        assert("show_bot_accounts"@.len() == 17 && "show_bot_accounts"@[0] == 's');
        assert("show_new_post_notifs"@.len() == 20 && "show_new_post_notifs"@[0] == 's');
        assert("show_nsfw"@.len() == 9);
        assert("show_read_posts"@.len() == 15);
        assert("show_scores"@.len() == 11 && "show_scores"@[0] == 's');
        assert("theme"@.len() == 5 && "theme"@[0] == 't');
    }

    /// With every optional field absent, the mandatory fields are written
    /// and nothing else.
    pub proof fn lemma_mandatory_fields_alone(auth: JsonTree)
        ensures
            Self::members(
                auth,
                None,
                None,
                None,
                None,
                None,
                None,
                None,
                None,
                None,
                None,
                None,
                None,
                None,
                None,
                None,
                None,
                None,
                None,
                None,
                None,
                None,
            ) == Seq::<Member>::empty()
                .push(("auth"@, auth)),
    {
        reveal(with_field);
        reveal(with_optional);
    }
}

impl Payload for SaveUserSettings {
    open spec fn tree(&self) -> JsonTree {
        JsonTree::Object(
            Self::members(
                self.auth.tree(),
                written(self.avatar),
                written(self.banner),
                written(self.bio),
                written(self.bot_account),
                written(self.default_listing_type),
                written(self.default_sort_type),
                written(self.discussion_languages),
                written(self.display_name),
                written(self.email),
                written(self.generate_totp_2fa),
                written(self.interface_language),
                written(self.matrix_user_id),
                written(self.open_links_in_new_tab),
                written(self.send_notifications_to_email),
                written(self.show_avatars),
                written(self.show_bot_accounts),
                written(self.show_new_post_notifs),
                written(self.show_nsfw),
                written(self.show_read_posts),
                written(self.show_scores),
                written(self.theme),
            ),
        )
    }

    open spec fn admits(t: JsonTree) -> bool {
        &&& t is Object
        &&& required_admits::<String>(t, "auth"@)
        &&& optional_admits::<String>(t, "avatar"@)
        &&& optional_admits::<String>(t, "banner"@)
        &&& optional_admits::<String>(t, "bio"@)
        &&& optional_admits::<bool>(t, "bot_account"@)
        &&& optional_admits::<ListingType>(t, "default_listing_type"@)
        &&& optional_admits::<SortType>(t, "default_sort_type"@)
        &&& optional_admits::<Vec<i32>>(t, "discussion_languages"@)
        &&& optional_admits::<String>(t, "display_name"@)
        &&& optional_admits::<String>(t, "email"@)
        &&& optional_admits::<bool>(t, "generate_totp_2fa"@)
        &&& optional_admits::<String>(t, "interface_language"@)
        &&& optional_admits::<String>(t, "matrix_user_id"@)
        &&& optional_admits::<bool>(t, "open_links_in_new_tab"@)
        &&& optional_admits::<bool>(t, "send_notifications_to_email"@)
        &&& optional_admits::<bool>(t, "show_avatars"@)
        &&& optional_admits::<bool>(t, "show_bot_accounts"@)
        &&& optional_admits::<bool>(t, "show_new_post_notifs"@)
        &&& optional_admits::<bool>(t, "show_nsfw"@)
        &&& optional_admits::<bool>(t, "show_read_posts"@)
        &&& optional_admits::<bool>(t, "show_scores"@)
        &&& optional_admits::<String>(t, "theme"@)
    }

    open spec fn agrees(&self, t: JsonTree) -> bool {
        &&& required_agrees(self.auth, t, "auth"@)
        &&& optional_agrees(self.avatar, t, "avatar"@)
        &&& optional_agrees(self.banner, t, "banner"@)
        &&& optional_agrees(self.bio, t, "bio"@)
        &&& optional_agrees(self.bot_account, t, "bot_account"@)
        &&& optional_agrees(self.default_listing_type, t, "default_listing_type"@)
        &&& optional_agrees(self.default_sort_type, t, "default_sort_type"@)
        &&& optional_agrees(self.discussion_languages, t, "discussion_languages"@)
        &&& optional_agrees(self.display_name, t, "display_name"@)
        &&& optional_agrees(self.email, t, "email"@)
        &&& optional_agrees(self.generate_totp_2fa, t, "generate_totp_2fa"@)
        &&& optional_agrees(self.interface_language, t, "interface_language"@)
        &&& optional_agrees(self.matrix_user_id, t, "matrix_user_id"@)
        &&& optional_agrees(self.open_links_in_new_tab, t, "open_links_in_new_tab"@)
        &&& optional_agrees(self.send_notifications_to_email, t, "send_notifications_to_email"@)
        &&& optional_agrees(self.show_avatars, t, "show_avatars"@)
        &&& optional_agrees(self.show_bot_accounts, t, "show_bot_accounts"@)
        &&& optional_agrees(self.show_new_post_notifs, t, "show_new_post_notifs"@)
        &&& optional_agrees(self.show_nsfw, t, "show_nsfw"@)
        &&& optional_agrees(self.show_read_posts, t, "show_read_posts"@)
        &&& optional_agrees(self.show_scores, t, "show_scores"@)
        &&& optional_agrees(self.theme, t, "theme"@)
    }

    fn to_json(&self) -> (out: JsonValue) {
        let mut members: Vec<(String, JsonValue)> = Vec::new();
        assert(members_view(members@) =~= Seq::empty());
        put(&mut members, "auth", &self.auth);
        put_optional(&mut members, "avatar", &self.avatar);
        put_optional(&mut members, "banner", &self.banner);
        put_optional(&mut members, "bio", &self.bio);
        put_optional(&mut members, "bot_account", &self.bot_account);
        put_optional(&mut members, "default_listing_type", &self.default_listing_type);
        put_optional(&mut members, "default_sort_type", &self.default_sort_type);
        put_optional(&mut members, "discussion_languages", &self.discussion_languages);
        put_optional(&mut members, "display_name", &self.display_name);
        put_optional(&mut members, "email", &self.email);
        put_optional(&mut members, "generate_totp_2fa", &self.generate_totp_2fa);
        put_optional(&mut members, "interface_language", &self.interface_language);
        put_optional(&mut members, "matrix_user_id", &self.matrix_user_id);
        put_optional(&mut members, "open_links_in_new_tab", &self.open_links_in_new_tab);
        put_optional(
            &mut members,
            "send_notifications_to_email",
            &self.send_notifications_to_email,
        );
        put_optional(&mut members, "show_avatars", &self.show_avatars);
        put_optional(&mut members, "show_bot_accounts", &self.show_bot_accounts);
        put_optional(&mut members, "show_new_post_notifs", &self.show_new_post_notifs);
        put_optional(&mut members, "show_nsfw", &self.show_nsfw);
        put_optional(&mut members, "show_read_posts", &self.show_read_posts);
        put_optional(&mut members, "show_scores", &self.show_scores);
        put_optional(&mut members, "theme", &self.theme);
        object(members)
    }

    fn from_json(v: &JsonValue) -> (res: Option<Self>) {
        if !v.is_object() {
            return None;
        }
        let auth = required::<String>(v, "auth")?;
        let avatar = optional::<String>(v, "avatar")?;
        let banner = optional::<String>(v, "banner")?;
        let bio = optional::<String>(v, "bio")?;
        let bot_account = optional::<bool>(v, "bot_account")?;
        let default_listing_type = optional::<ListingType>(v, "default_listing_type")?;
        let default_sort_type = optional::<SortType>(v, "default_sort_type")?;
        let discussion_languages = optional::<Vec<i32>>(v, "discussion_languages")?;
        let display_name = optional::<String>(v, "display_name")?;
        let email = optional::<String>(v, "email")?;
        let generate_totp_2fa = optional::<bool>(v, "generate_totp_2fa")?;
        let interface_language = optional::<String>(v, "interface_language")?;
        let matrix_user_id = optional::<String>(v, "matrix_user_id")?;
        let open_links_in_new_tab = optional::<bool>(v, "open_links_in_new_tab")?;
        let send_notifications_to_email = optional::<bool>(v, "send_notifications_to_email")?;
        let show_avatars = optional::<bool>(v, "show_avatars")?;
        let show_bot_accounts = optional::<bool>(v, "show_bot_accounts")?;
        let show_new_post_notifs = optional::<bool>(v, "show_new_post_notifs")?;
        let show_nsfw = optional::<bool>(v, "show_nsfw")?;
        let show_read_posts = optional::<bool>(v, "show_read_posts")?;
        let show_scores = optional::<bool>(v, "show_scores")?;
        let theme = optional::<String>(v, "theme")?;
        Some(
            SaveUserSettings {
                auth,
                avatar,
                banner,
                bio,
                bot_account,
                default_listing_type,
                default_sort_type,
                discussion_languages,
                display_name,
                email,
                generate_totp_2fa,
                interface_language,
                matrix_user_id,
                open_links_in_new_tab,
                send_notifications_to_email,
                show_avatars,
                show_bot_accounts,
                show_new_post_notifs,
                show_nsfw,
                show_read_posts,
                show_scores,
                theme,
            },
        )
    }

    proof fn lemma_round_trip(&self) {
        Self::lemma_members(
            self.auth.tree(),
            written(self.avatar),
            written(self.banner),
            written(self.bio),
            written(self.bot_account),
            written(self.default_listing_type),
            written(self.default_sort_type),
            written(self.discussion_languages),
            written(self.display_name),
            written(self.email),
            written(self.generate_totp_2fa),
            written(self.interface_language),
            written(self.matrix_user_id),
            written(self.open_links_in_new_tab),
            written(self.send_notifications_to_email),
            written(self.show_avatars),
            written(self.show_bot_accounts),
            written(self.show_new_post_notifs),
            written(self.show_nsfw),
            written(self.show_read_posts),
            written(self.show_scores),
            written(self.theme),
        );
        self.auth.lemma_round_trip();
        lemma_optional_round_trip(self.avatar);
        lemma_optional_round_trip(self.banner);
        lemma_optional_round_trip(self.bio);
        lemma_optional_round_trip(self.bot_account);
        lemma_optional_round_trip(self.default_listing_type);
        lemma_optional_round_trip(self.default_sort_type);
        lemma_optional_round_trip(self.discussion_languages);
        lemma_optional_round_trip(self.display_name);
        lemma_optional_round_trip(self.email);
        lemma_optional_round_trip(self.generate_totp_2fa);
        lemma_optional_round_trip(self.interface_language);
        lemma_optional_round_trip(self.matrix_user_id);
        lemma_optional_round_trip(self.open_links_in_new_tab);
        lemma_optional_round_trip(self.send_notifications_to_email);
        lemma_optional_round_trip(self.show_avatars);
        lemma_optional_round_trip(self.show_bot_accounts);
        lemma_optional_round_trip(self.show_new_post_notifs);
        lemma_optional_round_trip(self.show_nsfw);
        lemma_optional_round_trip(self.show_read_posts);
        lemma_optional_round_trip(self.show_scores);
        lemma_optional_round_trip(self.theme);
    }

    proof fn lemma_reads_one(&self, other: &Self, t: JsonTree) {
        lemma_required_reads_one(self.auth, other.auth, t, "auth"@);
        lemma_optional_reads_one(self.avatar, other.avatar, t, "avatar"@);
        lemma_optional_reads_one(self.banner, other.banner, t, "banner"@);
        lemma_optional_reads_one(self.bio, other.bio, t, "bio"@);
        lemma_optional_reads_one(self.bot_account, other.bot_account, t, "bot_account"@);
        lemma_optional_reads_one(
            self.default_listing_type,
            other.default_listing_type,
            t,
            "default_listing_type"@,
        );
        lemma_optional_reads_one(
            self.default_sort_type,
            other.default_sort_type,
            t,
            "default_sort_type"@,
        );
        lemma_optional_reads_one(
            self.discussion_languages,
            other.discussion_languages,
            t,
            "discussion_languages"@,
        );
        lemma_optional_reads_one(self.display_name, other.display_name, t, "display_name"@);
        lemma_optional_reads_one(self.email, other.email, t, "email"@);
        lemma_optional_reads_one(
            self.generate_totp_2fa,
            other.generate_totp_2fa,
            t,
            "generate_totp_2fa"@,
        );
        lemma_optional_reads_one(
            self.interface_language,
            other.interface_language,
            t,
            "interface_language"@,
        );
        lemma_optional_reads_one(self.matrix_user_id, other.matrix_user_id, t, "matrix_user_id"@);
        lemma_optional_reads_one(
            self.open_links_in_new_tab,
            other.open_links_in_new_tab,
            t,
            "open_links_in_new_tab"@,
        );
        lemma_optional_reads_one(
            self.send_notifications_to_email,
            other.send_notifications_to_email,
            t,
            "send_notifications_to_email"@,
        );
        lemma_optional_reads_one(self.show_avatars, other.show_avatars, t, "show_avatars"@);
        lemma_optional_reads_one(
            self.show_bot_accounts,
            other.show_bot_accounts,
            t,
            "show_bot_accounts"@,
        );
        lemma_optional_reads_one(
            self.show_new_post_notifs,
            other.show_new_post_notifs,
            t,
            "show_new_post_notifs"@,
        );
        lemma_optional_reads_one(self.show_nsfw, other.show_nsfw, t, "show_nsfw"@);
        lemma_optional_reads_one(
            self.show_read_posts,
            other.show_read_posts,
            t,
            "show_read_posts"@,
        );
        lemma_optional_reads_one(self.show_scores, other.show_scores, t, "show_scores"@);
        lemma_optional_reads_one(self.theme, other.theme, t, "theme"@);
    }
}

#[derive(Clone, Debug, PartialEq, Default)]
pub struct UserJoin {
    pub auth: String,
}

impl UserJoin {
    /// The members that a record is written as, from what is written for
    /// each of its fields.
    pub open spec fn members(auth: JsonTree) -> Seq<Member> {
        let members = Seq::empty();
        let members = with_field(members, "auth"@, auth);
        members
    }

    /// Each key leads to what was written under it, and to nothing where
    /// nothing was written.
    pub proof fn lemma_members(auth: JsonTree)
        ensures
            ({
                let members = Self::members(auth);
                &&& lookup(members, "auth"@) == Some(auth)
            }),
    {
        broadcast use group_written_members;

        reveal_strlit("auth");
        assert("auth"@.len() == 4);
    }

    /// Every field is mandatory: each is written, in order, and nothing
    /// else.
    pub proof fn lemma_mandatory_fields_alone(auth: JsonTree)
        ensures
            Self::members(auth) == Seq::<Member>::empty()
                .push(("auth"@, auth)),
    {
        reveal(with_field);
        reveal(with_optional);
    }
}

impl Payload for UserJoin {
    open spec fn tree(&self) -> JsonTree {
        JsonTree::Object(Self::members(self.auth.tree()))
    }

    open spec fn admits(t: JsonTree) -> bool {
        &&& t is Object
        &&& required_admits::<String>(t, "auth"@)
    }

    open spec fn agrees(&self, t: JsonTree) -> bool {
        &&& required_agrees(self.auth, t, "auth"@)
    }

    fn to_json(&self) -> (out: JsonValue) {
        let mut members: Vec<(String, JsonValue)> = Vec::new();
        assert(members_view(members@) =~= Seq::empty());
        put(&mut members, "auth", &self.auth);
        object(members)
    }

    fn from_json(v: &JsonValue) -> (res: Option<Self>) {
        if !v.is_object() {
            return None;
        }
        let auth = required::<String>(v, "auth")?;
        Some(UserJoin { auth })
    }

    proof fn lemma_round_trip(&self) {
        Self::lemma_members(self.auth.tree());
        self.auth.lemma_round_trip();
    }

    proof fn lemma_reads_one(&self, other: &Self, t: JsonTree) {
        lemma_required_reads_one(self.auth, other.auth, t, "auth"@);
    }
}

#[derive(Clone, Debug, PartialEq, Default)]
pub struct UserJoinResponse {
    pub joined: bool,
}

impl UserJoinResponse {
    /// The members that a record is written as, from what is written for
    /// each of its fields.
    pub open spec fn members(joined: JsonTree) -> Seq<Member> {
        let members = Seq::empty();
        let members = with_field(members, "joined"@, joined);
        members
    }

    /// Each key leads to what was written under it, and to nothing where
    /// nothing was written.
    pub proof fn lemma_members(joined: JsonTree)
        ensures
            ({
                let members = Self::members(joined);
                &&& lookup(members, "joined"@) == Some(joined)
            }),
    {
        broadcast use group_written_members;

        reveal_strlit("joined");
        assert("joined"@.len() == 6);
    }

    /// Every field is mandatory: each is written, in order, and nothing
    /// else.
    pub proof fn lemma_mandatory_fields_alone(joined: JsonTree)
        ensures
            Self::members(joined) == Seq::<Member>::empty()
                .push(("joined"@, joined)),
    {
        reveal(with_field);
        reveal(with_optional);
    }
}

impl Payload for UserJoinResponse {
    open spec fn tree(&self) -> JsonTree {
        JsonTree::Object(Self::members(self.joined.tree()))
    }

    open spec fn admits(t: JsonTree) -> bool {
        &&& t is Object
        &&& required_admits::<bool>(t, "joined"@)
    }

    open spec fn agrees(&self, t: JsonTree) -> bool {
        &&& required_agrees(self.joined, t, "joined"@)
    }

    fn to_json(&self) -> (out: JsonValue) {
        let mut members: Vec<(String, JsonValue)> = Vec::new();
        assert(members_view(members@) =~= Seq::empty());
        put(&mut members, "joined", &self.joined);
        object(members)
    }

    fn from_json(v: &JsonValue) -> (res: Option<Self>) {
        if !v.is_object() {
            return None;
        }
        let joined = required::<bool>(v, "joined")?;
        Some(UserJoinResponse { joined })
    }

    proof fn lemma_round_trip(&self) {
        Self::lemma_members(self.joined.tree());
        self.joined.lemma_round_trip();
    }

    proof fn lemma_reads_one(&self, other: &Self, t: JsonTree) {
        lemma_required_reads_one(self.joined, other.joined, t, "joined"@);
    }
}

#[derive(Clone, Debug, PartialEq, Default)]
pub struct VerifyEmail {
    pub token: String,
}

impl VerifyEmail {
    /// The members that a record is written as, from what is written for
    /// each of its fields.
    pub open spec fn members(token: JsonTree) -> Seq<Member> {
        let members = Seq::empty();
        let members = with_field(members, "token"@, token);
        members
    }

    /// Each key leads to what was written under it, and to nothing where
    /// nothing was written.
    pub proof fn lemma_members(token: JsonTree)
        ensures
            ({
                let members = Self::members(token);
                &&& lookup(members, "token"@) == Some(token)
            }),
    {
        broadcast use group_written_members;

        reveal_strlit("token");
        assert("token"@.len() == 5);
    }

    /// Every field is mandatory: each is written, in order, and nothing
    /// else.
    pub proof fn lemma_mandatory_fields_alone(token: JsonTree)
        ensures
            Self::members(token) == Seq::<Member>::empty()
                .push(("token"@, token)),
    {
        reveal(with_field);
        reveal(with_optional);
    }
}

impl Payload for VerifyEmail {
    open spec fn tree(&self) -> JsonTree {
        JsonTree::Object(Self::members(self.token.tree()))
    }

    open spec fn admits(t: JsonTree) -> bool {
        &&& t is Object
        &&& required_admits::<String>(t, "token"@)
    }

    open spec fn agrees(&self, t: JsonTree) -> bool {
        &&& required_agrees(self.token, t, "token"@)
    }

    fn to_json(&self) -> (out: JsonValue) {
        let mut members: Vec<(String, JsonValue)> = Vec::new();
        assert(members_view(members@) =~= Seq::empty());
        put(&mut members, "token", &self.token);
        object(members)
    }

    fn from_json(v: &JsonValue) -> (res: Option<Self>) {
        if !v.is_object() {
            return None;
        }
        let token = required::<String>(v, "token")?;
        Some(VerifyEmail { token })
    }

    proof fn lemma_round_trip(&self) {
        Self::lemma_members(self.token.tree());
        self.token.lemma_round_trip();
    }

    proof fn lemma_reads_one(&self, other: &Self, t: JsonTree) {
        lemma_required_reads_one(self.token, other.token, t, "token"@);
    }
}

} // verus!
