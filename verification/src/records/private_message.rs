//! Records of private messages and of the requests that read and change
//! them.

use vstd::prelude::*;
use crate::json::{lookup, JsonTree, JsonValue, Member};
use crate::payload::{
    group_written_members, lemma_optional_reads_one, lemma_optional_round_trip,
    lemma_required_reads_one, members_view, object, optional, optional_admits, optional_agrees,
    put, put_optional, required, required_admits, required_agrees, with_field, with_optional,
    written, Payload,
};
use crate::records::person::{Person};

verus! {

#[derive(Clone, Debug, PartialEq, Default)]
pub struct CreatePrivateMessage {
    pub auth: String,
    pub content: String,
    pub receipient_id: i32,
}

impl CreatePrivateMessage {
    /// The members that a record is written as, from what is written for
    /// each of its fields.
    pub open spec fn members(
        auth: JsonTree,
        content: JsonTree,
        receipient_id: JsonTree,
    ) -> Seq<Member> {
        let members = Seq::empty();
        let members = with_field(members, "auth"@, auth);
        let members = with_field(members, "content"@, content);
        let members = with_field(members, "receipient_id"@, receipient_id);
        members
    }

    /// Each key leads to what was written under it, and to nothing where
    /// nothing was written.
    pub proof fn lemma_members(auth: JsonTree, content: JsonTree, receipient_id: JsonTree)
        ensures
            ({
                let members = Self::members(auth, content, receipient_id);
                &&& lookup(members, "auth"@) == Some(auth)
                &&& lookup(members, "content"@) == Some(content)
                &&& lookup(members, "receipient_id"@) == Some(receipient_id)
            }),
    {
        broadcast use group_written_members;

        reveal_strlit("auth");
        reveal_strlit("content");
        reveal_strlit("receipient_id");
        assert("auth"@.len() == 4);
        assert("content"@.len() == 7);
        assert("receipient_id"@.len() == 13);
    }

    /// Every field is mandatory: each is written, in order, and nothing
    /// else.
    pub proof fn lemma_mandatory_fields_alone(
        auth: JsonTree,
        content: JsonTree,
        receipient_id: JsonTree,
    )
        ensures
            Self::members(auth, content, receipient_id) == Seq::<Member>::empty()
                .push(("auth"@, auth))
                .push(("content"@, content))
                .push(("receipient_id"@, receipient_id)),
    {
        reveal(with_field);
        reveal(with_optional);
    }
}

impl Payload for CreatePrivateMessage {
    open spec fn tree(&self) -> JsonTree {
        JsonTree::Object(
            Self::members(self.auth.tree(), self.content.tree(), self.receipient_id.tree()),
        )
    }

    open spec fn admits(t: JsonTree) -> bool {
        &&& t is Object
        &&& required_admits::<String>(t, "auth"@)
        &&& required_admits::<String>(t, "content"@)
        &&& required_admits::<i32>(t, "receipient_id"@)
    }

    open spec fn agrees(&self, t: JsonTree) -> bool {
        &&& required_agrees(self.auth, t, "auth"@)
        &&& required_agrees(self.content, t, "content"@)
        &&& required_agrees(self.receipient_id, t, "receipient_id"@)
    }

    fn to_json(&self) -> (out: JsonValue) {
        let mut members: Vec<(String, JsonValue)> = Vec::new();
        assert(members_view(members@) =~= Seq::empty());
        put(&mut members, "auth", &self.auth);
        put(&mut members, "content", &self.content);
        put(&mut members, "receipient_id", &self.receipient_id);
        object(members)
    }

    fn from_json(v: &JsonValue) -> (res: Option<Self>) {
        if !v.is_object() {
            return None;
        }
        let auth = required::<String>(v, "auth")?;
        let content = required::<String>(v, "content")?;
        let receipient_id = required::<i32>(v, "receipient_id")?;
        Some(CreatePrivateMessage { auth, content, receipient_id })
    }

    proof fn lemma_round_trip(&self) {
        Self::lemma_members(self.auth.tree(), self.content.tree(), self.receipient_id.tree());
        self.auth.lemma_round_trip();
        self.content.lemma_round_trip();
        self.receipient_id.lemma_round_trip();
    }

    proof fn lemma_reads_one(&self, other: &Self, t: JsonTree) {
        lemma_required_reads_one(self.auth, other.auth, t, "auth"@);
        lemma_required_reads_one(self.content, other.content, t, "content"@);
        lemma_required_reads_one(self.receipient_id, other.receipient_id, t, "receipient_id"@);
    }
}

#[derive(Clone, Debug, PartialEq, Default)]
pub struct CreatePrivateMessageReport {
    pub auth: String,
    pub private_message_id: i32,
    pub reason: String,
}

impl CreatePrivateMessageReport {
    /// The members that a record is written as, from what is written for
    /// each of its fields.
    pub open spec fn members(
        auth: JsonTree,
        private_message_id: JsonTree,
        reason: JsonTree,
    ) -> Seq<Member> {
        let members = Seq::empty();
        let members = with_field(members, "auth"@, auth);
        let members = with_field(members, "private_message_id"@, private_message_id);
        let members = with_field(members, "reason"@, reason);
        members
    }

    /// Each key leads to what was written under it, and to nothing where
    /// nothing was written.
    pub proof fn lemma_members(auth: JsonTree, private_message_id: JsonTree, reason: JsonTree)
        ensures
            ({
                let members = Self::members(auth, private_message_id, reason);
                &&& lookup(members, "auth"@) == Some(auth)
                &&& lookup(members, "private_message_id"@) == Some(private_message_id)
                &&& lookup(members, "reason"@) == Some(reason)
            }),
    {
        broadcast use group_written_members;

        reveal_strlit("auth");
        reveal_strlit("private_message_id");
        reveal_strlit("reason");
        assert("auth"@.len() == 4);
        assert("private_message_id"@.len() == 18);
        assert("reason"@.len() == 6);
    }

    /// Every field is mandatory: each is written, in order, and nothing
    /// else.
    pub proof fn lemma_mandatory_fields_alone(
        auth: JsonTree,
        private_message_id: JsonTree,
        reason: JsonTree,
    )
        ensures
            Self::members(auth, private_message_id, reason) == Seq::<Member>::empty()
                .push(("auth"@, auth))
                .push(("private_message_id"@, private_message_id))
                .push(("reason"@, reason)),
    {
        reveal(with_field);
        reveal(with_optional);
    }
}

impl Payload for CreatePrivateMessageReport {
    open spec fn tree(&self) -> JsonTree {
        JsonTree::Object(
            Self::members(self.auth.tree(), self.private_message_id.tree(), self.reason.tree()),
        )
    }

    open spec fn admits(t: JsonTree) -> bool {
        &&& t is Object
        &&& required_admits::<String>(t, "auth"@)
        &&& required_admits::<i32>(t, "private_message_id"@)
        &&& required_admits::<String>(t, "reason"@)
    }

    open spec fn agrees(&self, t: JsonTree) -> bool {
        &&& required_agrees(self.auth, t, "auth"@)
        &&& required_agrees(self.private_message_id, t, "private_message_id"@)
        &&& required_agrees(self.reason, t, "reason"@)
    }

    fn to_json(&self) -> (out: JsonValue) {
        let mut members: Vec<(String, JsonValue)> = Vec::new();
        assert(members_view(members@) =~= Seq::empty());
        put(&mut members, "auth", &self.auth);
        put(&mut members, "private_message_id", &self.private_message_id);
        put(&mut members, "reason", &self.reason);
        object(members)
    }

    fn from_json(v: &JsonValue) -> (res: Option<Self>) {
        if !v.is_object() {
            return None;
        }
        let auth = required::<String>(v, "auth")?;
        let private_message_id = required::<i32>(v, "private_message_id")?;
        let reason = required::<String>(v, "reason")?;
        Some(CreatePrivateMessageReport { auth, private_message_id, reason })
    }

    proof fn lemma_round_trip(&self) {
        Self::lemma_members(self.auth.tree(), self.private_message_id.tree(), self.reason.tree());
        self.auth.lemma_round_trip();
        self.private_message_id.lemma_round_trip();
        self.reason.lemma_round_trip();
    }

    proof fn lemma_reads_one(&self, other: &Self, t: JsonTree) {
        lemma_required_reads_one(self.auth, other.auth, t, "auth"@);
        lemma_required_reads_one(
            self.private_message_id,
            other.private_message_id,
            t,
            "private_message_id"@,
        );
        lemma_required_reads_one(self.reason, other.reason, t, "reason"@);
    }
}

#[derive(Clone, Debug, PartialEq, Default)]
pub struct DeletePrivateMessage {
    pub auth: String,
    pub deleted: bool,
    pub private_message_id: i32,
}

impl DeletePrivateMessage {
    /// The members that a record is written as, from what is written for
    /// each of its fields.
    pub open spec fn members(
        auth: JsonTree,
        deleted: JsonTree,
        private_message_id: JsonTree,
    ) -> Seq<Member> {
        let members = Seq::empty();
        let members = with_field(members, "auth"@, auth);
        let members = with_field(members, "deleted"@, deleted);
        let members = with_field(members, "private_message_id"@, private_message_id);
        members
    }

    /// Each key leads to what was written under it, and to nothing where
    /// nothing was written.
    pub proof fn lemma_members(auth: JsonTree, deleted: JsonTree, private_message_id: JsonTree)
        ensures
            ({
                let members = Self::members(auth, deleted, private_message_id);
                &&& lookup(members, "auth"@) == Some(auth)
                &&& lookup(members, "deleted"@) == Some(deleted)
                &&& lookup(members, "private_message_id"@) == Some(private_message_id)
            }),
    {
        broadcast use group_written_members;

        reveal_strlit("auth");
        reveal_strlit("deleted");
        reveal_strlit("private_message_id");
        assert("auth"@.len() == 4);
        assert("deleted"@.len() == 7);
        assert("private_message_id"@.len() == 18);
    }

    /// Every field is mandatory: each is written, in order, and nothing
    /// else.
    pub proof fn lemma_mandatory_fields_alone(
        auth: JsonTree,
        deleted: JsonTree,
        private_message_id: JsonTree,
    )
        ensures
            Self::members(auth, deleted, private_message_id) == Seq::<Member>::empty()
                .push(("auth"@, auth))
                .push(("deleted"@, deleted))
                .push(("private_message_id"@, private_message_id)),
    {
        reveal(with_field);
        reveal(with_optional);
    }
}

impl Payload for DeletePrivateMessage {
    open spec fn tree(&self) -> JsonTree {
        JsonTree::Object(
            Self::members(self.auth.tree(), self.deleted.tree(), self.private_message_id.tree()),
        )
    }

    open spec fn admits(t: JsonTree) -> bool {
        &&& t is Object
        &&& required_admits::<String>(t, "auth"@)
        &&& required_admits::<bool>(t, "deleted"@)
        &&& required_admits::<i32>(t, "private_message_id"@)
    }

    open spec fn agrees(&self, t: JsonTree) -> bool {
        &&& required_agrees(self.auth, t, "auth"@)
        &&& required_agrees(self.deleted, t, "deleted"@)
        &&& required_agrees(self.private_message_id, t, "private_message_id"@)
    }

    fn to_json(&self) -> (out: JsonValue) {
        let mut members: Vec<(String, JsonValue)> = Vec::new();
        assert(members_view(members@) =~= Seq::empty());
        put(&mut members, "auth", &self.auth);
        put(&mut members, "deleted", &self.deleted);
        put(&mut members, "private_message_id", &self.private_message_id);
        object(members)
    }

    fn from_json(v: &JsonValue) -> (res: Option<Self>) {
        if !v.is_object() {
            return None;
        }
        let auth = required::<String>(v, "auth")?;
        let deleted = required::<bool>(v, "deleted")?;
        let private_message_id = required::<i32>(v, "private_message_id")?;
        Some(DeletePrivateMessage { auth, deleted, private_message_id })
    }

    proof fn lemma_round_trip(&self) {
        Self::lemma_members(self.auth.tree(), self.deleted.tree(), self.private_message_id.tree());
        self.auth.lemma_round_trip();
        self.deleted.lemma_round_trip();
        self.private_message_id.lemma_round_trip();
    }

    proof fn lemma_reads_one(&self, other: &Self, t: JsonTree) {
        lemma_required_reads_one(self.auth, other.auth, t, "auth"@);
        lemma_required_reads_one(self.deleted, other.deleted, t, "deleted"@);
        lemma_required_reads_one(
            self.private_message_id,
            other.private_message_id,
            t,
            "private_message_id"@,
        );
    }
}

#[derive(Clone, Debug, PartialEq, Default)]
pub struct EditPrivateMessage {
    pub auth: String,
    pub content: String,
    pub private_message_id: i32,
}

impl EditPrivateMessage {
    /// The members that a record is written as, from what is written for
    /// each of its fields.
    pub open spec fn members(
        auth: JsonTree,
        content: JsonTree,
        private_message_id: JsonTree,
    ) -> Seq<Member> {
        let members = Seq::empty();
        let members = with_field(members, "auth"@, auth);
        let members = with_field(members, "content"@, content);
        let members = with_field(members, "private_message_id"@, private_message_id);
        members
    }

    /// Each key leads to what was written under it, and to nothing where
    /// nothing was written.
    pub proof fn lemma_members(auth: JsonTree, content: JsonTree, private_message_id: JsonTree)
        ensures
            ({
                let members = Self::members(auth, content, private_message_id);
                &&& lookup(members, "auth"@) == Some(auth)
                &&& lookup(members, "content"@) == Some(content)
                &&& lookup(members, "private_message_id"@) == Some(private_message_id)
            }),
    {
        broadcast use group_written_members;

        reveal_strlit("auth");
        reveal_strlit("content");
        reveal_strlit("private_message_id");
        assert("auth"@.len() == 4);
        assert("content"@.len() == 7);
        assert("private_message_id"@.len() == 18);
    }

    /// Every field is mandatory: each is written, in order, and nothing
    /// else.
    pub proof fn lemma_mandatory_fields_alone(
        auth: JsonTree,
        content: JsonTree,
        private_message_id: JsonTree,
    )
        ensures
            Self::members(auth, content, private_message_id) == Seq::<Member>::empty()
                .push(("auth"@, auth))
                .push(("content"@, content))
                .push(("private_message_id"@, private_message_id)),
    {
        reveal(with_field);
        reveal(with_optional);
    }
}

impl Payload for EditPrivateMessage {
    open spec fn tree(&self) -> JsonTree {
        JsonTree::Object(
            Self::members(self.auth.tree(), self.content.tree(), self.private_message_id.tree()),
        )
    }

    open spec fn admits(t: JsonTree) -> bool {
        &&& t is Object
        &&& required_admits::<String>(t, "auth"@)
        &&& required_admits::<String>(t, "content"@)
        &&& required_admits::<i32>(t, "private_message_id"@)
    }

    open spec fn agrees(&self, t: JsonTree) -> bool {
        &&& required_agrees(self.auth, t, "auth"@)
        &&& required_agrees(self.content, t, "content"@)
        &&& required_agrees(self.private_message_id, t, "private_message_id"@)
    }

    fn to_json(&self) -> (out: JsonValue) {
        let mut members: Vec<(String, JsonValue)> = Vec::new();
        assert(members_view(members@) =~= Seq::empty());
        put(&mut members, "auth", &self.auth);
        put(&mut members, "content", &self.content);
        put(&mut members, "private_message_id", &self.private_message_id);
        object(members)
    }

    fn from_json(v: &JsonValue) -> (res: Option<Self>) {
        if !v.is_object() {
            return None;
        }
        let auth = required::<String>(v, "auth")?;
        let content = required::<String>(v, "content")?;
        let private_message_id = required::<i32>(v, "private_message_id")?;
        Some(EditPrivateMessage { auth, content, private_message_id })
    }

    proof fn lemma_round_trip(&self) {
        Self::lemma_members(self.auth.tree(), self.content.tree(), self.private_message_id.tree());
        self.auth.lemma_round_trip();
        self.content.lemma_round_trip();
        self.private_message_id.lemma_round_trip();
    }

    proof fn lemma_reads_one(&self, other: &Self, t: JsonTree) {
        lemma_required_reads_one(self.auth, other.auth, t, "auth"@);
        lemma_required_reads_one(self.content, other.content, t, "content"@);
        lemma_required_reads_one(
            self.private_message_id,
            other.private_message_id,
            t,
            "private_message_id"@,
        );
    }
}

#[derive(Clone, Debug, PartialEq, Default)]
pub struct GetPrivateMEssages {
    pub auth: String,
    pub limit: Option<i32>,
    pub page: Option<i32>,
    pub unread_only: Option<bool>,
}

impl GetPrivateMEssages {
    /// The members that a record is written as, from what is written for
    /// each of its fields.
    pub open spec fn members(
        auth: JsonTree,
        limit: Option<JsonTree>,
        page: Option<JsonTree>,
        unread_only: Option<JsonTree>,
    ) -> Seq<Member> {
        let members = Seq::empty();
        let members = with_field(members, "auth"@, auth);
        let members = with_optional(members, "limit"@, limit);
        let members = with_optional(members, "page"@, page);
        let members = with_optional(members, "unread_only"@, unread_only);
        members
    }

    /// Each key leads to what was written under it, and to nothing where
    /// nothing was written.
    pub proof fn lemma_members(
        auth: JsonTree,
        limit: Option<JsonTree>,
        page: Option<JsonTree>,
        unread_only: Option<JsonTree>,
    )
        ensures
            ({
                let members = Self::members(auth, limit, page, unread_only);
                &&& lookup(members, "auth"@) == Some(auth)
                &&& lookup(members, "limit"@) == limit
                &&& lookup(members, "page"@) == page
                &&& lookup(members, "unread_only"@) == unread_only
            }),
    {
        broadcast use group_written_members;

        reveal_strlit("auth");
        reveal_strlit("limit");
        reveal_strlit("page");
        reveal_strlit("unread_only");
        assert("auth"@.len() == 4 && "auth"@[0] == 'a');
        assert("limit"@.len() == 5);
        assert("page"@.len() == 4 && "page"@[0] == 'p');
        assert("unread_only"@.len() == 11);
    }

    /// With every optional field absent, the mandatory fields are written
    /// and nothing else.
    pub proof fn lemma_mandatory_fields_alone(auth: JsonTree)
        ensures
            Self::members(auth, None, None, None) == Seq::<Member>::empty()
                .push(("auth"@, auth)),
    {
        reveal(with_field);
        reveal(with_optional);
    }
}

impl Payload for GetPrivateMEssages {
    open spec fn tree(&self) -> JsonTree {
        JsonTree::Object(
            Self::members(
                self.auth.tree(),
                written(self.limit),
                written(self.page),
                written(self.unread_only),
            ),
        )
    }

    open spec fn admits(t: JsonTree) -> bool {
        &&& t is Object
        &&& required_admits::<String>(t, "auth"@)
        &&& optional_admits::<i32>(t, "limit"@)
        &&& optional_admits::<i32>(t, "page"@)
        &&& optional_admits::<bool>(t, "unread_only"@)
    }

    open spec fn agrees(&self, t: JsonTree) -> bool {
        &&& required_agrees(self.auth, t, "auth"@)
        &&& optional_agrees(self.limit, t, "limit"@)
        &&& optional_agrees(self.page, t, "page"@)
        &&& optional_agrees(self.unread_only, t, "unread_only"@)
    }

    fn to_json(&self) -> (out: JsonValue) {
        let mut members: Vec<(String, JsonValue)> = Vec::new();
        assert(members_view(members@) =~= Seq::empty());
        put(&mut members, "auth", &self.auth);
        put_optional(&mut members, "limit", &self.limit);
        put_optional(&mut members, "page", &self.page);
        put_optional(&mut members, "unread_only", &self.unread_only);
        object(members)
    }

    fn from_json(v: &JsonValue) -> (res: Option<Self>) {
        if !v.is_object() {
            return None;
        }
        let auth = required::<String>(v, "auth")?;
        let limit = optional::<i32>(v, "limit")?;
        let page = optional::<i32>(v, "page")?;
        let unread_only = optional::<bool>(v, "unread_only")?;
        Some(GetPrivateMEssages { auth, limit, page, unread_only })
    }

    proof fn lemma_round_trip(&self) {
        Self::lemma_members(
            self.auth.tree(),
            written(self.limit),
            written(self.page),
            written(self.unread_only),
        );
        self.auth.lemma_round_trip();
        lemma_optional_round_trip(self.limit);
        lemma_optional_round_trip(self.page);
        lemma_optional_round_trip(self.unread_only);
    }

    proof fn lemma_reads_one(&self, other: &Self, t: JsonTree) {
        lemma_required_reads_one(self.auth, other.auth, t, "auth"@);
        lemma_optional_reads_one(self.limit, other.limit, t, "limit"@);
        lemma_optional_reads_one(self.page, other.page, t, "page"@);
        lemma_optional_reads_one(self.unread_only, other.unread_only, t, "unread_only"@);
    }
}

#[derive(Clone, Debug, PartialEq, Default)]
pub struct ListPrivateMessageReports {
    pub auth: String,
    pub limit: Option<i32>,
    pub page: Option<i32>,
    pub unresolved_only: Option<bool>,
}

impl ListPrivateMessageReports {
    /// The members that a record is written as, from what is written for
    /// each of its fields.
    pub open spec fn members(
        auth: JsonTree,
        limit: Option<JsonTree>,
        page: Option<JsonTree>,
        unresolved_only: Option<JsonTree>,
    ) -> Seq<Member> {
        let members = Seq::empty();
        let members = with_field(members, "auth"@, auth);
        let members = with_optional(members, "limit"@, limit);
        let members = with_optional(members, "page"@, page);
        let members = with_optional(members, "unresolved_only"@, unresolved_only);
        members
    }

    /// Each key leads to what was written under it, and to nothing where
    /// nothing was written.
    pub proof fn lemma_members(
        auth: JsonTree,
        limit: Option<JsonTree>,
        page: Option<JsonTree>,
        unresolved_only: Option<JsonTree>,
    )
        ensures
            ({
                let members = Self::members(auth, limit, page, unresolved_only);
                &&& lookup(members, "auth"@) == Some(auth)
                &&& lookup(members, "limit"@) == limit
                &&& lookup(members, "page"@) == page
                &&& lookup(members, "unresolved_only"@) == unresolved_only
            }),
    {
        broadcast use group_written_members;

        reveal_strlit("auth");
        reveal_strlit("limit");
        reveal_strlit("page");
        reveal_strlit("unresolved_only");
        assert("auth"@.len() == 4 && "auth"@[0] == 'a');
        assert("limit"@.len() == 5);
        assert("page"@.len() == 4 && "page"@[0] == 'p');
        assert("unresolved_only"@.len() == 15);
    }

    /// With every optional field absent, the mandatory fields are written
    /// and nothing else.
    pub proof fn lemma_mandatory_fields_alone(auth: JsonTree)
        ensures
            Self::members(auth, None, None, None) == Seq::<Member>::empty()
                .push(("auth"@, auth)),
    {
        reveal(with_field);
        reveal(with_optional);
    }
}

impl Payload for ListPrivateMessageReports {
    open spec fn tree(&self) -> JsonTree {
        JsonTree::Object(
            Self::members(
                self.auth.tree(),
                written(self.limit),
                written(self.page),
                written(self.unresolved_only),
            ),
        )
    }

    open spec fn admits(t: JsonTree) -> bool {
        &&& t is Object
        &&& required_admits::<String>(t, "auth"@)
        &&& optional_admits::<i32>(t, "limit"@)
        &&& optional_admits::<i32>(t, "page"@)
        &&& optional_admits::<bool>(t, "unresolved_only"@)
    }

    open spec fn agrees(&self, t: JsonTree) -> bool {
        &&& required_agrees(self.auth, t, "auth"@)
        &&& optional_agrees(self.limit, t, "limit"@)
        &&& optional_agrees(self.page, t, "page"@)
        &&& optional_agrees(self.unresolved_only, t, "unresolved_only"@)
    }

    fn to_json(&self) -> (out: JsonValue) {
        let mut members: Vec<(String, JsonValue)> = Vec::new();
        assert(members_view(members@) =~= Seq::empty());
        put(&mut members, "auth", &self.auth);
        put_optional(&mut members, "limit", &self.limit);
        put_optional(&mut members, "page", &self.page);
        put_optional(&mut members, "unresolved_only", &self.unresolved_only);
        object(members)
    }

    fn from_json(v: &JsonValue) -> (res: Option<Self>) {
        if !v.is_object() {
            return None;
        }
        let auth = required::<String>(v, "auth")?;
        let limit = optional::<i32>(v, "limit")?;
        let page = optional::<i32>(v, "page")?;
        let unresolved_only = optional::<bool>(v, "unresolved_only")?;
        Some(ListPrivateMessageReports { auth, limit, page, unresolved_only })
    }

    proof fn lemma_round_trip(&self) {
        Self::lemma_members(
            self.auth.tree(),
            written(self.limit),
            written(self.page),
            written(self.unresolved_only),
        );
        self.auth.lemma_round_trip();
        lemma_optional_round_trip(self.limit);
        lemma_optional_round_trip(self.page);
        lemma_optional_round_trip(self.unresolved_only);
    }

    proof fn lemma_reads_one(&self, other: &Self, t: JsonTree) {
        lemma_required_reads_one(self.auth, other.auth, t, "auth"@);
        lemma_optional_reads_one(self.limit, other.limit, t, "limit"@);
        lemma_optional_reads_one(self.page, other.page, t, "page"@);
        lemma_optional_reads_one(
            self.unresolved_only,
            other.unresolved_only,
            t,
            "unresolved_only"@,
        );
    }
}

#[derive(Clone, Debug, PartialEq, Default)]
pub struct ListPrivateMessageReportsResponse {
    pub private_message_reports: Vec<PrivateMessageReportView>,
}

impl ListPrivateMessageReportsResponse {
    /// The members that a record is written as, from what is written for
    /// each of its fields.
    pub open spec fn members(private_message_reports: JsonTree) -> Seq<Member> {
        let members = Seq::empty();
        let members = with_field(members, "private_message_reports"@, private_message_reports);
        members
    }

    /// Each key leads to what was written under it, and to nothing where
    /// nothing was written.
    pub proof fn lemma_members(private_message_reports: JsonTree)
        ensures
            ({
                let members = Self::members(private_message_reports);
                &&& lookup(members, "private_message_reports"@) == Some(private_message_reports)
            }),
    {
        broadcast use group_written_members;

        reveal_strlit("private_message_reports");
        assert("private_message_reports"@.len() == 23);
    }

    /// Every field is mandatory: each is written, in order, and nothing
    /// else.
    pub proof fn lemma_mandatory_fields_alone(private_message_reports: JsonTree)
        ensures
            Self::members(private_message_reports) == Seq::<Member>::empty()
                .push(("private_message_reports"@, private_message_reports)),
    {
        reveal(with_field);
        reveal(with_optional);
    }
}

impl Payload for ListPrivateMessageReportsResponse {
    open spec fn tree(&self) -> JsonTree {
        JsonTree::Object(Self::members(self.private_message_reports.tree()))
    }

    open spec fn admits(t: JsonTree) -> bool {
        &&& t is Object
        &&& required_admits::<Vec<PrivateMessageReportView>>(t, "private_message_reports"@)
    }

    open spec fn agrees(&self, t: JsonTree) -> bool {
        &&& required_agrees(self.private_message_reports, t, "private_message_reports"@)
    }

    fn to_json(&self) -> (out: JsonValue) {
        let mut members: Vec<(String, JsonValue)> = Vec::new();
        assert(members_view(members@) =~= Seq::empty());
        put(&mut members, "private_message_reports", &self.private_message_reports);
        object(members)
    }

    fn from_json(v: &JsonValue) -> (res: Option<Self>) {
        if !v.is_object() {
            return None;
        }
        let private_message_reports = required::<Vec<PrivateMessageReportView>>(
            v,
            "private_message_reports",
        )?;
        Some(ListPrivateMessageReportsResponse { private_message_reports })
    }

    proof fn lemma_round_trip(&self) {
        Self::lemma_members(self.private_message_reports.tree());
        self.private_message_reports.lemma_round_trip();
    }

    proof fn lemma_reads_one(&self, other: &Self, t: JsonTree) {
        lemma_required_reads_one(
            self.private_message_reports,
            other.private_message_reports,
            t,
            "private_message_reports"@,
        );
    }
}

#[derive(Clone, Debug, PartialEq, Default)]
pub struct MarkPrivateMessageAsRead {
    pub auth: String,
    pub private_message_id: i32,
    pub read: bool,
}

impl MarkPrivateMessageAsRead {
    /// The members that a record is written as, from what is written for
    /// each of its fields.
    pub open spec fn members(
        auth: JsonTree,
        private_message_id: JsonTree,
        read: JsonTree,
    ) -> Seq<Member> {
        let members = Seq::empty();
        let members = with_field(members, "auth"@, auth);
        let members = with_field(members, "private_message_id"@, private_message_id);
        let members = with_field(members, "read"@, read);
        members
    }

    /// Each key leads to what was written under it, and to nothing where
    /// nothing was written.
    pub proof fn lemma_members(auth: JsonTree, private_message_id: JsonTree, read: JsonTree)
        ensures
            ({
                let members = Self::members(auth, private_message_id, read);
                &&& lookup(members, "auth"@) == Some(auth)
                &&& lookup(members, "private_message_id"@) == Some(private_message_id)
                &&& lookup(members, "read"@) == Some(read)
            }),
    {
        broadcast use group_written_members;

        reveal_strlit("auth");
        reveal_strlit("private_message_id");
        reveal_strlit("read");
        assert("auth"@.len() == 4 && "auth"@[0] == 'a');
        assert("private_message_id"@.len() == 18);
        assert("read"@.len() == 4 && "read"@[0] == 'r');
    }

    /// Every field is mandatory: each is written, in order, and nothing
    /// else.
    pub proof fn lemma_mandatory_fields_alone(
        auth: JsonTree,
        private_message_id: JsonTree,
        read: JsonTree,
    )
        ensures
            Self::members(auth, private_message_id, read) == Seq::<Member>::empty()
                .push(("auth"@, auth))
                .push(("private_message_id"@, private_message_id))
                .push(("read"@, read)),
    {
        reveal(with_field);
        reveal(with_optional);
    }
}

impl Payload for MarkPrivateMessageAsRead {
    open spec fn tree(&self) -> JsonTree {
        JsonTree::Object(
            Self::members(self.auth.tree(), self.private_message_id.tree(), self.read.tree()),
        )
    }

    open spec fn admits(t: JsonTree) -> bool {
        &&& t is Object
        &&& required_admits::<String>(t, "auth"@)
        &&& required_admits::<i32>(t, "private_message_id"@)
        &&& required_admits::<bool>(t, "read"@)
    }

    open spec fn agrees(&self, t: JsonTree) -> bool {
        &&& required_agrees(self.auth, t, "auth"@)
        &&& required_agrees(self.private_message_id, t, "private_message_id"@)
        &&& required_agrees(self.read, t, "read"@)
    }

    fn to_json(&self) -> (out: JsonValue) {
        let mut members: Vec<(String, JsonValue)> = Vec::new();
        assert(members_view(members@) =~= Seq::empty());
        put(&mut members, "auth", &self.auth);
        put(&mut members, "private_message_id", &self.private_message_id);
        put(&mut members, "read", &self.read);
        object(members)
    }

    fn from_json(v: &JsonValue) -> (res: Option<Self>) {
        if !v.is_object() {
            return None;
        }
        let auth = required::<String>(v, "auth")?;
        let private_message_id = required::<i32>(v, "private_message_id")?;
        let read = required::<bool>(v, "read")?;
        Some(MarkPrivateMessageAsRead { auth, private_message_id, read })
    }

    proof fn lemma_round_trip(&self) {
        Self::lemma_members(self.auth.tree(), self.private_message_id.tree(), self.read.tree());
        self.auth.lemma_round_trip();
        self.private_message_id.lemma_round_trip();
        self.read.lemma_round_trip();
    }

    proof fn lemma_reads_one(&self, other: &Self, t: JsonTree) {
        lemma_required_reads_one(self.auth, other.auth, t, "auth"@);
        lemma_required_reads_one(
            self.private_message_id,
            other.private_message_id,
            t,
            "private_message_id"@,
        );
        lemma_required_reads_one(self.read, other.read, t, "read"@);
    }
}

#[derive(Clone, Debug, PartialEq, Default)]
pub struct PrivateMessage {
    pub ap_id: String,
    pub content: String,
    pub creator_id: i32,
    pub deleted: bool,
    pub id: i32,
    pub local: bool,
    pub published: String,
    pub read: bool,
    pub recipient_id: i32,
    pub updated: Option<String>,
}

impl PrivateMessage {
    /// The members that a record is written as, from what is written for
    /// each of its fields.
    pub open spec fn members(
        ap_id: JsonTree,
        content: JsonTree,
        creator_id: JsonTree,
        deleted: JsonTree,
        id: JsonTree,
        local: JsonTree,
        published: JsonTree,
        read: JsonTree,
        recipient_id: JsonTree,
        updated: Option<JsonTree>,
    ) -> Seq<Member> {
        let members = Seq::empty();
        let members = with_field(members, "ap_id"@, ap_id);
        let members = with_field(members, "content"@, content);
        let members = with_field(members, "creator_id"@, creator_id);
        let members = with_field(members, "deleted"@, deleted);
        let members = with_field(members, "id"@, id);
        let members = with_field(members, "local"@, local);
        let members = with_field(members, "published"@, published);
        let members = with_field(members, "read"@, read);
        let members = with_field(members, "recipient_id"@, recipient_id);
        let members = with_optional(members, "updated"@, updated);
        members
    }

    /// Each key leads to what was written under it, and to nothing where
    /// nothing was written.
    pub proof fn lemma_members(
        ap_id: JsonTree,
        content: JsonTree,
        creator_id: JsonTree,
        deleted: JsonTree,
        id: JsonTree,
        local: JsonTree,
        published: JsonTree,
        read: JsonTree,
        recipient_id: JsonTree,
        updated: Option<JsonTree>,
    )
        ensures
            ({
                let members = Self::members(
                    ap_id,
                    content,
                    creator_id,
                    deleted,
                    id,
                    local,
                    published,
                    read,
                    recipient_id,
                    updated,
                );
                &&& lookup(members, "ap_id"@) == Some(ap_id)
                &&& lookup(members, "content"@) == Some(content)
                &&& lookup(members, "creator_id"@) == Some(creator_id)
                &&& lookup(members, "deleted"@) == Some(deleted)
                &&& lookup(members, "id"@) == Some(id)
                &&& lookup(members, "local"@) == Some(local)
                &&& lookup(members, "published"@) == Some(published)
                &&& lookup(members, "read"@) == Some(read)
                &&& lookup(members, "recipient_id"@) == Some(recipient_id)
                &&& lookup(members, "updated"@) == updated
            }),
    {
        broadcast use group_written_members;

        reveal_strlit("ap_id");
        reveal_strlit("content");
        reveal_strlit("creator_id");
        reveal_strlit("deleted");
        reveal_strlit("id");
        reveal_strlit("local");
        reveal_strlit("published");
        reveal_strlit("read");
        reveal_strlit("recipient_id");
        reveal_strlit("updated");
        assert("ap_id"@.len() == 5 && "ap_id"@[0] == 'a');
        assert("content"@.len() == 7 && "content"@[0] == 'c');
        assert("creator_id"@.len() == 10);
        assert("deleted"@.len() == 7 && "deleted"@[0] == 'd');
        assert("id"@.len() == 2);
        assert("local"@.len() == 5 && "local"@[0] == 'l');
        assert("published"@.len() == 9);
        assert("read"@.len() == 4);
        assert("recipient_id"@.len() == 12);
        assert("updated"@.len() == 7 && "updated"@[0] == 'u');
    }

    /// With every optional field absent, the mandatory fields are written
    /// and nothing else.
    pub proof fn lemma_mandatory_fields_alone(
        ap_id: JsonTree,
        content: JsonTree,
        creator_id: JsonTree,
        deleted: JsonTree,
        id: JsonTree,
        local: JsonTree,
        published: JsonTree,
        read: JsonTree,
        recipient_id: JsonTree,
    )
        ensures
            Self::members(
                ap_id,
                content,
                creator_id,
                deleted,
                id,
                local,
                published,
                read,
                recipient_id,
                None,
            ) == Seq::<Member>::empty()
                .push(("ap_id"@, ap_id))
                .push(("content"@, content))
                .push(("creator_id"@, creator_id))
                .push(("deleted"@, deleted))
                .push(("id"@, id))
                .push(("local"@, local))
                .push(("published"@, published))
                .push(("read"@, read))
                .push(("recipient_id"@, recipient_id)),
    {
        reveal(with_field);
        reveal(with_optional);
    }
}

impl Payload for PrivateMessage {
    open spec fn tree(&self) -> JsonTree {
        JsonTree::Object(
            Self::members(
                self.ap_id.tree(),
                self.content.tree(),
                self.creator_id.tree(),
                self.deleted.tree(),
                self.id.tree(),
                self.local.tree(),
                self.published.tree(),
                self.read.tree(),
                self.recipient_id.tree(),
                written(self.updated),
            ),
        )
    }

    open spec fn admits(t: JsonTree) -> bool {
        &&& t is Object
        &&& required_admits::<String>(t, "ap_id"@)
        &&& required_admits::<String>(t, "content"@)
        &&& required_admits::<i32>(t, "creator_id"@)
        &&& required_admits::<bool>(t, "deleted"@)
        &&& required_admits::<i32>(t, "id"@)
        &&& required_admits::<bool>(t, "local"@)
        &&& required_admits::<String>(t, "published"@)
        &&& required_admits::<bool>(t, "read"@)
        &&& required_admits::<i32>(t, "recipient_id"@)
        &&& optional_admits::<String>(t, "updated"@)
    }

    open spec fn agrees(&self, t: JsonTree) -> bool {
        &&& required_agrees(self.ap_id, t, "ap_id"@)
        &&& required_agrees(self.content, t, "content"@)
        &&& required_agrees(self.creator_id, t, "creator_id"@)
        &&& required_agrees(self.deleted, t, "deleted"@)
        &&& required_agrees(self.id, t, "id"@)
        &&& required_agrees(self.local, t, "local"@)
        &&& required_agrees(self.published, t, "published"@)
        &&& required_agrees(self.read, t, "read"@)
        &&& required_agrees(self.recipient_id, t, "recipient_id"@)
        &&& optional_agrees(self.updated, t, "updated"@)
    }

    fn to_json(&self) -> (out: JsonValue) {
        let mut members: Vec<(String, JsonValue)> = Vec::new();
        assert(members_view(members@) =~= Seq::empty());
        put(&mut members, "ap_id", &self.ap_id);
        put(&mut members, "content", &self.content);
        put(&mut members, "creator_id", &self.creator_id);
        put(&mut members, "deleted", &self.deleted);
        put(&mut members, "id", &self.id);
        put(&mut members, "local", &self.local);
        put(&mut members, "published", &self.published);
        put(&mut members, "read", &self.read);
        put(&mut members, "recipient_id", &self.recipient_id);
        put_optional(&mut members, "updated", &self.updated);
        object(members)
    }

    fn from_json(v: &JsonValue) -> (res: Option<Self>) {
        if !v.is_object() {
            return None;
        }
        let ap_id = required::<String>(v, "ap_id")?;
        let content = required::<String>(v, "content")?;
        let creator_id = required::<i32>(v, "creator_id")?;
        let deleted = required::<bool>(v, "deleted")?;
        let id = required::<i32>(v, "id")?;
        let local = required::<bool>(v, "local")?;
        let published = required::<String>(v, "published")?;
        let read = required::<bool>(v, "read")?;
        let recipient_id = required::<i32>(v, "recipient_id")?;
        let updated = optional::<String>(v, "updated")?;
        Some(
            PrivateMessage {
                ap_id,
                content,
                creator_id,
                deleted,
                id,
                local,
                published,
                read,
                recipient_id,
                updated,
            },
        )
    }

    proof fn lemma_round_trip(&self) {
        Self::lemma_members(
            self.ap_id.tree(),
            self.content.tree(),
            self.creator_id.tree(),
            self.deleted.tree(),
            self.id.tree(),
            self.local.tree(),
            self.published.tree(),
            self.read.tree(),
            self.recipient_id.tree(),
            written(self.updated),
        );
        self.ap_id.lemma_round_trip();
        self.content.lemma_round_trip();
        self.creator_id.lemma_round_trip();
        self.deleted.lemma_round_trip();
        self.id.lemma_round_trip();
        self.local.lemma_round_trip();
        self.published.lemma_round_trip();
        self.read.lemma_round_trip();
        self.recipient_id.lemma_round_trip();
        lemma_optional_round_trip(self.updated);
    }

    proof fn lemma_reads_one(&self, other: &Self, t: JsonTree) {
        lemma_required_reads_one(self.ap_id, other.ap_id, t, "ap_id"@);
        lemma_required_reads_one(self.content, other.content, t, "content"@);
        lemma_required_reads_one(self.creator_id, other.creator_id, t, "creator_id"@);
        lemma_required_reads_one(self.deleted, other.deleted, t, "deleted"@);
        lemma_required_reads_one(self.id, other.id, t, "id"@);
        lemma_required_reads_one(self.local, other.local, t, "local"@);
        lemma_required_reads_one(self.published, other.published, t, "published"@);
        lemma_required_reads_one(self.read, other.read, t, "read"@);
        lemma_required_reads_one(self.recipient_id, other.recipient_id, t, "recipient_id"@);
        lemma_optional_reads_one(self.updated, other.updated, t, "updated"@);
    }
}

#[derive(Clone, Debug, PartialEq, Default)]
pub struct PrivateMessageReport {
    pub creator_id: i32,
    pub id: i32,
    pub original_pm_text: String,
    pub private_message_id: i32,
    pub published: String,
    pub reason: String,
    pub resolved: bool,
    pub resolver_id: Option<i32>,
    pub updated: Option<String>,
}

impl PrivateMessageReport {
    /// The members that a record is written as, from what is written for
    /// each of its fields.
    pub open spec fn members(
        creator_id: JsonTree,
        id: JsonTree,
        original_pm_text: JsonTree,
        private_message_id: JsonTree,
        published: JsonTree,
        reason: JsonTree,
        resolved: JsonTree,
        resolver_id: Option<JsonTree>,
        updated: Option<JsonTree>,
    ) -> Seq<Member> {
        let members = Seq::empty();
        let members = with_field(members, "creator_id"@, creator_id);
        let members = with_field(members, "id"@, id);
        let members = with_field(members, "original_pm_text"@, original_pm_text);
        let members = with_field(members, "private_message_id"@, private_message_id);
        let members = with_field(members, "published"@, published);
        let members = with_field(members, "reason"@, reason);
        let members = with_field(members, "resolved"@, resolved);
        let members = with_optional(members, "resolver_id"@, resolver_id);
        let members = with_optional(members, "updated"@, updated);
        members
    }

    /// Each key leads to what was written under it, and to nothing where
    /// nothing was written.
    pub proof fn lemma_members(
        creator_id: JsonTree,
        id: JsonTree,
        original_pm_text: JsonTree,
        private_message_id: JsonTree,
        published: JsonTree,
        reason: JsonTree,
        resolved: JsonTree,
        resolver_id: Option<JsonTree>,
        updated: Option<JsonTree>,
    )
        ensures
            ({
                let members = Self::members(
                    creator_id,
                    id,
                    original_pm_text,
                    private_message_id,
                    published,
                    reason,
                    resolved,
                    resolver_id,
                    updated,
                );
                &&& lookup(members, "creator_id"@) == Some(creator_id)
                &&& lookup(members, "id"@) == Some(id)
                &&& lookup(members, "original_pm_text"@) == Some(original_pm_text)
                &&& lookup(members, "private_message_id"@) == Some(private_message_id)
                &&& lookup(members, "published"@) == Some(published)
                &&& lookup(members, "reason"@) == Some(reason)
                &&& lookup(members, "resolved"@) == Some(resolved)
                &&& lookup(members, "resolver_id"@) == resolver_id
                &&& lookup(members, "updated"@) == updated
            }),
    {
        broadcast use group_written_members;

        reveal_strlit("creator_id");
        reveal_strlit("id");
        reveal_strlit("original_pm_text");
        reveal_strlit("private_message_id");
        reveal_strlit("published");
        reveal_strlit("reason");
        reveal_strlit("resolved");
        reveal_strlit("resolver_id");
        reveal_strlit("updated");
        assert("creator_id"@.len() == 10);
        assert("id"@.len() == 2);
        assert("original_pm_text"@.len() == 16);
        assert("private_message_id"@.len() == 18);
        assert("published"@.len() == 9);
        assert("reason"@.len() == 6);
        assert("resolved"@.len() == 8);
        assert("resolver_id"@.len() == 11);
        assert("updated"@.len() == 7);
    }

    /// With every optional field absent, the mandatory fields are written
    /// and nothing else.
    pub proof fn lemma_mandatory_fields_alone(
        creator_id: JsonTree,
        id: JsonTree,
        original_pm_text: JsonTree,
        private_message_id: JsonTree,
        published: JsonTree,
        reason: JsonTree,
        resolved: JsonTree,
    )
        ensures
            Self::members(
                creator_id,
                id,
                original_pm_text,
                private_message_id,
                published,
                reason,
                resolved,
                None,
                None,
            ) == Seq::<Member>::empty()
                .push(("creator_id"@, creator_id))
                .push(("id"@, id))
                .push(("original_pm_text"@, original_pm_text))
                .push(("private_message_id"@, private_message_id))
                .push(("published"@, published))
                .push(("reason"@, reason))
                .push(("resolved"@, resolved)),
    {
        reveal(with_field);
        reveal(with_optional);
    }
}

impl Payload for PrivateMessageReport {
    open spec fn tree(&self) -> JsonTree {
        JsonTree::Object(
            Self::members(
                self.creator_id.tree(),
                self.id.tree(),
                self.original_pm_text.tree(),
                self.private_message_id.tree(),
                self.published.tree(),
                self.reason.tree(),
                self.resolved.tree(),
                written(self.resolver_id),
                written(self.updated),
            ),
        )
    }

    open spec fn admits(t: JsonTree) -> bool {
        &&& t is Object
        &&& required_admits::<i32>(t, "creator_id"@)
        &&& required_admits::<i32>(t, "id"@)
        &&& required_admits::<String>(t, "original_pm_text"@)
        &&& required_admits::<i32>(t, "private_message_id"@)
        &&& required_admits::<String>(t, "published"@)
        &&& required_admits::<String>(t, "reason"@)
        &&& required_admits::<bool>(t, "resolved"@)
        &&& optional_admits::<i32>(t, "resolver_id"@)
        &&& optional_admits::<String>(t, "updated"@)
    }

    open spec fn agrees(&self, t: JsonTree) -> bool {
        &&& required_agrees(self.creator_id, t, "creator_id"@)
        &&& required_agrees(self.id, t, "id"@)
        &&& required_agrees(self.original_pm_text, t, "original_pm_text"@)
        &&& required_agrees(self.private_message_id, t, "private_message_id"@)
        &&& required_agrees(self.published, t, "published"@)
        &&& required_agrees(self.reason, t, "reason"@)
        &&& required_agrees(self.resolved, t, "resolved"@)
        &&& optional_agrees(self.resolver_id, t, "resolver_id"@)
        &&& optional_agrees(self.updated, t, "updated"@)
    }

    fn to_json(&self) -> (out: JsonValue) {
        let mut members: Vec<(String, JsonValue)> = Vec::new();
        assert(members_view(members@) =~= Seq::empty());
        put(&mut members, "creator_id", &self.creator_id);
        put(&mut members, "id", &self.id);
        put(&mut members, "original_pm_text", &self.original_pm_text);
        put(&mut members, "private_message_id", &self.private_message_id);
        put(&mut members, "published", &self.published);
        put(&mut members, "reason", &self.reason);
        put(&mut members, "resolved", &self.resolved);
        put_optional(&mut members, "resolver_id", &self.resolver_id);
        put_optional(&mut members, "updated", &self.updated);
        object(members)
    }

    fn from_json(v: &JsonValue) -> (res: Option<Self>) {
        if !v.is_object() {
            return None;
        }
        let creator_id = required::<i32>(v, "creator_id")?;
        let id = required::<i32>(v, "id")?;
        let original_pm_text = required::<String>(v, "original_pm_text")?;
        let private_message_id = required::<i32>(v, "private_message_id")?;
        let published = required::<String>(v, "published")?;
        let reason = required::<String>(v, "reason")?;
        let resolved = required::<bool>(v, "resolved")?;
        let resolver_id = optional::<i32>(v, "resolver_id")?;
        let updated = optional::<String>(v, "updated")?;
        Some(
            PrivateMessageReport {
                creator_id,
                id,
                original_pm_text,
                private_message_id,
                published,
                reason,
                resolved,
                resolver_id,
                updated,
            },
        )
    }

    proof fn lemma_round_trip(&self) {
        Self::lemma_members(
            self.creator_id.tree(),
            self.id.tree(),
            self.original_pm_text.tree(),
            self.private_message_id.tree(),
            self.published.tree(),
            self.reason.tree(),
            self.resolved.tree(),
            written(self.resolver_id),
            written(self.updated),
        );
        self.creator_id.lemma_round_trip();
        self.id.lemma_round_trip();
        self.original_pm_text.lemma_round_trip();
        self.private_message_id.lemma_round_trip();
        self.published.lemma_round_trip();
        self.reason.lemma_round_trip();
        self.resolved.lemma_round_trip();
        lemma_optional_round_trip(self.resolver_id);
        lemma_optional_round_trip(self.updated);
    }

    proof fn lemma_reads_one(&self, other: &Self, t: JsonTree) {
        lemma_required_reads_one(self.creator_id, other.creator_id, t, "creator_id"@);
        lemma_required_reads_one(self.id, other.id, t, "id"@);
        lemma_required_reads_one(
            self.original_pm_text,
            other.original_pm_text,
            t,
            "original_pm_text"@,
        );
        lemma_required_reads_one(
            self.private_message_id,
            other.private_message_id,
            t,
            "private_message_id"@,
        );
        lemma_required_reads_one(self.published, other.published, t, "published"@);
        lemma_required_reads_one(self.reason, other.reason, t, "reason"@);
        lemma_required_reads_one(self.resolved, other.resolved, t, "resolved"@);
        lemma_optional_reads_one(self.resolver_id, other.resolver_id, t, "resolver_id"@);
        lemma_optional_reads_one(self.updated, other.updated, t, "updated"@);
    }
}

#[derive(Clone, Debug, PartialEq, Default)]
pub struct PrivateMessageReportResponse {
    pub private_message_report_view: PrivateMessageReportView,
}

impl PrivateMessageReportResponse {
    /// The members that a record is written as, from what is written for
    /// each of its fields.
    pub open spec fn members(private_message_report_view: JsonTree) -> Seq<Member> {
        let members = Seq::empty();
        let members = with_field(
            members,
            "private_message_report_view"@,
            private_message_report_view,
        );
        members
    }

    /// Each key leads to what was written under it, and to nothing where
    /// nothing was written.
    pub proof fn lemma_members(private_message_report_view: JsonTree)
        ensures
            ({
                let members = Self::members(private_message_report_view);
                &&& lookup(members, "private_message_report_view"@)
                    == Some(private_message_report_view)
            }),
    {
        broadcast use group_written_members;

        reveal_strlit("private_message_report_view");
        assert("private_message_report_view"@.len() == 27);
    }

    /// Every field is mandatory: each is written, in order, and nothing
    /// else.
    pub proof fn lemma_mandatory_fields_alone(private_message_report_view: JsonTree)
        ensures
            Self::members(private_message_report_view) == Seq::<Member>::empty()
                .push(("private_message_report_view"@, private_message_report_view)),
    {
        reveal(with_field);
        reveal(with_optional);
    }
}

impl Payload for PrivateMessageReportResponse {
    open spec fn tree(&self) -> JsonTree {
        JsonTree::Object(Self::members(self.private_message_report_view.tree()))
    }

    open spec fn admits(t: JsonTree) -> bool {
        &&& t is Object
        &&& required_admits::<PrivateMessageReportView>(t, "private_message_report_view"@)
    }

    open spec fn agrees(&self, t: JsonTree) -> bool {
        &&& required_agrees(self.private_message_report_view, t, "private_message_report_view"@)
    }

    fn to_json(&self) -> (out: JsonValue) {
        let mut members: Vec<(String, JsonValue)> = Vec::new();
        assert(members_view(members@) =~= Seq::empty());
        put(&mut members, "private_message_report_view", &self.private_message_report_view);
        object(members)
    }

    fn from_json(v: &JsonValue) -> (res: Option<Self>) {
        if !v.is_object() {
            return None;
        }
        let private_message_report_view = required::<PrivateMessageReportView>(
            v,
            "private_message_report_view",
        )?;
        Some(PrivateMessageReportResponse { private_message_report_view })
    }

    proof fn lemma_round_trip(&self) {
        Self::lemma_members(self.private_message_report_view.tree());
        self.private_message_report_view.lemma_round_trip();
    }

    proof fn lemma_reads_one(&self, other: &Self, t: JsonTree) {
        lemma_required_reads_one(
            self.private_message_report_view,
            other.private_message_report_view,
            t,
            "private_message_report_view"@,
        );
    }
}

#[derive(Clone, Debug, PartialEq, Default)]
pub struct PrivateMessageReportView {
    pub creator: Person,
    pub private_message: PrivateMessage,
    pub private_message_creator: Person,
    pub private_message_report: PrivateMessageReport,
    pub resolver: Option<Person>,
}

impl PrivateMessageReportView {
    /// The members that a record is written as, from what is written for
    /// each of its fields.
    pub open spec fn members(
        creator: JsonTree,
        private_message: JsonTree,
        private_message_creator: JsonTree,
        private_message_report: JsonTree,
        resolver: Option<JsonTree>,
    ) -> Seq<Member> {
        let members = Seq::empty();
        let members = with_field(members, "creator"@, creator);
        let members = with_field(members, "private_message"@, private_message);
        let members = with_field(members, "private_message_creator"@, private_message_creator);
        let members = with_field(members, "private_message_report"@, private_message_report);
        let members = with_optional(members, "resolver"@, resolver);
        members
    }

    /// Each key leads to what was written under it, and to nothing where
    /// nothing was written.
    pub proof fn lemma_members(
        creator: JsonTree,
        private_message: JsonTree,
        private_message_creator: JsonTree,
        private_message_report: JsonTree,
        resolver: Option<JsonTree>,
    )
        ensures
            ({
                let members = Self::members(
                    creator,
                    private_message,
                    private_message_creator,
                    private_message_report,
                    resolver,
                );
                &&& lookup(members, "creator"@) == Some(creator)
                &&& lookup(members, "private_message"@) == Some(private_message)
                &&& lookup(members, "private_message_creator"@) == Some(private_message_creator)
                &&& lookup(members, "private_message_report"@) == Some(private_message_report)
                &&& lookup(members, "resolver"@) == resolver
            }),
    {
        broadcast use group_written_members;

        reveal_strlit("creator");
        reveal_strlit("private_message");
        reveal_strlit("private_message_creator");
        reveal_strlit("private_message_report");
        reveal_strlit("resolver");
        assert("creator"@.len() == 7);
        assert("private_message"@.len() == 15);
        assert("private_message_creator"@.len() == 23);
        assert("private_message_report"@.len() == 22);
        assert("resolver"@.len() == 8);
    }

    /// With every optional field absent, the mandatory fields are written
    /// and nothing else.
    pub proof fn lemma_mandatory_fields_alone(
        creator: JsonTree,
        private_message: JsonTree,
        private_message_creator: JsonTree,
        private_message_report: JsonTree,
    )
        ensures
            Self::members(
                creator,
                private_message,
                private_message_creator,
                private_message_report,
                None,
            ) == Seq::<Member>::empty()
                .push(("creator"@, creator))
                .push(("private_message"@, private_message))
                .push(("private_message_creator"@, private_message_creator))
                .push(("private_message_report"@, private_message_report)),
    {
        reveal(with_field);
        reveal(with_optional);
    }
}

impl Payload for PrivateMessageReportView {
    open spec fn tree(&self) -> JsonTree {
        JsonTree::Object(
            Self::members(
                self.creator.tree(),
                self.private_message.tree(),
                self.private_message_creator.tree(),
                self.private_message_report.tree(),
                written(self.resolver),
            ),
        )
    }

    open spec fn admits(t: JsonTree) -> bool {
        &&& t is Object
        &&& required_admits::<Person>(t, "creator"@)
        &&& required_admits::<PrivateMessage>(t, "private_message"@)
        &&& required_admits::<Person>(t, "private_message_creator"@)
        &&& required_admits::<PrivateMessageReport>(t, "private_message_report"@)
        &&& optional_admits::<Person>(t, "resolver"@)
    }

    open spec fn agrees(&self, t: JsonTree) -> bool {
        &&& required_agrees(self.creator, t, "creator"@)
        &&& required_agrees(self.private_message, t, "private_message"@)
        &&& required_agrees(self.private_message_creator, t, "private_message_creator"@)
        &&& required_agrees(self.private_message_report, t, "private_message_report"@)
        &&& optional_agrees(self.resolver, t, "resolver"@)
    }

    fn to_json(&self) -> (out: JsonValue) {
        let mut members: Vec<(String, JsonValue)> = Vec::new();
        assert(members_view(members@) =~= Seq::empty());
        put(&mut members, "creator", &self.creator);
        put(&mut members, "private_message", &self.private_message);
        put(&mut members, "private_message_creator", &self.private_message_creator);
        put(&mut members, "private_message_report", &self.private_message_report);
        put_optional(&mut members, "resolver", &self.resolver);
        object(members)
    }

    fn from_json(v: &JsonValue) -> (res: Option<Self>) {
        if !v.is_object() {
            return None;
        }
        let creator = required::<Person>(v, "creator")?;
        let private_message = required::<PrivateMessage>(v, "private_message")?;
        let private_message_creator = required::<Person>(v, "private_message_creator")?;
        let private_message_report = required::<PrivateMessageReport>(v, "private_message_report")?;
        let resolver = optional::<Person>(v, "resolver")?;
        Some(
            PrivateMessageReportView {
                creator,
                private_message,
                private_message_creator,
                private_message_report,
                resolver,
            },
        )
    }

    proof fn lemma_round_trip(&self) {
        Self::lemma_members(
            self.creator.tree(),
            self.private_message.tree(),
            self.private_message_creator.tree(),
            self.private_message_report.tree(),
            written(self.resolver),
        );
        self.creator.lemma_round_trip();
        self.private_message.lemma_round_trip();
        self.private_message_creator.lemma_round_trip();
        self.private_message_report.lemma_round_trip();
        lemma_optional_round_trip(self.resolver);
    }

    proof fn lemma_reads_one(&self, other: &Self, t: JsonTree) {
        lemma_required_reads_one(self.creator, other.creator, t, "creator"@);
        lemma_required_reads_one(
            self.private_message,
            other.private_message,
            t,
            "private_message"@,
        );
        lemma_required_reads_one(
            self.private_message_creator,
            other.private_message_creator,
            t,
            "private_message_creator"@,
        );
        lemma_required_reads_one(
            self.private_message_report,
            other.private_message_report,
            t,
            "private_message_report"@,
        );
        lemma_optional_reads_one(self.resolver, other.resolver, t, "resolver"@);
    }
}

#[derive(Clone, Debug, PartialEq, Default)]
pub struct PrivateMessageResponse {
    pub private_message_view: PrivateMessageView,
}

impl PrivateMessageResponse {
    /// The members that a record is written as, from what is written for
    /// each of its fields.
    pub open spec fn members(private_message_view: JsonTree) -> Seq<Member> {
        let members = Seq::empty();
        let members = with_field(members, "private_message_view"@, private_message_view);
        members
    }

    /// Each key leads to what was written under it, and to nothing where
    /// nothing was written.
    pub proof fn lemma_members(private_message_view: JsonTree)
        ensures
            ({
                let members = Self::members(private_message_view);
                &&& lookup(members, "private_message_view"@) == Some(private_message_view)
            }),
    {
        broadcast use group_written_members;

        reveal_strlit("private_message_view");
        assert("private_message_view"@.len() == 20);
    }

    /// Every field is mandatory: each is written, in order, and nothing
    /// else.
    pub proof fn lemma_mandatory_fields_alone(private_message_view: JsonTree)
        ensures
            Self::members(private_message_view) == Seq::<Member>::empty()
                .push(("private_message_view"@, private_message_view)),
    {
        reveal(with_field);
        reveal(with_optional);
    }
}

impl Payload for PrivateMessageResponse {
    open spec fn tree(&self) -> JsonTree {
        JsonTree::Object(Self::members(self.private_message_view.tree()))
    }

    open spec fn admits(t: JsonTree) -> bool {
        &&& t is Object
        &&& required_admits::<PrivateMessageView>(t, "private_message_view"@)
    }

    open spec fn agrees(&self, t: JsonTree) -> bool {
        &&& required_agrees(self.private_message_view, t, "private_message_view"@)
    }

    fn to_json(&self) -> (out: JsonValue) {
        let mut members: Vec<(String, JsonValue)> = Vec::new();
        assert(members_view(members@) =~= Seq::empty());
        put(&mut members, "private_message_view", &self.private_message_view);
        object(members)
    }

    fn from_json(v: &JsonValue) -> (res: Option<Self>) {
        if !v.is_object() {
            return None;
        }
        let private_message_view = required::<PrivateMessageView>(v, "private_message_view")?;
        Some(PrivateMessageResponse { private_message_view })
    }

    proof fn lemma_round_trip(&self) {
        Self::lemma_members(self.private_message_view.tree());
        self.private_message_view.lemma_round_trip();
    }

    proof fn lemma_reads_one(&self, other: &Self, t: JsonTree) {
        lemma_required_reads_one(
            self.private_message_view,
            other.private_message_view,
            t,
            "private_message_view"@,
        );
    }
}

#[derive(Clone, Debug, PartialEq, Default)]
pub struct PrivateMessageView {
    pub creator: Person,
    pub private_message: PrivateMessage,
    pub receipient: Person,
}

impl PrivateMessageView {
    /// The members that a record is written as, from what is written for
    /// each of its fields.
    pub open spec fn members(
        creator: JsonTree,
        private_message: JsonTree,
        receipient: JsonTree,
    ) -> Seq<Member> {
        let members = Seq::empty();
        let members = with_field(members, "creator"@, creator);
        let members = with_field(members, "private_message"@, private_message);
        let members = with_field(members, "receipient"@, receipient);
        members
    }

    /// Each key leads to what was written under it, and to nothing where
    /// nothing was written.
    pub proof fn lemma_members(creator: JsonTree, private_message: JsonTree, receipient: JsonTree)
        ensures
            ({
                let members = Self::members(creator, private_message, receipient);
                &&& lookup(members, "creator"@) == Some(creator)
                &&& lookup(members, "private_message"@) == Some(private_message)
                &&& lookup(members, "receipient"@) == Some(receipient)
            }),
    {
        broadcast use group_written_members;

        reveal_strlit("creator");
        reveal_strlit("private_message");
        reveal_strlit("receipient");
        assert("creator"@.len() == 7);
        assert("private_message"@.len() == 15);
        assert("receipient"@.len() == 10);
    }

    /// Every field is mandatory: each is written, in order, and nothing
    /// else.
    pub proof fn lemma_mandatory_fields_alone(
        creator: JsonTree,
        private_message: JsonTree,
        receipient: JsonTree,
    )
        ensures
            Self::members(creator, private_message, receipient) == Seq::<Member>::empty()
                .push(("creator"@, creator))
                .push(("private_message"@, private_message))
                .push(("receipient"@, receipient)),
    {
        reveal(with_field);
        reveal(with_optional);
    }
}

impl Payload for PrivateMessageView {
    open spec fn tree(&self) -> JsonTree {
        JsonTree::Object(
            Self::members(self.creator.tree(), self.private_message.tree(), self.receipient.tree()),
        )
    }

    open spec fn admits(t: JsonTree) -> bool {
        &&& t is Object
        &&& required_admits::<Person>(t, "creator"@)
        &&& required_admits::<PrivateMessage>(t, "private_message"@)
        &&& required_admits::<Person>(t, "receipient"@)
    }

    open spec fn agrees(&self, t: JsonTree) -> bool {
        &&& required_agrees(self.creator, t, "creator"@)
        &&& required_agrees(self.private_message, t, "private_message"@)
        &&& required_agrees(self.receipient, t, "receipient"@)
    }

    fn to_json(&self) -> (out: JsonValue) {
        let mut members: Vec<(String, JsonValue)> = Vec::new();
        assert(members_view(members@) =~= Seq::empty());
        put(&mut members, "creator", &self.creator);
        put(&mut members, "private_message", &self.private_message);
        put(&mut members, "receipient", &self.receipient);
        object(members)
    }

    fn from_json(v: &JsonValue) -> (res: Option<Self>) {
        if !v.is_object() {
            return None;
        }
        let creator = required::<Person>(v, "creator")?;
        let private_message = required::<PrivateMessage>(v, "private_message")?;
        let receipient = required::<Person>(v, "receipient")?;
        Some(PrivateMessageView { creator, private_message, receipient })
    }

    proof fn lemma_round_trip(&self) {
        Self::lemma_members(
            self.creator.tree(),
            self.private_message.tree(),
            self.receipient.tree(),
        );
        self.creator.lemma_round_trip();
        self.private_message.lemma_round_trip();
        self.receipient.lemma_round_trip();
    }

    proof fn lemma_reads_one(&self, other: &Self, t: JsonTree) {
        lemma_required_reads_one(self.creator, other.creator, t, "creator"@);
        lemma_required_reads_one(
            self.private_message,
            other.private_message,
            t,
            "private_message"@,
        );
        lemma_required_reads_one(self.receipient, other.receipient, t, "receipient"@);
    }
}

#[derive(Clone, Debug, PartialEq, Default)]
pub struct PrivateMessagesResponse {
    pub private_messages: Vec<PrivateMessageView>,
}

impl PrivateMessagesResponse {
    /// The members that a record is written as, from what is written for
    /// each of its fields.
    pub open spec fn members(private_messages: JsonTree) -> Seq<Member> {
        let members = Seq::empty();
        let members = with_field(members, "private_messages"@, private_messages);
        members
    }

    /// Each key leads to what was written under it, and to nothing where
    /// nothing was written.
    pub proof fn lemma_members(private_messages: JsonTree)
        ensures
            ({
                let members = Self::members(private_messages);
                &&& lookup(members, "private_messages"@) == Some(private_messages)
            }),
    {
        broadcast use group_written_members;

        reveal_strlit("private_messages");
        assert("private_messages"@.len() == 16);
    }

    /// Every field is mandatory: each is written, in order, and nothing
    /// else.
    pub proof fn lemma_mandatory_fields_alone(private_messages: JsonTree)
        ensures
            Self::members(private_messages) == Seq::<Member>::empty()
                .push(("private_messages"@, private_messages)),
    {
        reveal(with_field);
        reveal(with_optional);
    }
}

impl Payload for PrivateMessagesResponse {
    open spec fn tree(&self) -> JsonTree {
        JsonTree::Object(Self::members(self.private_messages.tree()))
    }

    open spec fn admits(t: JsonTree) -> bool {
        &&& t is Object
        &&& required_admits::<Vec<PrivateMessageView>>(t, "private_messages"@)
    }

    open spec fn agrees(&self, t: JsonTree) -> bool {
        &&& required_agrees(self.private_messages, t, "private_messages"@)
    }

    fn to_json(&self) -> (out: JsonValue) {
        let mut members: Vec<(String, JsonValue)> = Vec::new();
        assert(members_view(members@) =~= Seq::empty());
        put(&mut members, "private_messages", &self.private_messages);
        object(members)
    }

    fn from_json(v: &JsonValue) -> (res: Option<Self>) {
        if !v.is_object() {
            return None;
        }
        let private_messages = required::<Vec<PrivateMessageView>>(v, "private_messages")?;
        Some(PrivateMessagesResponse { private_messages })
    }

    proof fn lemma_round_trip(&self) {
        Self::lemma_members(self.private_messages.tree());
        self.private_messages.lemma_round_trip();
    }

    proof fn lemma_reads_one(&self, other: &Self, t: JsonTree) {
        lemma_required_reads_one(
            self.private_messages,
            other.private_messages,
            t,
            "private_messages"@,
        );
    }
}

#[derive(Clone, Debug, PartialEq, Default)]
pub struct ResolvePrivateMEssageReport {
    pub auth: String,
    pub report_id: i32,
    pub resolved: bool,
}

impl ResolvePrivateMEssageReport {
    /// The members that a record is written as, from what is written for
    /// each of its fields.
    pub open spec fn members(
        auth: JsonTree,
        report_id: JsonTree,
        resolved: JsonTree,
    ) -> Seq<Member> {
        let members = Seq::empty();
        let members = with_field(members, "auth"@, auth);
        let members = with_field(members, "report_id"@, report_id);
        let members = with_field(members, "resolved"@, resolved);
        members
    }

    /// Each key leads to what was written under it, and to nothing where
    /// nothing was written.
    pub proof fn lemma_members(auth: JsonTree, report_id: JsonTree, resolved: JsonTree)
        ensures
            ({
                let members = Self::members(auth, report_id, resolved);
                &&& lookup(members, "auth"@) == Some(auth)
                &&& lookup(members, "report_id"@) == Some(report_id)
                &&& lookup(members, "resolved"@) == Some(resolved)
            }),
    {
        broadcast use group_written_members;

        reveal_strlit("auth");
        reveal_strlit("report_id");
        reveal_strlit("resolved");
        assert("auth"@.len() == 4);
        assert("report_id"@.len() == 9);
        assert("resolved"@.len() == 8);
    }

    /// Every field is mandatory: each is written, in order, and nothing
    /// else.
    pub proof fn lemma_mandatory_fields_alone(
        auth: JsonTree,
        report_id: JsonTree,
        resolved: JsonTree,
    )
        ensures
            Self::members(auth, report_id, resolved) == Seq::<Member>::empty()
                .push(("auth"@, auth))
                .push(("report_id"@, report_id))
                .push(("resolved"@, resolved)),
    {
        reveal(with_field);
        reveal(with_optional);
    }
}

impl Payload for ResolvePrivateMEssageReport {
    open spec fn tree(&self) -> JsonTree {
        JsonTree::Object(
            Self::members(self.auth.tree(), self.report_id.tree(), self.resolved.tree()),
        )
    }

    open spec fn admits(t: JsonTree) -> bool {
        &&& t is Object
        &&& required_admits::<String>(t, "auth"@)
        &&& required_admits::<i32>(t, "report_id"@)
        &&& required_admits::<bool>(t, "resolved"@)
    }

    open spec fn agrees(&self, t: JsonTree) -> bool {
        &&& required_agrees(self.auth, t, "auth"@)
        &&& required_agrees(self.report_id, t, "report_id"@)
        &&& required_agrees(self.resolved, t, "resolved"@)
    }

    fn to_json(&self) -> (out: JsonValue) {
        let mut members: Vec<(String, JsonValue)> = Vec::new();
        assert(members_view(members@) =~= Seq::empty());
        put(&mut members, "auth", &self.auth);
        put(&mut members, "report_id", &self.report_id);
        put(&mut members, "resolved", &self.resolved);
        object(members)
    }

    fn from_json(v: &JsonValue) -> (res: Option<Self>) {
        if !v.is_object() {
            return None;
        }
        let auth = required::<String>(v, "auth")?;
        let report_id = required::<i32>(v, "report_id")?;
        let resolved = required::<bool>(v, "resolved")?;
        Some(ResolvePrivateMEssageReport { auth, report_id, resolved })
    }

    proof fn lemma_round_trip(&self) {
        Self::lemma_members(self.auth.tree(), self.report_id.tree(), self.resolved.tree());
        self.auth.lemma_round_trip();
        self.report_id.lemma_round_trip();
        self.resolved.lemma_round_trip();
    }

    proof fn lemma_reads_one(&self, other: &Self, t: JsonTree) {
        lemma_required_reads_one(self.auth, other.auth, t, "auth"@);
        lemma_required_reads_one(self.report_id, other.report_id, t, "report_id"@);
        lemma_required_reads_one(self.resolved, other.resolved, t, "resolved"@);
    }
}

} // verus!
