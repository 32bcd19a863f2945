//! Records of comments: the comments themselves, their counters, and the
//! requests that read and change them.

use vstd::prelude::*;
use crate::json::{lookup, JsonTree, JsonValue, Member};
use crate::payload::{
    group_written_members, lemma_optional_reads_one, lemma_optional_round_trip,
    lemma_required_reads_one, members_view, object, optional, optional_admits, optional_agrees,
    put, put_optional, required, required_admits, required_agrees, with_field, with_optional,
    written, Payload,
};
use crate::enums::{CommentSortType, ListingType, SubscribedType};
use crate::records::community::{Community};
use crate::records::person::{Person};
use crate::records::post::{Post};

verus! {

#[derive(Clone, Debug, PartialEq, Default)]
pub struct Comment {
    pub ap_id: String,
    pub content: String,
    pub creator_id: i32,
    pub deleted: bool,
    pub distinguished: bool,
    pub id: i32,
    pub language_id: i32,
    pub local: bool,
    pub path: String,
    pub post_id: i32,
    pub published: String,
    pub removed: bool,
    pub updated: Option<String>,
}

impl Comment {
    /// The members that a record is written as, from what is written for
    /// each of its fields.
    pub open spec fn members(
        ap_id: JsonTree,
        content: JsonTree,
        creator_id: JsonTree,
        deleted: JsonTree,
        distinguished: JsonTree,
        id: JsonTree,
        language_id: JsonTree,
        local: JsonTree,
        path: JsonTree,
        post_id: JsonTree,
        published: JsonTree,
        removed: JsonTree,
        updated: Option<JsonTree>,
    ) -> Seq<Member> {
        let members = Seq::empty();
        let members = with_field(members, "ap_id"@, ap_id);
        let members = with_field(members, "content"@, content);
        let members = with_field(members, "creator_id"@, creator_id);
        let members = with_field(members, "deleted"@, deleted);
        let members = with_field(members, "distinguished"@, distinguished);
        let members = with_field(members, "id"@, id);
        let members = with_field(members, "language_id"@, language_id);
        let members = with_field(members, "local"@, local);
        let members = with_field(members, "path"@, path);
        let members = with_field(members, "post_id"@, post_id);
        let members = with_field(members, "published"@, published);
        let members = with_field(members, "removed"@, removed);
        let members = with_optional(members, "updated"@, updated);
        members
    }

    /// Each key leads to what was written under it, and to nothing where
    /// nothing was written.
    pub proof fn lemma_members(
        ap_id: JsonTree,
        content: JsonTree,
        creator_id: JsonTree,
        deleted: JsonTree,
        distinguished: JsonTree,
        id: JsonTree,
        language_id: JsonTree,
        local: JsonTree,
        path: JsonTree,
        post_id: JsonTree,
        published: JsonTree,
        removed: JsonTree,
        updated: Option<JsonTree>,
    )
        ensures
            ({
                let members = Self::members(
                    ap_id,
                    content,
                    creator_id,
                    deleted,
                    distinguished,
                    id,
                    language_id,
                    local,
                    path,
                    post_id,
                    published,
                    removed,
                    updated,
                );
                &&& lookup(members, "ap_id"@) == Some(ap_id)
                &&& lookup(members, "content"@) == Some(content)
                &&& lookup(members, "creator_id"@) == Some(creator_id)
                &&& lookup(members, "deleted"@) == Some(deleted)
                &&& lookup(members, "distinguished"@) == Some(distinguished)
                &&& lookup(members, "id"@) == Some(id)
                &&& lookup(members, "language_id"@) == Some(language_id)
                &&& lookup(members, "local"@) == Some(local)
                &&& lookup(members, "path"@) == Some(path)
                &&& lookup(members, "post_id"@) == Some(post_id)
                &&& lookup(members, "published"@) == Some(published)
                &&& lookup(members, "removed"@) == Some(removed)
                &&& lookup(members, "updated"@) == updated
            }),
    {
        broadcast use group_written_members;

        reveal_strlit("ap_id");
        reveal_strlit("content");
        reveal_strlit("creator_id");
        reveal_strlit("deleted");
        reveal_strlit("distinguished");
        reveal_strlit("id");
        reveal_strlit("language_id");
        reveal_strlit("local");
        reveal_strlit("path");
        reveal_strlit("post_id");
        reveal_strlit("published");
        reveal_strlit("removed");
        reveal_strlit("updated");
        assert("ap_id"@.len() == 5 && "ap_id"@[0] == 'a');
        assert("content"@.len() == 7 && "content"@[0] == 'c');
        assert("creator_id"@.len() == 10);
        assert("deleted"@.len() == 7 && "deleted"@[0] == 'd');
        assert("distinguished"@.len() == 13);
        assert("id"@.len() == 2);
        assert("language_id"@.len() == 11);
        assert("local"@.len() == 5 && "local"@[0] == 'l');
        assert("path"@.len() == 4);
        assert("post_id"@.len() == 7 && "post_id"@[0] == 'p');
        assert("published"@.len() == 9);
        assert("removed"@.len() == 7 && "removed"@[0] == 'r');
        assert("updated"@.len() == 7 && "updated"@[0] == 'u');
    }

    /// With every optional field absent, the mandatory fields are written
    /// and nothing else.
    pub proof fn lemma_mandatory_fields_alone(
        ap_id: JsonTree,
        content: JsonTree,
        creator_id: JsonTree,
        deleted: JsonTree,
        distinguished: JsonTree,
        id: JsonTree,
        language_id: JsonTree,
        local: JsonTree,
        path: JsonTree,
        post_id: JsonTree,
        published: JsonTree,
        removed: JsonTree,
    )
        ensures
            Self::members(
                ap_id,
                content,
                creator_id,
                deleted,
                distinguished,
                id,
                language_id,
                local,
                path,
                post_id,
                published,
                removed,
                None,
            ) == Seq::<Member>::empty()
                .push(("ap_id"@, ap_id))
                .push(("content"@, content))
                .push(("creator_id"@, creator_id))
                .push(("deleted"@, deleted))
                .push(("distinguished"@, distinguished))
                .push(("id"@, id))
                .push(("language_id"@, language_id))
                .push(("local"@, local))
                .push(("path"@, path))
                .push(("post_id"@, post_id))
                .push(("published"@, published))
                .push(("removed"@, removed)),
    {
        reveal(with_field);
        reveal(with_optional);
    }
}

impl Payload for Comment {
    open spec fn tree(&self) -> JsonTree {
        JsonTree::Object(
            Self::members(
                self.ap_id.tree(),
                self.content.tree(),
                self.creator_id.tree(),
                self.deleted.tree(),
                self.distinguished.tree(),
                self.id.tree(),
                self.language_id.tree(),
                self.local.tree(),
                self.path.tree(),
                self.post_id.tree(),
                self.published.tree(),
                self.removed.tree(),
                written(self.updated),
            ),
        )
    }

    open spec fn admits(t: JsonTree) -> bool {
        &&& t is Object
        &&& required_admits::<String>(t, "ap_id"@)
        &&& required_admits::<String>(t, "content"@)
        &&& required_admits::<i32>(t, "creator_id"@)
        &&& required_admits::<bool>(t, "deleted"@)
        &&& required_admits::<bool>(t, "distinguished"@)
        &&& required_admits::<i32>(t, "id"@)
        &&& required_admits::<i32>(t, "language_id"@)
        &&& required_admits::<bool>(t, "local"@)
        &&& required_admits::<String>(t, "path"@)
        &&& required_admits::<i32>(t, "post_id"@)
        &&& required_admits::<String>(t, "published"@)
        &&& required_admits::<bool>(t, "removed"@)
        &&& optional_admits::<String>(t, "updated"@)
    }

    open spec fn agrees(&self, t: JsonTree) -> bool {
        &&& required_agrees(self.ap_id, t, "ap_id"@)
        &&& required_agrees(self.content, t, "content"@)
        &&& required_agrees(self.creator_id, t, "creator_id"@)
        &&& required_agrees(self.deleted, t, "deleted"@)
        &&& required_agrees(self.distinguished, t, "distinguished"@)
        &&& required_agrees(self.id, t, "id"@)
        &&& required_agrees(self.language_id, t, "language_id"@)
        &&& required_agrees(self.local, t, "local"@)
        &&& required_agrees(self.path, t, "path"@)
        &&& required_agrees(self.post_id, t, "post_id"@)
        &&& required_agrees(self.published, t, "published"@)
        &&& required_agrees(self.removed, t, "removed"@)
        &&& optional_agrees(self.updated, t, "updated"@)
    }

    fn to_json(&self) -> (out: JsonValue) {
        let mut members: Vec<(String, JsonValue)> = Vec::new();
        assert(members_view(members@) =~= Seq::empty());
        put(&mut members, "ap_id", &self.ap_id);
        put(&mut members, "content", &self.content);
        put(&mut members, "creator_id", &self.creator_id);
        put(&mut members, "deleted", &self.deleted);
        put(&mut members, "distinguished", &self.distinguished);
        put(&mut members, "id", &self.id);
        put(&mut members, "language_id", &self.language_id);
        put(&mut members, "local", &self.local);
        put(&mut members, "path", &self.path);
        put(&mut members, "post_id", &self.post_id);
        put(&mut members, "published", &self.published);
        put(&mut members, "removed", &self.removed);
        put_optional(&mut members, "updated", &self.updated);
        object(members)
    }

    fn from_json(v: &JsonValue) -> (res: Option<Self>) {
        if !v.is_object() {
            return None;
        }
        let ap_id = required::<String>(v, "ap_id")?;
        let content = required::<String>(v, "content")?;
        let creator_id = required::<i32>(v, "creator_id")?;
        let deleted = required::<bool>(v, "deleted")?;
        let distinguished = required::<bool>(v, "distinguished")?;
        let id = required::<i32>(v, "id")?;
        let language_id = required::<i32>(v, "language_id")?;
        let local = required::<bool>(v, "local")?;
        let path = required::<String>(v, "path")?;
        let post_id = required::<i32>(v, "post_id")?;
        let published = required::<String>(v, "published")?;
        let removed = required::<bool>(v, "removed")?;
        let updated = optional::<String>(v, "updated")?;
        Some(
            Comment {
                ap_id,
                content,
                creator_id,
                deleted,
                distinguished,
                id,
                language_id,
                local,
                path,
                post_id,
                published,
                removed,
                updated,
            },
        )
    }

    proof fn lemma_round_trip(&self) {
        Self::lemma_members(
            self.ap_id.tree(),
            self.content.tree(),
            self.creator_id.tree(),
            self.deleted.tree(),
            self.distinguished.tree(),
            self.id.tree(),
            self.language_id.tree(),
            self.local.tree(),
            self.path.tree(),
            self.post_id.tree(),
            self.published.tree(),
            self.removed.tree(),
            written(self.updated),
        );
        self.ap_id.lemma_round_trip();
        self.content.lemma_round_trip();
        self.creator_id.lemma_round_trip();
        self.deleted.lemma_round_trip();
        self.distinguished.lemma_round_trip();
        self.id.lemma_round_trip();
        self.language_id.lemma_round_trip();
        self.local.lemma_round_trip();
        self.path.lemma_round_trip();
        self.post_id.lemma_round_trip();
        self.published.lemma_round_trip();
        self.removed.lemma_round_trip();
        lemma_optional_round_trip(self.updated);
    }

    proof fn lemma_reads_one(&self, other: &Self, t: JsonTree) {
        lemma_required_reads_one(self.ap_id, other.ap_id, t, "ap_id"@);
        lemma_required_reads_one(self.content, other.content, t, "content"@);
        lemma_required_reads_one(self.creator_id, other.creator_id, t, "creator_id"@);
        lemma_required_reads_one(self.deleted, other.deleted, t, "deleted"@);
        lemma_required_reads_one(self.distinguished, other.distinguished, t, "distinguished"@);
        lemma_required_reads_one(self.id, other.id, t, "id"@);
        lemma_required_reads_one(self.language_id, other.language_id, t, "language_id"@);
        lemma_required_reads_one(self.local, other.local, t, "local"@);
        lemma_required_reads_one(self.path, other.path, t, "path"@);
        lemma_required_reads_one(self.post_id, other.post_id, t, "post_id"@);
        lemma_required_reads_one(self.published, other.published, t, "published"@);
        lemma_required_reads_one(self.removed, other.removed, t, "removed"@);
        lemma_optional_reads_one(self.updated, other.updated, t, "updated"@);
    }
}

#[derive(Clone, Debug, PartialEq, Default)]
pub struct CommentAggregates {
    pub child_count: i32,
    pub downvotes: i32,
    pub hot_rank: i32,
    pub id: i32,
    pub published: String,
    pub score: i32,
    pub upvotes: i32,
}

impl CommentAggregates {
    /// The members that a record is written as, from what is written for
    /// each of its fields.
    pub open spec fn members(
        child_count: JsonTree,
        downvotes: JsonTree,
        hot_rank: JsonTree,
        id: JsonTree,
        published: JsonTree,
        score: JsonTree,
        upvotes: JsonTree,
    ) -> Seq<Member> {
        let members = Seq::empty();
        let members = with_field(members, "child_count"@, child_count);
        let members = with_field(members, "downvotes"@, downvotes);
        let members = with_field(members, "hot_rank"@, hot_rank);
        let members = with_field(members, "id"@, id);
        let members = with_field(members, "published"@, published);
        let members = with_field(members, "score"@, score);
        let members = with_field(members, "upvotes"@, upvotes);
        members
    }

    /// Each key leads to what was written under it, and to nothing where
    /// nothing was written.
    pub proof fn lemma_members(
        child_count: JsonTree,
        downvotes: JsonTree,
        hot_rank: JsonTree,
        id: JsonTree,
        published: JsonTree,
        score: JsonTree,
        upvotes: JsonTree,
    )
        ensures
            ({
                let members = Self::members(
                    child_count,
                    downvotes,
                    hot_rank,
                    id,
                    published,
                    score,
                    upvotes,
                );
                &&& lookup(members, "child_count"@) == Some(child_count)
                &&& lookup(members, "downvotes"@) == Some(downvotes)
                &&& lookup(members, "hot_rank"@) == Some(hot_rank)
                &&& lookup(members, "id"@) == Some(id)
                &&& lookup(members, "published"@) == Some(published)
                &&& lookup(members, "score"@) == Some(score)
                &&& lookup(members, "upvotes"@) == Some(upvotes)
            }),
    {
        broadcast use group_written_members;

        reveal_strlit("child_count");
        reveal_strlit("downvotes");
        reveal_strlit("hot_rank");
        reveal_strlit("id");
        reveal_strlit("published");
        reveal_strlit("score");
        reveal_strlit("upvotes");
        assert("child_count"@.len() == 11);
        assert("downvotes"@.len() == 9 && "downvotes"@[0] == 'd');
        assert("hot_rank"@.len() == 8);
        assert("id"@.len() == 2);
        assert("published"@.len() == 9 && "published"@[0] == 'p');
        assert("score"@.len() == 5);
        assert("upvotes"@.len() == 7);
    }

    /// Every field is mandatory: each is written, in order, and nothing
    /// else.
    pub proof fn lemma_mandatory_fields_alone(
        child_count: JsonTree,
        downvotes: JsonTree,
        hot_rank: JsonTree,
        id: JsonTree,
        published: JsonTree,
        score: JsonTree,
        upvotes: JsonTree,
    )
        ensures
            Self::members(
                child_count,
                downvotes,
                hot_rank,
                id,
                published,
                score,
                upvotes,
            ) == Seq::<Member>::empty()
                .push(("child_count"@, child_count))
                .push(("downvotes"@, downvotes))
                .push(("hot_rank"@, hot_rank))
                .push(("id"@, id))
                .push(("published"@, published))
                .push(("score"@, score))
                .push(("upvotes"@, upvotes)),
    {
        reveal(with_field);
        reveal(with_optional);
    }
}

impl Payload for CommentAggregates {
    open spec fn tree(&self) -> JsonTree {
        JsonTree::Object(
            Self::members(
                self.child_count.tree(),
                self.downvotes.tree(),
                self.hot_rank.tree(),
                self.id.tree(),
                self.published.tree(),
                self.score.tree(),
                self.upvotes.tree(),
            ),
        )
    }

    open spec fn admits(t: JsonTree) -> bool {
        &&& t is Object
        &&& required_admits::<i32>(t, "child_count"@)
        &&& required_admits::<i32>(t, "downvotes"@)
        &&& required_admits::<i32>(t, "hot_rank"@)
        &&& required_admits::<i32>(t, "id"@)
        &&& required_admits::<String>(t, "published"@)
        &&& required_admits::<i32>(t, "score"@)
        &&& required_admits::<i32>(t, "upvotes"@)
    }

    open spec fn agrees(&self, t: JsonTree) -> bool {
        &&& required_agrees(self.child_count, t, "child_count"@)
        &&& required_agrees(self.downvotes, t, "downvotes"@)
        &&& required_agrees(self.hot_rank, t, "hot_rank"@)
        &&& required_agrees(self.id, t, "id"@)
        &&& required_agrees(self.published, t, "published"@)
        &&& required_agrees(self.score, t, "score"@)
        &&& required_agrees(self.upvotes, t, "upvotes"@)
    }

    fn to_json(&self) -> (out: JsonValue) {
        let mut members: Vec<(String, JsonValue)> = Vec::new();
        assert(members_view(members@) =~= Seq::empty());
        put(&mut members, "child_count", &self.child_count);
        put(&mut members, "downvotes", &self.downvotes);
        put(&mut members, "hot_rank", &self.hot_rank);
        put(&mut members, "id", &self.id);
        put(&mut members, "published", &self.published);
        put(&mut members, "score", &self.score);
        put(&mut members, "upvotes", &self.upvotes);
        object(members)
    }

    fn from_json(v: &JsonValue) -> (res: Option<Self>) {
        if !v.is_object() {
            return None;
        }
        let child_count = required::<i32>(v, "child_count")?;
        let downvotes = required::<i32>(v, "downvotes")?;
        let hot_rank = required::<i32>(v, "hot_rank")?;
        let id = required::<i32>(v, "id")?;
        let published = required::<String>(v, "published")?;
        let score = required::<i32>(v, "score")?;
        let upvotes = required::<i32>(v, "upvotes")?;
        Some(CommentAggregates { child_count, downvotes, hot_rank, id, published, score, upvotes })
    }

    proof fn lemma_round_trip(&self) {
        Self::lemma_members(
            self.child_count.tree(),
            self.downvotes.tree(),
            self.hot_rank.tree(),
            self.id.tree(),
            self.published.tree(),
            self.score.tree(),
            self.upvotes.tree(),
        );
        self.child_count.lemma_round_trip();
        self.downvotes.lemma_round_trip();
        self.hot_rank.lemma_round_trip();
        self.id.lemma_round_trip();
        self.published.lemma_round_trip();
        self.score.lemma_round_trip();
        self.upvotes.lemma_round_trip();
    }

    proof fn lemma_reads_one(&self, other: &Self, t: JsonTree) {
        lemma_required_reads_one(self.child_count, other.child_count, t, "child_count"@);
        lemma_required_reads_one(self.downvotes, other.downvotes, t, "downvotes"@);
        lemma_required_reads_one(self.hot_rank, other.hot_rank, t, "hot_rank"@);
        lemma_required_reads_one(self.id, other.id, t, "id"@);
        lemma_required_reads_one(self.published, other.published, t, "published"@);
        lemma_required_reads_one(self.score, other.score, t, "score"@);
        lemma_required_reads_one(self.upvotes, other.upvotes, t, "upvotes"@);
    }
}

#[derive(Clone, Debug, PartialEq, Default)]
pub struct CommentReply {
    pub community_id: i32,
    pub id: i32,
    pub published: String,
    pub read: bool,
    pub receipient_id: i32,
}

impl CommentReply {
    /// The members that a record is written as, from what is written for
    /// each of its fields.
    pub open spec fn members(
        community_id: JsonTree,
        id: JsonTree,
        published: JsonTree,
        read: JsonTree,
        receipient_id: JsonTree,
    ) -> Seq<Member> {
        let members = Seq::empty();
        let members = with_field(members, "community_id"@, community_id);
        let members = with_field(members, "id"@, id);
        let members = with_field(members, "published"@, published);
        let members = with_field(members, "read"@, read);
        let members = with_field(members, "receipient_id"@, receipient_id);
        members
    }

    /// Each key leads to what was written under it, and to nothing where
    /// nothing was written.
    pub proof fn lemma_members(
        community_id: JsonTree,
        id: JsonTree,
        published: JsonTree,
        read: JsonTree,
        receipient_id: JsonTree,
    )
        ensures
            ({
                let members = Self::members(community_id, id, published, read, receipient_id);
                &&& lookup(members, "community_id"@) == Some(community_id)
                &&& lookup(members, "id"@) == Some(id)
                &&& lookup(members, "published"@) == Some(published)
                &&& lookup(members, "read"@) == Some(read)
                &&& lookup(members, "receipient_id"@) == Some(receipient_id)
            }),
    {
        broadcast use group_written_members;

        reveal_strlit("community_id");
        reveal_strlit("id");
        reveal_strlit("published");
        reveal_strlit("read");
        reveal_strlit("receipient_id");
        assert("community_id"@.len() == 12);
        assert("id"@.len() == 2);
        assert("published"@.len() == 9);
        assert("read"@.len() == 4);
        assert("receipient_id"@.len() == 13);
    }

    /// Every field is mandatory: each is written, in order, and nothing
    /// else.
    pub proof fn lemma_mandatory_fields_alone(
        community_id: JsonTree,
        id: JsonTree,
        published: JsonTree,
        read: JsonTree,
        receipient_id: JsonTree,
    )
        ensures
            Self::members(
                community_id,
                id,
                published,
                read,
                receipient_id,
            ) == Seq::<Member>::empty()
                .push(("community_id"@, community_id))
                .push(("id"@, id))
                .push(("published"@, published))
                .push(("read"@, read))
                .push(("receipient_id"@, receipient_id)),
    {
        reveal(with_field);
        reveal(with_optional);
    }
}

impl Payload for CommentReply {
    open spec fn tree(&self) -> JsonTree {
        JsonTree::Object(
            Self::members(
                self.community_id.tree(),
                self.id.tree(),
                self.published.tree(),
                self.read.tree(),
                self.receipient_id.tree(),
            ),
        )
    }

    open spec fn admits(t: JsonTree) -> bool {
        &&& t is Object
        &&& required_admits::<i32>(t, "community_id"@)
        &&& required_admits::<i32>(t, "id"@)
        &&& required_admits::<String>(t, "published"@)
        &&& required_admits::<bool>(t, "read"@)
        &&& required_admits::<i32>(t, "receipient_id"@)
    }

    open spec fn agrees(&self, t: JsonTree) -> bool {
        &&& required_agrees(self.community_id, t, "community_id"@)
        &&& required_agrees(self.id, t, "id"@)
        &&& required_agrees(self.published, t, "published"@)
        &&& required_agrees(self.read, t, "read"@)
        &&& required_agrees(self.receipient_id, t, "receipient_id"@)
    }

    fn to_json(&self) -> (out: JsonValue) {
        let mut members: Vec<(String, JsonValue)> = Vec::new();
        assert(members_view(members@) =~= Seq::empty());
        put(&mut members, "community_id", &self.community_id);
        put(&mut members, "id", &self.id);
        put(&mut members, "published", &self.published);
        put(&mut members, "read", &self.read);
        put(&mut members, "receipient_id", &self.receipient_id);
        object(members)
    }

    fn from_json(v: &JsonValue) -> (res: Option<Self>) {
        if !v.is_object() {
            return None;
        }
        let community_id = required::<i32>(v, "community_id")?;
        let id = required::<i32>(v, "id")?;
        let published = required::<String>(v, "published")?;
        let read = required::<bool>(v, "read")?;
        let receipient_id = required::<i32>(v, "receipient_id")?;
        Some(CommentReply { community_id, id, published, read, receipient_id })
    }

    proof fn lemma_round_trip(&self) {
        Self::lemma_members(
            self.community_id.tree(),
            self.id.tree(),
            self.published.tree(),
            self.read.tree(),
            self.receipient_id.tree(),
        );
        self.community_id.lemma_round_trip();
        self.id.lemma_round_trip();
        self.published.lemma_round_trip();
        self.read.lemma_round_trip();
        self.receipient_id.lemma_round_trip();
    }

    proof fn lemma_reads_one(&self, other: &Self, t: JsonTree) {
        lemma_required_reads_one(self.community_id, other.community_id, t, "community_id"@);
        lemma_required_reads_one(self.id, other.id, t, "id"@);
        lemma_required_reads_one(self.published, other.published, t, "published"@);
        lemma_required_reads_one(self.read, other.read, t, "read"@);
        lemma_required_reads_one(self.receipient_id, other.receipient_id, t, "receipient_id"@);
    }
}

#[derive(Clone, Debug, PartialEq, Default)]
pub struct CommentReplyResponse {
    pub comment_reply_view: CommentReplyView,
}

impl CommentReplyResponse {
    /// The members that a record is written as, from what is written for
    /// each of its fields.
    pub open spec fn members(comment_reply_view: JsonTree) -> Seq<Member> {
        let members = Seq::empty();
        let members = with_field(members, "comment_reply_view"@, comment_reply_view);
        members
    }

    /// Each key leads to what was written under it, and to nothing where
    /// nothing was written.
    pub proof fn lemma_members(comment_reply_view: JsonTree)
        ensures
            ({
                let members = Self::members(comment_reply_view);
                &&& lookup(members, "comment_reply_view"@) == Some(comment_reply_view)
            }),
    {
        broadcast use group_written_members;

        reveal_strlit("comment_reply_view");
        assert("comment_reply_view"@.len() == 18);
    }

    /// Every field is mandatory: each is written, in order, and nothing
    /// else.
    pub proof fn lemma_mandatory_fields_alone(comment_reply_view: JsonTree)
        ensures
            Self::members(comment_reply_view) == Seq::<Member>::empty()
                .push(("comment_reply_view"@, comment_reply_view)),
    {
        reveal(with_field);
        reveal(with_optional);
    }
}

impl Payload for CommentReplyResponse {
    open spec fn tree(&self) -> JsonTree {
        JsonTree::Object(Self::members(self.comment_reply_view.tree()))
    }

    open spec fn admits(t: JsonTree) -> bool {
        &&& t is Object
        &&& required_admits::<CommentReplyView>(t, "comment_reply_view"@)
    }

    open spec fn agrees(&self, t: JsonTree) -> bool {
        &&& required_agrees(self.comment_reply_view, t, "comment_reply_view"@)
    }

    fn to_json(&self) -> (out: JsonValue) {
        let mut members: Vec<(String, JsonValue)> = Vec::new();
        assert(members_view(members@) =~= Seq::empty());
        put(&mut members, "comment_reply_view", &self.comment_reply_view);
        object(members)
    }

    fn from_json(v: &JsonValue) -> (res: Option<Self>) {
        if !v.is_object() {
            return None;
        }
        let comment_reply_view = required::<CommentReplyView>(v, "comment_reply_view")?;
        Some(CommentReplyResponse { comment_reply_view })
    }

    proof fn lemma_round_trip(&self) {
        Self::lemma_members(self.comment_reply_view.tree());
        self.comment_reply_view.lemma_round_trip();
    }

    proof fn lemma_reads_one(&self, other: &Self, t: JsonTree) {
        lemma_required_reads_one(
            self.comment_reply_view,
            other.comment_reply_view,
            t,
            "comment_reply_view"@,
        );
    }
}

#[derive(Clone, Debug, PartialEq, Default)]
pub struct CommentReplyView {
    pub comment: Comment,
    pub comment_reply: CommentReply,
    pub community: Community,
    pub counts: CommentAggregates,
    pub creator: Person,
    pub creator_banned_from_community: bool,
    pub creator_blocked: bool,
    pub my_vote: Option<i32>,
    pub post: Post,
    pub receipient: Person,
    pub saved: bool,
    pub subscribed: SubscribedType,
}

impl CommentReplyView {
    /// The members that a record is written as, from what is written for
    /// each of its fields.
    pub open spec fn members(
        comment: JsonTree,
        comment_reply: JsonTree,
        community: JsonTree,
        counts: JsonTree,
        creator: JsonTree,
        creator_banned_from_community: JsonTree,
        creator_blocked: JsonTree,
        my_vote: Option<JsonTree>,
        post: JsonTree,
        receipient: JsonTree,
        saved: JsonTree,
        subscribed: JsonTree,
    ) -> Seq<Member> {
        let members = Seq::empty();
        let members = with_field(members, "comment"@, comment);
        let members = with_field(members, "comment_reply"@, comment_reply);
        let members = with_field(members, "community"@, community);
        let members = with_field(members, "counts"@, counts);
        let members = with_field(members, "creator"@, creator);
        let members = with_field(
            members,
            "creator_banned_from_community"@,
            creator_banned_from_community,
        );
        let members = with_field(members, "creator_blocked"@, creator_blocked);
        let members = with_optional(members, "my_vote"@, my_vote);
        let members = with_field(members, "post"@, post);
        let members = with_field(members, "receipient"@, receipient);
        let members = with_field(members, "saved"@, saved);
        let members = with_field(members, "subscribed"@, subscribed);
        members
    }

    /// Each key leads to what was written under it, and to nothing where
    /// nothing was written.
    pub proof fn lemma_members(
        comment: JsonTree,
        comment_reply: JsonTree,
        community: JsonTree,
        counts: JsonTree,
        creator: JsonTree,
        creator_banned_from_community: JsonTree,
        creator_blocked: JsonTree,
        my_vote: Option<JsonTree>,
        post: JsonTree,
        receipient: JsonTree,
        saved: JsonTree,
        subscribed: JsonTree,
    )
        ensures
            ({
                let members = Self::members(
                    comment,
                    comment_reply,
                    community,
                    counts,
                    creator,
                    creator_banned_from_community,
                    creator_blocked,
                    my_vote,
                    post,
                    receipient,
                    saved,
                    subscribed,
                );
                &&& lookup(members, "comment"@) == Some(comment)
                &&& lookup(members, "comment_reply"@) == Some(comment_reply)
                &&& lookup(members, "community"@) == Some(community)
                &&& lookup(members, "counts"@) == Some(counts)
                &&& lookup(members, "creator"@) == Some(creator)
                &&& lookup(members, "creator_banned_from_community"@)
                    == Some(creator_banned_from_community)
                &&& lookup(members, "creator_blocked"@) == Some(creator_blocked)
                &&& lookup(members, "my_vote"@) == my_vote
                &&& lookup(members, "post"@) == Some(post)
                &&& lookup(members, "receipient"@) == Some(receipient)
                &&& lookup(members, "saved"@) == Some(saved)
                &&& lookup(members, "subscribed"@) == Some(subscribed)
            }),
    {
        broadcast use group_written_members;

        reveal_strlit("comment");
        reveal_strlit("comment_reply");
        reveal_strlit("community");
        reveal_strlit("counts");
        reveal_strlit("creator");
        reveal_strlit("creator_banned_from_community");
        reveal_strlit("creator_blocked");
        reveal_strlit("my_vote");
        reveal_strlit("post");
        reveal_strlit("receipient");
        reveal_strlit("saved");
        reveal_strlit("subscribed");
        assert("comment"@.len() == 7 && "comment"@[0] == 'c' && "comment"@[1] == 'o');
        assert("comment_reply"@.len() == 13);
        assert("community"@.len() == 9);
        assert("counts"@.len() == 6);
        assert("creator"@.len() == 7 && "creator"@[0] == 'c' && "creator"@[1] == 'r');
        assert("creator_banned_from_community"@.len() == 29);
        assert("creator_blocked"@.len() == 15);
        assert("my_vote"@.len() == 7 && "my_vote"@[0] == 'm');
        assert("post"@.len() == 4);
        assert("receipient"@.len() == 10 && "receipient"@[0] == 'r');
        assert("saved"@.len() == 5);
        assert("subscribed"@.len() == 10 && "subscribed"@[0] == 's');
    }

    /// With every optional field absent, the mandatory fields are written
    /// and nothing else.
    pub proof fn lemma_mandatory_fields_alone(
        comment: JsonTree,
        comment_reply: JsonTree,
        community: JsonTree,
        counts: JsonTree,
        creator: JsonTree,
        creator_banned_from_community: JsonTree,
        creator_blocked: JsonTree,
        post: JsonTree,
        receipient: JsonTree,
        saved: JsonTree,
        subscribed: JsonTree,
    )
        ensures
            Self::members(
                comment,
                comment_reply,
                community,
                counts,
                creator,
                creator_banned_from_community,
                creator_blocked,
                None,
                post,
                receipient,
                saved,
                subscribed,
            ) == Seq::<Member>::empty()
                .push(("comment"@, comment))
                .push(("comment_reply"@, comment_reply))
                .push(("community"@, community))
                .push(("counts"@, counts))
                .push(("creator"@, creator))
                .push(("creator_banned_from_community"@, creator_banned_from_community))
                .push(("creator_blocked"@, creator_blocked))
                .push(("post"@, post))
                .push(("receipient"@, receipient))
                .push(("saved"@, saved))
                .push(("subscribed"@, subscribed)),
    {
        reveal(with_field);
        reveal(with_optional);
    }
}

impl Payload for CommentReplyView {
    open spec fn tree(&self) -> JsonTree {
        JsonTree::Object(
            Self::members(
                self.comment.tree(),
                self.comment_reply.tree(),
                self.community.tree(),
                self.counts.tree(),
                self.creator.tree(),
                self.creator_banned_from_community.tree(),
                self.creator_blocked.tree(),
                written(self.my_vote),
                self.post.tree(),
                self.receipient.tree(),
                self.saved.tree(),
                self.subscribed.tree(),
            ),
        )
    }

    open spec fn admits(t: JsonTree) -> bool {
        &&& t is Object
        &&& required_admits::<Comment>(t, "comment"@)
        &&& required_admits::<CommentReply>(t, "comment_reply"@)
        &&& required_admits::<Community>(t, "community"@)
        &&& required_admits::<CommentAggregates>(t, "counts"@)
        &&& required_admits::<Person>(t, "creator"@)
        &&& required_admits::<bool>(t, "creator_banned_from_community"@)
        &&& required_admits::<bool>(t, "creator_blocked"@)
        &&& optional_admits::<i32>(t, "my_vote"@)
        &&& required_admits::<Post>(t, "post"@)
        &&& required_admits::<Person>(t, "receipient"@)
        &&& required_admits::<bool>(t, "saved"@)
        &&& required_admits::<SubscribedType>(t, "subscribed"@)
    }

    open spec fn agrees(&self, t: JsonTree) -> bool {
        &&& required_agrees(self.comment, t, "comment"@)
        &&& required_agrees(self.comment_reply, t, "comment_reply"@)
        &&& required_agrees(self.community, t, "community"@)
        &&& required_agrees(self.counts, t, "counts"@)
        &&& required_agrees(self.creator, t, "creator"@)
        &&& required_agrees(self.creator_banned_from_community, t, "creator_banned_from_community"@)
        &&& required_agrees(self.creator_blocked, t, "creator_blocked"@)
        &&& optional_agrees(self.my_vote, t, "my_vote"@)
        &&& required_agrees(self.post, t, "post"@)
        &&& required_agrees(self.receipient, t, "receipient"@)
        &&& required_agrees(self.saved, t, "saved"@)
        &&& required_agrees(self.subscribed, t, "subscribed"@)
    }

    fn to_json(&self) -> (out: JsonValue) {
        let mut members: Vec<(String, JsonValue)> = Vec::new();
        assert(members_view(members@) =~= Seq::empty());
        put(&mut members, "comment", &self.comment);
        put(&mut members, "comment_reply", &self.comment_reply);
        put(&mut members, "community", &self.community);
        put(&mut members, "counts", &self.counts);
        put(&mut members, "creator", &self.creator);
        put(&mut members, "creator_banned_from_community", &self.creator_banned_from_community);
        put(&mut members, "creator_blocked", &self.creator_blocked);
        put_optional(&mut members, "my_vote", &self.my_vote);
        put(&mut members, "post", &self.post);
        put(&mut members, "receipient", &self.receipient);
        put(&mut members, "saved", &self.saved);
        put(&mut members, "subscribed", &self.subscribed);
        object(members)
    }

    fn from_json(v: &JsonValue) -> (res: Option<Self>) {
        if !v.is_object() {
            return None;
        }
        let comment = required::<Comment>(v, "comment")?;
        let comment_reply = required::<CommentReply>(v, "comment_reply")?;
        let community = required::<Community>(v, "community")?;
        let counts = required::<CommentAggregates>(v, "counts")?;
        let creator = required::<Person>(v, "creator")?;
        let creator_banned_from_community = required::<bool>(v, "creator_banned_from_community")?;
        let creator_blocked = required::<bool>(v, "creator_blocked")?;
        let my_vote = optional::<i32>(v, "my_vote")?;
        let post = required::<Post>(v, "post")?;
        let receipient = required::<Person>(v, "receipient")?;
        let saved = required::<bool>(v, "saved")?;
        let subscribed = required::<SubscribedType>(v, "subscribed")?;
        Some(
            CommentReplyView {
                comment,
                comment_reply,
                community,
                counts,
                creator,
                creator_banned_from_community,
                creator_blocked,
                my_vote,
                post,
                receipient,
                saved,
                subscribed,
            },
        )
    }

    proof fn lemma_round_trip(&self) {
        Self::lemma_members(
            self.comment.tree(),
            self.comment_reply.tree(),
            self.community.tree(),
            self.counts.tree(),
            self.creator.tree(),
            self.creator_banned_from_community.tree(),
            self.creator_blocked.tree(),
            written(self.my_vote),
            self.post.tree(),
            self.receipient.tree(),
            self.saved.tree(),
            self.subscribed.tree(),
        );
        self.comment.lemma_round_trip();
        self.comment_reply.lemma_round_trip();
        self.community.lemma_round_trip();
        self.counts.lemma_round_trip();
        self.creator.lemma_round_trip();
        self.creator_banned_from_community.lemma_round_trip();
        self.creator_blocked.lemma_round_trip();
        lemma_optional_round_trip(self.my_vote);
        self.post.lemma_round_trip();
        self.receipient.lemma_round_trip();
        self.saved.lemma_round_trip();
        self.subscribed.lemma_round_trip();
    }

    proof fn lemma_reads_one(&self, other: &Self, t: JsonTree) {
        lemma_required_reads_one(self.comment, other.comment, t, "comment"@);
        lemma_required_reads_one(self.comment_reply, other.comment_reply, t, "comment_reply"@);
        lemma_required_reads_one(self.community, other.community, t, "community"@);
        lemma_required_reads_one(self.counts, other.counts, t, "counts"@);
        lemma_required_reads_one(self.creator, other.creator, t, "creator"@);
        lemma_required_reads_one(
            self.creator_banned_from_community,
            other.creator_banned_from_community,
            t,
            "creator_banned_from_community"@,
        );
        lemma_required_reads_one(
            self.creator_blocked,
            other.creator_blocked,
            t,
            "creator_blocked"@,
        );
        lemma_optional_reads_one(self.my_vote, other.my_vote, t, "my_vote"@);
        lemma_required_reads_one(self.post, other.post, t, "post"@);
        lemma_required_reads_one(self.receipient, other.receipient, t, "receipient"@);
        lemma_required_reads_one(self.saved, other.saved, t, "saved"@);
        lemma_required_reads_one(self.subscribed, other.subscribed, t, "subscribed"@);
    }
}

#[derive(Clone, Debug, PartialEq, Default)]
pub struct CommentResponse {
    pub comment_view: CommentView,
    pub form_id: Option<String>,
    pub receipient_ids: Vec<i32>,
}

impl CommentResponse {
    /// The members that a record is written as, from what is written for
    /// each of its fields.
    pub open spec fn members(
        comment_view: JsonTree,
        form_id: Option<JsonTree>,
        receipient_ids: JsonTree,
    ) -> Seq<Member> {
        let members = Seq::empty();
        let members = with_field(members, "comment_view"@, comment_view);
        let members = with_optional(members, "form_id"@, form_id);
        let members = with_field(members, "receipient_ids"@, receipient_ids);
        members
    }

    /// Each key leads to what was written under it, and to nothing where
    /// nothing was written.
    pub proof fn lemma_members(
        comment_view: JsonTree,
        form_id: Option<JsonTree>,
        receipient_ids: JsonTree,
    )
        ensures
            ({
                let members = Self::members(comment_view, form_id, receipient_ids);
                &&& lookup(members, "comment_view"@) == Some(comment_view)
                &&& lookup(members, "form_id"@) == form_id
                &&& lookup(members, "receipient_ids"@) == Some(receipient_ids)
            }),
    {
        broadcast use group_written_members;

        reveal_strlit("comment_view");
        reveal_strlit("form_id");
        reveal_strlit("receipient_ids");
        assert("comment_view"@.len() == 12);
        assert("form_id"@.len() == 7);
        assert("receipient_ids"@.len() == 14);
    }

    /// With every optional field absent, the mandatory fields are written
    /// and nothing else.
    pub proof fn lemma_mandatory_fields_alone(comment_view: JsonTree, receipient_ids: JsonTree)
        ensures
            Self::members(comment_view, None, receipient_ids) == Seq::<Member>::empty()
                .push(("comment_view"@, comment_view))
                .push(("receipient_ids"@, receipient_ids)),
    {
        reveal(with_field);
        reveal(with_optional);
    }
}

impl Payload for CommentResponse {
    open spec fn tree(&self) -> JsonTree {
        JsonTree::Object(
            Self::members(
                self.comment_view.tree(),
                written(self.form_id),
                self.receipient_ids.tree(),
            ),
        )
    }

    open spec fn admits(t: JsonTree) -> bool {
        &&& t is Object
        &&& required_admits::<CommentView>(t, "comment_view"@)
        &&& optional_admits::<String>(t, "form_id"@)
        &&& required_admits::<Vec<i32>>(t, "receipient_ids"@)
    }

    open spec fn agrees(&self, t: JsonTree) -> bool {
        &&& required_agrees(self.comment_view, t, "comment_view"@)
        &&& optional_agrees(self.form_id, t, "form_id"@)
        &&& required_agrees(self.receipient_ids, t, "receipient_ids"@)
    }

    fn to_json(&self) -> (out: JsonValue) {
        let mut members: Vec<(String, JsonValue)> = Vec::new();
        assert(members_view(members@) =~= Seq::empty());
        put(&mut members, "comment_view", &self.comment_view);
        put_optional(&mut members, "form_id", &self.form_id);
        put(&mut members, "receipient_ids", &self.receipient_ids);
        object(members)
    }

    fn from_json(v: &JsonValue) -> (res: Option<Self>) {
        if !v.is_object() {
            return None;
        }
        let comment_view = required::<CommentView>(v, "comment_view")?;
        let form_id = optional::<String>(v, "form_id")?;
        let receipient_ids = required::<Vec<i32>>(v, "receipient_ids")?;
        Some(CommentResponse { comment_view, form_id, receipient_ids })
    }

    proof fn lemma_round_trip(&self) {
        Self::lemma_members(
            self.comment_view.tree(),
            written(self.form_id),
            self.receipient_ids.tree(),
        );
        self.comment_view.lemma_round_trip();
        lemma_optional_round_trip(self.form_id);
        self.receipient_ids.lemma_round_trip();
    }

    proof fn lemma_reads_one(&self, other: &Self, t: JsonTree) {
        lemma_required_reads_one(self.comment_view, other.comment_view, t, "comment_view"@);
        lemma_optional_reads_one(self.form_id, other.form_id, t, "form_id"@);
        lemma_required_reads_one(self.receipient_ids, other.receipient_ids, t, "receipient_ids"@);
    }
}

#[derive(Clone, Debug, PartialEq, Default)]
pub struct CommentView {
    pub comment: Comment,
    pub community: Community,
    pub counts: CommentAggregates,
    pub creator: Person,
    pub creator_banned_from_community: bool,
    pub creator_blocked: bool,
    pub my_vote: Option<i32>,
    pub post: Post,
    pub saved: bool,
    pub subscribed: SubscribedType,
}

impl CommentView {
    /// The members that a record is written as, from what is written for
    /// each of its fields.
    pub open spec fn members(
        comment: JsonTree,
        community: JsonTree,
        counts: JsonTree,
        creator: JsonTree,
        creator_banned_from_community: JsonTree,
        creator_blocked: JsonTree,
        my_vote: Option<JsonTree>,
        post: JsonTree,
        saved: JsonTree,
        subscribed: JsonTree,
    ) -> Seq<Member> {
        let members = Seq::empty();
        let members = with_field(members, "comment"@, comment);
        let members = with_field(members, "community"@, community);
        let members = with_field(members, "counts"@, counts);
        let members = with_field(members, "creator"@, creator);
        let members = with_field(
            members,
            "creator_banned_from_community"@,
            creator_banned_from_community,
        );
        let members = with_field(members, "creator_blocked"@, creator_blocked);
        let members = with_optional(members, "my_vote"@, my_vote);
        let members = with_field(members, "post"@, post);
        let members = with_field(members, "saved"@, saved);
        let members = with_field(members, "subscribed"@, subscribed);
        members
    }

    /// Each key leads to what was written under it, and to nothing where
    /// nothing was written.
    pub proof fn lemma_members(
        comment: JsonTree,
        community: JsonTree,
        counts: JsonTree,
        creator: JsonTree,
        creator_banned_from_community: JsonTree,
        creator_blocked: JsonTree,
        my_vote: Option<JsonTree>,
        post: JsonTree,
        saved: JsonTree,
        subscribed: JsonTree,
    )
        ensures
            ({
                let members = Self::members(
                    comment,
                    community,
                    counts,
                    creator,
                    creator_banned_from_community,
                    creator_blocked,
                    my_vote,
                    post,
                    saved,
                    subscribed,
                );
                &&& lookup(members, "comment"@) == Some(comment)
                &&& lookup(members, "community"@) == Some(community)
                &&& lookup(members, "counts"@) == Some(counts)
                &&& lookup(members, "creator"@) == Some(creator)
                &&& lookup(members, "creator_banned_from_community"@)
                    == Some(creator_banned_from_community)
                &&& lookup(members, "creator_blocked"@) == Some(creator_blocked)
                &&& lookup(members, "my_vote"@) == my_vote
                &&& lookup(members, "post"@) == Some(post)
                &&& lookup(members, "saved"@) == Some(saved)
                &&& lookup(members, "subscribed"@) == Some(subscribed)
            }),
    {
        broadcast use group_written_members;

        reveal_strlit("comment");
        reveal_strlit("community");
        reveal_strlit("counts");
        reveal_strlit("creator");
        reveal_strlit("creator_banned_from_community");
        reveal_strlit("creator_blocked");
        reveal_strlit("my_vote");
        reveal_strlit("post");
        reveal_strlit("saved");
        reveal_strlit("subscribed");
        assert("comment"@.len() == 7 && "comment"@[0] == 'c' && "comment"@[1] == 'o');
        assert("community"@.len() == 9);
        assert("counts"@.len() == 6);
        assert("creator"@.len() == 7 && "creator"@[0] == 'c' && "creator"@[1] == 'r');
        assert("creator_banned_from_community"@.len() == 29);
        assert("creator_blocked"@.len() == 15);
        assert("my_vote"@.len() == 7 && "my_vote"@[0] == 'm');
        assert("post"@.len() == 4);
        assert("saved"@.len() == 5);
        assert("subscribed"@.len() == 10);
    }

    /// With every optional field absent, the mandatory fields are written
    /// and nothing else.
    pub proof fn lemma_mandatory_fields_alone(
        comment: JsonTree,
        community: JsonTree,
        counts: JsonTree,
        creator: JsonTree,
        creator_banned_from_community: JsonTree,
        creator_blocked: JsonTree,
        post: JsonTree,
        saved: JsonTree,
        subscribed: JsonTree,
    )
        ensures
            Self::members(
                comment,
                community,
                counts,
                creator,
                creator_banned_from_community,
                creator_blocked,
                None,
                post,
                saved,
                subscribed,
            ) == Seq::<Member>::empty()
                .push(("comment"@, comment))
                .push(("community"@, community))
                .push(("counts"@, counts))
                .push(("creator"@, creator))
                .push(("creator_banned_from_community"@, creator_banned_from_community))
                .push(("creator_blocked"@, creator_blocked))
                .push(("post"@, post))
                .push(("saved"@, saved))
                .push(("subscribed"@, subscribed)),
    {
        reveal(with_field);
        reveal(with_optional);
    }
}

impl Payload for CommentView {
    open spec fn tree(&self) -> JsonTree {
        JsonTree::Object(
            Self::members(
                self.comment.tree(),
                self.community.tree(),
                self.counts.tree(),
                self.creator.tree(),
                self.creator_banned_from_community.tree(),
                self.creator_blocked.tree(),
                written(self.my_vote),
                self.post.tree(),
                self.saved.tree(),
                self.subscribed.tree(),
            ),
        )
    }

    open spec fn admits(t: JsonTree) -> bool {
        &&& t is Object
        &&& required_admits::<Comment>(t, "comment"@)
        &&& required_admits::<Community>(t, "community"@)
        &&& required_admits::<CommentAggregates>(t, "counts"@)
        &&& required_admits::<Person>(t, "creator"@)
        &&& required_admits::<bool>(t, "creator_banned_from_community"@)
        &&& required_admits::<bool>(t, "creator_blocked"@)
        &&& optional_admits::<i32>(t, "my_vote"@)
        &&& required_admits::<Post>(t, "post"@)
        &&& required_admits::<bool>(t, "saved"@)
        &&& required_admits::<SubscribedType>(t, "subscribed"@)
    }

    open spec fn agrees(&self, t: JsonTree) -> bool {
        &&& required_agrees(self.comment, t, "comment"@)
        &&& required_agrees(self.community, t, "community"@)
        &&& required_agrees(self.counts, t, "counts"@)
        &&& required_agrees(self.creator, t, "creator"@)
        &&& required_agrees(self.creator_banned_from_community, t, "creator_banned_from_community"@)
        &&& required_agrees(self.creator_blocked, t, "creator_blocked"@)
        &&& optional_agrees(self.my_vote, t, "my_vote"@)
        &&& required_agrees(self.post, t, "post"@)
        &&& required_agrees(self.saved, t, "saved"@)
        &&& required_agrees(self.subscribed, t, "subscribed"@)
    }

    fn to_json(&self) -> (out: JsonValue) {
        let mut members: Vec<(String, JsonValue)> = Vec::new();
        assert(members_view(members@) =~= Seq::empty());
        put(&mut members, "comment", &self.comment);
        put(&mut members, "community", &self.community);
        put(&mut members, "counts", &self.counts);
        put(&mut members, "creator", &self.creator);
        put(&mut members, "creator_banned_from_community", &self.creator_banned_from_community);
        put(&mut members, "creator_blocked", &self.creator_blocked);
        put_optional(&mut members, "my_vote", &self.my_vote);
        put(&mut members, "post", &self.post);
        put(&mut members, "saved", &self.saved);
        put(&mut members, "subscribed", &self.subscribed);
        object(members)
    }

    fn from_json(v: &JsonValue) -> (res: Option<Self>) {
        if !v.is_object() {
            return None;
        }
        let comment = required::<Comment>(v, "comment")?;
        let community = required::<Community>(v, "community")?;
        let counts = required::<CommentAggregates>(v, "counts")?;
        let creator = required::<Person>(v, "creator")?;
        let creator_banned_from_community = required::<bool>(v, "creator_banned_from_community")?;
        let creator_blocked = required::<bool>(v, "creator_blocked")?;
        let my_vote = optional::<i32>(v, "my_vote")?;
        let post = required::<Post>(v, "post")?;
        let saved = required::<bool>(v, "saved")?;
        let subscribed = required::<SubscribedType>(v, "subscribed")?;
        Some(
            CommentView {
                comment,
                community,
                counts,
                creator,
                creator_banned_from_community,
                creator_blocked,
                my_vote,
                post,
                saved,
                subscribed,
            },
        )
    }

    proof fn lemma_round_trip(&self) {
        Self::lemma_members(
            self.comment.tree(),
            self.community.tree(),
            self.counts.tree(),
            self.creator.tree(),
            self.creator_banned_from_community.tree(),
            self.creator_blocked.tree(),
            written(self.my_vote),
            self.post.tree(),
            self.saved.tree(),
            self.subscribed.tree(),
        );
        self.comment.lemma_round_trip();
        self.community.lemma_round_trip();
        self.counts.lemma_round_trip();
        self.creator.lemma_round_trip();
        self.creator_banned_from_community.lemma_round_trip();
        self.creator_blocked.lemma_round_trip();
        lemma_optional_round_trip(self.my_vote);
        self.post.lemma_round_trip();
        self.saved.lemma_round_trip();
        self.subscribed.lemma_round_trip();
    }

    proof fn lemma_reads_one(&self, other: &Self, t: JsonTree) {
        lemma_required_reads_one(self.comment, other.comment, t, "comment"@);
        lemma_required_reads_one(self.community, other.community, t, "community"@);
        lemma_required_reads_one(self.counts, other.counts, t, "counts"@);
        lemma_required_reads_one(self.creator, other.creator, t, "creator"@);
        lemma_required_reads_one(
            self.creator_banned_from_community,
            other.creator_banned_from_community,
            t,
            "creator_banned_from_community"@,
        );
        lemma_required_reads_one(
            self.creator_blocked,
            other.creator_blocked,
            t,
            "creator_blocked"@,
        );
        lemma_optional_reads_one(self.my_vote, other.my_vote, t, "my_vote"@);
        lemma_required_reads_one(self.post, other.post, t, "post"@);
        lemma_required_reads_one(self.saved, other.saved, t, "saved"@);
        lemma_required_reads_one(self.subscribed, other.subscribed, t, "subscribed"@);
    }
}

#[derive(Clone, Debug, PartialEq, Default)]
pub struct CreateComment {
    pub auth: String,
    pub content: String,
    pub form_id: Option<String>,
    pub language_id: Option<i32>,
    pub parent_id: Option<i32>,
    pub post_id: i32,
}

impl CreateComment {
    /// The members that a record is written as, from what is written for
    /// each of its fields.
    pub open spec fn members(
        auth: JsonTree,
        content: JsonTree,
        form_id: Option<JsonTree>,
        language_id: Option<JsonTree>,
        parent_id: Option<JsonTree>,
        post_id: JsonTree,
    ) -> Seq<Member> {
        let members = Seq::empty();
        let members = with_field(members, "auth"@, auth);
        let members = with_field(members, "content"@, content);
        let members = with_optional(members, "form_id"@, form_id);
        let members = with_optional(members, "language_id"@, language_id);
        let members = with_optional(members, "parent_id"@, parent_id);
        let members = with_field(members, "post_id"@, post_id);
        members
    }

    /// Each key leads to what was written under it, and to nothing where
    /// nothing was written.
    pub proof fn lemma_members(
        auth: JsonTree,
        content: JsonTree,
        form_id: Option<JsonTree>,
        language_id: Option<JsonTree>,
        parent_id: Option<JsonTree>,
        post_id: JsonTree,
    )
        ensures
            ({
                let members = Self::members(
                    auth,
                    content,
                    form_id,
                    language_id,
                    parent_id,
                    post_id,
                );
                &&& lookup(members, "auth"@) == Some(auth)
                &&& lookup(members, "content"@) == Some(content)
                &&& lookup(members, "form_id"@) == form_id
                &&& lookup(members, "language_id"@) == language_id
                &&& lookup(members, "parent_id"@) == parent_id
                &&& lookup(members, "post_id"@) == Some(post_id)
            }),
    {
        broadcast use group_written_members;

        reveal_strlit("auth");
        reveal_strlit("content");
        reveal_strlit("form_id");
        reveal_strlit("language_id");
        reveal_strlit("parent_id");
        reveal_strlit("post_id");
        assert("auth"@.len() == 4);
        assert("content"@.len() == 7 && "content"@[0] == 'c');
        assert("form_id"@.len() == 7 && "form_id"@[0] == 'f');
        assert("language_id"@.len() == 11);
        assert("parent_id"@.len() == 9);
        assert("post_id"@.len() == 7 && "post_id"@[0] == 'p');
    }

    /// With every optional field absent, the mandatory fields are written
    /// and nothing else.
    pub proof fn lemma_mandatory_fields_alone(auth: JsonTree, content: JsonTree, post_id: JsonTree)
        ensures
            Self::members(auth, content, None, None, None, post_id) == Seq::<Member>::empty()
                .push(("auth"@, auth))
                .push(("content"@, content))
                .push(("post_id"@, post_id)),
    {
        reveal(with_field);
        reveal(with_optional);
    }
}

impl Payload for CreateComment {
    open spec fn tree(&self) -> JsonTree {
        JsonTree::Object(
            Self::members(
                self.auth.tree(),
                self.content.tree(),
                written(self.form_id),
                written(self.language_id),
                written(self.parent_id),
                self.post_id.tree(),
            ),
        )
    }

    open spec fn admits(t: JsonTree) -> bool {
        &&& t is Object
        &&& required_admits::<String>(t, "auth"@)
        &&& required_admits::<String>(t, "content"@)
        &&& optional_admits::<String>(t, "form_id"@)
        &&& optional_admits::<i32>(t, "language_id"@)
        &&& optional_admits::<i32>(t, "parent_id"@)
        &&& required_admits::<i32>(t, "post_id"@)
    }

    open spec fn agrees(&self, t: JsonTree) -> bool {
        &&& required_agrees(self.auth, t, "auth"@)
        &&& required_agrees(self.content, t, "content"@)
        &&& optional_agrees(self.form_id, t, "form_id"@)
        &&& optional_agrees(self.language_id, t, "language_id"@)
        &&& optional_agrees(self.parent_id, t, "parent_id"@)
        &&& required_agrees(self.post_id, t, "post_id"@)
    }

    fn to_json(&self) -> (out: JsonValue) {
        let mut members: Vec<(String, JsonValue)> = Vec::new();
        assert(members_view(members@) =~= Seq::empty());
        put(&mut members, "auth", &self.auth);
        put(&mut members, "content", &self.content);
        put_optional(&mut members, "form_id", &self.form_id);
        put_optional(&mut members, "language_id", &self.language_id);
        put_optional(&mut members, "parent_id", &self.parent_id);
        put(&mut members, "post_id", &self.post_id);
        object(members)
    }

    fn from_json(v: &JsonValue) -> (res: Option<Self>) {
        if !v.is_object() {
            return None;
        }
        let auth = required::<String>(v, "auth")?;
        let content = required::<String>(v, "content")?;
        let form_id = optional::<String>(v, "form_id")?;
        let language_id = optional::<i32>(v, "language_id")?;
        let parent_id = optional::<i32>(v, "parent_id")?;
        let post_id = required::<i32>(v, "post_id")?;
        Some(CreateComment { auth, content, form_id, language_id, parent_id, post_id })
    }

    proof fn lemma_round_trip(&self) {
        Self::lemma_members(
            self.auth.tree(),
            self.content.tree(),
            written(self.form_id),
            written(self.language_id),
            written(self.parent_id),
            self.post_id.tree(),
        );
        self.auth.lemma_round_trip();
        self.content.lemma_round_trip();
        lemma_optional_round_trip(self.form_id);
        lemma_optional_round_trip(self.language_id);
        lemma_optional_round_trip(self.parent_id);
        self.post_id.lemma_round_trip();
    }

    proof fn lemma_reads_one(&self, other: &Self, t: JsonTree) {
        lemma_required_reads_one(self.auth, other.auth, t, "auth"@);
        lemma_required_reads_one(self.content, other.content, t, "content"@);
        lemma_optional_reads_one(self.form_id, other.form_id, t, "form_id"@);
        lemma_optional_reads_one(self.language_id, other.language_id, t, "language_id"@);
        lemma_optional_reads_one(self.parent_id, other.parent_id, t, "parent_id"@);
        lemma_required_reads_one(self.post_id, other.post_id, t, "post_id"@);
    }
}

#[derive(Clone, Debug, PartialEq, Default)]
pub struct CreateCommentLike {
    pub auth: String,
    pub comment_id: i32,
    pub score: i32,
}

impl CreateCommentLike {
    /// The members that a record is written as, from what is written for
    /// each of its fields.
    pub open spec fn members(auth: JsonTree, comment_id: JsonTree, score: JsonTree) -> Seq<Member> {
        let members = Seq::empty();
        let members = with_field(members, "auth"@, auth);
        let members = with_field(members, "comment_id"@, comment_id);
        let members = with_field(members, "score"@, score);
        members
    }

    /// Each key leads to what was written under it, and to nothing where
    /// nothing was written.
    pub proof fn lemma_members(auth: JsonTree, comment_id: JsonTree, score: JsonTree)
        ensures
            ({
                let members = Self::members(auth, comment_id, score);
                &&& lookup(members, "auth"@) == Some(auth)
                &&& lookup(members, "comment_id"@) == Some(comment_id)
                &&& lookup(members, "score"@) == Some(score)
            }),
    {
        broadcast use group_written_members;

        reveal_strlit("auth");
        reveal_strlit("comment_id");
        reveal_strlit("score");
        assert("auth"@.len() == 4);
        assert("comment_id"@.len() == 10);
        assert("score"@.len() == 5);
    }

    /// Every field is mandatory: each is written, in order, and nothing
    /// else.
    pub proof fn lemma_mandatory_fields_alone(auth: JsonTree, comment_id: JsonTree, score: JsonTree)
        ensures
            Self::members(auth, comment_id, score) == Seq::<Member>::empty()
                .push(("auth"@, auth))
                .push(("comment_id"@, comment_id))
                .push(("score"@, score)),
    {
        reveal(with_field);
        reveal(with_optional);
    }
}

impl Payload for CreateCommentLike {
    open spec fn tree(&self) -> JsonTree {
        JsonTree::Object(Self::members(self.auth.tree(), self.comment_id.tree(), self.score.tree()))
    }

    open spec fn admits(t: JsonTree) -> bool {
        &&& t is Object
        &&& required_admits::<String>(t, "auth"@)
        &&& required_admits::<i32>(t, "comment_id"@)
        &&& required_admits::<i32>(t, "score"@)
    }

    open spec fn agrees(&self, t: JsonTree) -> bool {
        &&& required_agrees(self.auth, t, "auth"@)
        &&& required_agrees(self.comment_id, t, "comment_id"@)
        &&& required_agrees(self.score, t, "score"@)
    }

    fn to_json(&self) -> (out: JsonValue) {
        let mut members: Vec<(String, JsonValue)> = Vec::new();
        assert(members_view(members@) =~= Seq::empty());
        put(&mut members, "auth", &self.auth);
        put(&mut members, "comment_id", &self.comment_id);
        put(&mut members, "score", &self.score);
        object(members)
    }

    fn from_json(v: &JsonValue) -> (res: Option<Self>) {
        if !v.is_object() {
            return None;
        }
        let auth = required::<String>(v, "auth")?;
        let comment_id = required::<i32>(v, "comment_id")?;
        let score = required::<i32>(v, "score")?;
        Some(CreateCommentLike { auth, comment_id, score })
    }

    proof fn lemma_round_trip(&self) {
        Self::lemma_members(self.auth.tree(), self.comment_id.tree(), self.score.tree());
        self.auth.lemma_round_trip();
        self.comment_id.lemma_round_trip();
        self.score.lemma_round_trip();
    }

    proof fn lemma_reads_one(&self, other: &Self, t: JsonTree) {
        lemma_required_reads_one(self.auth, other.auth, t, "auth"@);
        lemma_required_reads_one(self.comment_id, other.comment_id, t, "comment_id"@);
        lemma_required_reads_one(self.score, other.score, t, "score"@);
    }
}

#[derive(Clone, Debug, PartialEq, Default)]
pub struct DeleteComment {
    pub auth: String,
    pub comment_id: i32,
    pub deleted: bool,
}

impl DeleteComment {
    /// The members that a record is written as, from what is written for
    /// each of its fields.
    pub open spec fn members(
        auth: JsonTree,
        comment_id: JsonTree,
        deleted: JsonTree,
    ) -> Seq<Member> {
        let members = Seq::empty();
        let members = with_field(members, "auth"@, auth);
        let members = with_field(members, "comment_id"@, comment_id);
        let members = with_field(members, "deleted"@, deleted);
        members
    }

    /// Each key leads to what was written under it, and to nothing where
    /// nothing was written.
    pub proof fn lemma_members(auth: JsonTree, comment_id: JsonTree, deleted: JsonTree)
        ensures
            ({
                let members = Self::members(auth, comment_id, deleted);
                &&& lookup(members, "auth"@) == Some(auth)
                &&& lookup(members, "comment_id"@) == Some(comment_id)
                &&& lookup(members, "deleted"@) == Some(deleted)
            }),
    {
        broadcast use group_written_members;

        reveal_strlit("auth");
        reveal_strlit("comment_id");
        reveal_strlit("deleted");
        assert("auth"@.len() == 4);
        assert("comment_id"@.len() == 10);
        assert("deleted"@.len() == 7);
    }

    /// Every field is mandatory: each is written, in order, and nothing
    /// else.
    pub proof fn lemma_mandatory_fields_alone(
        auth: JsonTree,
        comment_id: JsonTree,
        deleted: JsonTree,
    )
        ensures
            Self::members(auth, comment_id, deleted) == Seq::<Member>::empty()
                .push(("auth"@, auth))
                .push(("comment_id"@, comment_id))
                .push(("deleted"@, deleted)),
    {
        reveal(with_field);
        reveal(with_optional);
    }
}

impl Payload for DeleteComment {
    open spec fn tree(&self) -> JsonTree {
        JsonTree::Object(
            Self::members(self.auth.tree(), self.comment_id.tree(), self.deleted.tree()),
        )
    }

    open spec fn admits(t: JsonTree) -> bool {
        &&& t is Object
        &&& required_admits::<String>(t, "auth"@)
        &&& required_admits::<i32>(t, "comment_id"@)
        &&& required_admits::<bool>(t, "deleted"@)
    }

    open spec fn agrees(&self, t: JsonTree) -> bool {
        &&& required_agrees(self.auth, t, "auth"@)
        &&& required_agrees(self.comment_id, t, "comment_id"@)
        &&& required_agrees(self.deleted, t, "deleted"@)
    }

    fn to_json(&self) -> (out: JsonValue) {
        let mut members: Vec<(String, JsonValue)> = Vec::new();
        assert(members_view(members@) =~= Seq::empty());
        put(&mut members, "auth", &self.auth);
        put(&mut members, "comment_id", &self.comment_id);
        put(&mut members, "deleted", &self.deleted);
        object(members)
    }

    fn from_json(v: &JsonValue) -> (res: Option<Self>) {
        if !v.is_object() {
            return None;
        }
        let auth = required::<String>(v, "auth")?;
        let comment_id = required::<i32>(v, "comment_id")?;
        let deleted = required::<bool>(v, "deleted")?;
        Some(DeleteComment { auth, comment_id, deleted })
    }

    proof fn lemma_round_trip(&self) {
        Self::lemma_members(self.auth.tree(), self.comment_id.tree(), self.deleted.tree());
        self.auth.lemma_round_trip();
        self.comment_id.lemma_round_trip();
        self.deleted.lemma_round_trip();
    }

    proof fn lemma_reads_one(&self, other: &Self, t: JsonTree) {
        lemma_required_reads_one(self.auth, other.auth, t, "auth"@);
        lemma_required_reads_one(self.comment_id, other.comment_id, t, "comment_id"@);
        lemma_required_reads_one(self.deleted, other.deleted, t, "deleted"@);
    }
}

#[derive(Clone, Debug, PartialEq, Default)]
pub struct DistinguishComment {
    pub auth: String,
    pub comment_id: i32,
    pub distinguished: bool,
}

impl DistinguishComment {
    /// The members that a record is written as, from what is written for
    /// each of its fields.
    pub open spec fn members(
        auth: JsonTree,
        comment_id: JsonTree,
        distinguished: JsonTree,
    ) -> Seq<Member> {
        let members = Seq::empty();
        let members = with_field(members, "auth"@, auth);
        let members = with_field(members, "comment_id"@, comment_id);
        let members = with_field(members, "distinguished"@, distinguished);
        members
    }

    /// Each key leads to what was written under it, and to nothing where
    /// nothing was written.
    pub proof fn lemma_members(auth: JsonTree, comment_id: JsonTree, distinguished: JsonTree)
        ensures
            ({
                let members = Self::members(auth, comment_id, distinguished);
                &&& lookup(members, "auth"@) == Some(auth)
                &&& lookup(members, "comment_id"@) == Some(comment_id)
                &&& lookup(members, "distinguished"@) == Some(distinguished)
            }),
    {
        broadcast use group_written_members;

        reveal_strlit("auth");
        reveal_strlit("comment_id");
        reveal_strlit("distinguished");
        assert("auth"@.len() == 4);
        assert("comment_id"@.len() == 10);
        assert("distinguished"@.len() == 13);
    }

    /// Every field is mandatory: each is written, in order, and nothing
    /// else.
    pub proof fn lemma_mandatory_fields_alone(
        auth: JsonTree,
        comment_id: JsonTree,
        distinguished: JsonTree,
    )
        ensures
            Self::members(auth, comment_id, distinguished) == Seq::<Member>::empty()
                .push(("auth"@, auth))
                .push(("comment_id"@, comment_id))
                .push(("distinguished"@, distinguished)),
    {
        reveal(with_field);
        reveal(with_optional);
    }
}

impl Payload for DistinguishComment {
    open spec fn tree(&self) -> JsonTree {
        JsonTree::Object(
            Self::members(self.auth.tree(), self.comment_id.tree(), self.distinguished.tree()),
        )
    }

    open spec fn admits(t: JsonTree) -> bool {
        &&& t is Object
        &&& required_admits::<String>(t, "auth"@)
        &&& required_admits::<i32>(t, "comment_id"@)
        &&& required_admits::<bool>(t, "distinguished"@)
    }

    open spec fn agrees(&self, t: JsonTree) -> bool {
        &&& required_agrees(self.auth, t, "auth"@)
        &&& required_agrees(self.comment_id, t, "comment_id"@)
        &&& required_agrees(self.distinguished, t, "distinguished"@)
    }

    fn to_json(&self) -> (out: JsonValue) {
        let mut members: Vec<(String, JsonValue)> = Vec::new();
        assert(members_view(members@) =~= Seq::empty());
        put(&mut members, "auth", &self.auth);
        put(&mut members, "comment_id", &self.comment_id);
        put(&mut members, "distinguished", &self.distinguished);
        object(members)
    }

    fn from_json(v: &JsonValue) -> (res: Option<Self>) {
        if !v.is_object() {
            return None;
        }
        let auth = required::<String>(v, "auth")?;
        let comment_id = required::<i32>(v, "comment_id")?;
        let distinguished = required::<bool>(v, "distinguished")?;
        Some(DistinguishComment { auth, comment_id, distinguished })
    }

    proof fn lemma_round_trip(&self) {
        Self::lemma_members(self.auth.tree(), self.comment_id.tree(), self.distinguished.tree());
        self.auth.lemma_round_trip();
        self.comment_id.lemma_round_trip();
        self.distinguished.lemma_round_trip();
    }

    proof fn lemma_reads_one(&self, other: &Self, t: JsonTree) {
        lemma_required_reads_one(self.auth, other.auth, t, "auth"@);
        lemma_required_reads_one(self.comment_id, other.comment_id, t, "comment_id"@);
        lemma_required_reads_one(self.distinguished, other.distinguished, t, "distinguished"@);
    }
}

#[derive(Clone, Debug, PartialEq, Default)]
pub struct EditComment {
    pub auth: String,
    pub comment_id: i32,
    pub content: Option<String>,
    pub form_id: Option<String>,
    pub language_id: Option<i32>,
}

impl EditComment {
    /// The members that a record is written as, from what is written for
    /// each of its fields.
    pub open spec fn members(
        auth: JsonTree,
        comment_id: JsonTree,
        content: Option<JsonTree>,
        form_id: Option<JsonTree>,
        language_id: Option<JsonTree>,
    ) -> Seq<Member> {
        let members = Seq::empty();
        let members = with_field(members, "auth"@, auth);
        let members = with_field(members, "comment_id"@, comment_id);
        let members = with_optional(members, "content"@, content);
        let members = with_optional(members, "form_id"@, form_id);
        let members = with_optional(members, "language_id"@, language_id);
        members
    }

    /// Each key leads to what was written under it, and to nothing where
    /// nothing was written.
    pub proof fn lemma_members(
        auth: JsonTree,
        comment_id: JsonTree,
        content: Option<JsonTree>,
        form_id: Option<JsonTree>,
        language_id: Option<JsonTree>,
    )
        ensures
            ({
                let members = Self::members(auth, comment_id, content, form_id, language_id);
                &&& lookup(members, "auth"@) == Some(auth)
                &&& lookup(members, "comment_id"@) == Some(comment_id)
                &&& lookup(members, "content"@) == content
                &&& lookup(members, "form_id"@) == form_id
                &&& lookup(members, "language_id"@) == language_id
            }),
    {
        broadcast use group_written_members;

        reveal_strlit("auth");
        reveal_strlit("comment_id");
        reveal_strlit("content");
        reveal_strlit("form_id");
        reveal_strlit("language_id");
        assert("auth"@.len() == 4);
        assert("comment_id"@.len() == 10);
        assert("content"@.len() == 7 && "content"@[0] == 'c');
        assert("form_id"@.len() == 7 && "form_id"@[0] == 'f');
        assert("language_id"@.len() == 11);
    }

    /// With every optional field absent, the mandatory fields are written
    /// and nothing else.
    pub proof fn lemma_mandatory_fields_alone(auth: JsonTree, comment_id: JsonTree)
        ensures
            Self::members(auth, comment_id, None, None, None) == Seq::<Member>::empty()
                .push(("auth"@, auth))
                .push(("comment_id"@, comment_id)),
    {
        reveal(with_field);
        reveal(with_optional);
    }
}

impl Payload for EditComment {
    open spec fn tree(&self) -> JsonTree {
        JsonTree::Object(
            Self::members(
                self.auth.tree(),
                self.comment_id.tree(),
                written(self.content),
                written(self.form_id),
                written(self.language_id),
            ),
        )
    }

    open spec fn admits(t: JsonTree) -> bool {
        &&& t is Object
        &&& required_admits::<String>(t, "auth"@)
        &&& required_admits::<i32>(t, "comment_id"@)
        &&& optional_admits::<String>(t, "content"@)
        &&& optional_admits::<String>(t, "form_id"@)
        &&& optional_admits::<i32>(t, "language_id"@)
    }

    open spec fn agrees(&self, t: JsonTree) -> bool {
        &&& required_agrees(self.auth, t, "auth"@)
        &&& required_agrees(self.comment_id, t, "comment_id"@)
        &&& optional_agrees(self.content, t, "content"@)
        &&& optional_agrees(self.form_id, t, "form_id"@)
        &&& optional_agrees(self.language_id, t, "language_id"@)
    }

    fn to_json(&self) -> (out: JsonValue) {
        let mut members: Vec<(String, JsonValue)> = Vec::new();
        assert(members_view(members@) =~= Seq::empty());
        put(&mut members, "auth", &self.auth);
        put(&mut members, "comment_id", &self.comment_id);
        put_optional(&mut members, "content", &self.content);
        put_optional(&mut members, "form_id", &self.form_id);
        put_optional(&mut members, "language_id", &self.language_id);
        object(members)
    }

    fn from_json(v: &JsonValue) -> (res: Option<Self>) {
        if !v.is_object() {
            return None;
        }
        let auth = required::<String>(v, "auth")?;
        let comment_id = required::<i32>(v, "comment_id")?;
        let content = optional::<String>(v, "content")?;
        let form_id = optional::<String>(v, "form_id")?;
        let language_id = optional::<i32>(v, "language_id")?;
        Some(EditComment { auth, comment_id, content, form_id, language_id })
    }

    proof fn lemma_round_trip(&self) {
        Self::lemma_members(
            self.auth.tree(),
            self.comment_id.tree(),
            written(self.content),
            written(self.form_id),
            written(self.language_id),
        );
        self.auth.lemma_round_trip();
        self.comment_id.lemma_round_trip();
        lemma_optional_round_trip(self.content);
        lemma_optional_round_trip(self.form_id);
        lemma_optional_round_trip(self.language_id);
    }

    proof fn lemma_reads_one(&self, other: &Self, t: JsonTree) {
        lemma_required_reads_one(self.auth, other.auth, t, "auth"@);
        lemma_required_reads_one(self.comment_id, other.comment_id, t, "comment_id"@);
        lemma_optional_reads_one(self.content, other.content, t, "content"@);
        lemma_optional_reads_one(self.form_id, other.form_id, t, "form_id"@);
        lemma_optional_reads_one(self.language_id, other.language_id, t, "language_id"@);
    }
}

#[derive(Clone, Debug, PartialEq, Default)]
pub struct GetComment {
    pub auth: Option<String>,
    pub id: i32,
}

impl GetComment {
    /// The members that a record is written as, from what is written for
    /// each of its fields.
    pub open spec fn members(auth: Option<JsonTree>, id: JsonTree) -> Seq<Member> {
        let members = Seq::empty();
        let members = with_optional(members, "auth"@, auth);
        let members = with_field(members, "id"@, id);
        members
    }

    /// Each key leads to what was written under it, and to nothing where
    /// nothing was written.
    pub proof fn lemma_members(auth: Option<JsonTree>, id: JsonTree)
        ensures
            ({
                let members = Self::members(auth, id);
                &&& lookup(members, "auth"@) == auth
                &&& lookup(members, "id"@) == Some(id)
            }),
    {
        broadcast use group_written_members;

        reveal_strlit("auth");
        reveal_strlit("id");
        assert("auth"@.len() == 4);
        assert("id"@.len() == 2);
    }

    /// With every optional field absent, the mandatory fields are written
    /// and nothing else.
    pub proof fn lemma_mandatory_fields_alone(id: JsonTree)
        ensures
            Self::members(None, id) == Seq::<Member>::empty()
                .push(("id"@, id)),
    {
        reveal(with_field);
        reveal(with_optional);
    }
}

impl Payload for GetComment {
    open spec fn tree(&self) -> JsonTree {
        JsonTree::Object(Self::members(written(self.auth), self.id.tree()))
    }

    open spec fn admits(t: JsonTree) -> bool {
        &&& t is Object
        &&& optional_admits::<String>(t, "auth"@)
        &&& required_admits::<i32>(t, "id"@)
    }

    open spec fn agrees(&self, t: JsonTree) -> bool {
        &&& optional_agrees(self.auth, t, "auth"@)
        &&& required_agrees(self.id, t, "id"@)
    }

    fn to_json(&self) -> (out: JsonValue) {
        let mut members: Vec<(String, JsonValue)> = Vec::new();
        assert(members_view(members@) =~= Seq::empty());
        put_optional(&mut members, "auth", &self.auth);
        put(&mut members, "id", &self.id);
        object(members)
    }

    fn from_json(v: &JsonValue) -> (res: Option<Self>) {
        if !v.is_object() {
            return None;
        }
        let auth = optional::<String>(v, "auth")?;
        let id = required::<i32>(v, "id")?;
        Some(GetComment { auth, id })
    }

    proof fn lemma_round_trip(&self) {
        Self::lemma_members(written(self.auth), self.id.tree());
        lemma_optional_round_trip(self.auth);
        self.id.lemma_round_trip();
    }

    proof fn lemma_reads_one(&self, other: &Self, t: JsonTree) {
        lemma_optional_reads_one(self.auth, other.auth, t, "auth"@);
        lemma_required_reads_one(self.id, other.id, t, "id"@);
    }
}

#[derive(Clone, Debug, PartialEq, Default)]
pub struct GetComments {
    pub auth: Option<String>,
    pub community_id: Option<i32>,
    pub community_name: Option<String>,
    pub limit: Option<i32>,
    pub max_depth: Option<i32>,
    pub page: Option<i32>,
    pub parent_id: Option<i32>,
    pub post_id: Option<i32>,
    pub saved_only: Option<bool>,
    pub sort: Option<CommentSortType>,
    pub type_: Option<ListingType>,
}

impl GetComments {
    /// The members that a record is written as, from what is written for
    /// each of its fields.
    pub open spec fn members(
        auth: Option<JsonTree>,
        community_id: Option<JsonTree>,
        community_name: Option<JsonTree>,
        limit: Option<JsonTree>,
        max_depth: Option<JsonTree>,
        page: Option<JsonTree>,
        parent_id: Option<JsonTree>,
        post_id: Option<JsonTree>,
        saved_only: Option<JsonTree>,
        sort: Option<JsonTree>,
        type_: Option<JsonTree>,
    ) -> Seq<Member> {
        let members = Seq::empty();
        let members = with_optional(members, "auth"@, auth);
        let members = with_optional(members, "community_id"@, community_id);
        let members = with_optional(members, "community_name"@, community_name);
        let members = with_optional(members, "limit"@, limit);
        let members = with_optional(members, "max_depth"@, max_depth);
        let members = with_optional(members, "page"@, page);
        let members = with_optional(members, "parent_id"@, parent_id);
        let members = with_optional(members, "post_id"@, post_id);
        let members = with_optional(members, "saved_only"@, saved_only);
        let members = with_optional(members, "sort"@, sort);
        let members = with_optional(members, "type_"@, type_);
        members
    }

    /// Each key leads to what was written under it, and to nothing where
    /// nothing was written.
    pub proof fn lemma_members(
        auth: Option<JsonTree>,
        community_id: Option<JsonTree>,
        community_name: Option<JsonTree>,
        limit: Option<JsonTree>,
        max_depth: Option<JsonTree>,
        page: Option<JsonTree>,
        parent_id: Option<JsonTree>,
        post_id: Option<JsonTree>,
        saved_only: Option<JsonTree>,
        sort: Option<JsonTree>,
        type_: Option<JsonTree>,
    )
        ensures
            ({
                let members = Self::members(
                    auth,
                    community_id,
                    community_name,
                    limit,
                    max_depth,
                    page,
                    parent_id,
                    post_id,
                    saved_only,
                    sort,
                    type_,
                );
                &&& lookup(members, "auth"@) == auth
                &&& lookup(members, "community_id"@) == community_id
                &&& lookup(members, "community_name"@) == community_name
                &&& lookup(members, "limit"@) == limit
                &&& lookup(members, "max_depth"@) == max_depth
                &&& lookup(members, "page"@) == page
                &&& lookup(members, "parent_id"@) == parent_id
                &&& lookup(members, "post_id"@) == post_id
                &&& lookup(members, "saved_only"@) == saved_only
                &&& lookup(members, "sort"@) == sort
                &&& lookup(members, "type_"@) == type_
            }),
    {
        broadcast use group_written_members;

        reveal_strlit("auth");
        reveal_strlit("community_id");
        reveal_strlit("community_name");
        reveal_strlit("limit");
        reveal_strlit("max_depth");
        reveal_strlit("page");
        reveal_strlit("parent_id");
        reveal_strlit("post_id");
        reveal_strlit("saved_only");
        reveal_strlit("sort");
        reveal_strlit("type_");
        assert("auth"@.len() == 4 && "auth"@[0] == 'a');
        assert("community_id"@.len() == 12);
        assert("community_name"@.len() == 14);
        assert("limit"@.len() == 5 && "limit"@[0] == 'l');
        assert("max_depth"@.len() == 9 && "max_depth"@[0] == 'm');
        assert("page"@.len() == 4 && "page"@[0] == 'p');
        assert("parent_id"@.len() == 9 && "parent_id"@[0] == 'p');
        assert("post_id"@.len() == 7);
        assert("saved_only"@.len() == 10);
        assert("sort"@.len() == 4 && "sort"@[0] == 's');
        assert("type_"@.len() == 5 && "type_"@[0] == 't');
    }

    /// With every field absent, nothing is written.
    pub proof fn lemma_mandatory_fields_alone()
        ensures
            Self::members(
                None,
                None,
                None,
                None,
                None,
                None,
                None,
                None,
                None,
                None,
                None,
            ) == Seq::<Member>::empty(),
    {
        reveal(with_field);
        reveal(with_optional);
    }
}

impl Payload for GetComments {
    open spec fn tree(&self) -> JsonTree {
        JsonTree::Object(
            Self::members(
                written(self.auth),
                written(self.community_id),
                written(self.community_name),
                written(self.limit),
                written(self.max_depth),
                written(self.page),
                written(self.parent_id),
                written(self.post_id),
                written(self.saved_only),
                written(self.sort),
                written(self.type_),
            ),
        )
    }

    open spec fn admits(t: JsonTree) -> bool {
        &&& t is Object
        &&& optional_admits::<String>(t, "auth"@)
        &&& optional_admits::<i32>(t, "community_id"@)
        &&& optional_admits::<String>(t, "community_name"@)
        &&& optional_admits::<i32>(t, "limit"@)
        &&& optional_admits::<i32>(t, "max_depth"@)
        &&& optional_admits::<i32>(t, "page"@)
        &&& optional_admits::<i32>(t, "parent_id"@)
        &&& optional_admits::<i32>(t, "post_id"@)
        &&& optional_admits::<bool>(t, "saved_only"@)
        &&& optional_admits::<CommentSortType>(t, "sort"@)
        &&& optional_admits::<ListingType>(t, "type_"@)
    }

    open spec fn agrees(&self, t: JsonTree) -> bool {
        &&& optional_agrees(self.auth, t, "auth"@)
        &&& optional_agrees(self.community_id, t, "community_id"@)
        &&& optional_agrees(self.community_name, t, "community_name"@)
        &&& optional_agrees(self.limit, t, "limit"@)
        &&& optional_agrees(self.max_depth, t, "max_depth"@)
        &&& optional_agrees(self.page, t, "page"@)
        &&& optional_agrees(self.parent_id, t, "parent_id"@)
        &&& optional_agrees(self.post_id, t, "post_id"@)
        &&& optional_agrees(self.saved_only, t, "saved_only"@)
        &&& optional_agrees(self.sort, t, "sort"@)
        &&& optional_agrees(self.type_, t, "type_"@)
    }

    fn to_json(&self) -> (out: JsonValue) {
        let mut members: Vec<(String, JsonValue)> = Vec::new();
        assert(members_view(members@) =~= Seq::empty());
        put_optional(&mut members, "auth", &self.auth);
        put_optional(&mut members, "community_id", &self.community_id);
        put_optional(&mut members, "community_name", &self.community_name);
        put_optional(&mut members, "limit", &self.limit);
        put_optional(&mut members, "max_depth", &self.max_depth);
        put_optional(&mut members, "page", &self.page);
        put_optional(&mut members, "parent_id", &self.parent_id);
        put_optional(&mut members, "post_id", &self.post_id);
        put_optional(&mut members, "saved_only", &self.saved_only);
        put_optional(&mut members, "sort", &self.sort);
        put_optional(&mut members, "type_", &self.type_);
        object(members)
    }

    fn from_json(v: &JsonValue) -> (res: Option<Self>) {
        if !v.is_object() {
            return None;
        }
        let auth = optional::<String>(v, "auth")?;
        let community_id = optional::<i32>(v, "community_id")?;
        let community_name = optional::<String>(v, "community_name")?;
        let limit = optional::<i32>(v, "limit")?;
        let max_depth = optional::<i32>(v, "max_depth")?;
        let page = optional::<i32>(v, "page")?;
        let parent_id = optional::<i32>(v, "parent_id")?;
        let post_id = optional::<i32>(v, "post_id")?;
        let saved_only = optional::<bool>(v, "saved_only")?;
        let sort = optional::<CommentSortType>(v, "sort")?;
        let type_ = optional::<ListingType>(v, "type_")?;
        Some(
            GetComments {
                auth,
                community_id,
                community_name,
                limit,
                max_depth,
                page,
                parent_id,
                post_id,
                saved_only,
                sort,
                type_,
            },
        )
    }

    proof fn lemma_round_trip(&self) {
        Self::lemma_members(
            written(self.auth),
            written(self.community_id),
            written(self.community_name),
            written(self.limit),
            written(self.max_depth),
            written(self.page),
            written(self.parent_id),
            written(self.post_id),
            written(self.saved_only),
            written(self.sort),
            written(self.type_),
        );
        lemma_optional_round_trip(self.auth);
        lemma_optional_round_trip(self.community_id);
        lemma_optional_round_trip(self.community_name);
        lemma_optional_round_trip(self.limit);
        lemma_optional_round_trip(self.max_depth);
        lemma_optional_round_trip(self.page);
        lemma_optional_round_trip(self.parent_id);
        lemma_optional_round_trip(self.post_id);
        lemma_optional_round_trip(self.saved_only);
        lemma_optional_round_trip(self.sort);
        lemma_optional_round_trip(self.type_);
    }

    proof fn lemma_reads_one(&self, other: &Self, t: JsonTree) {
        lemma_optional_reads_one(self.auth, other.auth, t, "auth"@);
        lemma_optional_reads_one(self.community_id, other.community_id, t, "community_id"@);
        lemma_optional_reads_one(self.community_name, other.community_name, t, "community_name"@);
        lemma_optional_reads_one(self.limit, other.limit, t, "limit"@);
        lemma_optional_reads_one(self.max_depth, other.max_depth, t, "max_depth"@);
        lemma_optional_reads_one(self.page, other.page, t, "page"@);
        lemma_optional_reads_one(self.parent_id, other.parent_id, t, "parent_id"@);
        lemma_optional_reads_one(self.post_id, other.post_id, t, "post_id"@);
        lemma_optional_reads_one(self.saved_only, other.saved_only, t, "saved_only"@);
        lemma_optional_reads_one(self.sort, other.sort, t, "sort"@);
        lemma_optional_reads_one(self.type_, other.type_, t, "type_"@);
    }
}

#[derive(Clone, Debug, PartialEq, Default)]
pub struct GetCommentsResponse {
    pub comments: Vec<CommentView>,
}

impl GetCommentsResponse {
    /// The members that a record is written as, from what is written for
    /// each of its fields.
    pub open spec fn members(comments: JsonTree) -> Seq<Member> {
        let members = Seq::empty();
        let members = with_field(members, "comments"@, comments);
        members
    }

    /// Each key leads to what was written under it, and to nothing where
    /// nothing was written.
    pub proof fn lemma_members(comments: JsonTree)
        ensures
            ({
                let members = Self::members(comments);
                &&& lookup(members, "comments"@) == Some(comments)
            }),
    {
        broadcast use group_written_members;

        reveal_strlit("comments");
        assert("comments"@.len() == 8);
    }

    /// Every field is mandatory: each is written, in order, and nothing
    /// else.
    pub proof fn lemma_mandatory_fields_alone(comments: JsonTree)
        ensures
            Self::members(comments) == Seq::<Member>::empty()
                .push(("comments"@, comments)),
    {
        reveal(with_field);
        reveal(with_optional);
    }
}

impl Payload for GetCommentsResponse {
    open spec fn tree(&self) -> JsonTree {
        JsonTree::Object(Self::members(self.comments.tree()))
    }

    open spec fn admits(t: JsonTree) -> bool {
        &&& t is Object
        &&& required_admits::<Vec<CommentView>>(t, "comments"@)
    }

    open spec fn agrees(&self, t: JsonTree) -> bool {
        &&& required_agrees(self.comments, t, "comments"@)
    }

    fn to_json(&self) -> (out: JsonValue) {
        let mut members: Vec<(String, JsonValue)> = Vec::new();
        assert(members_view(members@) =~= Seq::empty());
        put(&mut members, "comments", &self.comments);
        object(members)
    }

    fn from_json(v: &JsonValue) -> (res: Option<Self>) {
        if !v.is_object() {
            return None;
        }
        let comments = required::<Vec<CommentView>>(v, "comments")?;
        Some(GetCommentsResponse { comments })
    }

    proof fn lemma_round_trip(&self) {
        Self::lemma_members(self.comments.tree());
        self.comments.lemma_round_trip();
    }

    proof fn lemma_reads_one(&self, other: &Self, t: JsonTree) {
        lemma_required_reads_one(self.comments, other.comments, t, "comments"@);
    }
}

#[derive(Clone, Debug, PartialEq, Default)]
pub struct MarkCommentReplyAsRead {
    pub auth: String,
    pub comment_reply_id: i32,
    pub read: bool,
}

impl MarkCommentReplyAsRead {
    /// The members that a record is written as, from what is written for
    /// each of its fields.
    pub open spec fn members(
        auth: JsonTree,
        comment_reply_id: JsonTree,
        read: JsonTree,
    ) -> Seq<Member> {
        let members = Seq::empty();
        let members = with_field(members, "auth"@, auth);
        let members = with_field(members, "comment_reply_id"@, comment_reply_id);
        let members = with_field(members, "read"@, read);
        members
    }

    /// Each key leads to what was written under it, and to nothing where
    /// nothing was written.
    pub proof fn lemma_members(auth: JsonTree, comment_reply_id: JsonTree, read: JsonTree)
        ensures
            ({
                let members = Self::members(auth, comment_reply_id, read);
                &&& lookup(members, "auth"@) == Some(auth)
                &&& lookup(members, "comment_reply_id"@) == Some(comment_reply_id)
                &&& lookup(members, "read"@) == Some(read)
            }),
    {
        broadcast use group_written_members;

        reveal_strlit("auth");
        reveal_strlit("comment_reply_id");
        reveal_strlit("read");
        assert("auth"@.len() == 4 && "auth"@[0] == 'a');
        assert("comment_reply_id"@.len() == 16);
        assert("read"@.len() == 4 && "read"@[0] == 'r');
    }

    /// Every field is mandatory: each is written, in order, and nothing
    /// else.
    pub proof fn lemma_mandatory_fields_alone(
        auth: JsonTree,
        comment_reply_id: JsonTree,
        read: JsonTree,
    )
        ensures
            Self::members(auth, comment_reply_id, read) == Seq::<Member>::empty()
                .push(("auth"@, auth))
                .push(("comment_reply_id"@, comment_reply_id))
                .push(("read"@, read)),
    {
        reveal(with_field);
        reveal(with_optional);
    }
}

impl Payload for MarkCommentReplyAsRead {
    open spec fn tree(&self) -> JsonTree {
        JsonTree::Object(
            Self::members(self.auth.tree(), self.comment_reply_id.tree(), self.read.tree()),
        )
    }

    open spec fn admits(t: JsonTree) -> bool {
        &&& t is Object
        &&& required_admits::<String>(t, "auth"@)
        &&& required_admits::<i32>(t, "comment_reply_id"@)
        &&& required_admits::<bool>(t, "read"@)
    }

    open spec fn agrees(&self, t: JsonTree) -> bool {
        &&& required_agrees(self.auth, t, "auth"@)
        &&& required_agrees(self.comment_reply_id, t, "comment_reply_id"@)
        &&& required_agrees(self.read, t, "read"@)
    }

    fn to_json(&self) -> (out: JsonValue) {
        let mut members: Vec<(String, JsonValue)> = Vec::new();
        assert(members_view(members@) =~= Seq::empty());
        put(&mut members, "auth", &self.auth);
        put(&mut members, "comment_reply_id", &self.comment_reply_id);
        put(&mut members, "read", &self.read);
        object(members)
    }

    fn from_json(v: &JsonValue) -> (res: Option<Self>) {
        if !v.is_object() {
            return None;
        }
        let auth = required::<String>(v, "auth")?;
        let comment_reply_id = required::<i32>(v, "comment_reply_id")?;
        let read = required::<bool>(v, "read")?;
        Some(MarkCommentReplyAsRead { auth, comment_reply_id, read })
    }

    proof fn lemma_round_trip(&self) {
        Self::lemma_members(self.auth.tree(), self.comment_reply_id.tree(), self.read.tree());
        self.auth.lemma_round_trip();
        self.comment_reply_id.lemma_round_trip();
        self.read.lemma_round_trip();
    }

    proof fn lemma_reads_one(&self, other: &Self, t: JsonTree) {
        lemma_required_reads_one(self.auth, other.auth, t, "auth"@);
        lemma_required_reads_one(
            self.comment_reply_id,
            other.comment_reply_id,
            t,
            "comment_reply_id"@,
        );
        lemma_required_reads_one(self.read, other.read, t, "read"@);
    }
}

#[derive(Clone, Debug, PartialEq, Default)]
pub struct PurgeComment {
    pub auth: String,
    pub comment_id: i32,
    pub reason: Option<String>,
}

impl PurgeComment {
    /// The members that a record is written as, from what is written for
    /// each of its fields.
    pub open spec fn members(
        auth: JsonTree,
        comment_id: JsonTree,
        reason: Option<JsonTree>,
    ) -> Seq<Member> {
        let members = Seq::empty();
        let members = with_field(members, "auth"@, auth);
        let members = with_field(members, "comment_id"@, comment_id);
        let members = with_optional(members, "reason"@, reason);
        members
    }

    /// Each key leads to what was written under it, and to nothing where
    /// nothing was written.
    pub proof fn lemma_members(auth: JsonTree, comment_id: JsonTree, reason: Option<JsonTree>)
        ensures
            ({
                let members = Self::members(auth, comment_id, reason);
                &&& lookup(members, "auth"@) == Some(auth)
                &&& lookup(members, "comment_id"@) == Some(comment_id)
                &&& lookup(members, "reason"@) == reason
            }),
    {
        broadcast use group_written_members;

        reveal_strlit("auth");
        reveal_strlit("comment_id");
        reveal_strlit("reason");
        assert("auth"@.len() == 4);
        assert("comment_id"@.len() == 10);
        assert("reason"@.len() == 6);
    }

    /// With every optional field absent, the mandatory fields are written
    /// and nothing else.
    pub proof fn lemma_mandatory_fields_alone(auth: JsonTree, comment_id: JsonTree)
        ensures
            Self::members(auth, comment_id, None) == Seq::<Member>::empty()
                .push(("auth"@, auth))
                .push(("comment_id"@, comment_id)),
    {
        reveal(with_field);
        reveal(with_optional);
    }
}

impl Payload for PurgeComment {
    open spec fn tree(&self) -> JsonTree {
        JsonTree::Object(
            Self::members(self.auth.tree(), self.comment_id.tree(), written(self.reason)),
        )
    }

    open spec fn admits(t: JsonTree) -> bool {
        &&& t is Object
        &&& required_admits::<String>(t, "auth"@)
        &&& required_admits::<i32>(t, "comment_id"@)
        &&& optional_admits::<String>(t, "reason"@)
    }

    open spec fn agrees(&self, t: JsonTree) -> bool {
        &&& required_agrees(self.auth, t, "auth"@)
        &&& required_agrees(self.comment_id, t, "comment_id"@)
        &&& optional_agrees(self.reason, t, "reason"@)
    }

    fn to_json(&self) -> (out: JsonValue) {
        let mut members: Vec<(String, JsonValue)> = Vec::new();
        assert(members_view(members@) =~= Seq::empty());
        put(&mut members, "auth", &self.auth);
        put(&mut members, "comment_id", &self.comment_id);
        put_optional(&mut members, "reason", &self.reason);
        object(members)
    }

    fn from_json(v: &JsonValue) -> (res: Option<Self>) {
        if !v.is_object() {
            return None;
        }
        let auth = required::<String>(v, "auth")?;
        let comment_id = required::<i32>(v, "comment_id")?;
        let reason = optional::<String>(v, "reason")?;
        Some(PurgeComment { auth, comment_id, reason })
    }

    proof fn lemma_round_trip(&self) {
        Self::lemma_members(self.auth.tree(), self.comment_id.tree(), written(self.reason));
        self.auth.lemma_round_trip();
        self.comment_id.lemma_round_trip();
        lemma_optional_round_trip(self.reason);
    }

    proof fn lemma_reads_one(&self, other: &Self, t: JsonTree) {
        lemma_required_reads_one(self.auth, other.auth, t, "auth"@);
        lemma_required_reads_one(self.comment_id, other.comment_id, t, "comment_id"@);
        lemma_optional_reads_one(self.reason, other.reason, t, "reason"@);
    }
}

#[derive(Clone, Debug, PartialEq, Default)]
pub struct RemoveComment {
    pub auth: String,
    pub comment_id: i32,
    pub reason: Option<String>,
    pub removed: bool,
}

impl RemoveComment {
    /// The members that a record is written as, from what is written for
    /// each of its fields.
    pub open spec fn members(
        auth: JsonTree,
        comment_id: JsonTree,
        reason: Option<JsonTree>,
        removed: JsonTree,
    ) -> Seq<Member> {
        let members = Seq::empty();
        let members = with_field(members, "auth"@, auth);
        let members = with_field(members, "comment_id"@, comment_id);
        let members = with_optional(members, "reason"@, reason);
        let members = with_field(members, "removed"@, removed);
        members
    }

    /// Each key leads to what was written under it, and to nothing where
    /// nothing was written.
    pub proof fn lemma_members(
        auth: JsonTree,
        comment_id: JsonTree,
        reason: Option<JsonTree>,
        removed: JsonTree,
    )
        ensures
            ({
                let members = Self::members(auth, comment_id, reason, removed);
                &&& lookup(members, "auth"@) == Some(auth)
                &&& lookup(members, "comment_id"@) == Some(comment_id)
                &&& lookup(members, "reason"@) == reason
                &&& lookup(members, "removed"@) == Some(removed)
            }),
    {
        broadcast use group_written_members;

        reveal_strlit("auth");
        reveal_strlit("comment_id");
        reveal_strlit("reason");
        reveal_strlit("removed");
        assert("auth"@.len() == 4);
        assert("comment_id"@.len() == 10);
        assert("reason"@.len() == 6);
        assert("removed"@.len() == 7);
    }

    /// With every optional field absent, the mandatory fields are written
    /// and nothing else.
    pub proof fn lemma_mandatory_fields_alone(
        auth: JsonTree,
        comment_id: JsonTree,
        removed: JsonTree,
    )
        ensures
            Self::members(auth, comment_id, None, removed) == Seq::<Member>::empty()
                .push(("auth"@, auth))
                .push(("comment_id"@, comment_id))
                .push(("removed"@, removed)),
    {
        reveal(with_field);
        reveal(with_optional);
    }
}

impl Payload for RemoveComment {
    open spec fn tree(&self) -> JsonTree {
        JsonTree::Object(
            Self::members(
                self.auth.tree(),
                self.comment_id.tree(),
                written(self.reason),
                self.removed.tree(),
            ),
        )
    }

    open spec fn admits(t: JsonTree) -> bool {
        &&& t is Object
        &&& required_admits::<String>(t, "auth"@)
        &&& required_admits::<i32>(t, "comment_id"@)
        &&& optional_admits::<String>(t, "reason"@)
        &&& required_admits::<bool>(t, "removed"@)
    }

    open spec fn agrees(&self, t: JsonTree) -> bool {
        &&& required_agrees(self.auth, t, "auth"@)
        &&& required_agrees(self.comment_id, t, "comment_id"@)
        &&& optional_agrees(self.reason, t, "reason"@)
        &&& required_agrees(self.removed, t, "removed"@)
    }

    fn to_json(&self) -> (out: JsonValue) {
        let mut members: Vec<(String, JsonValue)> = Vec::new();
        assert(members_view(members@) =~= Seq::empty());
        put(&mut members, "auth", &self.auth);
        put(&mut members, "comment_id", &self.comment_id);
        put_optional(&mut members, "reason", &self.reason);
        put(&mut members, "removed", &self.removed);
        object(members)
    }

    fn from_json(v: &JsonValue) -> (res: Option<Self>) {
        if !v.is_object() {
            return None;
        }
        let auth = required::<String>(v, "auth")?;
        let comment_id = required::<i32>(v, "comment_id")?;
        let reason = optional::<String>(v, "reason")?;
        let removed = required::<bool>(v, "removed")?;
        Some(RemoveComment { auth, comment_id, reason, removed })
    }

    proof fn lemma_round_trip(&self) {
        Self::lemma_members(
            self.auth.tree(),
            self.comment_id.tree(),
            written(self.reason),
            self.removed.tree(),
        );
        self.auth.lemma_round_trip();
        self.comment_id.lemma_round_trip();
        lemma_optional_round_trip(self.reason);
        self.removed.lemma_round_trip();
    }

    proof fn lemma_reads_one(&self, other: &Self, t: JsonTree) {
        lemma_required_reads_one(self.auth, other.auth, t, "auth"@);
        lemma_required_reads_one(self.comment_id, other.comment_id, t, "comment_id"@);
        lemma_optional_reads_one(self.reason, other.reason, t, "reason"@);
        lemma_required_reads_one(self.removed, other.removed, t, "removed"@);
    }
}

#[derive(Clone, Debug, PartialEq, Default)]
pub struct SaveComment {
    pub auth: String,
    pub comment_id: i32,
    pub save: bool,
}

impl SaveComment {
    /// The members that a record is written as, from what is written for
    /// each of its fields.
    pub open spec fn members(auth: JsonTree, comment_id: JsonTree, save: JsonTree) -> Seq<Member> {
        let members = Seq::empty();
        let members = with_field(members, "auth"@, auth);
        let members = with_field(members, "comment_id"@, comment_id);
        let members = with_field(members, "save"@, save);
        members
    }

    /// Each key leads to what was written under it, and to nothing where
    /// nothing was written.
    pub proof fn lemma_members(auth: JsonTree, comment_id: JsonTree, save: JsonTree)
        ensures
            ({
                let members = Self::members(auth, comment_id, save);
                &&& lookup(members, "auth"@) == Some(auth)
                &&& lookup(members, "comment_id"@) == Some(comment_id)
                &&& lookup(members, "save"@) == Some(save)
            }),
    {
        broadcast use group_written_members;

        reveal_strlit("auth");
        reveal_strlit("comment_id");
        reveal_strlit("save");
        assert("auth"@.len() == 4 && "auth"@[0] == 'a');
        assert("comment_id"@.len() == 10);
        assert("save"@.len() == 4 && "save"@[0] == 's');
    }

    /// Every field is mandatory: each is written, in order, and nothing
    /// else.
    pub proof fn lemma_mandatory_fields_alone(auth: JsonTree, comment_id: JsonTree, save: JsonTree)
        ensures
            Self::members(auth, comment_id, save) == Seq::<Member>::empty()
                .push(("auth"@, auth))
                .push(("comment_id"@, comment_id))
                .push(("save"@, save)),
    {
        reveal(with_field);
        reveal(with_optional);
    }
}

impl Payload for SaveComment {
    open spec fn tree(&self) -> JsonTree {
        JsonTree::Object(Self::members(self.auth.tree(), self.comment_id.tree(), self.save.tree()))
    }

    open spec fn admits(t: JsonTree) -> bool {
        &&& t is Object
        &&& required_admits::<String>(t, "auth"@)
        &&& required_admits::<i32>(t, "comment_id"@)
        &&& required_admits::<bool>(t, "save"@)
    }

    open spec fn agrees(&self, t: JsonTree) -> bool {
        &&& required_agrees(self.auth, t, "auth"@)
        &&& required_agrees(self.comment_id, t, "comment_id"@)
        &&& required_agrees(self.save, t, "save"@)
    }

    fn to_json(&self) -> (out: JsonValue) {
        let mut members: Vec<(String, JsonValue)> = Vec::new();
        assert(members_view(members@) =~= Seq::empty());
        put(&mut members, "auth", &self.auth);
        put(&mut members, "comment_id", &self.comment_id);
        put(&mut members, "save", &self.save);
        object(members)
    }

    fn from_json(v: &JsonValue) -> (res: Option<Self>) {
        if !v.is_object() {
            return None;
        }
        let auth = required::<String>(v, "auth")?;
        let comment_id = required::<i32>(v, "comment_id")?;
        let save = required::<bool>(v, "save")?;
        Some(SaveComment { auth, comment_id, save })
    }

    proof fn lemma_round_trip(&self) {
        Self::lemma_members(self.auth.tree(), self.comment_id.tree(), self.save.tree());
        self.auth.lemma_round_trip();
        self.comment_id.lemma_round_trip();
        self.save.lemma_round_trip();
    }

    proof fn lemma_reads_one(&self, other: &Self, t: JsonTree) {
        lemma_required_reads_one(self.auth, other.auth, t, "auth"@);
        lemma_required_reads_one(self.comment_id, other.comment_id, t, "comment_id"@);
        lemma_required_reads_one(self.save, other.save, t, "save"@);
    }
}

} // verus!
