//! Records of reports on comments and posts, and of the requests that list
//! and resolve them.

use vstd::prelude::*;
use crate::json::{lookup, JsonTree, JsonValue, Member};
use crate::payload::{
    group_written_members, lemma_optional_reads_one, lemma_optional_round_trip,
    lemma_required_reads_one, members_view, object, optional, optional_admits, optional_agrees,
    put, put_optional, required, required_admits, required_agrees, with_field, with_optional,
    written, Payload,
};
use crate::records::comment::{Comment, CommentAggregates};
use crate::records::community::{Community};
use crate::records::person::{Person};
use crate::records::post::{Post, PostAggregates};

verus! {

#[derive(Clone, Debug, PartialEq, Default)]
pub struct CommentReport {
    pub comment_id: i32,
    pub creator_id: i32,
    pub id: i32,
    pub original_commnment_text: String,
    pub published: String,
    pub reason: String,
    pub resolved: bool,
    pub resolver_id: Option<i32>,
    pub updated: Option<String>,
}

impl CommentReport {
    /// The members that a record is written as, from what is written for
    /// each of its fields.
    pub open spec fn members(
        comment_id: JsonTree,
        creator_id: JsonTree,
        id: JsonTree,
        original_commnment_text: JsonTree,
        published: JsonTree,
        reason: JsonTree,
        resolved: JsonTree,
        resolver_id: Option<JsonTree>,
        updated: Option<JsonTree>,
    ) -> Seq<Member> {
        let members = Seq::empty();
        let members = with_field(members, "comment_id"@, comment_id);
        let members = with_field(members, "creator_id"@, creator_id);
        let members = with_field(members, "id"@, id);
        let members = with_field(members, "original_commnment_text"@, original_commnment_text);
        let members = with_field(members, "published"@, published);
        let members = with_field(members, "reason"@, reason);
        let members = with_field(members, "resolved"@, resolved);
        let members = with_optional(members, "resolver_id"@, resolver_id);
        let members = with_optional(members, "updated"@, updated);
        members
    }

    /// Each key leads to what was written under it, and to nothing where
    /// nothing was written.
    pub proof fn lemma_members(
        comment_id: JsonTree,
        creator_id: JsonTree,
        id: JsonTree,
        original_commnment_text: JsonTree,
        published: JsonTree,
        reason: JsonTree,
        resolved: JsonTree,
        resolver_id: Option<JsonTree>,
        updated: Option<JsonTree>,
    )
        ensures
            ({
                let members = Self::members(
                    comment_id,
                    creator_id,
                    id,
                    original_commnment_text,
                    published,
                    reason,
                    resolved,
                    resolver_id,
                    updated,
                );
                &&& lookup(members, "comment_id"@) == Some(comment_id)
                &&& lookup(members, "creator_id"@) == Some(creator_id)
                &&& lookup(members, "id"@) == Some(id)
                &&& lookup(members, "original_commnment_text"@) == Some(original_commnment_text)
                &&& lookup(members, "published"@) == Some(published)
                &&& lookup(members, "reason"@) == Some(reason)
                &&& lookup(members, "resolved"@) == Some(resolved)
                &&& lookup(members, "resolver_id"@) == resolver_id
                &&& lookup(members, "updated"@) == updated
            }),
    {
        broadcast use group_written_members;

        reveal_strlit("comment_id");
        reveal_strlit("creator_id");
        reveal_strlit("id");
        reveal_strlit("original_commnment_text");
        reveal_strlit("published");
        reveal_strlit("reason");
        reveal_strlit("resolved");
        reveal_strlit("resolver_id");
        reveal_strlit("updated");
        assert("comment_id"@.len() == 10 && "comment_id"@[1] == 'o');
        assert("creator_id"@.len() == 10 && "creator_id"@[1] == 'r');
        assert("id"@.len() == 2);
        assert("original_commnment_text"@.len() == 23);
        assert("published"@.len() == 9);
        assert("reason"@.len() == 6);
        assert("resolved"@.len() == 8);
        assert("resolver_id"@.len() == 11);
        assert("updated"@.len() == 7);
    }

    /// With every optional field absent, the mandatory fields are written
    /// and nothing else.
    pub proof fn lemma_mandatory_fields_alone(
        comment_id: JsonTree,
        creator_id: JsonTree,
        id: JsonTree,
        original_commnment_text: JsonTree,
        published: JsonTree,
        reason: JsonTree,
        resolved: JsonTree,
    )
        ensures
            Self::members(
                comment_id,
                creator_id,
                id,
                original_commnment_text,
                published,
                reason,
                resolved,
                None,
                None,
            ) == Seq::<Member>::empty()
                .push(("comment_id"@, comment_id))
                .push(("creator_id"@, creator_id))
                .push(("id"@, id))
                .push(("original_commnment_text"@, original_commnment_text))
                .push(("published"@, published))
                .push(("reason"@, reason))
                .push(("resolved"@, resolved)),
    {
        reveal(with_field);
        reveal(with_optional);
    }
}

impl Payload for CommentReport {
    open spec fn tree(&self) -> JsonTree {
        JsonTree::Object(
            Self::members(
                self.comment_id.tree(),
                self.creator_id.tree(),
                self.id.tree(),
                self.original_commnment_text.tree(),
                self.published.tree(),
                self.reason.tree(),
                self.resolved.tree(),
                written(self.resolver_id),
                written(self.updated),
            ),
        )
    }

    open spec fn admits(t: JsonTree) -> bool {
        &&& t is Object
        &&& required_admits::<i32>(t, "comment_id"@)
        &&& required_admits::<i32>(t, "creator_id"@)
        &&& required_admits::<i32>(t, "id"@)
        &&& required_admits::<String>(t, "original_commnment_text"@)
        &&& required_admits::<String>(t, "published"@)
        &&& required_admits::<String>(t, "reason"@)
        &&& required_admits::<bool>(t, "resolved"@)
        &&& optional_admits::<i32>(t, "resolver_id"@)
        &&& optional_admits::<String>(t, "updated"@)
    }

    open spec fn agrees(&self, t: JsonTree) -> bool {
        &&& required_agrees(self.comment_id, t, "comment_id"@)
        &&& required_agrees(self.creator_id, t, "creator_id"@)
        &&& required_agrees(self.id, t, "id"@)
        &&& required_agrees(self.original_commnment_text, t, "original_commnment_text"@)
        &&& required_agrees(self.published, t, "published"@)
        &&& required_agrees(self.reason, t, "reason"@)
        &&& required_agrees(self.resolved, t, "resolved"@)
        &&& optional_agrees(self.resolver_id, t, "resolver_id"@)
        &&& optional_agrees(self.updated, t, "updated"@)
    }

    fn to_json(&self) -> (out: JsonValue) {
        let mut members: Vec<(String, JsonValue)> = Vec::new();
        assert(members_view(members@) =~= Seq::empty());
        put(&mut members, "comment_id", &self.comment_id);
        put(&mut members, "creator_id", &self.creator_id);
        put(&mut members, "id", &self.id);
        put(&mut members, "original_commnment_text", &self.original_commnment_text);
        put(&mut members, "published", &self.published);
        put(&mut members, "reason", &self.reason);
        put(&mut members, "resolved", &self.resolved);
        put_optional(&mut members, "resolver_id", &self.resolver_id);
        put_optional(&mut members, "updated", &self.updated);
        object(members)
    }

    fn from_json(v: &JsonValue) -> (res: Option<Self>) {
        if !v.is_object() {
            return None;
        }
        let comment_id = required::<i32>(v, "comment_id")?;
        let creator_id = required::<i32>(v, "creator_id")?;
        let id = required::<i32>(v, "id")?;
        let original_commnment_text = required::<String>(v, "original_commnment_text")?;
        let published = required::<String>(v, "published")?;
        let reason = required::<String>(v, "reason")?;
        let resolved = required::<bool>(v, "resolved")?;
        let resolver_id = optional::<i32>(v, "resolver_id")?;
        let updated = optional::<String>(v, "updated")?;
        Some(
            CommentReport {
                comment_id,
                creator_id,
                id,
                original_commnment_text,
                published,
                reason,
                resolved,
                resolver_id,
                updated,
            },
        )
    }

    proof fn lemma_round_trip(&self) {
        Self::lemma_members(
            self.comment_id.tree(),
            self.creator_id.tree(),
            self.id.tree(),
            self.original_commnment_text.tree(),
            self.published.tree(),
            self.reason.tree(),
            self.resolved.tree(),
            written(self.resolver_id),
            written(self.updated),
        );
        self.comment_id.lemma_round_trip();
        self.creator_id.lemma_round_trip();
        self.id.lemma_round_trip();
        self.original_commnment_text.lemma_round_trip();
        self.published.lemma_round_trip();
        self.reason.lemma_round_trip();
        self.resolved.lemma_round_trip();
        lemma_optional_round_trip(self.resolver_id);
        lemma_optional_round_trip(self.updated);
    }

    proof fn lemma_reads_one(&self, other: &Self, t: JsonTree) {
        lemma_required_reads_one(self.comment_id, other.comment_id, t, "comment_id"@);
        lemma_required_reads_one(self.creator_id, other.creator_id, t, "creator_id"@);
        lemma_required_reads_one(self.id, other.id, t, "id"@);
        lemma_required_reads_one(
            self.original_commnment_text,
            other.original_commnment_text,
            t,
            "original_commnment_text"@,
        );
        lemma_required_reads_one(self.published, other.published, t, "published"@);
        lemma_required_reads_one(self.reason, other.reason, t, "reason"@);
        lemma_required_reads_one(self.resolved, other.resolved, t, "resolved"@);
        lemma_optional_reads_one(self.resolver_id, other.resolver_id, t, "resolver_id"@);
        lemma_optional_reads_one(self.updated, other.updated, t, "updated"@);
    }
}

#[derive(Clone, Debug, PartialEq, Default)]
pub struct CommentReportResponse {
    pub comment_report_view: CommentReportView,
}

impl CommentReportResponse {
    /// The members that a record is written as, from what is written for
    /// each of its fields.
    pub open spec fn members(comment_report_view: JsonTree) -> Seq<Member> {
        let members = Seq::empty();
        let members = with_field(members, "comment_report_view"@, comment_report_view);
        members
    }

    /// Each key leads to what was written under it, and to nothing where
    /// nothing was written.
    pub proof fn lemma_members(comment_report_view: JsonTree)
        ensures
            ({
                let members = Self::members(comment_report_view);
                &&& lookup(members, "comment_report_view"@) == Some(comment_report_view)
            }),
    {
        broadcast use group_written_members;

        reveal_strlit("comment_report_view");
        assert("comment_report_view"@.len() == 19);
    }

    /// Every field is mandatory: each is written, in order, and nothing
    /// else.
    pub proof fn lemma_mandatory_fields_alone(comment_report_view: JsonTree)
        ensures
            Self::members(comment_report_view) == Seq::<Member>::empty()
                .push(("comment_report_view"@, comment_report_view)),
    {
        reveal(with_field);
        reveal(with_optional);
    }
}

impl Payload for CommentReportResponse {
    open spec fn tree(&self) -> JsonTree {
        JsonTree::Object(Self::members(self.comment_report_view.tree()))
    }

    open spec fn admits(t: JsonTree) -> bool {
        &&& t is Object
        &&& required_admits::<CommentReportView>(t, "comment_report_view"@)
    }

    open spec fn agrees(&self, t: JsonTree) -> bool {
        &&& required_agrees(self.comment_report_view, t, "comment_report_view"@)
    }

    fn to_json(&self) -> (out: JsonValue) {
        let mut members: Vec<(String, JsonValue)> = Vec::new();
        assert(members_view(members@) =~= Seq::empty());
        put(&mut members, "comment_report_view", &self.comment_report_view);
        object(members)
    }

    fn from_json(v: &JsonValue) -> (res: Option<Self>) {
        if !v.is_object() {
            return None;
        }
        let comment_report_view = required::<CommentReportView>(v, "comment_report_view")?;
        Some(CommentReportResponse { comment_report_view })
    }

    proof fn lemma_round_trip(&self) {
        Self::lemma_members(self.comment_report_view.tree());
        self.comment_report_view.lemma_round_trip();
    }

    proof fn lemma_reads_one(&self, other: &Self, t: JsonTree) {
        lemma_required_reads_one(
            self.comment_report_view,
            other.comment_report_view,
            t,
            "comment_report_view"@,
        );
    }
}

#[derive(Clone, Debug, PartialEq, Default)]
pub struct CommentReportView {
    pub comment: Comment,
    pub comment_creator: Person,
    pub comment_report: CommentReport,
    pub community: Community,
    pub counts: CommentAggregates,
    pub creator: Person,
    pub creator_banned_from_community: bool,
    pub my_vote: Option<i32>,
    pub post: Post,
    pub resolver: Option<Person>,
}

impl CommentReportView {
    /// The members that a record is written as, from what is written for
    /// each of its fields.
    pub open spec fn members(
        comment: JsonTree,
        comment_creator: JsonTree,
        comment_report: JsonTree,
        community: JsonTree,
        counts: JsonTree,
        creator: JsonTree,
        creator_banned_from_community: JsonTree,
        my_vote: Option<JsonTree>,
        post: JsonTree,
        resolver: Option<JsonTree>,
    ) -> Seq<Member> {
        let members = Seq::empty();
        let members = with_field(members, "comment"@, comment);
        let members = with_field(members, "comment_creator"@, comment_creator);
        let members = with_field(members, "comment_report"@, comment_report);
        let members = with_field(members, "community"@, community);
        let members = with_field(members, "counts"@, counts);
        let members = with_field(members, "creator"@, creator);
        let members = with_field(
            members,
            "creator_banned_from_community"@,
            creator_banned_from_community,
        );
        let members = with_optional(members, "my_vote"@, my_vote);
        let members = with_field(members, "post"@, post);
        let members = with_optional(members, "resolver"@, resolver);
        members
    }

    /// Each key leads to what was written under it, and to nothing where
    /// nothing was written.
    pub proof fn lemma_members(
        comment: JsonTree,
        comment_creator: JsonTree,
        comment_report: JsonTree,
        community: JsonTree,
        counts: JsonTree,
        creator: JsonTree,
        creator_banned_from_community: JsonTree,
        my_vote: Option<JsonTree>,
        post: JsonTree,
        resolver: Option<JsonTree>,
    )
        ensures
            ({
                let members = Self::members(
                    comment,
                    comment_creator,
                    comment_report,
                    community,
                    counts,
                    creator,
                    creator_banned_from_community,
                    my_vote,
                    post,
                    resolver,
                );
                &&& lookup(members, "comment"@) == Some(comment)
                &&& lookup(members, "comment_creator"@) == Some(comment_creator)
                &&& lookup(members, "comment_report"@) == Some(comment_report)
                &&& lookup(members, "community"@) == Some(community)
                &&& lookup(members, "counts"@) == Some(counts)
                &&& lookup(members, "creator"@) == Some(creator)
                &&& lookup(members, "creator_banned_from_community"@)
                    == Some(creator_banned_from_community)
                &&& lookup(members, "my_vote"@) == my_vote
                &&& lookup(members, "post"@) == Some(post)
                &&& lookup(members, "resolver"@) == resolver
            }),
    {
        broadcast use group_written_members;

        reveal_strlit("comment");
        reveal_strlit("comment_creator");
        reveal_strlit("comment_report");
        reveal_strlit("community");
        reveal_strlit("counts");
        reveal_strlit("creator");
        reveal_strlit("creator_banned_from_community");
        reveal_strlit("my_vote");
        reveal_strlit("post");
        reveal_strlit("resolver");
        assert("comment"@.len() == 7 && "comment"@[0] == 'c' && "comment"@[1] == 'o');
        assert("comment_creator"@.len() == 15);
        assert("comment_report"@.len() == 14);
        assert("community"@.len() == 9);
        assert("counts"@.len() == 6);
        assert("creator"@.len() == 7 && "creator"@[0] == 'c' && "creator"@[1] == 'r');
        assert("creator_banned_from_community"@.len() == 29);
        assert("my_vote"@.len() == 7 && "my_vote"@[0] == 'm');
        assert("post"@.len() == 4);
        assert("resolver"@.len() == 8);
    }

    /// With every optional field absent, the mandatory fields are written
    /// and nothing else.
    pub proof fn lemma_mandatory_fields_alone(
        comment: JsonTree,
        comment_creator: JsonTree,
        comment_report: JsonTree,
        community: JsonTree,
        counts: JsonTree,
        creator: JsonTree,
        creator_banned_from_community: JsonTree,
        post: JsonTree,
    )
        ensures
            Self::members(
                comment,
                comment_creator,
                comment_report,
                community,
                counts,
                creator,
                creator_banned_from_community,
                None,
                post,
                None,
            ) == Seq::<Member>::empty()
                .push(("comment"@, comment))
                .push(("comment_creator"@, comment_creator))
                .push(("comment_report"@, comment_report))
                .push(("community"@, community))
                .push(("counts"@, counts))
                .push(("creator"@, creator))
                .push(("creator_banned_from_community"@, creator_banned_from_community))
                .push(("post"@, post)),
    {
        reveal(with_field);
        reveal(with_optional);
    }
}

impl Payload for CommentReportView {
    open spec fn tree(&self) -> JsonTree {
        JsonTree::Object(
            Self::members(
                self.comment.tree(),
                self.comment_creator.tree(),
                self.comment_report.tree(),
                self.community.tree(),
                self.counts.tree(),
                self.creator.tree(),
                self.creator_banned_from_community.tree(),
                written(self.my_vote),
                self.post.tree(),
                written(self.resolver),
            ),
        )
    }

    open spec fn admits(t: JsonTree) -> bool {
        &&& t is Object
        &&& required_admits::<Comment>(t, "comment"@)
        &&& required_admits::<Person>(t, "comment_creator"@)
        &&& required_admits::<CommentReport>(t, "comment_report"@)
        &&& required_admits::<Community>(t, "community"@)
        &&& required_admits::<CommentAggregates>(t, "counts"@)
        &&& required_admits::<Person>(t, "creator"@)
        &&& required_admits::<bool>(t, "creator_banned_from_community"@)
        &&& optional_admits::<i32>(t, "my_vote"@)
        &&& required_admits::<Post>(t, "post"@)
        &&& optional_admits::<Person>(t, "resolver"@)
    }

    open spec fn agrees(&self, t: JsonTree) -> bool {
        &&& required_agrees(self.comment, t, "comment"@)
        &&& required_agrees(self.comment_creator, t, "comment_creator"@)
        &&& required_agrees(self.comment_report, t, "comment_report"@)
        &&& required_agrees(self.community, t, "community"@)
        &&& required_agrees(self.counts, t, "counts"@)
        &&& required_agrees(self.creator, t, "creator"@)
        &&& required_agrees(self.creator_banned_from_community, t, "creator_banned_from_community"@)
        &&& optional_agrees(self.my_vote, t, "my_vote"@)
        &&& required_agrees(self.post, t, "post"@)
        &&& optional_agrees(self.resolver, t, "resolver"@)
    }

    fn to_json(&self) -> (out: JsonValue) {
        let mut members: Vec<(String, JsonValue)> = Vec::new();
        assert(members_view(members@) =~= Seq::empty());
        put(&mut members, "comment", &self.comment);
        put(&mut members, "comment_creator", &self.comment_creator);
        put(&mut members, "comment_report", &self.comment_report);
        put(&mut members, "community", &self.community);
        put(&mut members, "counts", &self.counts);
        put(&mut members, "creator", &self.creator);
        put(&mut members, "creator_banned_from_community", &self.creator_banned_from_community);
        put_optional(&mut members, "my_vote", &self.my_vote);
        put(&mut members, "post", &self.post);
        put_optional(&mut members, "resolver", &self.resolver);
        object(members)
    }

    fn from_json(v: &JsonValue) -> (res: Option<Self>) {
        if !v.is_object() {
            return None;
        }
        let comment = required::<Comment>(v, "comment")?;
        let comment_creator = required::<Person>(v, "comment_creator")?;
        let comment_report = required::<CommentReport>(v, "comment_report")?;
        let community = required::<Community>(v, "community")?;
        let counts = required::<CommentAggregates>(v, "counts")?;
        let creator = required::<Person>(v, "creator")?;
        let creator_banned_from_community = required::<bool>(v, "creator_banned_from_community")?;
        let my_vote = optional::<i32>(v, "my_vote")?;
        let post = required::<Post>(v, "post")?;
        let resolver = optional::<Person>(v, "resolver")?;
        Some(
            CommentReportView {
                comment,
                comment_creator,
                comment_report,
                community,
                counts,
                creator,
                creator_banned_from_community,
                my_vote,
                post,
                resolver,
            },
        )
    }

    proof fn lemma_round_trip(&self) {
        Self::lemma_members(
            self.comment.tree(),
            self.comment_creator.tree(),
            self.comment_report.tree(),
            self.community.tree(),
            self.counts.tree(),
            self.creator.tree(),
            self.creator_banned_from_community.tree(),
            written(self.my_vote),
            self.post.tree(),
            written(self.resolver),
        );
        self.comment.lemma_round_trip();
        self.comment_creator.lemma_round_trip();
        self.comment_report.lemma_round_trip();
        self.community.lemma_round_trip();
        self.counts.lemma_round_trip();
        self.creator.lemma_round_trip();
        self.creator_banned_from_community.lemma_round_trip();
        lemma_optional_round_trip(self.my_vote);
        self.post.lemma_round_trip();
        lemma_optional_round_trip(self.resolver);
    }

    proof fn lemma_reads_one(&self, other: &Self, t: JsonTree) {
        lemma_required_reads_one(self.comment, other.comment, t, "comment"@);
        lemma_required_reads_one(
            self.comment_creator,
            other.comment_creator,
            t,
            "comment_creator"@,
        );
        lemma_required_reads_one(self.comment_report, other.comment_report, t, "comment_report"@);
        lemma_required_reads_one(self.community, other.community, t, "community"@);
        lemma_required_reads_one(self.counts, other.counts, t, "counts"@);
        lemma_required_reads_one(self.creator, other.creator, t, "creator"@);
        lemma_required_reads_one(
            self.creator_banned_from_community,
            other.creator_banned_from_community,
            t,
            "creator_banned_from_community"@,
        );
        lemma_optional_reads_one(self.my_vote, other.my_vote, t, "my_vote"@);
        lemma_required_reads_one(self.post, other.post, t, "post"@);
        lemma_optional_reads_one(self.resolver, other.resolver, t, "resolver"@);
    }
}

#[derive(Clone, Debug, PartialEq, Default)]
pub struct CreateCommentReport {
    pub auth: String,
    pub comment_id: i32,
    pub reason: String,
}

impl CreateCommentReport {
    /// The members that a record is written as, from what is written for
    /// each of its fields.
    pub open spec fn members(
        auth: JsonTree,
        comment_id: JsonTree,
        reason: JsonTree,
    ) -> Seq<Member> {
        let members = Seq::empty();
        let members = with_field(members, "auth"@, auth);
        let members = with_field(members, "comment_id"@, comment_id);
        let members = with_field(members, "reason"@, reason);
        members
    }

    /// Each key leads to what was written under it, and to nothing where
    /// nothing was written.
    pub proof fn lemma_members(auth: JsonTree, comment_id: JsonTree, reason: JsonTree)
        ensures
            ({
                let members = Self::members(auth, comment_id, reason);
                &&& lookup(members, "auth"@) == Some(auth)
                &&& lookup(members, "comment_id"@) == Some(comment_id)
                &&& lookup(members, "reason"@) == Some(reason)
            }),
    {
        broadcast use group_written_members;

        reveal_strlit("auth");
        reveal_strlit("comment_id");
        reveal_strlit("reason");
        assert("auth"@.len() == 4);
        assert("comment_id"@.len() == 10);
        assert("reason"@.len() == 6);
    }

    /// Every field is mandatory: each is written, in order, and nothing
    /// else.
    pub proof fn lemma_mandatory_fields_alone(
        auth: JsonTree,
        comment_id: JsonTree,
        reason: JsonTree,
    )
        ensures
            Self::members(auth, comment_id, reason) == Seq::<Member>::empty()
                .push(("auth"@, auth))
                .push(("comment_id"@, comment_id))
                .push(("reason"@, reason)),
    {
        reveal(with_field);
        reveal(with_optional);
    }
}

impl Payload for CreateCommentReport {
    open spec fn tree(&self) -> JsonTree {
        JsonTree::Object(
            Self::members(self.auth.tree(), self.comment_id.tree(), self.reason.tree()),
        )
    }

    open spec fn admits(t: JsonTree) -> bool {
        &&& t is Object
        &&& required_admits::<String>(t, "auth"@)
        &&& required_admits::<i32>(t, "comment_id"@)
        &&& required_admits::<String>(t, "reason"@)
    }

    open spec fn agrees(&self, t: JsonTree) -> bool {
        &&& required_agrees(self.auth, t, "auth"@)
        &&& required_agrees(self.comment_id, t, "comment_id"@)
        &&& required_agrees(self.reason, t, "reason"@)
    }

    fn to_json(&self) -> (out: JsonValue) {
        let mut members: Vec<(String, JsonValue)> = Vec::new();
        assert(members_view(members@) =~= Seq::empty());
        put(&mut members, "auth", &self.auth);
        put(&mut members, "comment_id", &self.comment_id);
        put(&mut members, "reason", &self.reason);
        object(members)
    }

    fn from_json(v: &JsonValue) -> (res: Option<Self>) {
        if !v.is_object() {
            return None;
        }
        let auth = required::<String>(v, "auth")?;
        let comment_id = required::<i32>(v, "comment_id")?;
        let reason = required::<String>(v, "reason")?;
        Some(CreateCommentReport { auth, comment_id, reason })
    }

    proof fn lemma_round_trip(&self) {
        Self::lemma_members(self.auth.tree(), self.comment_id.tree(), self.reason.tree());
        self.auth.lemma_round_trip();
        self.comment_id.lemma_round_trip();
        self.reason.lemma_round_trip();
    }

    proof fn lemma_reads_one(&self, other: &Self, t: JsonTree) {
        lemma_required_reads_one(self.auth, other.auth, t, "auth"@);
        lemma_required_reads_one(self.comment_id, other.comment_id, t, "comment_id"@);
        lemma_required_reads_one(self.reason, other.reason, t, "reason"@);
    }
}

#[derive(Clone, Debug, PartialEq, Default)]
pub struct CreatePostReport {
    pub auth: String,
    pub post_id: i32,
    pub reason: String,
}

impl CreatePostReport {
    /// The members that a record is written as, from what is written for
    /// each of its fields.
    pub open spec fn members(auth: JsonTree, post_id: JsonTree, reason: JsonTree) -> Seq<Member> {
        let members = Seq::empty();
        let members = with_field(members, "auth"@, auth);
        let members = with_field(members, "post_id"@, post_id);
        let members = with_field(members, "reason"@, reason);
        members
    }

    /// Each key leads to what was written under it, and to nothing where
    /// nothing was written.
    pub proof fn lemma_members(auth: JsonTree, post_id: JsonTree, reason: JsonTree)
        ensures
            ({
                let members = Self::members(auth, post_id, reason);
                &&& lookup(members, "auth"@) == Some(auth)
                &&& lookup(members, "post_id"@) == Some(post_id)
                &&& lookup(members, "reason"@) == Some(reason)
            }),
    {
        broadcast use group_written_members;

        reveal_strlit("auth");
        reveal_strlit("post_id");
        reveal_strlit("reason");
        assert("auth"@.len() == 4);
        assert("post_id"@.len() == 7);
        assert("reason"@.len() == 6);
    }

    /// Every field is mandatory: each is written, in order, and nothing
    /// else.
    pub proof fn lemma_mandatory_fields_alone(auth: JsonTree, post_id: JsonTree, reason: JsonTree)
        ensures
            Self::members(auth, post_id, reason) == Seq::<Member>::empty()
                .push(("auth"@, auth))
                .push(("post_id"@, post_id))
                .push(("reason"@, reason)),
    {
        reveal(with_field);
        reveal(with_optional);
    }
}

impl Payload for CreatePostReport {
    open spec fn tree(&self) -> JsonTree {
        JsonTree::Object(Self::members(self.auth.tree(), self.post_id.tree(), self.reason.tree()))
    }

    open spec fn admits(t: JsonTree) -> bool {
        &&& t is Object
        &&& required_admits::<String>(t, "auth"@)
        &&& required_admits::<i32>(t, "post_id"@)
        &&& required_admits::<String>(t, "reason"@)
    }

    open spec fn agrees(&self, t: JsonTree) -> bool {
        &&& required_agrees(self.auth, t, "auth"@)
        &&& required_agrees(self.post_id, t, "post_id"@)
        &&& required_agrees(self.reason, t, "reason"@)
    }

    fn to_json(&self) -> (out: JsonValue) {
        let mut members: Vec<(String, JsonValue)> = Vec::new();
        assert(members_view(members@) =~= Seq::empty());
        put(&mut members, "auth", &self.auth);
        put(&mut members, "post_id", &self.post_id);
        put(&mut members, "reason", &self.reason);
        object(members)
    }

    fn from_json(v: &JsonValue) -> (res: Option<Self>) {
        if !v.is_object() {
            return None;
        }
        let auth = required::<String>(v, "auth")?;
        let post_id = required::<i32>(v, "post_id")?;
        let reason = required::<String>(v, "reason")?;
        Some(CreatePostReport { auth, post_id, reason })
    }

    proof fn lemma_round_trip(&self) {
        Self::lemma_members(self.auth.tree(), self.post_id.tree(), self.reason.tree());
        self.auth.lemma_round_trip();
        self.post_id.lemma_round_trip();
        self.reason.lemma_round_trip();
    }

    proof fn lemma_reads_one(&self, other: &Self, t: JsonTree) {
        lemma_required_reads_one(self.auth, other.auth, t, "auth"@);
        lemma_required_reads_one(self.post_id, other.post_id, t, "post_id"@);
        lemma_required_reads_one(self.reason, other.reason, t, "reason"@);
    }
}

#[derive(Clone, Debug, PartialEq, Default)]
pub struct GetReportCount {
    pub auth: String,
    pub community_id: Option<i32>,
}

impl GetReportCount {
    /// The members that a record is written as, from what is written for
    /// each of its fields.
    pub open spec fn members(auth: JsonTree, community_id: Option<JsonTree>) -> Seq<Member> {
        let members = Seq::empty();
        let members = with_field(members, "auth"@, auth);
        let members = with_optional(members, "community_id"@, community_id);
        members
    }

    /// Each key leads to what was written under it, and to nothing where
    /// nothing was written.
    pub proof fn lemma_members(auth: JsonTree, community_id: Option<JsonTree>)
        ensures
            ({
                let members = Self::members(auth, community_id);
                &&& lookup(members, "auth"@) == Some(auth)
                &&& lookup(members, "community_id"@) == community_id
            }),
    {
        broadcast use group_written_members;

        reveal_strlit("auth");
        reveal_strlit("community_id");
        assert("auth"@.len() == 4);
        assert("community_id"@.len() == 12);
    }

    /// With every optional field absent, the mandatory fields are written
    /// and nothing else.
    pub proof fn lemma_mandatory_fields_alone(auth: JsonTree)
        ensures
            Self::members(auth, None) == Seq::<Member>::empty()
                .push(("auth"@, auth)),
    {
        reveal(with_field);
        reveal(with_optional);
    }
}

impl Payload for GetReportCount {
    open spec fn tree(&self) -> JsonTree {
        JsonTree::Object(Self::members(self.auth.tree(), written(self.community_id)))
    }

    open spec fn admits(t: JsonTree) -> bool {
        &&& t is Object
        &&& required_admits::<String>(t, "auth"@)
        &&& optional_admits::<i32>(t, "community_id"@)
    }

    open spec fn agrees(&self, t: JsonTree) -> bool {
        &&& required_agrees(self.auth, t, "auth"@)
        &&& optional_agrees(self.community_id, t, "community_id"@)
    }

    fn to_json(&self) -> (out: JsonValue) {
        let mut members: Vec<(String, JsonValue)> = Vec::new();
        assert(members_view(members@) =~= Seq::empty());
        put(&mut members, "auth", &self.auth);
        put_optional(&mut members, "community_id", &self.community_id);
        object(members)
    }

    fn from_json(v: &JsonValue) -> (res: Option<Self>) {
        if !v.is_object() {
            return None;
        }
        let auth = required::<String>(v, "auth")?;
        let community_id = optional::<i32>(v, "community_id")?;
        Some(GetReportCount { auth, community_id })
    }

    proof fn lemma_round_trip(&self) {
        Self::lemma_members(self.auth.tree(), written(self.community_id));
        self.auth.lemma_round_trip();
        lemma_optional_round_trip(self.community_id);
    }

    proof fn lemma_reads_one(&self, other: &Self, t: JsonTree) {
        lemma_required_reads_one(self.auth, other.auth, t, "auth"@);
        lemma_optional_reads_one(self.community_id, other.community_id, t, "community_id"@);
    }
}

#[derive(Clone, Debug, PartialEq, Default)]
pub struct GetReportCountResponse {
    pub comment_reports: i32,
    pub community_id: Option<i32>,
    pub post_reports: i32,
    pub private_message_reports: Option<i32>,
}

impl GetReportCountResponse {
    /// The members that a record is written as, from what is written for
    /// each of its fields.
    pub open spec fn members(
        comment_reports: JsonTree,
        community_id: Option<JsonTree>,
        post_reports: JsonTree,
        private_message_reports: Option<JsonTree>,
    ) -> Seq<Member> {
        let members = Seq::empty();
        let members = with_field(members, "comment_reports"@, comment_reports);
        let members = with_optional(members, "community_id"@, community_id);
        let members = with_field(members, "post_reports"@, post_reports);
        let members = with_optional(members, "private_message_reports"@, private_message_reports);
        members
    }

    /// Each key leads to what was written under it, and to nothing where
    /// nothing was written.
    pub proof fn lemma_members(
        comment_reports: JsonTree,
        community_id: Option<JsonTree>,
        post_reports: JsonTree,
        private_message_reports: Option<JsonTree>,
    )
        ensures
            ({
                let members = Self::members(
                    comment_reports,
                    community_id,
                    post_reports,
                    private_message_reports,
                );
                &&& lookup(members, "comment_reports"@) == Some(comment_reports)
                &&& lookup(members, "community_id"@) == community_id
                &&& lookup(members, "post_reports"@) == Some(post_reports)
                &&& lookup(members, "private_message_reports"@) == private_message_reports
            }),
    {
        broadcast use group_written_members;

        reveal_strlit("comment_reports");
        reveal_strlit("community_id");
        reveal_strlit("post_reports");
        reveal_strlit("private_message_reports");
        assert("comment_reports"@.len() == 15);
        assert("community_id"@.len() == 12 && "community_id"@[0] == 'c');
        assert("post_reports"@.len() == 12 && "post_reports"@[0] == 'p');
        assert("private_message_reports"@.len() == 23);
    }

    /// With every optional field absent, the mandatory fields are written
    /// and nothing else.
    pub proof fn lemma_mandatory_fields_alone(comment_reports: JsonTree, post_reports: JsonTree)
        ensures
            Self::members(comment_reports, None, post_reports, None) == Seq::<Member>::empty()
                .push(("comment_reports"@, comment_reports))
                .push(("post_reports"@, post_reports)),
    {
        reveal(with_field);
        reveal(with_optional);
    }
}

impl Payload for GetReportCountResponse {
    open spec fn tree(&self) -> JsonTree {
        JsonTree::Object(
            Self::members(
                self.comment_reports.tree(),
                written(self.community_id),
                self.post_reports.tree(),
                written(self.private_message_reports),
            ),
        )
    }

    open spec fn admits(t: JsonTree) -> bool {
        &&& t is Object
        &&& required_admits::<i32>(t, "comment_reports"@)
        &&& optional_admits::<i32>(t, "community_id"@)
        &&& required_admits::<i32>(t, "post_reports"@)
        &&& optional_admits::<i32>(t, "private_message_reports"@)
    }

    open spec fn agrees(&self, t: JsonTree) -> bool {
        &&& required_agrees(self.comment_reports, t, "comment_reports"@)
        &&& optional_agrees(self.community_id, t, "community_id"@)
        &&& required_agrees(self.post_reports, t, "post_reports"@)
        &&& optional_agrees(self.private_message_reports, t, "private_message_reports"@)
    }

    fn to_json(&self) -> (out: JsonValue) {
        let mut members: Vec<(String, JsonValue)> = Vec::new();
        assert(members_view(members@) =~= Seq::empty());
        put(&mut members, "comment_reports", &self.comment_reports);
        put_optional(&mut members, "community_id", &self.community_id);
        put(&mut members, "post_reports", &self.post_reports);
        put_optional(&mut members, "private_message_reports", &self.private_message_reports);
        object(members)
    }

    fn from_json(v: &JsonValue) -> (res: Option<Self>) {
        if !v.is_object() {
            return None;
        }
        let comment_reports = required::<i32>(v, "comment_reports")?;
        let community_id = optional::<i32>(v, "community_id")?;
        let post_reports = required::<i32>(v, "post_reports")?;
        let private_message_reports = optional::<i32>(v, "private_message_reports")?;
        Some(
            GetReportCountResponse {
                comment_reports,
                community_id,
                post_reports,
                private_message_reports,
            },
        )
    }

    proof fn lemma_round_trip(&self) {
        Self::lemma_members(
            self.comment_reports.tree(),
            written(self.community_id),
            self.post_reports.tree(),
            written(self.private_message_reports),
        );
        self.comment_reports.lemma_round_trip();
        lemma_optional_round_trip(self.community_id);
        self.post_reports.lemma_round_trip();
        lemma_optional_round_trip(self.private_message_reports);
    }

    proof fn lemma_reads_one(&self, other: &Self, t: JsonTree) {
        lemma_required_reads_one(
            self.comment_reports,
            other.comment_reports,
            t,
            "comment_reports"@,
        );
        lemma_optional_reads_one(self.community_id, other.community_id, t, "community_id"@);
        lemma_required_reads_one(self.post_reports, other.post_reports, t, "post_reports"@);
        lemma_optional_reads_one(
            self.private_message_reports,
            other.private_message_reports,
            t,
            "private_message_reports"@,
        );
    }
}

#[derive(Clone, Debug, PartialEq, Default)]
pub struct ListCommentReports {
    pub auth: String,
    pub community_id: Option<i32>,
    pub limit: Option<i32>,
    pub page: Option<i32>,
    pub unresolved_only: Option<bool>,
}

impl ListCommentReports {
    /// The members that a record is written as, from what is written for
    /// each of its fields.
    pub open spec fn members(
        auth: JsonTree,
        community_id: Option<JsonTree>,
        limit: Option<JsonTree>,
        page: Option<JsonTree>,
        unresolved_only: Option<JsonTree>,
    ) -> Seq<Member> {
        let members = Seq::empty();
        let members = with_field(members, "auth"@, auth);
        let members = with_optional(members, "community_id"@, community_id);
        let members = with_optional(members, "limit"@, limit);
        let members = with_optional(members, "page"@, page);
        let members = with_optional(members, "unresolved_only"@, unresolved_only);
        members
    }

    /// Each key leads to what was written under it, and to nothing where
    /// nothing was written.
    pub proof fn lemma_members(
        auth: JsonTree,
        community_id: Option<JsonTree>,
        limit: Option<JsonTree>,
        page: Option<JsonTree>,
        unresolved_only: Option<JsonTree>,
    )
        ensures
            ({
                let members = Self::members(auth, community_id, limit, page, unresolved_only);
                &&& lookup(members, "auth"@) == Some(auth)
                &&& lookup(members, "community_id"@) == community_id
                &&& lookup(members, "limit"@) == limit
                &&& lookup(members, "page"@) == page
                &&& lookup(members, "unresolved_only"@) == unresolved_only
            }),
    {
        broadcast use group_written_members;

        reveal_strlit("auth");
        reveal_strlit("community_id");
        reveal_strlit("limit");
        reveal_strlit("page");
        reveal_strlit("unresolved_only");
        assert("auth"@.len() == 4 && "auth"@[0] == 'a');
        assert("community_id"@.len() == 12);
        assert("limit"@.len() == 5);
        assert("page"@.len() == 4 && "page"@[0] == 'p');
        assert("unresolved_only"@.len() == 15);
    }

    /// With every optional field absent, the mandatory fields are written
    /// and nothing else.
    pub proof fn lemma_mandatory_fields_alone(auth: JsonTree)
        ensures
            Self::members(auth, None, None, None, None) == Seq::<Member>::empty()
                .push(("auth"@, auth)),
    {
        reveal(with_field);
        reveal(with_optional);
    }
}

impl Payload for ListCommentReports {
    open spec fn tree(&self) -> JsonTree {
        JsonTree::Object(
            Self::members(
                self.auth.tree(),
                written(self.community_id),
                written(self.limit),
                written(self.page),
                written(self.unresolved_only),
            ),
        )
    }

    open spec fn admits(t: JsonTree) -> bool {
        &&& t is Object
        &&& required_admits::<String>(t, "auth"@)
        &&& optional_admits::<i32>(t, "community_id"@)
        &&& optional_admits::<i32>(t, "limit"@)
        &&& optional_admits::<i32>(t, "page"@)
        &&& optional_admits::<bool>(t, "unresolved_only"@)
    }

    open spec fn agrees(&self, t: JsonTree) -> bool {
        &&& required_agrees(self.auth, t, "auth"@)
        &&& optional_agrees(self.community_id, t, "community_id"@)
        &&& optional_agrees(self.limit, t, "limit"@)
        &&& optional_agrees(self.page, t, "page"@)
        &&& optional_agrees(self.unresolved_only, t, "unresolved_only"@)
    }

    fn to_json(&self) -> (out: JsonValue) {
        let mut members: Vec<(String, JsonValue)> = Vec::new();
        assert(members_view(members@) =~= Seq::empty());
        put(&mut members, "auth", &self.auth);
        put_optional(&mut members, "community_id", &self.community_id);
        put_optional(&mut members, "limit", &self.limit);
        put_optional(&mut members, "page", &self.page);
        put_optional(&mut members, "unresolved_only", &self.unresolved_only);
        object(members)
    }

    fn from_json(v: &JsonValue) -> (res: Option<Self>) {
        if !v.is_object() {
            return None;
        }
        let auth = required::<String>(v, "auth")?;
        let community_id = optional::<i32>(v, "community_id")?;
        let limit = optional::<i32>(v, "limit")?;
        let page = optional::<i32>(v, "page")?;
        let unresolved_only = optional::<bool>(v, "unresolved_only")?;
        Some(ListCommentReports { auth, community_id, limit, page, unresolved_only })
    }

    proof fn lemma_round_trip(&self) {
        Self::lemma_members(
            self.auth.tree(),
            written(self.community_id),
            written(self.limit),
            written(self.page),
            written(self.unresolved_only),
        );
        self.auth.lemma_round_trip();
        lemma_optional_round_trip(self.community_id);
        lemma_optional_round_trip(self.limit);
        lemma_optional_round_trip(self.page);
        lemma_optional_round_trip(self.unresolved_only);
    }

    proof fn lemma_reads_one(&self, other: &Self, t: JsonTree) {
        lemma_required_reads_one(self.auth, other.auth, t, "auth"@);
        lemma_optional_reads_one(self.community_id, other.community_id, t, "community_id"@);
        lemma_optional_reads_one(self.limit, other.limit, t, "limit"@);
        lemma_optional_reads_one(self.page, other.page, t, "page"@);
        lemma_optional_reads_one(
            self.unresolved_only,
            other.unresolved_only,
            t,
            "unresolved_only"@,
        );
    }
}

#[derive(Clone, Debug, PartialEq, Default)]
pub struct ListCommentReportsResponse {
    pub comment_reports: Vec<CommentReportView>,
}

impl ListCommentReportsResponse {
    /// The members that a record is written as, from what is written for
    /// each of its fields.
    pub open spec fn members(comment_reports: JsonTree) -> Seq<Member> {
        let members = Seq::empty();
        let members = with_field(members, "comment_reports"@, comment_reports);
        members
    }

    /// Each key leads to what was written under it, and to nothing where
    /// nothing was written.
    pub proof fn lemma_members(comment_reports: JsonTree)
        ensures
            ({
                let members = Self::members(comment_reports);
                &&& lookup(members, "comment_reports"@) == Some(comment_reports)
            }),
    {
        broadcast use group_written_members;

        reveal_strlit("comment_reports");
        assert("comment_reports"@.len() == 15);
    }

    /// Every field is mandatory: each is written, in order, and nothing
    /// else.
    pub proof fn lemma_mandatory_fields_alone(comment_reports: JsonTree)
        ensures
            Self::members(comment_reports) == Seq::<Member>::empty()
                .push(("comment_reports"@, comment_reports)),
    {
        reveal(with_field);
        reveal(with_optional);
    }
}

impl Payload for ListCommentReportsResponse {
    open spec fn tree(&self) -> JsonTree {
        JsonTree::Object(Self::members(self.comment_reports.tree()))
    }

    open spec fn admits(t: JsonTree) -> bool {
        &&& t is Object
        &&& required_admits::<Vec<CommentReportView>>(t, "comment_reports"@)
    }

    open spec fn agrees(&self, t: JsonTree) -> bool {
        &&& required_agrees(self.comment_reports, t, "comment_reports"@)
    }

    fn to_json(&self) -> (out: JsonValue) {
        let mut members: Vec<(String, JsonValue)> = Vec::new();
        assert(members_view(members@) =~= Seq::empty());
        put(&mut members, "comment_reports", &self.comment_reports);
        object(members)
    }

    fn from_json(v: &JsonValue) -> (res: Option<Self>) {
        if !v.is_object() {
            return None;
        }
        let comment_reports = required::<Vec<CommentReportView>>(v, "comment_reports")?;
        Some(ListCommentReportsResponse { comment_reports })
    }

    proof fn lemma_round_trip(&self) {
        Self::lemma_members(self.comment_reports.tree());
        self.comment_reports.lemma_round_trip();
    }

    proof fn lemma_reads_one(&self, other: &Self, t: JsonTree) {
        lemma_required_reads_one(
            self.comment_reports,
            other.comment_reports,
            t,
            "comment_reports"@,
        );
    }
}

#[derive(Clone, Debug, PartialEq, Default)]
pub struct ListPostReports {
    pub auth: String,
    pub community_id: Option<i32>,
    pub limit: Option<i32>,
    pub page: Option<i32>,
    pub unresolved_only: Option<bool>,
}

impl ListPostReports {
    /// The members that a record is written as, from what is written for
    /// each of its fields.
    pub open spec fn members(
        auth: JsonTree,
        community_id: Option<JsonTree>,
        limit: Option<JsonTree>,
        page: Option<JsonTree>,
        unresolved_only: Option<JsonTree>,
    ) -> Seq<Member> {
        let members = Seq::empty();
        let members = with_field(members, "auth"@, auth);
        let members = with_optional(members, "community_id"@, community_id);
        let members = with_optional(members, "limit"@, limit);
        let members = with_optional(members, "page"@, page);
        let members = with_optional(members, "unresolved_only"@, unresolved_only);
        members
    }

    /// Each key leads to what was written under it, and to nothing where
    /// nothing was written.
    pub proof fn lemma_members(
        auth: JsonTree,
        community_id: Option<JsonTree>,
        limit: Option<JsonTree>,
        page: Option<JsonTree>,
        unresolved_only: Option<JsonTree>,
    )
        ensures
            ({
                let members = Self::members(auth, community_id, limit, page, unresolved_only);
                &&& lookup(members, "auth"@) == Some(auth)
                &&& lookup(members, "community_id"@) == community_id
                &&& lookup(members, "limit"@) == limit
                &&& lookup(members, "page"@) == page
                &&& lookup(members, "unresolved_only"@) == unresolved_only
            }),
    {
        broadcast use group_written_members;

        reveal_strlit("auth");
        reveal_strlit("community_id");
        reveal_strlit("limit");
        reveal_strlit("page");
        reveal_strlit("unresolved_only");
        assert("auth"@.len() == 4 && "auth"@[0] == 'a');
        assert("community_id"@.len() == 12);
        assert("limit"@.len() == 5);
        assert("page"@.len() == 4 && "page"@[0] == 'p');
        assert("unresolved_only"@.len() == 15);
    }

    /// With every optional field absent, the mandatory fields are written
    /// and nothing else.
    pub proof fn lemma_mandatory_fields_alone(auth: JsonTree)
        ensures
            Self::members(auth, None, None, None, None) == Seq::<Member>::empty()
                .push(("auth"@, auth)),
    {
        reveal(with_field);
        reveal(with_optional);
    }
}

impl Payload for ListPostReports {
    open spec fn tree(&self) -> JsonTree {
        JsonTree::Object(
            Self::members(
                self.auth.tree(),
                written(self.community_id),
                written(self.limit),
                written(self.page),
                written(self.unresolved_only),
            ),
        )
    }

    open spec fn admits(t: JsonTree) -> bool {
        &&& t is Object
        &&& required_admits::<String>(t, "auth"@)
        &&& optional_admits::<i32>(t, "community_id"@)
        &&& optional_admits::<i32>(t, "limit"@)
        &&& optional_admits::<i32>(t, "page"@)
        &&& optional_admits::<bool>(t, "unresolved_only"@)
    }

    open spec fn agrees(&self, t: JsonTree) -> bool {
        &&& required_agrees(self.auth, t, "auth"@)
        &&& optional_agrees(self.community_id, t, "community_id"@)
        &&& optional_agrees(self.limit, t, "limit"@)
        &&& optional_agrees(self.page, t, "page"@)
        &&& optional_agrees(self.unresolved_only, t, "unresolved_only"@)
    }

    fn to_json(&self) -> (out: JsonValue) {
        let mut members: Vec<(String, JsonValue)> = Vec::new();
        assert(members_view(members@) =~= Seq::empty());
        put(&mut members, "auth", &self.auth);
        put_optional(&mut members, "community_id", &self.community_id);
        put_optional(&mut members, "limit", &self.limit);
        put_optional(&mut members, "page", &self.page);
        put_optional(&mut members, "unresolved_only", &self.unresolved_only);
        object(members)
    }

    fn from_json(v: &JsonValue) -> (res: Option<Self>) {
        if !v.is_object() {
            return None;
        }
        let auth = required::<String>(v, "auth")?;
        let community_id = optional::<i32>(v, "community_id")?;
        let limit = optional::<i32>(v, "limit")?;
        let page = optional::<i32>(v, "page")?;
        let unresolved_only = optional::<bool>(v, "unresolved_only")?;
        Some(ListPostReports { auth, community_id, limit, page, unresolved_only })
    }

    proof fn lemma_round_trip(&self) {
        Self::lemma_members(
            self.auth.tree(),
            written(self.community_id),
            written(self.limit),
            written(self.page),
            written(self.unresolved_only),
        );
        self.auth.lemma_round_trip();
        lemma_optional_round_trip(self.community_id);
        lemma_optional_round_trip(self.limit);
        lemma_optional_round_trip(self.page);
        lemma_optional_round_trip(self.unresolved_only);
    }

    proof fn lemma_reads_one(&self, other: &Self, t: JsonTree) {
        lemma_required_reads_one(self.auth, other.auth, t, "auth"@);
        lemma_optional_reads_one(self.community_id, other.community_id, t, "community_id"@);
        lemma_optional_reads_one(self.limit, other.limit, t, "limit"@);
        lemma_optional_reads_one(self.page, other.page, t, "page"@);
        lemma_optional_reads_one(
            self.unresolved_only,
            other.unresolved_only,
            t,
            "unresolved_only"@,
        );
    }
}

#[derive(Clone, Debug, PartialEq, Default)]
pub struct ListPostReportsResponse {
    pub post_reports: Vec<PostReportView>,
}

impl ListPostReportsResponse {
    /// The members that a record is written as, from what is written for
    /// each of its fields.
    pub open spec fn members(post_reports: JsonTree) -> Seq<Member> {
        let members = Seq::empty();
        let members = with_field(members, "post_reports"@, post_reports);
        members
    }

    /// Each key leads to what was written under it, and to nothing where
    /// nothing was written.
    pub proof fn lemma_members(post_reports: JsonTree)
        ensures
            ({
                let members = Self::members(post_reports);
                &&& lookup(members, "post_reports"@) == Some(post_reports)
            }),
    {
        broadcast use group_written_members;

        reveal_strlit("post_reports");
        assert("post_reports"@.len() == 12);
    }

    /// Every field is mandatory: each is written, in order, and nothing
    /// else.
    pub proof fn lemma_mandatory_fields_alone(post_reports: JsonTree)
        ensures
            Self::members(post_reports) == Seq::<Member>::empty()
                .push(("post_reports"@, post_reports)),
    {
        reveal(with_field);
        reveal(with_optional);
    }
}

impl Payload for ListPostReportsResponse {
    open spec fn tree(&self) -> JsonTree {
        JsonTree::Object(Self::members(self.post_reports.tree()))
    }

    open spec fn admits(t: JsonTree) -> bool {
        &&& t is Object
        &&& required_admits::<Vec<PostReportView>>(t, "post_reports"@)
    }

    open spec fn agrees(&self, t: JsonTree) -> bool {
        &&& required_agrees(self.post_reports, t, "post_reports"@)
    }

    fn to_json(&self) -> (out: JsonValue) {
        let mut members: Vec<(String, JsonValue)> = Vec::new();
        assert(members_view(members@) =~= Seq::empty());
        put(&mut members, "post_reports", &self.post_reports);
        object(members)
    }

    fn from_json(v: &JsonValue) -> (res: Option<Self>) {
        if !v.is_object() {
            return None;
        }
        let post_reports = required::<Vec<PostReportView>>(v, "post_reports")?;
        Some(ListPostReportsResponse { post_reports })
    }

    proof fn lemma_round_trip(&self) {
        Self::lemma_members(self.post_reports.tree());
        self.post_reports.lemma_round_trip();
    }

    proof fn lemma_reads_one(&self, other: &Self, t: JsonTree) {
        lemma_required_reads_one(self.post_reports, other.post_reports, t, "post_reports"@);
    }
}

#[derive(Clone, Debug, PartialEq, Default)]
pub struct PostReport {
    pub creator_id: i32,
    pub id: i32,
    pub original_post_body: Option<String>,
    pub original_post_name: String,
    pub original_post_url: Option<String>,
    pub post_id: i32,
    pub published: String,
    pub reason: String,
    pub resolved: bool,
    pub resolver_id: Option<i32>,
    pub updated: Option<String>,
}

impl PostReport {
    /// The members that a record is written as, from what is written for
    /// each of its fields.
    pub open spec fn members(
        creator_id: JsonTree,
        id: JsonTree,
        original_post_body: Option<JsonTree>,
        original_post_name: JsonTree,
        original_post_url: Option<JsonTree>,
        post_id: JsonTree,
        published: JsonTree,
        reason: JsonTree,
        resolved: JsonTree,
        resolver_id: Option<JsonTree>,
        updated: Option<JsonTree>,
    ) -> Seq<Member> {
        let members = Seq::empty();
        let members = with_field(members, "creator_id"@, creator_id);
        let members = with_field(members, "id"@, id);
        let members = with_optional(members, "original_post_body"@, original_post_body);
        let members = with_field(members, "original_post_name"@, original_post_name);
        let members = with_optional(members, "original_post_url"@, original_post_url);
        let members = with_field(members, "post_id"@, post_id);
        let members = with_field(members, "published"@, published);
        let members = with_field(members, "reason"@, reason);
        let members = with_field(members, "resolved"@, resolved);
        let members = with_optional(members, "resolver_id"@, resolver_id);
        let members = with_optional(members, "updated"@, updated);
        members
    }

    /// Each key leads to what was written under it, and to nothing where
    /// nothing was written.
    pub proof fn lemma_members(
        creator_id: JsonTree,
        id: JsonTree,
        original_post_body: Option<JsonTree>,
        original_post_name: JsonTree,
        original_post_url: Option<JsonTree>,
        post_id: JsonTree,
        published: JsonTree,
        reason: JsonTree,
        resolved: JsonTree,
        resolver_id: Option<JsonTree>,
        updated: Option<JsonTree>,
    )
        ensures
            ({
                let members = Self::members(
                    creator_id,
                    id,
                    original_post_body,
                    original_post_name,
                    original_post_url,
                    post_id,
                    published,
                    reason,
                    resolved,
                    resolver_id,
                    updated,
                );
                &&& lookup(members, "creator_id"@) == Some(creator_id)
                &&& lookup(members, "id"@) == Some(id)
                &&& lookup(members, "original_post_body"@) == original_post_body
                &&& lookup(members, "original_post_name"@) == Some(original_post_name)
                &&& lookup(members, "original_post_url"@) == original_post_url
                &&& lookup(members, "post_id"@) == Some(post_id)
                &&& lookup(members, "published"@) == Some(published)
                &&& lookup(members, "reason"@) == Some(reason)
                &&& lookup(members, "resolved"@) == Some(resolved)
                &&& lookup(members, "resolver_id"@) == resolver_id
                &&& lookup(members, "updated"@) == updated
            }),
    {
        broadcast use group_written_members;

        reveal_strlit("creator_id");
        reveal_strlit("id");
        reveal_strlit("original_post_body");
        reveal_strlit("original_post_name");
        reveal_strlit("original_post_url");
        reveal_strlit("post_id");
        reveal_strlit("published");
        reveal_strlit("reason");
        reveal_strlit("resolved");
        reveal_strlit("resolver_id");
        reveal_strlit("updated");
        assert("creator_id"@.len() == 10);
        assert("id"@.len() == 2);
        assert("original_post_body"@.len() == 18 && "original_post_body"@[14] == 'b');
        assert("original_post_name"@.len() == 18 && "original_post_name"@[14] == 'n');
        assert("original_post_url"@.len() == 17);
        assert("post_id"@.len() == 7 && "post_id"@[0] == 'p');
        assert("published"@.len() == 9);
        assert("reason"@.len() == 6);
        assert("resolved"@.len() == 8);
        assert("resolver_id"@.len() == 11);
        assert("updated"@.len() == 7 && "updated"@[0] == 'u');
    }

    /// With every optional field absent, the mandatory fields are written
    /// and nothing else.
    pub proof fn lemma_mandatory_fields_alone(
        creator_id: JsonTree,
        id: JsonTree,
        original_post_name: JsonTree,
        post_id: JsonTree,
        published: JsonTree,
        reason: JsonTree,
        resolved: JsonTree,
    )
        ensures
            Self::members(
                creator_id,
                id,
                None,
                original_post_name,
                None,
                post_id,
                published,
                reason,
                resolved,
                None,
                None,
            ) == Seq::<Member>::empty()
                .push(("creator_id"@, creator_id))
                .push(("id"@, id))
                .push(("original_post_name"@, original_post_name))
                .push(("post_id"@, post_id))
                .push(("published"@, published))
                .push(("reason"@, reason))
                .push(("resolved"@, resolved)),
    {
        reveal(with_field);
        reveal(with_optional);
    }
}

impl Payload for PostReport {
    open spec fn tree(&self) -> JsonTree {
        JsonTree::Object(
            Self::members(
                self.creator_id.tree(),
                self.id.tree(),
                written(self.original_post_body),
                self.original_post_name.tree(),
                written(self.original_post_url),
                self.post_id.tree(),
                self.published.tree(),
                self.reason.tree(),
                self.resolved.tree(),
                written(self.resolver_id),
                written(self.updated),
            ),
        )
    }

    open spec fn admits(t: JsonTree) -> bool {
        &&& t is Object
        &&& required_admits::<i32>(t, "creator_id"@)
        &&& required_admits::<i32>(t, "id"@)
        &&& optional_admits::<String>(t, "original_post_body"@)
        &&& required_admits::<String>(t, "original_post_name"@)
        &&& optional_admits::<String>(t, "original_post_url"@)
        &&& required_admits::<i32>(t, "post_id"@)
        &&& required_admits::<String>(t, "published"@)
        &&& required_admits::<String>(t, "reason"@)
        &&& required_admits::<bool>(t, "resolved"@)
        &&& optional_admits::<i32>(t, "resolver_id"@)
        &&& optional_admits::<String>(t, "updated"@)
    }

    open spec fn agrees(&self, t: JsonTree) -> bool {
        &&& required_agrees(self.creator_id, t, "creator_id"@)
        &&& required_agrees(self.id, t, "id"@)
        &&& optional_agrees(self.original_post_body, t, "original_post_body"@)
        &&& required_agrees(self.original_post_name, t, "original_post_name"@)
        &&& optional_agrees(self.original_post_url, t, "original_post_url"@)
        &&& required_agrees(self.post_id, t, "post_id"@)
        &&& required_agrees(self.published, t, "published"@)
        &&& required_agrees(self.reason, t, "reason"@)
        &&& required_agrees(self.resolved, t, "resolved"@)
        &&& optional_agrees(self.resolver_id, t, "resolver_id"@)
        &&& optional_agrees(self.updated, t, "updated"@)
    }

    fn to_json(&self) -> (out: JsonValue) {
        let mut members: Vec<(String, JsonValue)> = Vec::new();
        assert(members_view(members@) =~= Seq::empty());
        put(&mut members, "creator_id", &self.creator_id);
        put(&mut members, "id", &self.id);
        put_optional(&mut members, "original_post_body", &self.original_post_body);
        put(&mut members, "original_post_name", &self.original_post_name);
        put_optional(&mut members, "original_post_url", &self.original_post_url);
        put(&mut members, "post_id", &self.post_id);
        put(&mut members, "published", &self.published);
        put(&mut members, "reason", &self.reason);
        put(&mut members, "resolved", &self.resolved);
        put_optional(&mut members, "resolver_id", &self.resolver_id);
        put_optional(&mut members, "updated", &self.updated);
        object(members)
    }

    fn from_json(v: &JsonValue) -> (res: Option<Self>) {
        if !v.is_object() {
            return None;
        }
        let creator_id = required::<i32>(v, "creator_id")?;
        let id = required::<i32>(v, "id")?;
        let original_post_body = optional::<String>(v, "original_post_body")?;
        let original_post_name = required::<String>(v, "original_post_name")?;
        let original_post_url = optional::<String>(v, "original_post_url")?;
        let post_id = required::<i32>(v, "post_id")?;
        let published = required::<String>(v, "published")?;
        let reason = required::<String>(v, "reason")?;
        let resolved = required::<bool>(v, "resolved")?;
        let resolver_id = optional::<i32>(v, "resolver_id")?;
        let updated = optional::<String>(v, "updated")?;
        Some(
            PostReport {
                creator_id,
                id,
                original_post_body,
                original_post_name,
                original_post_url,
                post_id,
                published,
                reason,
                resolved,
                resolver_id,
                updated,
            },
        )
    }

    proof fn lemma_round_trip(&self) {
        Self::lemma_members(
            self.creator_id.tree(),
            self.id.tree(),
            written(self.original_post_body),
            self.original_post_name.tree(),
            written(self.original_post_url),
            self.post_id.tree(),
            self.published.tree(),
            self.reason.tree(),
            self.resolved.tree(),
            written(self.resolver_id),
            written(self.updated),
        );
        self.creator_id.lemma_round_trip();
        self.id.lemma_round_trip();
        lemma_optional_round_trip(self.original_post_body);
        self.original_post_name.lemma_round_trip();
        lemma_optional_round_trip(self.original_post_url);
        self.post_id.lemma_round_trip();
        self.published.lemma_round_trip();
        self.reason.lemma_round_trip();
        self.resolved.lemma_round_trip();
        lemma_optional_round_trip(self.resolver_id);
        lemma_optional_round_trip(self.updated);
    }

    proof fn lemma_reads_one(&self, other: &Self, t: JsonTree) {
        lemma_required_reads_one(self.creator_id, other.creator_id, t, "creator_id"@);
        lemma_required_reads_one(self.id, other.id, t, "id"@);
        lemma_optional_reads_one(
            self.original_post_body,
            other.original_post_body,
            t,
            "original_post_body"@,
        );
        lemma_required_reads_one(
            self.original_post_name,
            other.original_post_name,
            t,
            "original_post_name"@,
        );
        lemma_optional_reads_one(
            self.original_post_url,
            other.original_post_url,
            t,
            "original_post_url"@,
        );
        lemma_required_reads_one(self.post_id, other.post_id, t, "post_id"@);
        lemma_required_reads_one(self.published, other.published, t, "published"@);
        lemma_required_reads_one(self.reason, other.reason, t, "reason"@);
        lemma_required_reads_one(self.resolved, other.resolved, t, "resolved"@);
        lemma_optional_reads_one(self.resolver_id, other.resolver_id, t, "resolver_id"@);
        lemma_optional_reads_one(self.updated, other.updated, t, "updated"@);
    }
}

#[derive(Clone, Debug, PartialEq, Default)]
pub struct PostReportResponse {
    pub post_report_view: PostReportView,
}

impl PostReportResponse {
    /// The members that a record is written as, from what is written for
    /// each of its fields.
    pub open spec fn members(post_report_view: JsonTree) -> Seq<Member> {
        let members = Seq::empty();
        let members = with_field(members, "post_report_view"@, post_report_view);
        members
    }

    /// Each key leads to what was written under it, and to nothing where
    /// nothing was written.
    pub proof fn lemma_members(post_report_view: JsonTree)
        ensures
            ({
                let members = Self::members(post_report_view);
                &&& lookup(members, "post_report_view"@) == Some(post_report_view)
            }),
    {
        broadcast use group_written_members;

        reveal_strlit("post_report_view");
        assert("post_report_view"@.len() == 16);
    }

    /// Every field is mandatory: each is written, in order, and nothing
    /// else.
    pub proof fn lemma_mandatory_fields_alone(post_report_view: JsonTree)
        ensures
            Self::members(post_report_view) == Seq::<Member>::empty()
                .push(("post_report_view"@, post_report_view)),
    {
        reveal(with_field);
        reveal(with_optional);
    }
}

impl Payload for PostReportResponse {
    open spec fn tree(&self) -> JsonTree {
        JsonTree::Object(Self::members(self.post_report_view.tree()))
    }

    open spec fn admits(t: JsonTree) -> bool {
        &&& t is Object
        &&& required_admits::<PostReportView>(t, "post_report_view"@)
    }

    open spec fn agrees(&self, t: JsonTree) -> bool {
        &&& required_agrees(self.post_report_view, t, "post_report_view"@)
    }

    fn to_json(&self) -> (out: JsonValue) {
        let mut members: Vec<(String, JsonValue)> = Vec::new();
        assert(members_view(members@) =~= Seq::empty());
        put(&mut members, "post_report_view", &self.post_report_view);
        object(members)
    }

    fn from_json(v: &JsonValue) -> (res: Option<Self>) {
        if !v.is_object() {
            return None;
        }
        let post_report_view = required::<PostReportView>(v, "post_report_view")?;
        Some(PostReportResponse { post_report_view })
    }

    proof fn lemma_round_trip(&self) {
        Self::lemma_members(self.post_report_view.tree());
        self.post_report_view.lemma_round_trip();
    }

    proof fn lemma_reads_one(&self, other: &Self, t: JsonTree) {
        lemma_required_reads_one(
            self.post_report_view,
            other.post_report_view,
            t,
            "post_report_view"@,
        );
    }
}

#[derive(Clone, Debug, PartialEq, Default)]
pub struct PostReportView {
    pub community: Community,
    pub counts: PostAggregates,
    pub creator: Person,
    pub creator_banned_from_community: bool,
    pub my_vote: Option<i32>,
    pub post: Post,
    pub post_creator: Person,
    pub post_report: PostReport,
    pub resolver: Option<Person>,
}

impl PostReportView {
    /// The members that a record is written as, from what is written for
    /// each of its fields.
    pub open spec fn members(
        community: JsonTree,
        counts: JsonTree,
        creator: JsonTree,
        creator_banned_from_community: JsonTree,
        my_vote: Option<JsonTree>,
        post: JsonTree,
        post_creator: JsonTree,
        post_report: JsonTree,
        resolver: Option<JsonTree>,
    ) -> Seq<Member> {
        let members = Seq::empty();
        let members = with_field(members, "community"@, community);
        let members = with_field(members, "counts"@, counts);
        let members = with_field(members, "creator"@, creator);
        let members = with_field(
            members,
            "creator_banned_from_community"@,
            creator_banned_from_community,
        );
        let members = with_optional(members, "my_vote"@, my_vote);
        let members = with_field(members, "post"@, post);
        let members = with_field(members, "post_creator"@, post_creator);
        let members = with_field(members, "post_report"@, post_report);
        let members = with_optional(members, "resolver"@, resolver);
        members
    }

    /// Each key leads to what was written under it, and to nothing where
    /// nothing was written.
    pub proof fn lemma_members(
        community: JsonTree,
        counts: JsonTree,
        creator: JsonTree,
        creator_banned_from_community: JsonTree,
        my_vote: Option<JsonTree>,
        post: JsonTree,
        post_creator: JsonTree,
        post_report: JsonTree,
        resolver: Option<JsonTree>,
    )
        ensures
            ({
                let members = Self::members(
                    community,
                    counts,
                    creator,
                    creator_banned_from_community,
                    my_vote,
                    post,
                    post_creator,
                    post_report,
                    resolver,
                );
                &&& lookup(members, "community"@) == Some(community)
                &&& lookup(members, "counts"@) == Some(counts)
                &&& lookup(members, "creator"@) == Some(creator)
                &&& lookup(members, "creator_banned_from_community"@)
                    == Some(creator_banned_from_community)
                &&& lookup(members, "my_vote"@) == my_vote
                &&& lookup(members, "post"@) == Some(post)
                &&& lookup(members, "post_creator"@) == Some(post_creator)
                &&& lookup(members, "post_report"@) == Some(post_report)
                &&& lookup(members, "resolver"@) == resolver
            }),
    {
        broadcast use group_written_members;

        reveal_strlit("community");
        reveal_strlit("counts");
        reveal_strlit("creator");
        reveal_strlit("creator_banned_from_community");
        reveal_strlit("my_vote");
        reveal_strlit("post");
        reveal_strlit("post_creator");
        reveal_strlit("post_report");
        reveal_strlit("resolver");
        assert("community"@.len() == 9);
        assert("counts"@.len() == 6);
        assert("creator"@.len() == 7 && "creator"@[0] == 'c');
        assert("creator_banned_from_community"@.len() == 29);
        assert("my_vote"@.len() == 7 && "my_vote"@[0] == 'm');
        assert("post"@.len() == 4);
        assert("post_creator"@.len() == 12);
        assert("post_report"@.len() == 11);
        assert("resolver"@.len() == 8);
    }

    /// With every optional field absent, the mandatory fields are written
    /// and nothing else.
    pub proof fn lemma_mandatory_fields_alone(
        community: JsonTree,
        counts: JsonTree,
        creator: JsonTree,
        creator_banned_from_community: JsonTree,
        post: JsonTree,
        post_creator: JsonTree,
        post_report: JsonTree,
    )
        ensures
            Self::members(
                community,
                counts,
                creator,
                creator_banned_from_community,
                None,
                post,
                post_creator,
                post_report,
                None,
            ) == Seq::<Member>::empty()
                .push(("community"@, community))
                .push(("counts"@, counts))
                .push(("creator"@, creator))
                .push(("creator_banned_from_community"@, creator_banned_from_community))
                .push(("post"@, post))
                .push(("post_creator"@, post_creator))
                .push(("post_report"@, post_report)),
    {
        reveal(with_field);
        reveal(with_optional);
    }
}

impl Payload for PostReportView {
    open spec fn tree(&self) -> JsonTree {
        JsonTree::Object(
            Self::members(
                self.community.tree(),
                self.counts.tree(),
                self.creator.tree(),
                self.creator_banned_from_community.tree(),
                written(self.my_vote),
                self.post.tree(),
                self.post_creator.tree(),
                self.post_report.tree(),
                written(self.resolver),
            ),
        )
    }

    open spec fn admits(t: JsonTree) -> bool {
        &&& t is Object
        &&& required_admits::<Community>(t, "community"@)
        &&& required_admits::<PostAggregates>(t, "counts"@)
        &&& required_admits::<Person>(t, "creator"@)
        &&& required_admits::<bool>(t, "creator_banned_from_community"@)
        &&& optional_admits::<i32>(t, "my_vote"@)
        &&& required_admits::<Post>(t, "post"@)
        &&& required_admits::<Person>(t, "post_creator"@)
        &&& required_admits::<PostReport>(t, "post_report"@)
        &&& optional_admits::<Person>(t, "resolver"@)
    }

    open spec fn agrees(&self, t: JsonTree) -> bool {
        &&& required_agrees(self.community, t, "community"@)
        &&& required_agrees(self.counts, t, "counts"@)
        &&& required_agrees(self.creator, t, "creator"@)
        &&& required_agrees(self.creator_banned_from_community, t, "creator_banned_from_community"@)
        &&& optional_agrees(self.my_vote, t, "my_vote"@)
        &&& required_agrees(self.post, t, "post"@)
        &&& required_agrees(self.post_creator, t, "post_creator"@)
        &&& required_agrees(self.post_report, t, "post_report"@)
        &&& optional_agrees(self.resolver, t, "resolver"@)
    }

    fn to_json(&self) -> (out: JsonValue) {
        let mut members: Vec<(String, JsonValue)> = Vec::new();
        assert(members_view(members@) =~= Seq::empty());
        put(&mut members, "community", &self.community);
        put(&mut members, "counts", &self.counts);
        put(&mut members, "creator", &self.creator);
        put(&mut members, "creator_banned_from_community", &self.creator_banned_from_community);
        put_optional(&mut members, "my_vote", &self.my_vote);
        put(&mut members, "post", &self.post);
        put(&mut members, "post_creator", &self.post_creator);
        put(&mut members, "post_report", &self.post_report);
        put_optional(&mut members, "resolver", &self.resolver);
        object(members)
    }

    fn from_json(v: &JsonValue) -> (res: Option<Self>) {
        if !v.is_object() {
            return None;
        }
        let community = required::<Community>(v, "community")?;
        let counts = required::<PostAggregates>(v, "counts")?;
        let creator = required::<Person>(v, "creator")?;
        let creator_banned_from_community = required::<bool>(v, "creator_banned_from_community")?;
        let my_vote = optional::<i32>(v, "my_vote")?;
        let post = required::<Post>(v, "post")?;
        let post_creator = required::<Person>(v, "post_creator")?;
        let post_report = required::<PostReport>(v, "post_report")?;
        let resolver = optional::<Person>(v, "resolver")?;
        Some(
            PostReportView {
                community,
                counts,
                creator,
                creator_banned_from_community,
                my_vote,
                post,
                post_creator,
                post_report,
                resolver,
            },
        )
    }

    proof fn lemma_round_trip(&self) {
        Self::lemma_members(
            self.community.tree(),
            self.counts.tree(),
            self.creator.tree(),
            self.creator_banned_from_community.tree(),
            written(self.my_vote),
            self.post.tree(),
            self.post_creator.tree(),
            self.post_report.tree(),
            written(self.resolver),
        );
        self.community.lemma_round_trip();
        self.counts.lemma_round_trip();
        self.creator.lemma_round_trip();
        self.creator_banned_from_community.lemma_round_trip();
        lemma_optional_round_trip(self.my_vote);
        self.post.lemma_round_trip();
        self.post_creator.lemma_round_trip();
        self.post_report.lemma_round_trip();
        lemma_optional_round_trip(self.resolver);
    }

    proof fn lemma_reads_one(&self, other: &Self, t: JsonTree) {
        lemma_required_reads_one(self.community, other.community, t, "community"@);
        lemma_required_reads_one(self.counts, other.counts, t, "counts"@);
        lemma_required_reads_one(self.creator, other.creator, t, "creator"@);
        lemma_required_reads_one(
            self.creator_banned_from_community,
            other.creator_banned_from_community,
            t,
            "creator_banned_from_community"@,
        );
        lemma_optional_reads_one(self.my_vote, other.my_vote, t, "my_vote"@);
        lemma_required_reads_one(self.post, other.post, t, "post"@);
        lemma_required_reads_one(self.post_creator, other.post_creator, t, "post_creator"@);
        lemma_required_reads_one(self.post_report, other.post_report, t, "post_report"@);
        lemma_optional_reads_one(self.resolver, other.resolver, t, "resolver"@);
    }
}

#[derive(Clone, Debug, PartialEq, Default)]
pub struct ResolveCommentReport {
    pub auth: String,
    pub report_id: i32,
    pub resolved: bool,
}

impl ResolveCommentReport {
    /// The members that a record is written as, from what is written for
    /// each of its fields.
    pub open spec fn members(
        auth: JsonTree,
        report_id: JsonTree,
        resolved: JsonTree,
    ) -> Seq<Member> {
        let members = Seq::empty();
        let members = with_field(members, "auth"@, auth);
        let members = with_field(members, "report_id"@, report_id);
        let members = with_field(members, "resolved"@, resolved);
        members
    }

    /// Each key leads to what was written under it, and to nothing where
    /// nothing was written.
    pub proof fn lemma_members(auth: JsonTree, report_id: JsonTree, resolved: JsonTree)
        ensures
            ({
                let members = Self::members(auth, report_id, resolved);
                &&& lookup(members, "auth"@) == Some(auth)
                &&& lookup(members, "report_id"@) == Some(report_id)
                &&& lookup(members, "resolved"@) == Some(resolved)
            }),
    {
        broadcast use group_written_members;

        reveal_strlit("auth");
        reveal_strlit("report_id");
        reveal_strlit("resolved");
        assert("auth"@.len() == 4);
        assert("report_id"@.len() == 9);
        assert("resolved"@.len() == 8);
    }

    /// Every field is mandatory: each is written, in order, and nothing
    /// else.
    pub proof fn lemma_mandatory_fields_alone(
        auth: JsonTree,
        report_id: JsonTree,
        resolved: JsonTree,
    )
        ensures
            Self::members(auth, report_id, resolved) == Seq::<Member>::empty()
                .push(("auth"@, auth))
                .push(("report_id"@, report_id))
                .push(("resolved"@, resolved)),
    {
        reveal(with_field);
        reveal(with_optional);
    }
}

impl Payload for ResolveCommentReport {
    open spec fn tree(&self) -> JsonTree {
        JsonTree::Object(
            Self::members(self.auth.tree(), self.report_id.tree(), self.resolved.tree()),
        )
    }

    open spec fn admits(t: JsonTree) -> bool {
        &&& t is Object
        &&& required_admits::<String>(t, "auth"@)
        &&& required_admits::<i32>(t, "report_id"@)
        &&& required_admits::<bool>(t, "resolved"@)
    }

    open spec fn agrees(&self, t: JsonTree) -> bool {
        &&& required_agrees(self.auth, t, "auth"@)
        &&& required_agrees(self.report_id, t, "report_id"@)
        &&& required_agrees(self.resolved, t, "resolved"@)
    }

    fn to_json(&self) -> (out: JsonValue) {
        let mut members: Vec<(String, JsonValue)> = Vec::new();
        assert(members_view(members@) =~= Seq::empty());
        put(&mut members, "auth", &self.auth);
        put(&mut members, "report_id", &self.report_id);
        put(&mut members, "resolved", &self.resolved);
        object(members)
    }

    fn from_json(v: &JsonValue) -> (res: Option<Self>) {
        if !v.is_object() {
            return None;
        }
        let auth = required::<String>(v, "auth")?;
        let report_id = required::<i32>(v, "report_id")?;
        let resolved = required::<bool>(v, "resolved")?;
        Some(ResolveCommentReport { auth, report_id, resolved })
    }

    proof fn lemma_round_trip(&self) {
        Self::lemma_members(self.auth.tree(), self.report_id.tree(), self.resolved.tree());
        self.auth.lemma_round_trip();
        self.report_id.lemma_round_trip();
        self.resolved.lemma_round_trip();
    }

    proof fn lemma_reads_one(&self, other: &Self, t: JsonTree) {
        lemma_required_reads_one(self.auth, other.auth, t, "auth"@);
        lemma_required_reads_one(self.report_id, other.report_id, t, "report_id"@);
        lemma_required_reads_one(self.resolved, other.resolved, t, "resolved"@);
    }
}

#[derive(Clone, Debug, PartialEq, Default)]
pub struct ResolvePostReport {
    pub auth: String,
    pub report_id: i32,
    pub resolved: bool,
}

impl ResolvePostReport {
    /// The members that a record is written as, from what is written for
    /// each of its fields.
    pub open spec fn members(
        auth: JsonTree,
        report_id: JsonTree,
        resolved: JsonTree,
    ) -> Seq<Member> {
        let members = Seq::empty();
        let members = with_field(members, "auth"@, auth);
        let members = with_field(members, "report_id"@, report_id);
        let members = with_field(members, "resolved"@, resolved);
        members
    }

    /// Each key leads to what was written under it, and to nothing where
    /// nothing was written.
    pub proof fn lemma_members(auth: JsonTree, report_id: JsonTree, resolved: JsonTree)
        ensures
            ({
                let members = Self::members(auth, report_id, resolved);
                &&& lookup(members, "auth"@) == Some(auth)
                &&& lookup(members, "report_id"@) == Some(report_id)
                &&& lookup(members, "resolved"@) == Some(resolved)
            }),
    {
        broadcast use group_written_members;

        reveal_strlit("auth");
        reveal_strlit("report_id");
        reveal_strlit("resolved");
        assert("auth"@.len() == 4);
        assert("report_id"@.len() == 9);
        assert("resolved"@.len() == 8);
    }

    /// Every field is mandatory: each is written, in order, and nothing
    /// else.
    pub proof fn lemma_mandatory_fields_alone(
        auth: JsonTree,
        report_id: JsonTree,
        resolved: JsonTree,
    )
        ensures
            Self::members(auth, report_id, resolved) == Seq::<Member>::empty()
                .push(("auth"@, auth))
                .push(("report_id"@, report_id))
                .push(("resolved"@, resolved)),
    {
        reveal(with_field);
        reveal(with_optional);
    }
}

impl Payload for ResolvePostReport {
    open spec fn tree(&self) -> JsonTree {
        JsonTree::Object(
            Self::members(self.auth.tree(), self.report_id.tree(), self.resolved.tree()),
        )
    }

    open spec fn admits(t: JsonTree) -> bool {
        &&& t is Object
        &&& required_admits::<String>(t, "auth"@)
        &&& required_admits::<i32>(t, "report_id"@)
        &&& required_admits::<bool>(t, "resolved"@)
    }

    open spec fn agrees(&self, t: JsonTree) -> bool {
        &&& required_agrees(self.auth, t, "auth"@)
        &&& required_agrees(self.report_id, t, "report_id"@)
        &&& required_agrees(self.resolved, t, "resolved"@)
    }

    fn to_json(&self) -> (out: JsonValue) {
        let mut members: Vec<(String, JsonValue)> = Vec::new();
        assert(members_view(members@) =~= Seq::empty());
        put(&mut members, "auth", &self.auth);
        put(&mut members, "report_id", &self.report_id);
        put(&mut members, "resolved", &self.resolved);
        object(members)
    }

    fn from_json(v: &JsonValue) -> (res: Option<Self>) {
        if !v.is_object() {
            return None;
        }
        let auth = required::<String>(v, "auth")?;
        let report_id = required::<i32>(v, "report_id")?;
        let resolved = required::<bool>(v, "resolved")?;
        Some(ResolvePostReport { auth, report_id, resolved })
    }

    proof fn lemma_round_trip(&self) {
        Self::lemma_members(self.auth.tree(), self.report_id.tree(), self.resolved.tree());
        self.auth.lemma_round_trip();
        self.report_id.lemma_round_trip();
        self.resolved.lemma_round_trip();
    }

    proof fn lemma_reads_one(&self, other: &Self, t: JsonTree) {
        lemma_required_reads_one(self.auth, other.auth, t, "auth"@);
        lemma_required_reads_one(self.report_id, other.report_id, t, "report_id"@);
        lemma_required_reads_one(self.resolved, other.resolved, t, "resolved"@);
    }
}

} // verus!
