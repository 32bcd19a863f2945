//! The closed enumerations of the API. Each variant has one wire string,
//! written here once; reading goes by exact match and nothing is guessed.

use vstd::prelude::*;
use crate::json::{JsonTree, JsonValue};
use crate::payload::Payload;
use crate::text::str_equal;

verus! {

/// The order in which comments are listed.
#[derive(Clone, Copy, Debug, PartialEq, Eq, Default, Structural)]
pub enum CommentSortType {
    #[default]
    Hot,
    Top,
    New,
    Old,
}

impl CommentSortType {
    pub const HOT: &'static str = "Hot";
    pub const TOP: &'static str = "Top";
    pub const NEW: &'static str = "New";
    pub const OLD: &'static str = "Old";

    /// The wire string of a variant.
    pub open spec fn wire(self) -> Seq<char> {
        match self {
            Self::Hot => "Hot"@,
            Self::Top => "Top"@,
            Self::New => "New"@,
            Self::Old => "Old"@,
        }
    }

    /// The variant that a wire string stands for, if it stands for one.
    pub open spec fn parse(s: Seq<char>) -> Option<Self> {
        if s == "Hot"@ {
            Some(Self::Hot)
        } else if s == "Top"@ {
            Some(Self::Top)
        } else if s == "New"@ {
            Some(Self::New)
        } else if s == "Old"@ {
            Some(Self::Old)
        } else {
            None
        }
    }

    /// Reads a wire string. Any string but the wire string of a variant,
    /// letter for letter, gives `None`.
    pub fn from_str(value: &str) -> (res: Option<Self>)
        ensures
            res == Self::parse(value@),
    {
        if str_equal(value, Self::HOT) {
            Some(Self::Hot)
        } else if str_equal(value, Self::TOP) {
            Some(Self::Top)
        } else if str_equal(value, Self::NEW) {
            Some(Self::New)
        } else if str_equal(value, Self::OLD) {
            Some(Self::Old)
        } else {
            None
        }
    }

    /// The wire string of the variant.
    pub fn to_str(&self) -> (res: &'static str)
        ensures
            res@ == self.wire(),
            Self::parse(res@) == Some(*self),
    {
        proof {
            Self::lemma_parse_wire(*self);
        }
        match self {
            Self::Hot => Self::HOT,
            Self::Top => Self::TOP,
            Self::New => Self::NEW,
            Self::Old => Self::OLD,
        }
    }

    /// What is known of the wire strings: enough to tell any two apart.
    pub proof fn lemma_wire_strings()
        ensures
            "Hot"@.len() == 3 && "Hot"@[0] == 'H',
            "Top"@.len() == 3 && "Top"@[0] == 'T',
            "New"@.len() == 3 && "New"@[0] == 'N',
            "Old"@.len() == 3 && "Old"@[0] == 'O',
    {
        reveal_strlit("Hot");
        reveal_strlit("Top");
        reveal_strlit("New");
        reveal_strlit("Old");
    }

    /// Reading the wire string of a variant gives that variant back.
    pub proof fn lemma_parse_wire(v: Self)
        ensures
            Self::parse(v.wire()) == Some(v),
    {
        Self::lemma_wire_strings();
    }

    /// A string is read as a variant only if it is that variant's wire
    /// string.
    pub proof fn lemma_parse_sound(s: Seq<char>)
        ensures
            Self::parse(s) matches Some(v) ==> v.wire() == s,
    {
    }

    /// A string that is the wire string of no variant is read as none.
    pub proof fn lemma_parse_rejects(s: Seq<char>)
        requires
            forall|v: Self| v.wire() != s,
        ensures
            Self::parse(s) is None,
    {
        if let Some(v) = Self::parse(s) {
            assert(v.wire() == s);
        }
    }

    /// No two variants share a wire string.
    pub proof fn lemma_wire_injective(a: Self, b: Self)
        requires
            a.wire() == b.wire(),
        ensures
            a == b,
    {
        Self::lemma_parse_wire(a);
        Self::lemma_parse_wire(b);
    }
}

impl Payload for CommentSortType {
    open spec fn tree(&self) -> JsonTree {
        JsonTree::Str(self.wire())
    }

    open spec fn admits(t: JsonTree) -> bool {
        t matches JsonTree::Str(s) && Self::parse(s) is Some
    }

    open spec fn agrees(&self, t: JsonTree) -> bool {
        t matches JsonTree::Str(s) && Self::parse(s) == Some(*self)
    }

    fn to_json(&self) -> (out: JsonValue) {
        JsonValue::Str(self.to_str().to_owned())
    }

    fn from_json(v: &JsonValue) -> (res: Option<Self>) {
        match v {
            JsonValue::Str(s) => Self::from_str(s.as_str()),
            _ => None,
        }
    }

    proof fn lemma_round_trip(&self) {
        Self::lemma_parse_wire(*self);
    }

    proof fn lemma_reads_one(&self, other: &Self, t: JsonTree) {
    }
}

/// Which communities a listing draws from.
#[derive(Clone, Copy, Debug, PartialEq, Eq, Default, Structural)]
pub enum ListingType {
    All,
    Local,
    #[default]
    Subscribed,
}

impl ListingType {
    pub const ALL: &'static str = "All";
    pub const LOCAL: &'static str = "Local";
    pub const SUBSCRIBED: &'static str = "Subscribed";

    /// The wire string of a variant.
    pub open spec fn wire(self) -> Seq<char> {
        match self {
            Self::All => "All"@,
            Self::Local => "Local"@,
            Self::Subscribed => "Subscribed"@,
        }
    }

    /// The variant that a wire string stands for, if it stands for one.
    pub open spec fn parse(s: Seq<char>) -> Option<Self> {
        if s == "All"@ {
            Some(Self::All)
        } else if s == "Local"@ {
            Some(Self::Local)
        } else if s == "Subscribed"@ {
            Some(Self::Subscribed)
        } else {
            None
        }
    }

    /// Reads a wire string. Any string but the wire string of a variant,
    /// letter for letter, gives `None`.
    pub fn from_str(value: &str) -> (res: Option<Self>)
        ensures
            res == Self::parse(value@),
    {
        if str_equal(value, Self::ALL) {
            Some(Self::All)
        } else if str_equal(value, Self::LOCAL) {
            Some(Self::Local)
        } else if str_equal(value, Self::SUBSCRIBED) {
            Some(Self::Subscribed)
        } else {
            None
        }
    }

    /// The wire string of the variant.
    pub fn to_str(&self) -> (res: &'static str)
        ensures
            res@ == self.wire(),
            Self::parse(res@) == Some(*self),
    {
        proof {
            Self::lemma_parse_wire(*self);
        }
        match self {
            Self::All => Self::ALL,
            Self::Local => Self::LOCAL,
            Self::Subscribed => Self::SUBSCRIBED,
        }
    }

    /// What is known of the wire strings: enough to tell any two apart.
    pub proof fn lemma_wire_strings()
        ensures
            "All"@.len() == 3,
            "Local"@.len() == 5,
            "Subscribed"@.len() == 10,
    {
        reveal_strlit("All");
        reveal_strlit("Local");
        reveal_strlit("Subscribed");
    }

    /// Reading the wire string of a variant gives that variant back.
    pub proof fn lemma_parse_wire(v: Self)
        ensures
            Self::parse(v.wire()) == Some(v),
    {
        Self::lemma_wire_strings();
    }

    /// A string is read as a variant only if it is that variant's wire
    /// string.
    pub proof fn lemma_parse_sound(s: Seq<char>)
        ensures
            Self::parse(s) matches Some(v) ==> v.wire() == s,
    {
    }

    /// A string that is the wire string of no variant is read as none.
    pub proof fn lemma_parse_rejects(s: Seq<char>)
        requires
            forall|v: Self| v.wire() != s,
        ensures
            Self::parse(s) is None,
    {
        if let Some(v) = Self::parse(s) {
            assert(v.wire() == s);
        }
    }

    /// No two variants share a wire string.
    pub proof fn lemma_wire_injective(a: Self, b: Self)
        requires
            a.wire() == b.wire(),
        ensures
            a == b,
    {
        Self::lemma_parse_wire(a);
        Self::lemma_parse_wire(b);
    }
}

impl Payload for ListingType {
    open spec fn tree(&self) -> JsonTree {
        JsonTree::Str(self.wire())
    }

    open spec fn admits(t: JsonTree) -> bool {
        t matches JsonTree::Str(s) && Self::parse(s) is Some
    }

    open spec fn agrees(&self, t: JsonTree) -> bool {
        t matches JsonTree::Str(s) && Self::parse(s) == Some(*self)
    }

    fn to_json(&self) -> (out: JsonValue) {
        JsonValue::Str(self.to_str().to_owned())
    }

    fn from_json(v: &JsonValue) -> (res: Option<Self>) {
        match v {
            JsonValue::Str(s) => Self::from_str(s.as_str()),
            _ => None,
        }
    }

    proof fn lemma_round_trip(&self) {
        Self::lemma_parse_wire(*self);
    }

    proof fn lemma_reads_one(&self, other: &Self, t: JsonTree) {
    }
}

/// The kinds of action that the moderation log records.
#[derive(Clone, Copy, Debug, PartialEq, Eq, Default, Structural)]
pub enum ModlogActionType {
    #[default]
    All,
    ModRemovePost,
    ModLockPost,
    ModFeaturePost,
    ModRemoveComment,
    ModRemoveCommunity,
    ModBanFromCommunity,
    ModAddCommunity,
    ModTransferCommunity,
    ModAdd,
    ModBan,
    ModHideCommunity,
    AdminPurgePerson,
    AdminPurgeCommunity,
    AdminPurgePost,
    AdminPurgeComment,
}

impl ModlogActionType {
    pub const ALL: &'static str = "All";
    pub const MOD_REMOVE_POST: &'static str = "ModRemovePost";
    pub const MOD_LOCK_POST: &'static str = "ModLockPost";
    pub const MOD_FEATURE_POST: &'static str = "ModFeaturePost";
    pub const MOD_REMOVE_COMMENT: &'static str = "ModRemoveComment";
    pub const MOD_REMOVE_COMMUNITY: &'static str = "ModRemoveCommunity";
    pub const MOD_BAN_FROM_COMMUNITY: &'static str = "ModBanFromCommunity";
    pub const MOD_ADD_COMMUNITY: &'static str = "ModAddCommunity";
    pub const MOD_TRANSFER_COMMUNITY: &'static str = "ModTransferCommunity";
    pub const MOD_ADD: &'static str = "ModAdd";
    pub const MOD_BAN: &'static str = "ModBan";
    pub const MOD_HIDE_COMMUNITY: &'static str = "ModHideCommunity";
    pub const ADMIN_PURGE_PERSON: &'static str = "AdminPurgePerson";
    pub const ADMIN_PURGE_COMMUNITY: &'static str = "AdminPurgeCommunity";
    pub const ADMIN_PURGE_POST: &'static str = "AdminPurgePost";
    pub const ADMIN_PURGE_COMMENT: &'static str = "AdminPurgeComment";

    /// The wire string of a variant.
    pub open spec fn wire(self) -> Seq<char> {
        match self {
            Self::All => "All"@,
            Self::ModRemovePost => "ModRemovePost"@,
            Self::ModLockPost => "ModLockPost"@,
            Self::ModFeaturePost => "ModFeaturePost"@,
            Self::ModRemoveComment => "ModRemoveComment"@,
            Self::ModRemoveCommunity => "ModRemoveCommunity"@,
            Self::ModBanFromCommunity => "ModBanFromCommunity"@,
            Self::ModAddCommunity => "ModAddCommunity"@,
            Self::ModTransferCommunity => "ModTransferCommunity"@,
            Self::ModAdd => "ModAdd"@,
            Self::ModBan => "ModBan"@,
            Self::ModHideCommunity => "ModHideCommunity"@,
            Self::AdminPurgePerson => "AdminPurgePerson"@,
            Self::AdminPurgeCommunity => "AdminPurgeCommunity"@,
            Self::AdminPurgePost => "AdminPurgePost"@,
            Self::AdminPurgeComment => "AdminPurgeComment"@,
        }
    }

    /// The variant that a wire string stands for, if it stands for one.
    pub open spec fn parse(s: Seq<char>) -> Option<Self> {
        if s == "All"@ {
            Some(Self::All)
        } else if s == "ModRemovePost"@ {
            Some(Self::ModRemovePost)
        } else if s == "ModLockPost"@ {
            Some(Self::ModLockPost)
        } else if s == "ModFeaturePost"@ {
            Some(Self::ModFeaturePost)
        } else if s == "ModRemoveComment"@ {
            Some(Self::ModRemoveComment)
        } else if s == "ModRemoveCommunity"@ {
            Some(Self::ModRemoveCommunity)
        } else if s == "ModBanFromCommunity"@ {
            Some(Self::ModBanFromCommunity)
        } else if s == "ModAddCommunity"@ {
            Some(Self::ModAddCommunity)
        } else if s == "ModTransferCommunity"@ {
            Some(Self::ModTransferCommunity)
        } else if s == "ModAdd"@ {
            Some(Self::ModAdd)
        } else if s == "ModBan"@ {
            Some(Self::ModBan)
        } else if s == "ModHideCommunity"@ {
            Some(Self::ModHideCommunity)
        } else if s == "AdminPurgePerson"@ {
            Some(Self::AdminPurgePerson)
        } else if s == "AdminPurgeCommunity"@ {
            Some(Self::AdminPurgeCommunity)
        } else if s == "AdminPurgePost"@ {
            Some(Self::AdminPurgePost)
        } else if s == "AdminPurgeComment"@ {
            Some(Self::AdminPurgeComment)
        } else {
            None
        }
    }

    /// Reads a wire string. Any string but the wire string of a variant,
    /// letter for letter, gives `None`.
    pub fn from_str(value: &str) -> (res: Option<Self>)
        ensures
            res == Self::parse(value@),
    {
        if str_equal(value, Self::ALL) {
            Some(Self::All)
        } else if str_equal(value, Self::MOD_REMOVE_POST) {
            Some(Self::ModRemovePost)
        } else if str_equal(value, Self::MOD_LOCK_POST) {
            Some(Self::ModLockPost)
        } else if str_equal(value, Self::MOD_FEATURE_POST) {
            Some(Self::ModFeaturePost)
        } else if str_equal(value, Self::MOD_REMOVE_COMMENT) {
            Some(Self::ModRemoveComment)
        } else if str_equal(value, Self::MOD_REMOVE_COMMUNITY) {
            Some(Self::ModRemoveCommunity)
        } else if str_equal(value, Self::MOD_BAN_FROM_COMMUNITY) {
            Some(Self::ModBanFromCommunity)
        } else if str_equal(value, Self::MOD_ADD_COMMUNITY) {
            Some(Self::ModAddCommunity)
        } else if str_equal(value, Self::MOD_TRANSFER_COMMUNITY) {
            Some(Self::ModTransferCommunity)
        } else if str_equal(value, Self::MOD_ADD) {
            Some(Self::ModAdd)
        } else if str_equal(value, Self::MOD_BAN) {
            Some(Self::ModBan)
        } else if str_equal(value, Self::MOD_HIDE_COMMUNITY) {
            Some(Self::ModHideCommunity)
        } else if str_equal(value, Self::ADMIN_PURGE_PERSON) {
            Some(Self::AdminPurgePerson)
        } else if str_equal(value, Self::ADMIN_PURGE_COMMUNITY) {
            Some(Self::AdminPurgeCommunity)
        } else if str_equal(value, Self::ADMIN_PURGE_POST) {
            Some(Self::AdminPurgePost)
        } else if str_equal(value, Self::ADMIN_PURGE_COMMENT) {
            Some(Self::AdminPurgeComment)
        } else {
            None
        }
    }

    /// The wire string of the variant.
    pub fn to_str(&self) -> (res: &'static str)
        ensures
            res@ == self.wire(),
            Self::parse(res@) == Some(*self),
    {
        proof {
            Self::lemma_parse_wire(*self);
        }
        match self {
            Self::All => Self::ALL,
            Self::ModRemovePost => Self::MOD_REMOVE_POST,
            Self::ModLockPost => Self::MOD_LOCK_POST,
            Self::ModFeaturePost => Self::MOD_FEATURE_POST,
            Self::ModRemoveComment => Self::MOD_REMOVE_COMMENT,
            Self::ModRemoveCommunity => Self::MOD_REMOVE_COMMUNITY,
            Self::ModBanFromCommunity => Self::MOD_BAN_FROM_COMMUNITY,
            Self::ModAddCommunity => Self::MOD_ADD_COMMUNITY,
            Self::ModTransferCommunity => Self::MOD_TRANSFER_COMMUNITY,
            Self::ModAdd => Self::MOD_ADD,
            Self::ModBan => Self::MOD_BAN,
            Self::ModHideCommunity => Self::MOD_HIDE_COMMUNITY,
            Self::AdminPurgePerson => Self::ADMIN_PURGE_PERSON,
            Self::AdminPurgeCommunity => Self::ADMIN_PURGE_COMMUNITY,
            Self::AdminPurgePost => Self::ADMIN_PURGE_POST,
            Self::AdminPurgeComment => Self::ADMIN_PURGE_COMMENT,
        }
    }

    /// What is known of the wire strings: enough to tell any two apart.
    pub proof fn lemma_wire_strings()
        ensures
            "All"@.len() == 3,
            "ModRemovePost"@.len() == 13,
            "ModLockPost"@.len() == 11,
            "ModFeaturePost"@.len() == 14 && "ModFeaturePost"@[0] == 'M',
            "ModRemoveComment"@.len() == 16
                && "ModRemoveComment"@[0] == 'M'
                && "ModRemoveComment"@[3] == 'R',
            "ModRemoveCommunity"@.len() == 18,
            "ModBanFromCommunity"@.len() == 19 && "ModBanFromCommunity"@[0] == 'M',
            "ModAddCommunity"@.len() == 15,
            "ModTransferCommunity"@.len() == 20,
            "ModAdd"@.len() == 6 && "ModAdd"@[3] == 'A',
            "ModBan"@.len() == 6 && "ModBan"@[3] == 'B',
            "ModHideCommunity"@.len() == 16
                && "ModHideCommunity"@[0] == 'M'
                && "ModHideCommunity"@[3] == 'H',
            "AdminPurgePerson"@.len() == 16 && "AdminPurgePerson"@[0] == 'A',
            "AdminPurgeCommunity"@.len() == 19 && "AdminPurgeCommunity"@[0] == 'A',
            "AdminPurgePost"@.len() == 14 && "AdminPurgePost"@[0] == 'A',
            "AdminPurgeComment"@.len() == 17,
    {
        reveal_strlit("All");
        reveal_strlit("ModRemovePost");
        reveal_strlit("ModLockPost");
        reveal_strlit("ModFeaturePost");
        reveal_strlit("ModRemoveComment");
        reveal_strlit("ModRemoveCommunity");
        reveal_strlit("ModBanFromCommunity");
        reveal_strlit("ModAddCommunity");
        reveal_strlit("ModTransferCommunity");
        reveal_strlit("ModAdd");
        reveal_strlit("ModBan");
        reveal_strlit("ModHideCommunity");
        reveal_strlit("AdminPurgePerson");
        reveal_strlit("AdminPurgeCommunity");
        reveal_strlit("AdminPurgePost");
        reveal_strlit("AdminPurgeComment");
    }

    /// Reading the wire string of a variant gives that variant back.
    pub proof fn lemma_parse_wire(v: Self)
        ensures
            Self::parse(v.wire()) == Some(v),
    {
        Self::lemma_wire_strings();
    }

    /// A string is read as a variant only if it is that variant's wire
    /// string.
    pub proof fn lemma_parse_sound(s: Seq<char>)
        ensures
            Self::parse(s) matches Some(v) ==> v.wire() == s,
    {
    }

    /// A string that is the wire string of no variant is read as none.
    pub proof fn lemma_parse_rejects(s: Seq<char>)
        requires
            forall|v: Self| v.wire() != s,
        ensures
            Self::parse(s) is None,
    {
        if let Some(v) = Self::parse(s) {
            assert(v.wire() == s);
        }
    }

    /// No two variants share a wire string.
    pub proof fn lemma_wire_injective(a: Self, b: Self)
        requires
            a.wire() == b.wire(),
        ensures
            a == b,
    {
        Self::lemma_parse_wire(a);
        Self::lemma_parse_wire(b);
    }
}

impl Payload for ModlogActionType {
    open spec fn tree(&self) -> JsonTree {
        JsonTree::Str(self.wire())
    }

    open spec fn admits(t: JsonTree) -> bool {
        t matches JsonTree::Str(s) && Self::parse(s) is Some
    }

    open spec fn agrees(&self, t: JsonTree) -> bool {
        t matches JsonTree::Str(s) && Self::parse(s) == Some(*self)
    }

    fn to_json(&self) -> (out: JsonValue) {
        JsonValue::Str(self.to_str().to_owned())
    }

    fn from_json(v: &JsonValue) -> (res: Option<Self>) {
        match v {
            JsonValue::Str(s) => Self::from_str(s.as_str()),
            _ => None,
        }
    }

    proof fn lemma_round_trip(&self) {
        Self::lemma_parse_wire(*self);
    }

    proof fn lemma_reads_one(&self, other: &Self, t: JsonTree) {
    }
}

/// Where a featured post is pinned.
#[derive(Clone, Copy, Debug, PartialEq, Eq, Default, Structural)]
pub enum PostFeatureType {
    Local,
    #[default]
    Community,
}

impl PostFeatureType {
    pub const LOCAL: &'static str = "Local";
    pub const COMMUNITY: &'static str = "Community";

    /// The wire string of a variant.
    pub open spec fn wire(self) -> Seq<char> {
        match self {
            Self::Local => "Local"@,
            Self::Community => "Community"@,
        }
    }

    /// The variant that a wire string stands for, if it stands for one.
    pub open spec fn parse(s: Seq<char>) -> Option<Self> {
        if s == "Local"@ {
            Some(Self::Local)
        } else if s == "Community"@ {
            Some(Self::Community)
        } else {
            None
        }
    }

    /// Reads a wire string. Any string but the wire string of a variant,
    /// letter for letter, gives `None`.
    pub fn from_str(value: &str) -> (res: Option<Self>)
        ensures
            res == Self::parse(value@),
    {
        if str_equal(value, Self::LOCAL) {
            Some(Self::Local)
        } else if str_equal(value, Self::COMMUNITY) {
            Some(Self::Community)
        } else {
            None
        }
    }

    /// The wire string of the variant.
    pub fn to_str(&self) -> (res: &'static str)
        ensures
            res@ == self.wire(),
            Self::parse(res@) == Some(*self),
    {
        proof {
            Self::lemma_parse_wire(*self);
        }
        match self {
            Self::Local => Self::LOCAL,
            Self::Community => Self::COMMUNITY,
        }
    }

    /// What is known of the wire strings: enough to tell any two apart.
    pub proof fn lemma_wire_strings()
        ensures
            "Local"@.len() == 5,
            "Community"@.len() == 9,
    {
        reveal_strlit("Local");
        reveal_strlit("Community");
    }

    /// Reading the wire string of a variant gives that variant back.
    pub proof fn lemma_parse_wire(v: Self)
        ensures
            Self::parse(v.wire()) == Some(v),
    {
        Self::lemma_wire_strings();
    }

    /// A string is read as a variant only if it is that variant's wire
    /// string.
    pub proof fn lemma_parse_sound(s: Seq<char>)
        ensures
            Self::parse(s) matches Some(v) ==> v.wire() == s,
    {
    }

    /// A string that is the wire string of no variant is read as none.
    pub proof fn lemma_parse_rejects(s: Seq<char>)
        requires
            forall|v: Self| v.wire() != s,
        ensures
            Self::parse(s) is None,
    {
        if let Some(v) = Self::parse(s) {
            assert(v.wire() == s);
        }
    }

    /// No two variants share a wire string.
    pub proof fn lemma_wire_injective(a: Self, b: Self)
        requires
            a.wire() == b.wire(),
        ensures
            a == b,
    {
        Self::lemma_parse_wire(a);
        Self::lemma_parse_wire(b);
    }
}

impl Payload for PostFeatureType {
    open spec fn tree(&self) -> JsonTree {
        JsonTree::Str(self.wire())
    }

    open spec fn admits(t: JsonTree) -> bool {
        t matches JsonTree::Str(s) && Self::parse(s) is Some
    }

    open spec fn agrees(&self, t: JsonTree) -> bool {
        t matches JsonTree::Str(s) && Self::parse(s) == Some(*self)
    }

    fn to_json(&self) -> (out: JsonValue) {
        JsonValue::Str(self.to_str().to_owned())
    }

    fn from_json(v: &JsonValue) -> (res: Option<Self>) {
        match v {
            JsonValue::Str(s) => Self::from_str(s.as_str()),
            _ => None,
        }
    }

    proof fn lemma_round_trip(&self) {
        Self::lemma_parse_wire(*self);
    }

    proof fn lemma_reads_one(&self, other: &Self, t: JsonTree) {
    }
}

/// How an instance admits new accounts.
#[derive(Clone, Copy, Debug, PartialEq, Eq, Default, Structural)]
pub enum RegistrationMode {
    Closed,
    #[default]
    RequireApplication,
    Open,
}

impl RegistrationMode {
    pub const CLOSED: &'static str = "Closed";
    pub const REQUIRE_APPLICATION: &'static str = "RequireApplication";
    pub const OPEN: &'static str = "Open";

    /// The wire string of a variant.
    pub open spec fn wire(self) -> Seq<char> {
        match self {
            Self::Closed => "Closed"@,
            Self::RequireApplication => "RequireApplication"@,
            Self::Open => "Open"@,
        }
    }

    /// The variant that a wire string stands for, if it stands for one.
    pub open spec fn parse(s: Seq<char>) -> Option<Self> {
        if s == "Closed"@ {
            Some(Self::Closed)
        } else if s == "RequireApplication"@ {
            Some(Self::RequireApplication)
        } else if s == "Open"@ {
            Some(Self::Open)
        } else {
            None
        }
    }

    /// Reads a wire string. Any string but the wire string of a variant,
    /// letter for letter, gives `None`.
    pub fn from_str(value: &str) -> (res: Option<Self>)
        ensures
            res == Self::parse(value@),
    {
        if str_equal(value, Self::CLOSED) {
            Some(Self::Closed)
        } else if str_equal(value, Self::REQUIRE_APPLICATION) {
            Some(Self::RequireApplication)
        } else if str_equal(value, Self::OPEN) {
            Some(Self::Open)
        } else {
            None
        }
    }

    /// The wire string of the variant.
    pub fn to_str(&self) -> (res: &'static str)
        ensures
            res@ == self.wire(),
            Self::parse(res@) == Some(*self),
    {
        proof {
            Self::lemma_parse_wire(*self);
        }
        match self {
            Self::Closed => Self::CLOSED,
            Self::RequireApplication => Self::REQUIRE_APPLICATION,
            Self::Open => Self::OPEN,
        }
    }

    /// What is known of the wire strings: enough to tell any two apart.
    pub proof fn lemma_wire_strings()
        ensures
            "Closed"@.len() == 6,
            "RequireApplication"@.len() == 18,
            "Open"@.len() == 4,
    {
        reveal_strlit("Closed");
        reveal_strlit("RequireApplication");
        reveal_strlit("Open");
    }

    /// Reading the wire string of a variant gives that variant back.
    pub proof fn lemma_parse_wire(v: Self)
        ensures
            Self::parse(v.wire()) == Some(v),
    {
        Self::lemma_wire_strings();
    }

    /// A string is read as a variant only if it is that variant's wire
    /// string.
    pub proof fn lemma_parse_sound(s: Seq<char>)
        ensures
            Self::parse(s) matches Some(v) ==> v.wire() == s,
    {
    }

    /// A string that is the wire string of no variant is read as none.
    pub proof fn lemma_parse_rejects(s: Seq<char>)
        requires
            forall|v: Self| v.wire() != s,
        ensures
            Self::parse(s) is None,
    {
        if let Some(v) = Self::parse(s) {
            assert(v.wire() == s);
        }
    }

    /// No two variants share a wire string.
    pub proof fn lemma_wire_injective(a: Self, b: Self)
        requires
            a.wire() == b.wire(),
        ensures
            a == b,
    {
        Self::lemma_parse_wire(a);
        Self::lemma_parse_wire(b);
    }
}

impl Payload for RegistrationMode {
    open spec fn tree(&self) -> JsonTree {
        JsonTree::Str(self.wire())
    }

    open spec fn admits(t: JsonTree) -> bool {
        t matches JsonTree::Str(s) && Self::parse(s) is Some
    }

    open spec fn agrees(&self, t: JsonTree) -> bool {
        t matches JsonTree::Str(s) && Self::parse(s) == Some(*self)
    }

    fn to_json(&self) -> (out: JsonValue) {
        JsonValue::Str(self.to_str().to_owned())
    }

    fn from_json(v: &JsonValue) -> (res: Option<Self>) {
        match v {
            JsonValue::Str(s) => Self::from_str(s.as_str()),
            _ => None,
        }
    }

    proof fn lemma_round_trip(&self) {
        Self::lemma_parse_wire(*self);
    }

    proof fn lemma_reads_one(&self, other: &Self, t: JsonTree) {
    }
}

/// What a search looks for.
#[derive(Clone, Copy, Debug, PartialEq, Eq, Default, Structural)]
pub enum SearchType {
    #[default]
    All,
    Comments,
    Posts,
    Communities,
    Users,
    Url,
}

impl SearchType {
    pub const ALL: &'static str = "All";
    pub const COMMENTS: &'static str = "Comments";
    pub const POSTS: &'static str = "Posts";
    pub const COMMUNITIES: &'static str = "Communities";
    pub const USERS: &'static str = "Users";
    pub const URL: &'static str = "Url";

    /// The wire string of a variant.
    pub open spec fn wire(self) -> Seq<char> {
        match self {
            Self::All => "All"@,
            Self::Comments => "Comments"@,
            Self::Posts => "Posts"@,
            Self::Communities => "Communities"@,
            Self::Users => "Users"@,
            Self::Url => "Url"@,
        }
    }

    /// The variant that a wire string stands for, if it stands for one.
    pub open spec fn parse(s: Seq<char>) -> Option<Self> {
        if s == "All"@ {
            Some(Self::All)
        } else if s == "Comments"@ {
            Some(Self::Comments)
        } else if s == "Posts"@ {
            Some(Self::Posts)
        } else if s == "Communities"@ {
            Some(Self::Communities)
        } else if s == "Users"@ {
            Some(Self::Users)
        } else if s == "Url"@ {
            Some(Self::Url)
        } else {
            None
        }
    }

    /// Reads a wire string. Any string but the wire string of a variant,
    /// letter for letter, gives `None`.
    pub fn from_str(value: &str) -> (res: Option<Self>)
        ensures
            res == Self::parse(value@),
    {
        if str_equal(value, Self::ALL) {
            Some(Self::All)
        } else if str_equal(value, Self::COMMENTS) {
            Some(Self::Comments)
        } else if str_equal(value, Self::POSTS) {
            Some(Self::Posts)
        } else if str_equal(value, Self::COMMUNITIES) {
            Some(Self::Communities)
        } else if str_equal(value, Self::USERS) {
            Some(Self::Users)
        } else if str_equal(value, Self::URL) {
            Some(Self::Url)
        } else {
            None
        }
    }

    /// The wire string of the variant.
    pub fn to_str(&self) -> (res: &'static str)
        ensures
            res@ == self.wire(),
            Self::parse(res@) == Some(*self),
    {
        proof {
            Self::lemma_parse_wire(*self);
        }
        match self {
            Self::All => Self::ALL,
            Self::Comments => Self::COMMENTS,
            Self::Posts => Self::POSTS,
            Self::Communities => Self::COMMUNITIES,
            Self::Users => Self::USERS,
            Self::Url => Self::URL,
        }
    }

    /// What is known of the wire strings: enough to tell any two apart.
    pub proof fn lemma_wire_strings()
        ensures
            "All"@.len() == 3 && "All"@[0] == 'A',
            "Comments"@.len() == 8,
            "Posts"@.len() == 5 && "Posts"@[0] == 'P',
            "Communities"@.len() == 11,
            "Users"@.len() == 5 && "Users"@[0] == 'U',
            "Url"@.len() == 3 && "Url"@[0] == 'U',
    {
        reveal_strlit("All");
        reveal_strlit("Comments");
        reveal_strlit("Posts");
        reveal_strlit("Communities");
        reveal_strlit("Users");
        reveal_strlit("Url");
    }

    /// Reading the wire string of a variant gives that variant back.
    pub proof fn lemma_parse_wire(v: Self)
        ensures
            Self::parse(v.wire()) == Some(v),
    {
        Self::lemma_wire_strings();
    }

    /// A string is read as a variant only if it is that variant's wire
    /// string.
    pub proof fn lemma_parse_sound(s: Seq<char>)
        ensures
            Self::parse(s) matches Some(v) ==> v.wire() == s,
    {
    }

    /// A string that is the wire string of no variant is read as none.
    pub proof fn lemma_parse_rejects(s: Seq<char>)
        requires
            forall|v: Self| v.wire() != s,
        ensures
            Self::parse(s) is None,
    {
        if let Some(v) = Self::parse(s) {
            assert(v.wire() == s);
        }
    }

    /// No two variants share a wire string.
    pub proof fn lemma_wire_injective(a: Self, b: Self)
        requires
            a.wire() == b.wire(),
        ensures
            a == b,
    {
        Self::lemma_parse_wire(a);
        Self::lemma_parse_wire(b);
    }
}

impl Payload for SearchType {
    open spec fn tree(&self) -> JsonTree {
        JsonTree::Str(self.wire())
    }

    open spec fn admits(t: JsonTree) -> bool {
        t matches JsonTree::Str(s) && Self::parse(s) is Some
    }

    open spec fn agrees(&self, t: JsonTree) -> bool {
        t matches JsonTree::Str(s) && Self::parse(s) == Some(*self)
    }

    fn to_json(&self) -> (out: JsonValue) {
        JsonValue::Str(self.to_str().to_owned())
    }

    fn from_json(v: &JsonValue) -> (res: Option<Self>) {
        match v {
            JsonValue::Str(s) => Self::from_str(s.as_str()),
            _ => None,
        }
    }

    proof fn lemma_round_trip(&self) {
        Self::lemma_parse_wire(*self);
    }

    proof fn lemma_reads_one(&self, other: &Self, t: JsonTree) {
    }
}

/// The order in which posts are listed.
#[derive(Clone, Copy, Debug, PartialEq, Eq, Default, Structural)]
pub enum SortType {
    #[default]
    Active,
    Hot,
    New,
    Old,
    TopDay,
    TopWeek,
    TopMonth,
    TopYear,
    TopAll,
    MostComments,
    NewComments,
    TopHour,
    TopSixHour,
    TopTwelveHour,
    TopThreeMonths,
    TopSixMonths,
    TopNineMonths,
}

impl SortType {
    pub const ACTIVE: &'static str = "Active";
    pub const HOT: &'static str = "Hot";
    pub const NEW: &'static str = "New";
    pub const OLD: &'static str = "Old";
    pub const TOP_DAY: &'static str = "TopDay";
    pub const TOP_WEEK: &'static str = "TopWeek";
    pub const TOP_MONTH: &'static str = "TopMonth";
    pub const TOP_YEAR: &'static str = "TopYear";
    pub const TOP_ALL: &'static str = "TopAll";
    pub const MOST_COMMENTS: &'static str = "MostComments";
    pub const NEW_COMMENTS: &'static str = "NewComments";
    pub const TOP_HOUR: &'static str = "TopHour";
    pub const TOP_SIX_HOUR: &'static str = "TopSixHour";
    pub const TOP_TWELVE_HOUR: &'static str = "TopTwelveHour";
    pub const TOP_THREE_MONTHS: &'static str = "TopThreeMonths";
    pub const TOP_SIX_MONTHS: &'static str = "TopSixMonths";
    pub const TOP_NINE_MONTHS: &'static str = "TopNineMonths";

    /// The wire string of a variant.
    pub open spec fn wire(self) -> Seq<char> {
        match self {
            Self::Active => "Active"@,
            Self::Hot => "Hot"@,
            Self::New => "New"@,
            Self::Old => "Old"@,
            Self::TopDay => "TopDay"@,
            Self::TopWeek => "TopWeek"@,
            Self::TopMonth => "TopMonth"@,
            Self::TopYear => "TopYear"@,
            Self::TopAll => "TopAll"@,
            Self::MostComments => "MostComments"@,
            Self::NewComments => "NewComments"@,
            Self::TopHour => "TopHour"@,
            Self::TopSixHour => "TopSixHour"@,
            Self::TopTwelveHour => "TopTwelveHour"@,
            Self::TopThreeMonths => "TopThreeMonths"@,
            Self::TopSixMonths => "TopSixMonths"@,
            Self::TopNineMonths => "TopNineMonths"@,
        }
    }

    /// The variant that a wire string stands for, if it stands for one.
    pub open spec fn parse(s: Seq<char>) -> Option<Self> {
        if s == "Active"@ {
            Some(Self::Active)
        } else if s == "Hot"@ {
            Some(Self::Hot)
        } else if s == "New"@ {
            Some(Self::New)
        } else if s == "Old"@ {
            Some(Self::Old)
        } else if s == "TopDay"@ {
            Some(Self::TopDay)
        } else if s == "TopWeek"@ {
            Some(Self::TopWeek)
        } else if s == "TopMonth"@ {
            Some(Self::TopMonth)
        } else if s == "TopYear"@ {
            Some(Self::TopYear)
        } else if s == "TopAll"@ {
            Some(Self::TopAll)
        } else if s == "MostComments"@ {
            Some(Self::MostComments)
        } else if s == "NewComments"@ {
            Some(Self::NewComments)
        } else if s == "TopHour"@ {
            Some(Self::TopHour)
        } else if s == "TopSixHour"@ {
            Some(Self::TopSixHour)
        } else if s == "TopTwelveHour"@ {
            Some(Self::TopTwelveHour)
        } else if s == "TopThreeMonths"@ {
            Some(Self::TopThreeMonths)
        } else if s == "TopSixMonths"@ {
            Some(Self::TopSixMonths)
        } else if s == "TopNineMonths"@ {
            Some(Self::TopNineMonths)
        } else {
            None
        }
    }

    /// Reads a wire string. Any string but the wire string of a variant,
    /// letter for letter, gives `None`.
    pub fn from_str(value: &str) -> (res: Option<Self>)
        ensures
            res == Self::parse(value@),
    {
        if str_equal(value, Self::ACTIVE) {
            Some(Self::Active)
        } else if str_equal(value, Self::HOT) {
            Some(Self::Hot)
        } else if str_equal(value, Self::NEW) {
            Some(Self::New)
        } else if str_equal(value, Self::OLD) {
            Some(Self::Old)
        } else if str_equal(value, Self::TOP_DAY) {
            Some(Self::TopDay)
        } else if str_equal(value, Self::TOP_WEEK) {
            Some(Self::TopWeek)
        } else if str_equal(value, Self::TOP_MONTH) {
            Some(Self::TopMonth)
        } else if str_equal(value, Self::TOP_YEAR) {
            Some(Self::TopYear)
        } else if str_equal(value, Self::TOP_ALL) {
            Some(Self::TopAll)
        } else if str_equal(value, Self::MOST_COMMENTS) {
            Some(Self::MostComments)
        } else if str_equal(value, Self::NEW_COMMENTS) {
            Some(Self::NewComments)
        } else if str_equal(value, Self::TOP_HOUR) {
            Some(Self::TopHour)
        } else if str_equal(value, Self::TOP_SIX_HOUR) {
            Some(Self::TopSixHour)
        } else if str_equal(value, Self::TOP_TWELVE_HOUR) {
            Some(Self::TopTwelveHour)
        } else if str_equal(value, Self::TOP_THREE_MONTHS) {
            Some(Self::TopThreeMonths)
        } else if str_equal(value, Self::TOP_SIX_MONTHS) {
            Some(Self::TopSixMonths)
        } else if str_equal(value, Self::TOP_NINE_MONTHS) {
            Some(Self::TopNineMonths)
        } else {
            None
        }
    }

    /// The wire string of the variant.
    pub fn to_str(&self) -> (res: &'static str)
        ensures
            res@ == self.wire(),
            Self::parse(res@) == Some(*self),
    {
        proof {
            Self::lemma_parse_wire(*self);
        }
        match self {
            Self::Active => Self::ACTIVE,
            Self::Hot => Self::HOT,
            Self::New => Self::NEW,
            Self::Old => Self::OLD,
            Self::TopDay => Self::TOP_DAY,
            Self::TopWeek => Self::TOP_WEEK,
            Self::TopMonth => Self::TOP_MONTH,
            Self::TopYear => Self::TOP_YEAR,
            Self::TopAll => Self::TOP_ALL,
            Self::MostComments => Self::MOST_COMMENTS,
            Self::NewComments => Self::NEW_COMMENTS,
            Self::TopHour => Self::TOP_HOUR,
            Self::TopSixHour => Self::TOP_SIX_HOUR,
            Self::TopTwelveHour => Self::TOP_TWELVE_HOUR,
            Self::TopThreeMonths => Self::TOP_THREE_MONTHS,
            Self::TopSixMonths => Self::TOP_SIX_MONTHS,
            Self::TopNineMonths => Self::TOP_NINE_MONTHS,
        }
    }

    /// What is known of the wire strings: enough to tell any two apart.
    pub proof fn lemma_wire_strings()
        ensures
            "Active"@.len() == 6 && "Active"@[0] == 'A',
            "Hot"@.len() == 3 && "Hot"@[0] == 'H',
            "New"@.len() == 3 && "New"@[0] == 'N',
            "Old"@.len() == 3 && "Old"@[0] == 'O',
            "TopDay"@.len() == 6 && "TopDay"@[0] == 'T' && "TopDay"@[3] == 'D',
            "TopWeek"@.len() == 7 && "TopWeek"@[3] == 'W',
            "TopMonth"@.len() == 8,
            "TopYear"@.len() == 7 && "TopYear"@[3] == 'Y',
            "TopAll"@.len() == 6 && "TopAll"@[0] == 'T' && "TopAll"@[3] == 'A',
            "MostComments"@.len() == 12 && "MostComments"@[0] == 'M',
            "NewComments"@.len() == 11,
            "TopHour"@.len() == 7 && "TopHour"@[3] == 'H',
            "TopSixHour"@.len() == 10,
            "TopTwelveHour"@.len() == 13 && "TopTwelveHour"@[3] == 'T',
            "TopThreeMonths"@.len() == 14,
            "TopSixMonths"@.len() == 12 && "TopSixMonths"@[0] == 'T',
            "TopNineMonths"@.len() == 13 && "TopNineMonths"@[3] == 'N',
    {
        reveal_strlit("Active");
        reveal_strlit("Hot");
        reveal_strlit("New");
        reveal_strlit("Old");
        reveal_strlit("TopDay");
        reveal_strlit("TopWeek");
        reveal_strlit("TopMonth");
        reveal_strlit("TopYear");
        reveal_strlit("TopAll");
        reveal_strlit("MostComments");
        reveal_strlit("NewComments");
        reveal_strlit("TopHour");
        reveal_strlit("TopSixHour");
        reveal_strlit("TopTwelveHour");
        reveal_strlit("TopThreeMonths");
        reveal_strlit("TopSixMonths");
        reveal_strlit("TopNineMonths");
    }

    /// Reading the wire string of a variant gives that variant back.
    pub proof fn lemma_parse_wire(v: Self)
        ensures
            Self::parse(v.wire()) == Some(v),
    {
        Self::lemma_wire_strings();
    }

    /// A string is read as a variant only if it is that variant's wire
    /// string.
    pub proof fn lemma_parse_sound(s: Seq<char>)
        ensures
            Self::parse(s) matches Some(v) ==> v.wire() == s,
    {
    }

    /// A string that is the wire string of no variant is read as none.
    pub proof fn lemma_parse_rejects(s: Seq<char>)
        requires
            forall|v: Self| v.wire() != s,
        ensures
            Self::parse(s) is None,
    {
        if let Some(v) = Self::parse(s) {
            assert(v.wire() == s);
        }
    }

    /// No two variants share a wire string.
    pub proof fn lemma_wire_injective(a: Self, b: Self)
        requires
            a.wire() == b.wire(),
        ensures
            a == b,
    {
        Self::lemma_parse_wire(a);
        Self::lemma_parse_wire(b);
    }
}

impl Payload for SortType {
    open spec fn tree(&self) -> JsonTree {
        JsonTree::Str(self.wire())
    }

    open spec fn admits(t: JsonTree) -> bool {
        t matches JsonTree::Str(s) && Self::parse(s) is Some
    }

    open spec fn agrees(&self, t: JsonTree) -> bool {
        t matches JsonTree::Str(s) && Self::parse(s) == Some(*self)
    }

    fn to_json(&self) -> (out: JsonValue) {
        JsonValue::Str(self.to_str().to_owned())
    }

    fn from_json(v: &JsonValue) -> (res: Option<Self>) {
        match v {
            JsonValue::Str(s) => Self::from_str(s.as_str()),
            _ => None,
        }
    }

    proof fn lemma_round_trip(&self) {
        Self::lemma_parse_wire(*self);
    }

    proof fn lemma_reads_one(&self, other: &Self, t: JsonTree) {
    }
}

/// The relation of the viewer to a community.
#[derive(Clone, Copy, Debug, PartialEq, Eq, Default, Structural)]
pub enum SubscribedType {
    Subscribed,
    #[default]
    NotSubscribed,
    Pending,
}

impl SubscribedType {
    pub const SUBSCRIBED: &'static str = "Subscribed";
    pub const NOT_SUBSCRIBED: &'static str = "NotSubscribed";
    pub const PENDING: &'static str = "Pending";

    /// The wire string of a variant.
    pub open spec fn wire(self) -> Seq<char> {
        match self {
            Self::Subscribed => "Subscribed"@,
            Self::NotSubscribed => "NotSubscribed"@,
            Self::Pending => "Pending"@,
        }
    }

    /// The variant that a wire string stands for, if it stands for one.
    pub open spec fn parse(s: Seq<char>) -> Option<Self> {
        if s == "Subscribed"@ {
            Some(Self::Subscribed)
        } else if s == "NotSubscribed"@ {
            Some(Self::NotSubscribed)
        } else if s == "Pending"@ {
            Some(Self::Pending)
        } else {
            None
        }
    }

    /// Reads a wire string. Any string but the wire string of a variant,
    /// letter for letter, gives `None`.
    pub fn from_str(value: &str) -> (res: Option<Self>)
        ensures
            res == Self::parse(value@),
    {
        if str_equal(value, Self::SUBSCRIBED) {
            Some(Self::Subscribed)
        } else if str_equal(value, Self::NOT_SUBSCRIBED) {
            Some(Self::NotSubscribed)
        } else if str_equal(value, Self::PENDING) {
            Some(Self::Pending)
        } else {
            None
        }
    }

    /// The wire string of the variant.
    pub fn to_str(&self) -> (res: &'static str)
        ensures
            res@ == self.wire(),
            Self::parse(res@) == Some(*self),
    {
        proof {
            Self::lemma_parse_wire(*self);
        }
        match self {
            Self::Subscribed => Self::SUBSCRIBED,
            Self::NotSubscribed => Self::NOT_SUBSCRIBED,
            Self::Pending => Self::PENDING,
        }
    }

    /// What is known of the wire strings: enough to tell any two apart.
    pub proof fn lemma_wire_strings()
        ensures
            "Subscribed"@.len() == 10,
            "NotSubscribed"@.len() == 13,
            "Pending"@.len() == 7,
    {
        reveal_strlit("Subscribed");
        reveal_strlit("NotSubscribed");
        reveal_strlit("Pending");
    }

    /// Reading the wire string of a variant gives that variant back.
    pub proof fn lemma_parse_wire(v: Self)
        ensures
            Self::parse(v.wire()) == Some(v),
    {
        Self::lemma_wire_strings();
    }

    /// A string is read as a variant only if it is that variant's wire
    /// string.
    pub proof fn lemma_parse_sound(s: Seq<char>)
        ensures
            Self::parse(s) matches Some(v) ==> v.wire() == s,
    {
    }

    /// A string that is the wire string of no variant is read as none.
    pub proof fn lemma_parse_rejects(s: Seq<char>)
        requires
            forall|v: Self| v.wire() != s,
        ensures
            Self::parse(s) is None,
    {
        if let Some(v) = Self::parse(s) {
            assert(v.wire() == s);
        }
    }

    /// No two variants share a wire string.
    pub proof fn lemma_wire_injective(a: Self, b: Self)
        requires
            a.wire() == b.wire(),
        ensures
            a == b,
    {
        Self::lemma_parse_wire(a);
        Self::lemma_parse_wire(b);
    }
}

impl Payload for SubscribedType {
    open spec fn tree(&self) -> JsonTree {
        JsonTree::Str(self.wire())
    }

    open spec fn admits(t: JsonTree) -> bool {
        t matches JsonTree::Str(s) && Self::parse(s) is Some
    }

    open spec fn agrees(&self, t: JsonTree) -> bool {
        t matches JsonTree::Str(s) && Self::parse(s) == Some(*self)
    }

    fn to_json(&self) -> (out: JsonValue) {
        JsonValue::Str(self.to_str().to_owned())
    }

    fn from_json(v: &JsonValue) -> (res: Option<Self>) {
        match v {
            JsonValue::Str(s) => Self::from_str(s.as_str()),
            _ => None,
        }
    }

    proof fn lemma_round_trip(&self) {
        Self::lemma_parse_wire(*self);
    }

    proof fn lemma_reads_one(&self, other: &Self, t: JsonTree) {
    }
}

} // verus!
