//! Records of the site as a whole: the local site, its languages, taglines
//! and emojis, and the instances it federates with.

use vstd::prelude::*;
use crate::json::{lookup, JsonTree, JsonValue, Member};
use crate::payload::{
    group_written_members, lemma_optional_reads_one, lemma_optional_round_trip,
    lemma_required_reads_one, members_view, object, optional, optional_admits, optional_agrees,
    put, put_optional, required, required_admits, required_agrees, with_field, with_optional,
    written, Payload,
};
use crate::enums::{ListingType, RegistrationMode};
use crate::records::person::{MyUserInfo, PersonView};

verus! {

#[derive(Clone, Debug, PartialEq, Default)]
pub struct CreateCustomEmoji {
    pub alt_text: String,
    pub auth: String,
    pub category: String,
    pub image_url: String,
    pub keywords: Vec<String>,
    pub shortcode: String,
}

impl CreateCustomEmoji {
    /// The members that a record is written as, from what is written for
    /// each of its fields.
    pub open spec fn members(
        alt_text: JsonTree,
        auth: JsonTree,
        category: JsonTree,
        image_url: JsonTree,
        keywords: JsonTree,
        shortcode: JsonTree,
    ) -> Seq<Member> {
        let members = Seq::empty();
        let members = with_field(members, "alt_text"@, alt_text);
        let members = with_field(members, "auth"@, auth);
        let members = with_field(members, "category"@, category);
        let members = with_field(members, "image_url"@, image_url);
        let members = with_field(members, "keywords"@, keywords);
        let members = with_field(members, "shortcode"@, shortcode);
        members
    }

    /// Each key leads to what was written under it, and to nothing where
    /// nothing was written.
    pub proof fn lemma_members(
        alt_text: JsonTree,
        auth: JsonTree,
        category: JsonTree,
        image_url: JsonTree,
        keywords: JsonTree,
        shortcode: JsonTree,
    )
        ensures
            ({
                let members = Self::members(
                    alt_text,
                    auth,
                    category,
                    image_url,
                    keywords,
                    shortcode,
                );
                &&& lookup(members, "alt_text"@) == Some(alt_text)
                &&& lookup(members, "auth"@) == Some(auth)
                &&& lookup(members, "category"@) == Some(category)
                &&& lookup(members, "image_url"@) == Some(image_url)
                &&& lookup(members, "keywords"@) == Some(keywords)
                &&& lookup(members, "shortcode"@) == Some(shortcode)
            }),
    {
        broadcast use group_written_members;

        reveal_strlit("alt_text");
        reveal_strlit("auth");
        reveal_strlit("category");
        reveal_strlit("image_url");
        reveal_strlit("keywords");
        reveal_strlit("shortcode");
        assert("alt_text"@.len() == 8 && "alt_text"@[0] == 'a');
        assert("auth"@.len() == 4);
        assert("category"@.len() == 8 && "category"@[0] == 'c');
        assert("image_url"@.len() == 9 && "image_url"@[0] == 'i');
        assert("keywords"@.len() == 8 && "keywords"@[0] == 'k');
        assert("shortcode"@.len() == 9 && "shortcode"@[0] == 's');
    }

    /// Every field is mandatory: each is written, in order, and nothing
    /// else.
    pub proof fn lemma_mandatory_fields_alone(
        alt_text: JsonTree,
        auth: JsonTree,
        category: JsonTree,
        image_url: JsonTree,
        keywords: JsonTree,
        shortcode: JsonTree,
    )
        ensures
            Self::members(
                alt_text,
                auth,
                category,
                image_url,
                keywords,
                shortcode,
            ) == Seq::<Member>::empty()
                .push(("alt_text"@, alt_text))
                .push(("auth"@, auth))
                .push(("category"@, category))
                .push(("image_url"@, image_url))
                .push(("keywords"@, keywords))
                .push(("shortcode"@, shortcode)),
    {
        reveal(with_field);
        reveal(with_optional);
    }
}

impl Payload for CreateCustomEmoji {
    open spec fn tree(&self) -> JsonTree {
        JsonTree::Object(
            Self::members(
                self.alt_text.tree(),
                self.auth.tree(),
                self.category.tree(),
                self.image_url.tree(),
                self.keywords.tree(),
                self.shortcode.tree(),
            ),
        )
    }

    open spec fn admits(t: JsonTree) -> bool {
        &&& t is Object
        &&& required_admits::<String>(t, "alt_text"@)
        &&& required_admits::<String>(t, "auth"@)
        &&& required_admits::<String>(t, "category"@)
        &&& required_admits::<String>(t, "image_url"@)
        &&& required_admits::<Vec<String>>(t, "keywords"@)
        &&& required_admits::<String>(t, "shortcode"@)
    }

    open spec fn agrees(&self, t: JsonTree) -> bool {
        &&& required_agrees(self.alt_text, t, "alt_text"@)
        &&& required_agrees(self.auth, t, "auth"@)
        &&& required_agrees(self.category, t, "category"@)
        &&& required_agrees(self.image_url, t, "image_url"@)
        &&& required_agrees(self.keywords, t, "keywords"@)
        &&& required_agrees(self.shortcode, t, "shortcode"@)
    }

    fn to_json(&self) -> (out: JsonValue) {
        let mut members: Vec<(String, JsonValue)> = Vec::new();
        assert(members_view(members@) =~= Seq::empty());
        put(&mut members, "alt_text", &self.alt_text);
        put(&mut members, "auth", &self.auth);
        put(&mut members, "category", &self.category);
        put(&mut members, "image_url", &self.image_url);
        put(&mut members, "keywords", &self.keywords);
        put(&mut members, "shortcode", &self.shortcode);
        object(members)
    }

    fn from_json(v: &JsonValue) -> (res: Option<Self>) {
        if !v.is_object() {
            return None;
        }
        let alt_text = required::<String>(v, "alt_text")?;
        let auth = required::<String>(v, "auth")?;
        let category = required::<String>(v, "category")?;
        let image_url = required::<String>(v, "image_url")?;
        let keywords = required::<Vec<String>>(v, "keywords")?;
        let shortcode = required::<String>(v, "shortcode")?;
        Some(CreateCustomEmoji { alt_text, auth, category, image_url, keywords, shortcode })
    }

    proof fn lemma_round_trip(&self) {
        Self::lemma_members(
            self.alt_text.tree(),
            self.auth.tree(),
            self.category.tree(),
            self.image_url.tree(),
            self.keywords.tree(),
            self.shortcode.tree(),
        );
        self.alt_text.lemma_round_trip();
        self.auth.lemma_round_trip();
        self.category.lemma_round_trip();
        self.image_url.lemma_round_trip();
        self.keywords.lemma_round_trip();
        self.shortcode.lemma_round_trip();
    }

    proof fn lemma_reads_one(&self, other: &Self, t: JsonTree) {
        lemma_required_reads_one(self.alt_text, other.alt_text, t, "alt_text"@);
        lemma_required_reads_one(self.auth, other.auth, t, "auth"@);
        lemma_required_reads_one(self.category, other.category, t, "category"@);
        lemma_required_reads_one(self.image_url, other.image_url, t, "image_url"@);
        lemma_required_reads_one(self.keywords, other.keywords, t, "keywords"@);
        lemma_required_reads_one(self.shortcode, other.shortcode, t, "shortcode"@);
    }
}

#[derive(Clone, Debug, PartialEq, Default)]
pub struct CreateSite {
    pub actor_name_max_length: Option<i32>,
    pub allowed_instances: Option<Vec<String>>,
    pub application_email_admins: Option<bool>,
    pub auth: String,
    pub banner: Option<String>,
    pub blocked_instances: Option<Vec<String>>,
    pub captcha_difficulty: Option<i32>,
    pub captcha_enabled: Option<bool>,
    pub community_creation_admin_only: Option<bool>,
    pub default_post_listing_type: Option<ListingType>,
    pub default_theme: Option<String>,
    pub description: Option<String>,
    pub discussion_languages: Option<Vec<i32>>,
    pub enable_downvotes: Option<bool>,
    pub enable_nsfw: Option<bool>,
    pub federation_debug: Option<bool>,
    pub federation_enabled: Option<bool>,
    pub hide_modlog_mod_names: Option<bool>,
    pub icon: Option<String>,
    pub legal_information: Option<String>,
    pub name: String,
    pub private_instance: Option<bool>,
    pub rate_limit_comments: Option<i32>,
    pub rate_limit_comment_per_second: Option<i32>,
    pub rate_limit_images: Option<i32>,
    pub rate_limit_image_per_second: Option<i32>,
    pub rate_limit_message: Option<i32>,
    pub rate_limit_message_per_second: Option<i32>,
    pub rate_limit_post: Option<i32>,
    pub rate_limit_post_per_second: Option<i32>,
    pub rate_limit_register: Option<i32>,
    pub rate_limit_register_per_second: Option<i32>,
    pub rate_limit_search: Option<i32>,
    pub rate_limit_search_per_second: Option<i32>,
    pub registration_mode: Option<RegistrationMode>,
    pub require_email_verification: Option<bool>,
    pub sidebar: Option<String>,
    pub slur_filter_regex: Option<String>,
    pub taglines: Option<Vec<String>>,
}

impl CreateSite {
    /// The members that a record is written as, from what is written for
    /// each of its fields.
    pub open spec fn members(
        actor_name_max_length: Option<JsonTree>,
        allowed_instances: Option<JsonTree>,
        application_email_admins: Option<JsonTree>,
        auth: JsonTree,
        banner: Option<JsonTree>,
        blocked_instances: Option<JsonTree>,
        captcha_difficulty: Option<JsonTree>,
        captcha_enabled: Option<JsonTree>,
        community_creation_admin_only: Option<JsonTree>,
        default_post_listing_type: Option<JsonTree>,
        default_theme: Option<JsonTree>,
        description: Option<JsonTree>,
        discussion_languages: Option<JsonTree>,
        enable_downvotes: Option<JsonTree>,
        enable_nsfw: Option<JsonTree>,
        federation_debug: Option<JsonTree>,
        federation_enabled: Option<JsonTree>,
        hide_modlog_mod_names: Option<JsonTree>,
        icon: Option<JsonTree>,
        legal_information: Option<JsonTree>,
        name: JsonTree,
        private_instance: Option<JsonTree>,
        rate_limit_comments: Option<JsonTree>,
        rate_limit_comment_per_second: Option<JsonTree>,
        rate_limit_images: Option<JsonTree>,
        rate_limit_image_per_second: Option<JsonTree>,
        rate_limit_message: Option<JsonTree>,
        rate_limit_message_per_second: Option<JsonTree>,
        rate_limit_post: Option<JsonTree>,
        rate_limit_post_per_second: Option<JsonTree>,
        rate_limit_register: Option<JsonTree>,
        rate_limit_register_per_second: Option<JsonTree>,
        rate_limit_search: Option<JsonTree>,
        rate_limit_search_per_second: Option<JsonTree>,
        registration_mode: Option<JsonTree>,
        require_email_verification: Option<JsonTree>,
        sidebar: Option<JsonTree>,
        slur_filter_regex: Option<JsonTree>,
        taglines: Option<JsonTree>,
    ) -> Seq<Member> {
        let members = Seq::empty();
        let members = with_optional(members, "actor_name_max_length"@, actor_name_max_length);
        let members = with_optional(members, "allowed_instances"@, allowed_instances);
        let members = with_optional(members, "application_email_admins"@, application_email_admins);
        let members = with_field(members, "auth"@, auth);
        let members = with_optional(members, "banner"@, banner);
        let members = with_optional(members, "blocked_instances"@, blocked_instances);
        let members = with_optional(members, "captcha_difficulty"@, captcha_difficulty);
        let members = with_optional(members, "captcha_enabled"@, captcha_enabled);
        let members = with_optional(
            members,
            "community_creation_admin_only"@,
            community_creation_admin_only,
        );
        let members = with_optional(
            members,
            "default_post_listing_type"@,
            default_post_listing_type,
        );
        let members = with_optional(members, "default_theme"@, default_theme);
        let members = with_optional(members, "description"@, description);
        let members = with_optional(members, "discussion_languages"@, discussion_languages);
        let members = with_optional(members, "enable_downvotes"@, enable_downvotes);
        let members = with_optional(members, "enable_nsfw"@, enable_nsfw);
        let members = with_optional(members, "federation_debug"@, federation_debug);
        let members = with_optional(members, "federation_enabled"@, federation_enabled);
        let members = with_optional(members, "hide_modlog_mod_names"@, hide_modlog_mod_names);
        let members = with_optional(members, "icon"@, icon);
        let members = with_optional(members, "legal_information"@, legal_information);
        let members = with_field(members, "name"@, name);
        let members = with_optional(members, "private_instance"@, private_instance);
        let members = with_optional(members, "rate_limit_comments"@, rate_limit_comments);
        let members = with_optional(
            members,
            "rate_limit_comment_per_second"@,
            rate_limit_comment_per_second,
        );
        let members = with_optional(members, "rate_limit_images"@, rate_limit_images);
        let members = with_optional(
            members,
            "rate_limit_image_per_second"@,
            rate_limit_image_per_second,
        );
        let members = with_optional(members, "rate_limit_message"@, rate_limit_message);
        let members = with_optional(
            members,
            "rate_limit_message_per_second"@,
            rate_limit_message_per_second,
        );
        let members = with_optional(members, "rate_limit_post"@, rate_limit_post);
        let members = with_optional(
            members,
            "rate_limit_post_per_second"@,
            rate_limit_post_per_second,
        );
        let members = with_optional(members, "rate_limit_register"@, rate_limit_register);
        let members = with_optional(
            members,
            "rate_limit_register_per_second"@,
            rate_limit_register_per_second,
        );
        let members = with_optional(members, "rate_limit_search"@, rate_limit_search);
        let members = with_optional(
            members,
            "rate_limit_search_per_second"@,
            rate_limit_search_per_second,
        );
        let members = with_optional(members, "registration_mode"@, registration_mode);
        let members = with_optional(
            members,
            "require_email_verification"@,
            require_email_verification,
        );
        let members = with_optional(members, "sidebar"@, sidebar);
        let members = with_optional(members, "slur_filter_regex"@, slur_filter_regex);
        let members = with_optional(members, "taglines"@, taglines);
        members
    }

    /// Each key leads to what was written under it, and to nothing where
    /// nothing was written.
    pub proof fn lemma_members(
        actor_name_max_length: Option<JsonTree>,
        allowed_instances: Option<JsonTree>,
        application_email_admins: Option<JsonTree>,
        auth: JsonTree,
        banner: Option<JsonTree>,
        blocked_instances: Option<JsonTree>,
        captcha_difficulty: Option<JsonTree>,
        captcha_enabled: Option<JsonTree>,
        community_creation_admin_only: Option<JsonTree>,
        default_post_listing_type: Option<JsonTree>,
        default_theme: Option<JsonTree>,
        description: Option<JsonTree>,
        discussion_languages: Option<JsonTree>,
        enable_downvotes: Option<JsonTree>,
        enable_nsfw: Option<JsonTree>,
        federation_debug: Option<JsonTree>,
        federation_enabled: Option<JsonTree>,
        hide_modlog_mod_names: Option<JsonTree>,
        icon: Option<JsonTree>,
        legal_information: Option<JsonTree>,
        name: JsonTree,
        private_instance: Option<JsonTree>,
        rate_limit_comments: Option<JsonTree>,
        rate_limit_comment_per_second: Option<JsonTree>,
        rate_limit_images: Option<JsonTree>,
        rate_limit_image_per_second: Option<JsonTree>,
        rate_limit_message: Option<JsonTree>,
        rate_limit_message_per_second: Option<JsonTree>,
        rate_limit_post: Option<JsonTree>,
        rate_limit_post_per_second: Option<JsonTree>,
        rate_limit_register: Option<JsonTree>,
        rate_limit_register_per_second: Option<JsonTree>,
        rate_limit_search: Option<JsonTree>,
        rate_limit_search_per_second: Option<JsonTree>,
        registration_mode: Option<JsonTree>,
        require_email_verification: Option<JsonTree>,
        sidebar: Option<JsonTree>,
        slur_filter_regex: Option<JsonTree>,
        taglines: Option<JsonTree>,
    )
        ensures
            ({
                let members = Self::members(
                    actor_name_max_length,
                    allowed_instances,
                    application_email_admins,
                    auth,
                    banner,
                    blocked_instances,
                    captcha_difficulty,
                    captcha_enabled,
                    community_creation_admin_only,
                    default_post_listing_type,
                    default_theme,
                    description,
                    discussion_languages,
                    enable_downvotes,
                    enable_nsfw,
                    federation_debug,
                    federation_enabled,
                    hide_modlog_mod_names,
                    icon,
                    legal_information,
                    name,
                    private_instance,
                    rate_limit_comments,
                    rate_limit_comment_per_second,
                    rate_limit_images,
                    rate_limit_image_per_second,
                    rate_limit_message,
                    rate_limit_message_per_second,
                    rate_limit_post,
                    rate_limit_post_per_second,
                    rate_limit_register,
                    rate_limit_register_per_second,
                    rate_limit_search,
                    rate_limit_search_per_second,
                    registration_mode,
                    require_email_verification,
                    sidebar,
                    slur_filter_regex,
                    taglines,
                );
                &&& lookup(members, "actor_name_max_length"@) == actor_name_max_length
                &&& lookup(members, "allowed_instances"@) == allowed_instances
                &&& lookup(members, "application_email_admins"@) == application_email_admins
                &&& lookup(members, "auth"@) == Some(auth)
                &&& lookup(members, "banner"@) == banner
                &&& lookup(members, "blocked_instances"@) == blocked_instances
                &&& lookup(members, "captcha_difficulty"@) == captcha_difficulty
                &&& lookup(members, "captcha_enabled"@) == captcha_enabled
                &&& lookup(members, "community_creation_admin_only"@)
                    == community_creation_admin_only
                &&& lookup(members, "default_post_listing_type"@) == default_post_listing_type
                &&& lookup(members, "default_theme"@) == default_theme
                &&& lookup(members, "description"@) == description
                &&& lookup(members, "discussion_languages"@) == discussion_languages
                &&& lookup(members, "enable_downvotes"@) == enable_downvotes
                &&& lookup(members, "enable_nsfw"@) == enable_nsfw
                &&& lookup(members, "federation_debug"@) == federation_debug
                &&& lookup(members, "federation_enabled"@) == federation_enabled
                &&& lookup(members, "hide_modlog_mod_names"@) == hide_modlog_mod_names
                &&& lookup(members, "icon"@) == icon
                &&& lookup(members, "legal_information"@) == legal_information
                &&& lookup(members, "name"@) == Some(name)
                &&& lookup(members, "private_instance"@) == private_instance
                &&& lookup(members, "rate_limit_comments"@) == rate_limit_comments
                &&& lookup(members, "rate_limit_comment_per_second"@)
                    == rate_limit_comment_per_second
                &&& lookup(members, "rate_limit_images"@) == rate_limit_images
                &&& lookup(members, "rate_limit_image_per_second"@) == rate_limit_image_per_second
                &&& lookup(members, "rate_limit_message"@) == rate_limit_message
                &&& lookup(members, "rate_limit_message_per_second"@)
                    == rate_limit_message_per_second
                &&& lookup(members, "rate_limit_post"@) == rate_limit_post
                &&& lookup(members, "rate_limit_post_per_second"@) == rate_limit_post_per_second
                &&& lookup(members, "rate_limit_register"@) == rate_limit_register
                &&& lookup(members, "rate_limit_register_per_second"@)
                    == rate_limit_register_per_second
                &&& lookup(members, "rate_limit_search"@) == rate_limit_search
                &&& lookup(members, "rate_limit_search_per_second"@) == rate_limit_search_per_second
                &&& lookup(members, "registration_mode"@) == registration_mode
                &&& lookup(members, "require_email_verification"@) == require_email_verification
                &&& lookup(members, "sidebar"@) == sidebar
                &&& lookup(members, "slur_filter_regex"@) == slur_filter_regex
                &&& lookup(members, "taglines"@) == taglines
            }),
    {
        broadcast use group_written_members;

        reveal_strlit("actor_name_max_length");
        reveal_strlit("allowed_instances");
        reveal_strlit("application_email_admins");
        reveal_strlit("auth");
        reveal_strlit("banner");
        reveal_strlit("blocked_instances");
        reveal_strlit("captcha_difficulty");
        reveal_strlit("captcha_enabled");
        reveal_strlit("community_creation_admin_only");
        reveal_strlit("default_post_listing_type");
        reveal_strlit("default_theme");
        reveal_strlit("description");
        reveal_strlit("discussion_languages");
        reveal_strlit("enable_downvotes");
        reveal_strlit("enable_nsfw");
        reveal_strlit("federation_debug");
        reveal_strlit("federation_enabled");
        reveal_strlit("hide_modlog_mod_names");
        reveal_strlit("icon");
        reveal_strlit("legal_information");
        reveal_strlit("name");
        reveal_strlit("private_instance");
        reveal_strlit("rate_limit_comments");
        reveal_strlit("rate_limit_comment_per_second");
        reveal_strlit("rate_limit_images");
        reveal_strlit("rate_limit_image_per_second");
        reveal_strlit("rate_limit_message");
        reveal_strlit("rate_limit_message_per_second");
        reveal_strlit("rate_limit_post");
        reveal_strlit("rate_limit_post_per_second");
        reveal_strlit("rate_limit_register");
        reveal_strlit("rate_limit_register_per_second");
        reveal_strlit("rate_limit_search");
        reveal_strlit("rate_limit_search_per_second");
        reveal_strlit("registration_mode");
        reveal_strlit("require_email_verification");
        reveal_strlit("sidebar");
        reveal_strlit("slur_filter_regex");
        reveal_strlit("taglines");
        assert("actor_name_max_length"@.len() == 21 && "actor_name_max_length"@[0] == 'a');
        assert("allowed_instances"@.len() == 17 && "allowed_instances"@[0] == 'a');
        assert("application_email_admins"@.len() == 24);
        assert("auth"@.len() == 4 && "auth"@[0] == 'a');
        assert("banner"@.len() == 6);
        assert("blocked_instances"@.len() == 17 && "blocked_instances"@[0] == 'b');
        assert("captcha_difficulty"@.len() == 18 && "captcha_difficulty"@[0] == 'c');
        assert("captcha_enabled"@.len() == 15 && "captcha_enabled"@[0] == 'c');
        assert("community_creation_admin_only"@.len() == 29
            && "community_creation_admin_only"@[0] == 'c');
        assert("default_post_listing_type"@.len() == 25);
        assert("default_theme"@.len() == 13);
        assert("description"@.len() == 11 && "description"@[0] == 'd');
        assert("discussion_languages"@.len() == 20);
        assert("enable_downvotes"@.len() == 16 && "enable_downvotes"@[0] == 'e');
        assert("enable_nsfw"@.len() == 11 && "enable_nsfw"@[0] == 'e');
        assert("federation_debug"@.len() == 16 && "federation_debug"@[0] == 'f');
        assert("federation_enabled"@.len() == 18 && "federation_enabled"@[0] == 'f');
        assert("hide_modlog_mod_names"@.len() == 21 && "hide_modlog_mod_names"@[0] == 'h');
        assert("icon"@.len() == 4 && "icon"@[0] == 'i');
        assert("legal_information"@.len() == 17 && "legal_information"@[0] == 'l');
        assert("name"@.len() == 4 && "name"@[0] == 'n');
        assert("private_instance"@.len() == 16 && "private_instance"@[0] == 'p');
        assert("rate_limit_comments"@.len() == 19 && "rate_limit_comments"@[11] == 'c');
        assert("rate_limit_comment_per_second"@.len() == 29
            && "rate_limit_comment_per_second"@[0] == 'r'
            && "rate_limit_comment_per_second"@[11] == 'c');
        assert("rate_limit_images"@.len() == 17
            && "rate_limit_images"@[0] == 'r'
            && "rate_limit_images"@[1] == 'a'
            && "rate_limit_images"@[11] == 'i');
        assert("rate_limit_image_per_second"@.len() == 27);
        assert("rate_limit_message"@.len() == 18 && "rate_limit_message"@[0] == 'r');
        assert("rate_limit_message_per_second"@.len() == 29
            && "rate_limit_message_per_second"@[0] == 'r'
            && "rate_limit_message_per_second"@[11] == 'm');
        assert("rate_limit_post"@.len() == 15 && "rate_limit_post"@[0] == 'r');
        assert("rate_limit_post_per_second"@.len() == 26
            && "rate_limit_post_per_second"@[1] == 'a');
        assert("rate_limit_register"@.len() == 19 && "rate_limit_register"@[11] == 'r');
        assert("rate_limit_register_per_second"@.len() == 30);
        assert("rate_limit_search"@.len() == 17
            && "rate_limit_search"@[0] == 'r'
            && "rate_limit_search"@[1] == 'a'
            && "rate_limit_search"@[11] == 's');
        assert("rate_limit_search_per_second"@.len() == 28);
        assert("registration_mode"@.len() == 17
            && "registration_mode"@[0] == 'r'
            && "registration_mode"@[1] == 'e');
        assert("require_email_verification"@.len() == 26
            && "require_email_verification"@[1] == 'e');
        assert("sidebar"@.len() == 7);
        assert("slur_filter_regex"@.len() == 17 && "slur_filter_regex"@[0] == 's');
        assert("taglines"@.len() == 8);
    }

    /// With every optional field absent, the mandatory fields are written
    /// and nothing else.
    pub proof fn lemma_mandatory_fields_alone(auth: JsonTree, name: JsonTree)
        ensures
            Self::members(
                None,
                None,
                None,
                auth,
                None,
                None,
                None,
                None,
                None,
                None,
                None,
                None,
                None,
                None,
                None,
                None,
                None,
                None,
                None,
                None,
                name,
                None,
                None,
                None,
                None,
                None,
                None,
                None,
                None,
                None,
                None,
                None,
                None,
                None,
                None,
                None,
                None,
                None,
                None,
            ) == Seq::<Member>::empty()
                .push(("auth"@, auth))
                .push(("name"@, name)),
    {
        reveal(with_field);
        reveal(with_optional);
    }
}

impl Payload for CreateSite {
    open spec fn tree(&self) -> JsonTree {
        JsonTree::Object(
            Self::members(
                written(self.actor_name_max_length),
                written(self.allowed_instances),
                written(self.application_email_admins),
                self.auth.tree(),
                written(self.banner),
                written(self.blocked_instances),
                written(self.captcha_difficulty),
                written(self.captcha_enabled),
                written(self.community_creation_admin_only),
                written(self.default_post_listing_type),
                written(self.default_theme),
                written(self.description),
                written(self.discussion_languages),
                written(self.enable_downvotes),
                written(self.enable_nsfw),
                written(self.federation_debug),
                written(self.federation_enabled),
                written(self.hide_modlog_mod_names),
                written(self.icon),
                written(self.legal_information),
                self.name.tree(),
                written(self.private_instance),
                written(self.rate_limit_comments),
                written(self.rate_limit_comment_per_second),
                written(self.rate_limit_images),
                written(self.rate_limit_image_per_second),
                written(self.rate_limit_message),
                written(self.rate_limit_message_per_second),
                written(self.rate_limit_post),
                written(self.rate_limit_post_per_second),
                written(self.rate_limit_register),
                written(self.rate_limit_register_per_second),
                written(self.rate_limit_search),
                written(self.rate_limit_search_per_second),
                written(self.registration_mode),
                written(self.require_email_verification),
                written(self.sidebar),
                written(self.slur_filter_regex),
                written(self.taglines),
            ),
        )
    }

    open spec fn admits(t: JsonTree) -> bool {
        &&& t is Object
        &&& optional_admits::<i32>(t, "actor_name_max_length"@)
        &&& optional_admits::<Vec<String>>(t, "allowed_instances"@)
        &&& optional_admits::<bool>(t, "application_email_admins"@)
        &&& required_admits::<String>(t, "auth"@)
        &&& optional_admits::<String>(t, "banner"@)
        &&& optional_admits::<Vec<String>>(t, "blocked_instances"@)
        &&& optional_admits::<i32>(t, "captcha_difficulty"@)
        &&& optional_admits::<bool>(t, "captcha_enabled"@)
        &&& optional_admits::<bool>(t, "community_creation_admin_only"@)
        &&& optional_admits::<ListingType>(t, "default_post_listing_type"@)
        &&& optional_admits::<String>(t, "default_theme"@)
        &&& optional_admits::<String>(t, "description"@)
        &&& optional_admits::<Vec<i32>>(t, "discussion_languages"@)
        &&& optional_admits::<bool>(t, "enable_downvotes"@)
        &&& optional_admits::<bool>(t, "enable_nsfw"@)
        &&& optional_admits::<bool>(t, "federation_debug"@)
        &&& optional_admits::<bool>(t, "federation_enabled"@)
        &&& optional_admits::<bool>(t, "hide_modlog_mod_names"@)
        &&& optional_admits::<String>(t, "icon"@)
        &&& optional_admits::<String>(t, "legal_information"@)
        &&& required_admits::<String>(t, "name"@)
        &&& optional_admits::<bool>(t, "private_instance"@)
        &&& optional_admits::<i32>(t, "rate_limit_comments"@)
        &&& optional_admits::<i32>(t, "rate_limit_comment_per_second"@)
        &&& optional_admits::<i32>(t, "rate_limit_images"@)
        &&& optional_admits::<i32>(t, "rate_limit_image_per_second"@)
        &&& optional_admits::<i32>(t, "rate_limit_message"@)
        &&& optional_admits::<i32>(t, "rate_limit_message_per_second"@)
        &&& optional_admits::<i32>(t, "rate_limit_post"@)
        &&& optional_admits::<i32>(t, "rate_limit_post_per_second"@)
        &&& optional_admits::<i32>(t, "rate_limit_register"@)
        &&& optional_admits::<i32>(t, "rate_limit_register_per_second"@)
        &&& optional_admits::<i32>(t, "rate_limit_search"@)
        &&& optional_admits::<i32>(t, "rate_limit_search_per_second"@)
        &&& optional_admits::<RegistrationMode>(t, "registration_mode"@)
        &&& optional_admits::<bool>(t, "require_email_verification"@)
        &&& optional_admits::<String>(t, "sidebar"@)
        &&& optional_admits::<String>(t, "slur_filter_regex"@)
        &&& optional_admits::<Vec<String>>(t, "taglines"@)
    }

    open spec fn agrees(&self, t: JsonTree) -> bool {
        &&& optional_agrees(self.actor_name_max_length, t, "actor_name_max_length"@)
        &&& optional_agrees(self.allowed_instances, t, "allowed_instances"@)
        &&& optional_agrees(self.application_email_admins, t, "application_email_admins"@)
        &&& required_agrees(self.auth, t, "auth"@)
        &&& optional_agrees(self.banner, t, "banner"@)
        &&& optional_agrees(self.blocked_instances, t, "blocked_instances"@)
        &&& optional_agrees(self.captcha_difficulty, t, "captcha_difficulty"@)
        &&& optional_agrees(self.captcha_enabled, t, "captcha_enabled"@)
        &&& optional_agrees(self.community_creation_admin_only, t, "community_creation_admin_only"@)
        &&& optional_agrees(self.default_post_listing_type, t, "default_post_listing_type"@)
        &&& optional_agrees(self.default_theme, t, "default_theme"@)
        &&& optional_agrees(self.description, t, "description"@)
        &&& optional_agrees(self.discussion_languages, t, "discussion_languages"@)
        &&& optional_agrees(self.enable_downvotes, t, "enable_downvotes"@)
        &&& optional_agrees(self.enable_nsfw, t, "enable_nsfw"@)
        &&& optional_agrees(self.federation_debug, t, "federation_debug"@)
        &&& optional_agrees(self.federation_enabled, t, "federation_enabled"@)
        &&& optional_agrees(self.hide_modlog_mod_names, t, "hide_modlog_mod_names"@)
        &&& optional_agrees(self.icon, t, "icon"@)
        &&& optional_agrees(self.legal_information, t, "legal_information"@)
        &&& required_agrees(self.name, t, "name"@)
        &&& optional_agrees(self.private_instance, t, "private_instance"@)
        &&& optional_agrees(self.rate_limit_comments, t, "rate_limit_comments"@)
        &&& optional_agrees(self.rate_limit_comment_per_second, t, "rate_limit_comment_per_second"@)
        &&& optional_agrees(self.rate_limit_images, t, "rate_limit_images"@)
        &&& optional_agrees(self.rate_limit_image_per_second, t, "rate_limit_image_per_second"@)
        &&& optional_agrees(self.rate_limit_message, t, "rate_limit_message"@)
        &&& optional_agrees(self.rate_limit_message_per_second, t, "rate_limit_message_per_second"@)
        &&& optional_agrees(self.rate_limit_post, t, "rate_limit_post"@)
        &&& optional_agrees(self.rate_limit_post_per_second, t, "rate_limit_post_per_second"@)
        &&& optional_agrees(self.rate_limit_register, t, "rate_limit_register"@)
        &&& optional_agrees(
            self.rate_limit_register_per_second,
            t,
            "rate_limit_register_per_second"@,
        )
        &&& optional_agrees(self.rate_limit_search, t, "rate_limit_search"@)
        &&& optional_agrees(self.rate_limit_search_per_second, t, "rate_limit_search_per_second"@)
        &&& optional_agrees(self.registration_mode, t, "registration_mode"@)
        &&& optional_agrees(self.require_email_verification, t, "require_email_verification"@)
        &&& optional_agrees(self.sidebar, t, "sidebar"@)
        &&& optional_agrees(self.slur_filter_regex, t, "slur_filter_regex"@)
        &&& optional_agrees(self.taglines, t, "taglines"@)
    }

    fn to_json(&self) -> (out: JsonValue) {
        let mut members: Vec<(String, JsonValue)> = Vec::new();
        assert(members_view(members@) =~= Seq::empty());
        put_optional(&mut members, "actor_name_max_length", &self.actor_name_max_length);
        put_optional(&mut members, "allowed_instances", &self.allowed_instances);
        put_optional(&mut members, "application_email_admins", &self.application_email_admins);
        put(&mut members, "auth", &self.auth);
        put_optional(&mut members, "banner", &self.banner);
        put_optional(&mut members, "blocked_instances", &self.blocked_instances);
        put_optional(&mut members, "captcha_difficulty", &self.captcha_difficulty);
        put_optional(&mut members, "captcha_enabled", &self.captcha_enabled);
        put_optional(
            &mut members,
            "community_creation_admin_only",
            &self.community_creation_admin_only,
        );
        put_optional(&mut members, "default_post_listing_type", &self.default_post_listing_type);
        put_optional(&mut members, "default_theme", &self.default_theme);
        put_optional(&mut members, "description", &self.description);
        put_optional(&mut members, "discussion_languages", &self.discussion_languages);
        put_optional(&mut members, "enable_downvotes", &self.enable_downvotes);
        put_optional(&mut members, "enable_nsfw", &self.enable_nsfw);
        put_optional(&mut members, "federation_debug", &self.federation_debug);
        put_optional(&mut members, "federation_enabled", &self.federation_enabled);
        put_optional(&mut members, "hide_modlog_mod_names", &self.hide_modlog_mod_names);
        put_optional(&mut members, "icon", &self.icon);
        put_optional(&mut members, "legal_information", &self.legal_information);
        put(&mut members, "name", &self.name);
        put_optional(&mut members, "private_instance", &self.private_instance);
        put_optional(&mut members, "rate_limit_comments", &self.rate_limit_comments);
        put_optional(
            &mut members,
            "rate_limit_comment_per_second",
            &self.rate_limit_comment_per_second,
        );
        put_optional(&mut members, "rate_limit_images", &self.rate_limit_images);
        put_optional(
            &mut members,
            "rate_limit_image_per_second",
            &self.rate_limit_image_per_second,
        );
        put_optional(&mut members, "rate_limit_message", &self.rate_limit_message);
        put_optional(
            &mut members,
            "rate_limit_message_per_second",
            &self.rate_limit_message_per_second,
        );
        put_optional(&mut members, "rate_limit_post", &self.rate_limit_post);
        put_optional(&mut members, "rate_limit_post_per_second", &self.rate_limit_post_per_second);
        put_optional(&mut members, "rate_limit_register", &self.rate_limit_register);
        put_optional(
            &mut members,
            "rate_limit_register_per_second",
            &self.rate_limit_register_per_second,
        );
        put_optional(&mut members, "rate_limit_search", &self.rate_limit_search);
        put_optional(
            &mut members,
            "rate_limit_search_per_second",
            &self.rate_limit_search_per_second,
        );
        put_optional(&mut members, "registration_mode", &self.registration_mode);
        put_optional(&mut members, "require_email_verification", &self.require_email_verification);
        put_optional(&mut members, "sidebar", &self.sidebar);
        put_optional(&mut members, "slur_filter_regex", &self.slur_filter_regex);
        put_optional(&mut members, "taglines", &self.taglines);
        object(members)
    }

    fn from_json(v: &JsonValue) -> (res: Option<Self>) {
        if !v.is_object() {
            return None;
        }
        let actor_name_max_length = optional::<i32>(v, "actor_name_max_length")?;
        let allowed_instances = optional::<Vec<String>>(v, "allowed_instances")?;
        let application_email_admins = optional::<bool>(v, "application_email_admins")?;
        let auth = required::<String>(v, "auth")?;
        let banner = optional::<String>(v, "banner")?;
        let blocked_instances = optional::<Vec<String>>(v, "blocked_instances")?;
        let captcha_difficulty = optional::<i32>(v, "captcha_difficulty")?;
        let captcha_enabled = optional::<bool>(v, "captcha_enabled")?;
        let community_creation_admin_only = optional::<bool>(v, "community_creation_admin_only")?;
        let default_post_listing_type = optional::<ListingType>(v, "default_post_listing_type")?;
        let default_theme = optional::<String>(v, "default_theme")?;
        let description = optional::<String>(v, "description")?;
        let discussion_languages = optional::<Vec<i32>>(v, "discussion_languages")?;
        let enable_downvotes = optional::<bool>(v, "enable_downvotes")?;
        let enable_nsfw = optional::<bool>(v, "enable_nsfw")?;
        let federation_debug = optional::<bool>(v, "federation_debug")?;
        let federation_enabled = optional::<bool>(v, "federation_enabled")?;
        let hide_modlog_mod_names = optional::<bool>(v, "hide_modlog_mod_names")?;
        let icon = optional::<String>(v, "icon")?;
        let legal_information = optional::<String>(v, "legal_information")?;
        let name = required::<String>(v, "name")?;
        let private_instance = optional::<bool>(v, "private_instance")?;
        let rate_limit_comments = optional::<i32>(v, "rate_limit_comments")?;
        let rate_limit_comment_per_second = optional::<i32>(v, "rate_limit_comment_per_second")?;
        let rate_limit_images = optional::<i32>(v, "rate_limit_images")?;
        let rate_limit_image_per_second = optional::<i32>(v, "rate_limit_image_per_second")?;
        let rate_limit_message = optional::<i32>(v, "rate_limit_message")?;
        let rate_limit_message_per_second = optional::<i32>(v, "rate_limit_message_per_second")?;
        let rate_limit_post = optional::<i32>(v, "rate_limit_post")?;
        let rate_limit_post_per_second = optional::<i32>(v, "rate_limit_post_per_second")?;
        let rate_limit_register = optional::<i32>(v, "rate_limit_register")?;
        let rate_limit_register_per_second = optional::<i32>(v, "rate_limit_register_per_second")?;
        let rate_limit_search = optional::<i32>(v, "rate_limit_search")?;
        let rate_limit_search_per_second = optional::<i32>(v, "rate_limit_search_per_second")?;
        let registration_mode = optional::<RegistrationMode>(v, "registration_mode")?;
        let require_email_verification = optional::<bool>(v, "require_email_verification")?;
        let sidebar = optional::<String>(v, "sidebar")?;
        let slur_filter_regex = optional::<String>(v, "slur_filter_regex")?;
        let taglines = optional::<Vec<String>>(v, "taglines")?;
        Some(
            CreateSite {
                actor_name_max_length,
                allowed_instances,
                application_email_admins,
                auth,
                banner,
                blocked_instances,
                captcha_difficulty,
                captcha_enabled,
                community_creation_admin_only,
                default_post_listing_type,
                default_theme,
                description,
                discussion_languages,
                enable_downvotes,
                enable_nsfw,
                federation_debug,
                federation_enabled,
                hide_modlog_mod_names,
                icon,
                legal_information,
                name,
                private_instance,
                rate_limit_comments,
                rate_limit_comment_per_second,
                rate_limit_images,
                rate_limit_image_per_second,
                rate_limit_message,
                rate_limit_message_per_second,
                rate_limit_post,
                rate_limit_post_per_second,
                rate_limit_register,
                rate_limit_register_per_second,
                rate_limit_search,
                rate_limit_search_per_second,
                registration_mode,
                require_email_verification,
                sidebar,
                slur_filter_regex,
                taglines,
            },
        )
    }

    proof fn lemma_round_trip(&self) {
        Self::lemma_members(
            written(self.actor_name_max_length),
            written(self.allowed_instances),
            written(self.application_email_admins),
            self.auth.tree(),
            written(self.banner),
            written(self.blocked_instances),
            written(self.captcha_difficulty),
            written(self.captcha_enabled),
            written(self.community_creation_admin_only),
            written(self.default_post_listing_type),
            written(self.default_theme),
            written(self.description),
            written(self.discussion_languages),
            written(self.enable_downvotes),
            written(self.enable_nsfw),
            written(self.federation_debug),
            written(self.federation_enabled),
            written(self.hide_modlog_mod_names),
            written(self.icon),
            written(self.legal_information),
            self.name.tree(),
            written(self.private_instance),
            written(self.rate_limit_comments),
            written(self.rate_limit_comment_per_second),
            written(self.rate_limit_images),
            written(self.rate_limit_image_per_second),
            written(self.rate_limit_message),
            written(self.rate_limit_message_per_second),
            written(self.rate_limit_post),
            written(self.rate_limit_post_per_second),
            written(self.rate_limit_register),
            written(self.rate_limit_register_per_second),
            written(self.rate_limit_search),
            written(self.rate_limit_search_per_second),
            written(self.registration_mode),
            written(self.require_email_verification),
            written(self.sidebar),
            written(self.slur_filter_regex),
            written(self.taglines),
        );
        lemma_optional_round_trip(self.actor_name_max_length);
        lemma_optional_round_trip(self.allowed_instances);
        lemma_optional_round_trip(self.application_email_admins);
        self.auth.lemma_round_trip();
        lemma_optional_round_trip(self.banner);
        lemma_optional_round_trip(self.blocked_instances);
        lemma_optional_round_trip(self.captcha_difficulty);
        lemma_optional_round_trip(self.captcha_enabled);
        lemma_optional_round_trip(self.community_creation_admin_only);
        lemma_optional_round_trip(self.default_post_listing_type);
        lemma_optional_round_trip(self.default_theme);
        lemma_optional_round_trip(self.description);
        lemma_optional_round_trip(self.discussion_languages);
        lemma_optional_round_trip(self.enable_downvotes);
        lemma_optional_round_trip(self.enable_nsfw);
        lemma_optional_round_trip(self.federation_debug);
        lemma_optional_round_trip(self.federation_enabled);
        lemma_optional_round_trip(self.hide_modlog_mod_names);
        lemma_optional_round_trip(self.icon);
        lemma_optional_round_trip(self.legal_information);
        self.name.lemma_round_trip();
        lemma_optional_round_trip(self.private_instance);
        lemma_optional_round_trip(self.rate_limit_comments);
        lemma_optional_round_trip(self.rate_limit_comment_per_second);
        lemma_optional_round_trip(self.rate_limit_images);
        lemma_optional_round_trip(self.rate_limit_image_per_second);
        lemma_optional_round_trip(self.rate_limit_message);
        lemma_optional_round_trip(self.rate_limit_message_per_second);
        lemma_optional_round_trip(self.rate_limit_post);
        lemma_optional_round_trip(self.rate_limit_post_per_second);
        lemma_optional_round_trip(self.rate_limit_register);
        lemma_optional_round_trip(self.rate_limit_register_per_second);
        lemma_optional_round_trip(self.rate_limit_search);
        lemma_optional_round_trip(self.rate_limit_search_per_second);
        lemma_optional_round_trip(self.registration_mode);
        lemma_optional_round_trip(self.require_email_verification);
        lemma_optional_round_trip(self.sidebar);
        lemma_optional_round_trip(self.slur_filter_regex);
        lemma_optional_round_trip(self.taglines);
    }

    proof fn lemma_reads_one(&self, other: &Self, t: JsonTree) {
        lemma_optional_reads_one(
            self.actor_name_max_length,
            other.actor_name_max_length,
            t,
            "actor_name_max_length"@,
        );
        lemma_optional_reads_one(
            self.allowed_instances,
            other.allowed_instances,
            t,
            "allowed_instances"@,
        );
        lemma_optional_reads_one(
            self.application_email_admins,
            other.application_email_admins,
            t,
            "application_email_admins"@,
        );
        lemma_required_reads_one(self.auth, other.auth, t, "auth"@);
        lemma_optional_reads_one(self.banner, other.banner, t, "banner"@);
        lemma_optional_reads_one(
            self.blocked_instances,
            other.blocked_instances,
            t,
            "blocked_instances"@,
        );
        lemma_optional_reads_one(
            self.captcha_difficulty,
            other.captcha_difficulty,
            t,
            "captcha_difficulty"@,
        );
        lemma_optional_reads_one(
            self.captcha_enabled,
            other.captcha_enabled,
            t,
            "captcha_enabled"@,
        );
        lemma_optional_reads_one(
            self.community_creation_admin_only,
            other.community_creation_admin_only,
            t,
            "community_creation_admin_only"@,
        );
        lemma_optional_reads_one(
            self.default_post_listing_type,
            other.default_post_listing_type,
            t,
            "default_post_listing_type"@,
        );
        lemma_optional_reads_one(self.default_theme, other.default_theme, t, "default_theme"@);
        lemma_optional_reads_one(self.description, other.description, t, "description"@);
        lemma_optional_reads_one(
            self.discussion_languages,
            other.discussion_languages,
            t,
            "discussion_languages"@,
        );
        lemma_optional_reads_one(
            self.enable_downvotes,
            other.enable_downvotes,
            t,
            "enable_downvotes"@,
        );
        lemma_optional_reads_one(self.enable_nsfw, other.enable_nsfw, t, "enable_nsfw"@);
        lemma_optional_reads_one(
            self.federation_debug,
            other.federation_debug,
            t,
            "federation_debug"@,
        );
        lemma_optional_reads_one(
            self.federation_enabled,
            other.federation_enabled,
            t,
            "federation_enabled"@,
        );
        lemma_optional_reads_one(
            self.hide_modlog_mod_names,
            other.hide_modlog_mod_names,
            t,
            "hide_modlog_mod_names"@,
        );
        lemma_optional_reads_one(self.icon, other.icon, t, "icon"@);
        lemma_optional_reads_one(
            self.legal_information,
            other.legal_information,
            t,
            "legal_information"@,
        );
        lemma_required_reads_one(self.name, other.name, t, "name"@);
        lemma_optional_reads_one(
            self.private_instance,
            other.private_instance,
            t,
            "private_instance"@,
        );
        lemma_optional_reads_one(
            self.rate_limit_comments,
            other.rate_limit_comments,
            t,
            "rate_limit_comments"@,
        );
        lemma_optional_reads_one(
            self.rate_limit_comment_per_second,
            other.rate_limit_comment_per_second,
            t,
            "rate_limit_comment_per_second"@,
        );
        lemma_optional_reads_one(
            self.rate_limit_images,
            other.rate_limit_images,
            t,
            "rate_limit_images"@,
        );
        lemma_optional_reads_one(
            self.rate_limit_image_per_second,
            other.rate_limit_image_per_second,
            t,
            "rate_limit_image_per_second"@,
        );
        lemma_optional_reads_one(
            self.rate_limit_message,
            other.rate_limit_message,
            t,
            "rate_limit_message"@,
        );
        lemma_optional_reads_one(
            self.rate_limit_message_per_second,
            other.rate_limit_message_per_second,
            t,
            "rate_limit_message_per_second"@,
        );
        lemma_optional_reads_one(
            self.rate_limit_post,
            other.rate_limit_post,
            t,
            "rate_limit_post"@,
        );
        lemma_optional_reads_one(
            self.rate_limit_post_per_second,
            other.rate_limit_post_per_second,
            t,
            "rate_limit_post_per_second"@,
        );
        lemma_optional_reads_one(
            self.rate_limit_register,
            other.rate_limit_register,
            t,
            "rate_limit_register"@,
        );
        lemma_optional_reads_one(
            self.rate_limit_register_per_second,
            other.rate_limit_register_per_second,
            t,
            "rate_limit_register_per_second"@,
        );
        lemma_optional_reads_one(
            self.rate_limit_search,
            other.rate_limit_search,
            t,
            "rate_limit_search"@,
        );
        lemma_optional_reads_one(
            self.rate_limit_search_per_second,
            other.rate_limit_search_per_second,
            t,
            "rate_limit_search_per_second"@,
        );
        lemma_optional_reads_one(
            self.registration_mode,
            other.registration_mode,
            t,
            "registration_mode"@,
        );
        lemma_optional_reads_one(
            self.require_email_verification,
            other.require_email_verification,
            t,
            "require_email_verification"@,
        );
        lemma_optional_reads_one(self.sidebar, other.sidebar, t, "sidebar"@);
        lemma_optional_reads_one(
            self.slur_filter_regex,
            other.slur_filter_regex,
            t,
            "slur_filter_regex"@,
        );
        lemma_optional_reads_one(self.taglines, other.taglines, t, "taglines"@);
    }
}

#[derive(Clone, Debug, PartialEq, Default)]
pub struct CustomEmoji {
    pub alt_text: String,
    pub category: String,
    pub id: i32,
    pub image_url: String,
    pub local_site_id: i32,
    pub published: String,
    pub shortcode: String,
    pub updated: Option<String>,
}

impl CustomEmoji {
    /// The members that a record is written as, from what is written for
    /// each of its fields.
    pub open spec fn members(
        alt_text: JsonTree,
        category: JsonTree,
        id: JsonTree,
        image_url: JsonTree,
        local_site_id: JsonTree,
        published: JsonTree,
        shortcode: JsonTree,
        updated: Option<JsonTree>,
    ) -> Seq<Member> {
        let members = Seq::empty();
        let members = with_field(members, "alt_text"@, alt_text);
        let members = with_field(members, "category"@, category);
        let members = with_field(members, "id"@, id);
        let members = with_field(members, "image_url"@, image_url);
        let members = with_field(members, "local_site_id"@, local_site_id);
        let members = with_field(members, "published"@, published);
        let members = with_field(members, "shortcode"@, shortcode);
        let members = with_optional(members, "updated"@, updated);
        members
    }

    /// Each key leads to what was written under it, and to nothing where
    /// nothing was written.
    pub proof fn lemma_members(
        alt_text: JsonTree,
        category: JsonTree,
        id: JsonTree,
        image_url: JsonTree,
        local_site_id: JsonTree,
        published: JsonTree,
        shortcode: JsonTree,
        updated: Option<JsonTree>,
    )
        ensures
            ({
                let members = Self::members(
                    alt_text,
                    category,
                    id,
                    image_url,
                    local_site_id,
                    published,
                    shortcode,
                    updated,
                );
                &&& lookup(members, "alt_text"@) == Some(alt_text)
                &&& lookup(members, "category"@) == Some(category)
                &&& lookup(members, "id"@) == Some(id)
                &&& lookup(members, "image_url"@) == Some(image_url)
                &&& lookup(members, "local_site_id"@) == Some(local_site_id)
                &&& lookup(members, "published"@) == Some(published)
                &&& lookup(members, "shortcode"@) == Some(shortcode)
                &&& lookup(members, "updated"@) == updated
            }),
    {
        broadcast use group_written_members;

        reveal_strlit("alt_text");
        reveal_strlit("category");
        reveal_strlit("id");
        reveal_strlit("image_url");
        reveal_strlit("local_site_id");
        reveal_strlit("published");
        reveal_strlit("shortcode");
        reveal_strlit("updated");
        assert("alt_text"@.len() == 8 && "alt_text"@[0] == 'a');
        assert("category"@.len() == 8 && "category"@[0] == 'c');
        assert("id"@.len() == 2);
        assert("image_url"@.len() == 9 && "image_url"@[0] == 'i');
        assert("local_site_id"@.len() == 13);
        assert("published"@.len() == 9 && "published"@[0] == 'p');
        assert("shortcode"@.len() == 9 && "shortcode"@[0] == 's');
        assert("updated"@.len() == 7);
    }

    /// With every optional field absent, the mandatory fields are written
    /// and nothing else.
    pub proof fn lemma_mandatory_fields_alone(
        alt_text: JsonTree,
        category: JsonTree,
        id: JsonTree,
        image_url: JsonTree,
        local_site_id: JsonTree,
        published: JsonTree,
        shortcode: JsonTree,
    )
        ensures
            Self::members(
                alt_text,
                category,
                id,
                image_url,
                local_site_id,
                published,
                shortcode,
                None,
            ) == Seq::<Member>::empty()
                .push(("alt_text"@, alt_text))
                .push(("category"@, category))
                .push(("id"@, id))
                .push(("image_url"@, image_url))
                .push(("local_site_id"@, local_site_id))
                .push(("published"@, published))
                .push(("shortcode"@, shortcode)),
    {
        reveal(with_field);
        reveal(with_optional);
    }
}

impl Payload for CustomEmoji {
    open spec fn tree(&self) -> JsonTree {
        JsonTree::Object(
            Self::members(
                self.alt_text.tree(),
                self.category.tree(),
                self.id.tree(),
                self.image_url.tree(),
                self.local_site_id.tree(),
                self.published.tree(),
                self.shortcode.tree(),
                written(self.updated),
            ),
        )
    }

    open spec fn admits(t: JsonTree) -> bool {
        &&& t is Object
        &&& required_admits::<String>(t, "alt_text"@)
        &&& required_admits::<String>(t, "category"@)
        &&& required_admits::<i32>(t, "id"@)
        &&& required_admits::<String>(t, "image_url"@)
        &&& required_admits::<i32>(t, "local_site_id"@)
        &&& required_admits::<String>(t, "published"@)
        &&& required_admits::<String>(t, "shortcode"@)
        &&& optional_admits::<String>(t, "updated"@)
    }

    open spec fn agrees(&self, t: JsonTree) -> bool {
        &&& required_agrees(self.alt_text, t, "alt_text"@)
        &&& required_agrees(self.category, t, "category"@)
        &&& required_agrees(self.id, t, "id"@)
        &&& required_agrees(self.image_url, t, "image_url"@)
        &&& required_agrees(self.local_site_id, t, "local_site_id"@)
        &&& required_agrees(self.published, t, "published"@)
        &&& required_agrees(self.shortcode, t, "shortcode"@)
        &&& optional_agrees(self.updated, t, "updated"@)
    }

    fn to_json(&self) -> (out: JsonValue) {
        let mut members: Vec<(String, JsonValue)> = Vec::new();
        assert(members_view(members@) =~= Seq::empty());
        put(&mut members, "alt_text", &self.alt_text);
        put(&mut members, "category", &self.category);
        put(&mut members, "id", &self.id);
        put(&mut members, "image_url", &self.image_url);
        put(&mut members, "local_site_id", &self.local_site_id);
        put(&mut members, "published", &self.published);
        put(&mut members, "shortcode", &self.shortcode);
        put_optional(&mut members, "updated", &self.updated);
        object(members)
    }

    fn from_json(v: &JsonValue) -> (res: Option<Self>) {
        if !v.is_object() {
            return None;
        }
        let alt_text = required::<String>(v, "alt_text")?;
        let category = required::<String>(v, "category")?;
        let id = required::<i32>(v, "id")?;
        let image_url = required::<String>(v, "image_url")?;
        let local_site_id = required::<i32>(v, "local_site_id")?;
        let published = required::<String>(v, "published")?;
        let shortcode = required::<String>(v, "shortcode")?;
        let updated = optional::<String>(v, "updated")?;
        Some(
            CustomEmoji {
                alt_text,
                category,
                id,
                image_url,
                local_site_id,
                published,
                shortcode,
                updated,
            },
        )
    }

    proof fn lemma_round_trip(&self) {
        Self::lemma_members(
            self.alt_text.tree(),
            self.category.tree(),
            self.id.tree(),
            self.image_url.tree(),
            self.local_site_id.tree(),
            self.published.tree(),
            self.shortcode.tree(),
            written(self.updated),
        );
        self.alt_text.lemma_round_trip();
        self.category.lemma_round_trip();
        self.id.lemma_round_trip();
        self.image_url.lemma_round_trip();
        self.local_site_id.lemma_round_trip();
        self.published.lemma_round_trip();
        self.shortcode.lemma_round_trip();
        lemma_optional_round_trip(self.updated);
    }

    proof fn lemma_reads_one(&self, other: &Self, t: JsonTree) {
        lemma_required_reads_one(self.alt_text, other.alt_text, t, "alt_text"@);
        lemma_required_reads_one(self.category, other.category, t, "category"@);
        lemma_required_reads_one(self.id, other.id, t, "id"@);
        lemma_required_reads_one(self.image_url, other.image_url, t, "image_url"@);
        lemma_required_reads_one(self.local_site_id, other.local_site_id, t, "local_site_id"@);
        lemma_required_reads_one(self.published, other.published, t, "published"@);
        lemma_required_reads_one(self.shortcode, other.shortcode, t, "shortcode"@);
        lemma_optional_reads_one(self.updated, other.updated, t, "updated"@);
    }
}

#[derive(Clone, Debug, PartialEq, Default)]
pub struct CustomEmojiKeyword {
    pub custom_emoji_id: i32,
    pub id: i32,
    pub keyword: String,
}

impl CustomEmojiKeyword {
    /// The members that a record is written as, from what is written for
    /// each of its fields.
    pub open spec fn members(
        custom_emoji_id: JsonTree,
        id: JsonTree,
        keyword: JsonTree,
    ) -> Seq<Member> {
        let members = Seq::empty();
        let members = with_field(members, "custom_emoji_id"@, custom_emoji_id);
        let members = with_field(members, "id"@, id);
        let members = with_field(members, "keyword"@, keyword);
        members
    }

    /// Each key leads to what was written under it, and to nothing where
    /// nothing was written.
    pub proof fn lemma_members(custom_emoji_id: JsonTree, id: JsonTree, keyword: JsonTree)
        ensures
            ({
                let members = Self::members(custom_emoji_id, id, keyword);
                &&& lookup(members, "custom_emoji_id"@) == Some(custom_emoji_id)
                &&& lookup(members, "id"@) == Some(id)
                &&& lookup(members, "keyword"@) == Some(keyword)
            }),
    {
        broadcast use group_written_members;

        reveal_strlit("custom_emoji_id");
        reveal_strlit("id");
        reveal_strlit("keyword");
        assert("custom_emoji_id"@.len() == 15);
        assert("id"@.len() == 2);
        assert("keyword"@.len() == 7);
    }

    /// Every field is mandatory: each is written, in order, and nothing
    /// else.
    pub proof fn lemma_mandatory_fields_alone(
        custom_emoji_id: JsonTree,
        id: JsonTree,
        keyword: JsonTree,
    )
        ensures
            Self::members(custom_emoji_id, id, keyword) == Seq::<Member>::empty()
                .push(("custom_emoji_id"@, custom_emoji_id))
                .push(("id"@, id))
                .push(("keyword"@, keyword)),
    {
        reveal(with_field);
        reveal(with_optional);
    }
}

impl Payload for CustomEmojiKeyword {
    open spec fn tree(&self) -> JsonTree {
        JsonTree::Object(
            Self::members(self.custom_emoji_id.tree(), self.id.tree(), self.keyword.tree()),
        )
    }

    open spec fn admits(t: JsonTree) -> bool {
        &&& t is Object
        &&& required_admits::<i32>(t, "custom_emoji_id"@)
        &&& required_admits::<i32>(t, "id"@)
        &&& required_admits::<String>(t, "keyword"@)
    }

    open spec fn agrees(&self, t: JsonTree) -> bool {
        &&& required_agrees(self.custom_emoji_id, t, "custom_emoji_id"@)
        &&& required_agrees(self.id, t, "id"@)
        &&& required_agrees(self.keyword, t, "keyword"@)
    }

    fn to_json(&self) -> (out: JsonValue) {
        let mut members: Vec<(String, JsonValue)> = Vec::new();
        assert(members_view(members@) =~= Seq::empty());
        put(&mut members, "custom_emoji_id", &self.custom_emoji_id);
        put(&mut members, "id", &self.id);
        put(&mut members, "keyword", &self.keyword);
        object(members)
    }

    fn from_json(v: &JsonValue) -> (res: Option<Self>) {
        if !v.is_object() {
            return None;
        }
        let custom_emoji_id = required::<i32>(v, "custom_emoji_id")?;
        let id = required::<i32>(v, "id")?;
        let keyword = required::<String>(v, "keyword")?;
        Some(CustomEmojiKeyword { custom_emoji_id, id, keyword })
    }

    proof fn lemma_round_trip(&self) {
        Self::lemma_members(self.custom_emoji_id.tree(), self.id.tree(), self.keyword.tree());
        self.custom_emoji_id.lemma_round_trip();
        self.id.lemma_round_trip();
        self.keyword.lemma_round_trip();
    }

    proof fn lemma_reads_one(&self, other: &Self, t: JsonTree) {
        lemma_required_reads_one(
            self.custom_emoji_id,
            other.custom_emoji_id,
            t,
            "custom_emoji_id"@,
        );
        lemma_required_reads_one(self.id, other.id, t, "id"@);
        lemma_required_reads_one(self.keyword, other.keyword, t, "keyword"@);
    }
}

#[derive(Clone, Debug, PartialEq, Default)]
pub struct CustomEmojiResponse {
    pub custom_emoji_view: CustomEmojiView,
}

impl CustomEmojiResponse {
    /// The members that a record is written as, from what is written for
    /// each of its fields.
    pub open spec fn members(custom_emoji_view: JsonTree) -> Seq<Member> {
        let members = Seq::empty();
        let members = with_field(members, "custom_emoji_view"@, custom_emoji_view);
        members
    }

    /// Each key leads to what was written under it, and to nothing where
    /// nothing was written.
    pub proof fn lemma_members(custom_emoji_view: JsonTree)
        ensures
            ({
                let members = Self::members(custom_emoji_view);
                &&& lookup(members, "custom_emoji_view"@) == Some(custom_emoji_view)
            }),
    {
        broadcast use group_written_members;

        reveal_strlit("custom_emoji_view");
        assert("custom_emoji_view"@.len() == 17);
    }

    /// Every field is mandatory: each is written, in order, and nothing
    /// else.
    pub proof fn lemma_mandatory_fields_alone(custom_emoji_view: JsonTree)
        ensures
            Self::members(custom_emoji_view) == Seq::<Member>::empty()
                .push(("custom_emoji_view"@, custom_emoji_view)),
    {
        reveal(with_field);
        reveal(with_optional);
    }
}

impl Payload for CustomEmojiResponse {
    open spec fn tree(&self) -> JsonTree {
        JsonTree::Object(Self::members(self.custom_emoji_view.tree()))
    }

    open spec fn admits(t: JsonTree) -> bool {
        &&& t is Object
        &&& required_admits::<CustomEmojiView>(t, "custom_emoji_view"@)
    }

    open spec fn agrees(&self, t: JsonTree) -> bool {
        &&& required_agrees(self.custom_emoji_view, t, "custom_emoji_view"@)
    }

    fn to_json(&self) -> (out: JsonValue) {
        let mut members: Vec<(String, JsonValue)> = Vec::new();
        assert(members_view(members@) =~= Seq::empty());
        put(&mut members, "custom_emoji_view", &self.custom_emoji_view);
        object(members)
    }

    fn from_json(v: &JsonValue) -> (res: Option<Self>) {
        if !v.is_object() {
            return None;
        }
        let custom_emoji_view = required::<CustomEmojiView>(v, "custom_emoji_view")?;
        Some(CustomEmojiResponse { custom_emoji_view })
    }

    proof fn lemma_round_trip(&self) {
        Self::lemma_members(self.custom_emoji_view.tree());
        self.custom_emoji_view.lemma_round_trip();
    }

    proof fn lemma_reads_one(&self, other: &Self, t: JsonTree) {
        lemma_required_reads_one(
            self.custom_emoji_view,
            other.custom_emoji_view,
            t,
            "custom_emoji_view"@,
        );
    }
}

#[derive(Clone, Debug, PartialEq, Default)]
pub struct CustomEmojiView {
    pub custom_emoji: CustomEmoji,
    pub keywords: Vec<CustomEmojiKeyword>,
}

impl CustomEmojiView {
    /// The members that a record is written as, from what is written for
    /// each of its fields.
    pub open spec fn members(custom_emoji: JsonTree, keywords: JsonTree) -> Seq<Member> {
        let members = Seq::empty();
        let members = with_field(members, "custom_emoji"@, custom_emoji);
        let members = with_field(members, "keywords"@, keywords);
        members
    }

    /// Each key leads to what was written under it, and to nothing where
    /// nothing was written.
    pub proof fn lemma_members(custom_emoji: JsonTree, keywords: JsonTree)
        ensures
            ({
                let members = Self::members(custom_emoji, keywords);
                &&& lookup(members, "custom_emoji"@) == Some(custom_emoji)
                &&& lookup(members, "keywords"@) == Some(keywords)
            }),
    {
        broadcast use group_written_members;

        reveal_strlit("custom_emoji");
        reveal_strlit("keywords");
        assert("custom_emoji"@.len() == 12);
        assert("keywords"@.len() == 8);
    }

    /// Every field is mandatory: each is written, in order, and nothing
    /// else.
    pub proof fn lemma_mandatory_fields_alone(custom_emoji: JsonTree, keywords: JsonTree)
        ensures
            Self::members(custom_emoji, keywords) == Seq::<Member>::empty()
                .push(("custom_emoji"@, custom_emoji))
                .push(("keywords"@, keywords)),
    {
        reveal(with_field);
        reveal(with_optional);
    }
}

impl Payload for CustomEmojiView {
    open spec fn tree(&self) -> JsonTree {
        JsonTree::Object(Self::members(self.custom_emoji.tree(), self.keywords.tree()))
    }

    open spec fn admits(t: JsonTree) -> bool {
        &&& t is Object
        &&& required_admits::<CustomEmoji>(t, "custom_emoji"@)
        &&& required_admits::<Vec<CustomEmojiKeyword>>(t, "keywords"@)
    }

    open spec fn agrees(&self, t: JsonTree) -> bool {
        &&& required_agrees(self.custom_emoji, t, "custom_emoji"@)
        &&& required_agrees(self.keywords, t, "keywords"@)
    }

    fn to_json(&self) -> (out: JsonValue) {
        let mut members: Vec<(String, JsonValue)> = Vec::new();
        assert(members_view(members@) =~= Seq::empty());
        put(&mut members, "custom_emoji", &self.custom_emoji);
        put(&mut members, "keywords", &self.keywords);
        object(members)
    }

    fn from_json(v: &JsonValue) -> (res: Option<Self>) {
        if !v.is_object() {
            return None;
        }
        let custom_emoji = required::<CustomEmoji>(v, "custom_emoji")?;
        let keywords = required::<Vec<CustomEmojiKeyword>>(v, "keywords")?;
        Some(CustomEmojiView { custom_emoji, keywords })
    }

    proof fn lemma_round_trip(&self) {
        Self::lemma_members(self.custom_emoji.tree(), self.keywords.tree());
        self.custom_emoji.lemma_round_trip();
        self.keywords.lemma_round_trip();
    }

    proof fn lemma_reads_one(&self, other: &Self, t: JsonTree) {
        lemma_required_reads_one(self.custom_emoji, other.custom_emoji, t, "custom_emoji"@);
        lemma_required_reads_one(self.keywords, other.keywords, t, "keywords"@);
    }
}

#[derive(Clone, Debug, PartialEq, Default)]
pub struct DeleteCustomEmoji {
    pub auth: String,
    pub id: i32,
}

impl DeleteCustomEmoji {
    /// The members that a record is written as, from what is written for
    /// each of its fields.
    pub open spec fn members(auth: JsonTree, id: JsonTree) -> Seq<Member> {
        let members = Seq::empty();
        let members = with_field(members, "auth"@, auth);
        let members = with_field(members, "id"@, id);
        members
    }

    /// Each key leads to what was written under it, and to nothing where
    /// nothing was written.
    pub proof fn lemma_members(auth: JsonTree, id: JsonTree)
        ensures
            ({
                let members = Self::members(auth, id);
                &&& lookup(members, "auth"@) == Some(auth)
                &&& lookup(members, "id"@) == Some(id)
            }),
    {
        broadcast use group_written_members;

        reveal_strlit("auth");
        reveal_strlit("id");
        assert("auth"@.len() == 4);
        assert("id"@.len() == 2);
    }

    /// Every field is mandatory: each is written, in order, and nothing
    /// else.
    pub proof fn lemma_mandatory_fields_alone(auth: JsonTree, id: JsonTree)
        ensures
            Self::members(auth, id) == Seq::<Member>::empty()
                .push(("auth"@, auth))
                .push(("id"@, id)),
    {
        reveal(with_field);
        reveal(with_optional);
    }
}

impl Payload for DeleteCustomEmoji {
    open spec fn tree(&self) -> JsonTree {
        JsonTree::Object(Self::members(self.auth.tree(), self.id.tree()))
    }

    open spec fn admits(t: JsonTree) -> bool {
        &&& t is Object
        &&& required_admits::<String>(t, "auth"@)
        &&& required_admits::<i32>(t, "id"@)
    }

    open spec fn agrees(&self, t: JsonTree) -> bool {
        &&& required_agrees(self.auth, t, "auth"@)
        &&& required_agrees(self.id, t, "id"@)
    }

    fn to_json(&self) -> (out: JsonValue) {
        let mut members: Vec<(String, JsonValue)> = Vec::new();
        assert(members_view(members@) =~= Seq::empty());
        put(&mut members, "auth", &self.auth);
        put(&mut members, "id", &self.id);
        object(members)
    }

    fn from_json(v: &JsonValue) -> (res: Option<Self>) {
        if !v.is_object() {
            return None;
        }
        let auth = required::<String>(v, "auth")?;
        let id = required::<i32>(v, "id")?;
        Some(DeleteCustomEmoji { auth, id })
    }

    proof fn lemma_round_trip(&self) {
        Self::lemma_members(self.auth.tree(), self.id.tree());
        self.auth.lemma_round_trip();
        self.id.lemma_round_trip();
    }

    proof fn lemma_reads_one(&self, other: &Self, t: JsonTree) {
        lemma_required_reads_one(self.auth, other.auth, t, "auth"@);
        lemma_required_reads_one(self.id, other.id, t, "id"@);
    }
}

#[derive(Clone, Debug, PartialEq, Default)]
pub struct DeleteCustomEmojiResponse {
    pub id: i32,
    pub success: bool,
}

impl DeleteCustomEmojiResponse {
    /// The members that a record is written as, from what is written for
    /// each of its fields.
    pub open spec fn members(id: JsonTree, success: JsonTree) -> Seq<Member> {
        let members = Seq::empty();
        let members = with_field(members, "id"@, id);
        let members = with_field(members, "success"@, success);
        members
    }

    /// Each key leads to what was written under it, and to nothing where
    /// nothing was written.
    pub proof fn lemma_members(id: JsonTree, success: JsonTree)
        ensures
            ({
                let members = Self::members(id, success);
                &&& lookup(members, "id"@) == Some(id)
                &&& lookup(members, "success"@) == Some(success)
            }),
    {
        broadcast use group_written_members;

        reveal_strlit("id");
        reveal_strlit("success");
        assert("id"@.len() == 2);
        assert("success"@.len() == 7);
    }

    /// Every field is mandatory: each is written, in order, and nothing
    /// else.
    pub proof fn lemma_mandatory_fields_alone(id: JsonTree, success: JsonTree)
        ensures
            Self::members(id, success) == Seq::<Member>::empty()
                .push(("id"@, id))
                .push(("success"@, success)),
    {
        reveal(with_field);
        reveal(with_optional);
    }
}

impl Payload for DeleteCustomEmojiResponse {
    open spec fn tree(&self) -> JsonTree {
        JsonTree::Object(Self::members(self.id.tree(), self.success.tree()))
    }

    open spec fn admits(t: JsonTree) -> bool {
        &&& t is Object
        &&& required_admits::<i32>(t, "id"@)
        &&& required_admits::<bool>(t, "success"@)
    }

    open spec fn agrees(&self, t: JsonTree) -> bool {
        &&& required_agrees(self.id, t, "id"@)
        &&& required_agrees(self.success, t, "success"@)
    }

    fn to_json(&self) -> (out: JsonValue) {
        let mut members: Vec<(String, JsonValue)> = Vec::new();
        assert(members_view(members@) =~= Seq::empty());
        put(&mut members, "id", &self.id);
        put(&mut members, "success", &self.success);
        object(members)
    }

    fn from_json(v: &JsonValue) -> (res: Option<Self>) {
        if !v.is_object() {
            return None;
        }
        let id = required::<i32>(v, "id")?;
        let success = required::<bool>(v, "success")?;
        Some(DeleteCustomEmojiResponse { id, success })
    }

    proof fn lemma_round_trip(&self) {
        Self::lemma_members(self.id.tree(), self.success.tree());
        self.id.lemma_round_trip();
        self.success.lemma_round_trip();
    }

    proof fn lemma_reads_one(&self, other: &Self, t: JsonTree) {
        lemma_required_reads_one(self.id, other.id, t, "id"@);
        lemma_required_reads_one(self.success, other.success, t, "success"@);
    }
}

#[derive(Clone, Debug, PartialEq, Default)]
pub struct EditCustomEmoji {
    pub alt_text: String,
    pub auth: String,
    pub category: String,
    pub id: i32,
    pub image_url: String,
    pub keywords: Vec<String>,
}

impl EditCustomEmoji {
    /// The members that a record is written as, from what is written for
    /// each of its fields.
    pub open spec fn members(
        alt_text: JsonTree,
        auth: JsonTree,
        category: JsonTree,
        id: JsonTree,
        image_url: JsonTree,
        keywords: JsonTree,
    ) -> Seq<Member> {
        let members = Seq::empty();
        let members = with_field(members, "alt_text"@, alt_text);
        let members = with_field(members, "auth"@, auth);
        let members = with_field(members, "category"@, category);
        let members = with_field(members, "id"@, id);
        let members = with_field(members, "image_url"@, image_url);
        let members = with_field(members, "keywords"@, keywords);
        members
    }

    /// Each key leads to what was written under it, and to nothing where
    /// nothing was written.
    pub proof fn lemma_members(
        alt_text: JsonTree,
        auth: JsonTree,
        category: JsonTree,
        id: JsonTree,
        image_url: JsonTree,
        keywords: JsonTree,
    )
        ensures
            ({
                let members = Self::members(alt_text, auth, category, id, image_url, keywords);
                &&& lookup(members, "alt_text"@) == Some(alt_text)
                &&& lookup(members, "auth"@) == Some(auth)
                &&& lookup(members, "category"@) == Some(category)
                &&& lookup(members, "id"@) == Some(id)
                &&& lookup(members, "image_url"@) == Some(image_url)
                &&& lookup(members, "keywords"@) == Some(keywords)
            }),
    {
        broadcast use group_written_members;

        reveal_strlit("alt_text");
        reveal_strlit("auth");
        reveal_strlit("category");
        reveal_strlit("id");
        reveal_strlit("image_url");
        reveal_strlit("keywords");
        assert("alt_text"@.len() == 8 && "alt_text"@[0] == 'a');
        assert("auth"@.len() == 4);
        assert("category"@.len() == 8 && "category"@[0] == 'c');
        assert("id"@.len() == 2);
        assert("image_url"@.len() == 9);
        assert("keywords"@.len() == 8 && "keywords"@[0] == 'k');
    }

    /// Every field is mandatory: each is written, in order, and nothing
    /// else.
    pub proof fn lemma_mandatory_fields_alone(
        alt_text: JsonTree,
        auth: JsonTree,
        category: JsonTree,
        id: JsonTree,
        image_url: JsonTree,
        keywords: JsonTree,
    )
        ensures
            Self::members(
                alt_text,
                auth,
                category,
                id,
                image_url,
                keywords,
            ) == Seq::<Member>::empty()
                .push(("alt_text"@, alt_text))
                .push(("auth"@, auth))
                .push(("category"@, category))
                .push(("id"@, id))
                .push(("image_url"@, image_url))
                .push(("keywords"@, keywords)),
    {
        reveal(with_field);
        reveal(with_optional);
    }
}

impl Payload for EditCustomEmoji {
    open spec fn tree(&self) -> JsonTree {
        JsonTree::Object(
            Self::members(
                self.alt_text.tree(),
                self.auth.tree(),
                self.category.tree(),
                self.id.tree(),
                self.image_url.tree(),
                self.keywords.tree(),
            ),
        )
    }

    open spec fn admits(t: JsonTree) -> bool {
        &&& t is Object
        &&& required_admits::<String>(t, "alt_text"@)
        &&& required_admits::<String>(t, "auth"@)
        &&& required_admits::<String>(t, "category"@)
        &&& required_admits::<i32>(t, "id"@)
        &&& required_admits::<String>(t, "image_url"@)
        &&& required_admits::<Vec<String>>(t, "keywords"@)
    }

    open spec fn agrees(&self, t: JsonTree) -> bool {
        &&& required_agrees(self.alt_text, t, "alt_text"@)
        &&& required_agrees(self.auth, t, "auth"@)
        &&& required_agrees(self.category, t, "category"@)
        &&& required_agrees(self.id, t, "id"@)
        &&& required_agrees(self.image_url, t, "image_url"@)
        &&& required_agrees(self.keywords, t, "keywords"@)
    }

    fn to_json(&self) -> (out: JsonValue) {
        let mut members: Vec<(String, JsonValue)> = Vec::new();
        assert(members_view(members@) =~= Seq::empty());
        put(&mut members, "alt_text", &self.alt_text);
        put(&mut members, "auth", &self.auth);
        put(&mut members, "category", &self.category);
        put(&mut members, "id", &self.id);
        put(&mut members, "image_url", &self.image_url);
        put(&mut members, "keywords", &self.keywords);
        object(members)
    }

    fn from_json(v: &JsonValue) -> (res: Option<Self>) {
        if !v.is_object() {
            return None;
        }
        let alt_text = required::<String>(v, "alt_text")?;
        let auth = required::<String>(v, "auth")?;
        let category = required::<String>(v, "category")?;
        let id = required::<i32>(v, "id")?;
        let image_url = required::<String>(v, "image_url")?;
        let keywords = required::<Vec<String>>(v, "keywords")?;
        Some(EditCustomEmoji { alt_text, auth, category, id, image_url, keywords })
    }

    proof fn lemma_round_trip(&self) {
        Self::lemma_members(
            self.alt_text.tree(),
            self.auth.tree(),
            self.category.tree(),
            self.id.tree(),
            self.image_url.tree(),
            self.keywords.tree(),
        );
        self.alt_text.lemma_round_trip();
        self.auth.lemma_round_trip();
        self.category.lemma_round_trip();
        self.id.lemma_round_trip();
        self.image_url.lemma_round_trip();
        self.keywords.lemma_round_trip();
    }

    proof fn lemma_reads_one(&self, other: &Self, t: JsonTree) {
        lemma_required_reads_one(self.alt_text, other.alt_text, t, "alt_text"@);
        lemma_required_reads_one(self.auth, other.auth, t, "auth"@);
        lemma_required_reads_one(self.category, other.category, t, "category"@);
        lemma_required_reads_one(self.id, other.id, t, "id"@);
        lemma_required_reads_one(self.image_url, other.image_url, t, "image_url"@);
        lemma_required_reads_one(self.keywords, other.keywords, t, "keywords"@);
    }
}

#[derive(Clone, Debug, PartialEq, Default)]
pub struct EditSite {
    pub actor_name_max_length: Option<i32>,
    pub allowed_instances: Option<Vec<String>>,
    pub application_email_admins: Option<bool>,
    pub auth: String,
    pub banner: Option<String>,
    pub blocked_instances: Option<Vec<String>>,
    pub captcha_difficulty: Option<i32>,
    pub captcha_enabled: Option<bool>,
    pub community_creation_admin_only: Option<bool>,
    pub default_post_listing_type: Option<ListingType>,
    pub default_theme: Option<String>,
    pub description: Option<String>,
    pub discussion_languages: Option<Vec<i32>>,
    pub enable_downvotes: Option<bool>,
    pub enable_nsfw: Option<bool>,
    pub federation_debug: Option<bool>,
    pub federation_enabled: Option<bool>,
    pub hide_modlog_mod_names: Option<bool>,
    pub icon: Option<String>,
    pub legal_information: Option<String>,
    pub name: Option<String>,
    pub private_instance: Option<bool>,
    pub rate_limit_comments: Option<i32>,
    pub rate_limit_comment_per_second: Option<i32>,
    pub rate_limit_images: Option<i32>,
    pub rate_limit_image_per_second: Option<i32>,
    pub rate_limit_message: Option<i32>,
    pub rate_limit_message_per_second: Option<i32>,
    pub rate_limit_post: Option<i32>,
    pub rate_limit_post_per_second: Option<i32>,
    pub rate_limit_register: Option<i32>,
    pub rate_limit_register_per_second: Option<i32>,
    pub rate_limit_search: Option<i32>,
    pub rate_limit_search_per_second: Option<i32>,
    pub registration_mode: Option<RegistrationMode>,
    pub reports_email_admins: Option<bool>,
    pub require_email_verification: Option<bool>,
    pub sidebar: Option<String>,
    pub slur_filter_regex: Option<String>,
    pub taglines: Option<Vec<String>>,
}

impl EditSite {
    /// The members that a record is written as, from what is written for
    /// each of its fields.
    pub open spec fn members(
        actor_name_max_length: Option<JsonTree>,
        allowed_instances: Option<JsonTree>,
        application_email_admins: Option<JsonTree>,
        auth: JsonTree,
        banner: Option<JsonTree>,
        blocked_instances: Option<JsonTree>,
        captcha_difficulty: Option<JsonTree>,
        captcha_enabled: Option<JsonTree>,
        community_creation_admin_only: Option<JsonTree>,
        default_post_listing_type: Option<JsonTree>,
        default_theme: Option<JsonTree>,
        description: Option<JsonTree>,
        discussion_languages: Option<JsonTree>,
        enable_downvotes: Option<JsonTree>,
        enable_nsfw: Option<JsonTree>,
        federation_debug: Option<JsonTree>,
        federation_enabled: Option<JsonTree>,
        hide_modlog_mod_names: Option<JsonTree>,
        icon: Option<JsonTree>,
        legal_information: Option<JsonTree>,
        name: Option<JsonTree>,
        private_instance: Option<JsonTree>,
        rate_limit_comments: Option<JsonTree>,
        rate_limit_comment_per_second: Option<JsonTree>,
        rate_limit_images: Option<JsonTree>,
        rate_limit_image_per_second: Option<JsonTree>,
        rate_limit_message: Option<JsonTree>,
        rate_limit_message_per_second: Option<JsonTree>,
        rate_limit_post: Option<JsonTree>,
        rate_limit_post_per_second: Option<JsonTree>,
        rate_limit_register: Option<JsonTree>,
        rate_limit_register_per_second: Option<JsonTree>,
        rate_limit_search: Option<JsonTree>,
        rate_limit_search_per_second: Option<JsonTree>,
        registration_mode: Option<JsonTree>,
        reports_email_admins: Option<JsonTree>,
        require_email_verification: Option<JsonTree>,
        sidebar: Option<JsonTree>,
        slur_filter_regex: Option<JsonTree>,
        taglines: Option<JsonTree>,
    ) -> Seq<Member> {
        let members = Seq::empty();
        let members = with_optional(members, "actor_name_max_length"@, actor_name_max_length);
        let members = with_optional(members, "allowed_instances"@, allowed_instances);
        let members = with_optional(members, "application_email_admins"@, application_email_admins);
        let members = with_field(members, "auth"@, auth);
        let members = with_optional(members, "banner"@, banner);
        let members = with_optional(members, "blocked_instances"@, blocked_instances);
        let members = with_optional(members, "captcha_difficulty"@, captcha_difficulty);
        let members = with_optional(members, "captcha_enabled"@, captcha_enabled);
        let members = with_optional(
            members,
            "community_creation_admin_only"@,
            community_creation_admin_only,
        );
        let members = with_optional(
            members,
            "default_post_listing_type"@,
            default_post_listing_type,
        );
        let members = with_optional(members, "default_theme"@, default_theme);
        let members = with_optional(members, "description"@, description);
        let members = with_optional(members, "discussion_languages"@, discussion_languages);
        let members = with_optional(members, "enable_downvotes"@, enable_downvotes);
        let members = with_optional(members, "enable_nsfw"@, enable_nsfw);
        let members = with_optional(members, "federation_debug"@, federation_debug);
        let members = with_optional(members, "federation_enabled"@, federation_enabled);
        let members = with_optional(members, "hide_modlog_mod_names"@, hide_modlog_mod_names);
        let members = with_optional(members, "icon"@, icon);
        let members = with_optional(members, "legal_information"@, legal_information);
        let members = with_optional(members, "name"@, name);
        let members = with_optional(members, "private_instance"@, private_instance);
        let members = with_optional(members, "rate_limit_comments"@, rate_limit_comments);
        let members = with_optional(
            members,
            "rate_limit_comment_per_second"@,
            rate_limit_comment_per_second,
        );
        let members = with_optional(members, "rate_limit_images"@, rate_limit_images);
        let members = with_optional(
            members,
            "rate_limit_image_per_second"@,
            rate_limit_image_per_second,
        );
        let members = with_optional(members, "rate_limit_message"@, rate_limit_message);
        let members = with_optional(
            members,
            "rate_limit_message_per_second"@,
            rate_limit_message_per_second,
        );
        let members = with_optional(members, "rate_limit_post"@, rate_limit_post);
        let members = with_optional(
            members,
            "rate_limit_post_per_second"@,
            rate_limit_post_per_second,
        );
        let members = with_optional(members, "rate_limit_register"@, rate_limit_register);
        let members = with_optional(
            members,
            "rate_limit_register_per_second"@,
            rate_limit_register_per_second,
        );
        let members = with_optional(members, "rate_limit_search"@, rate_limit_search);
        let members = with_optional(
            members,
            "rate_limit_search_per_second"@,
            rate_limit_search_per_second,
        );
        let members = with_optional(members, "registration_mode"@, registration_mode);
        let members = with_optional(members, "reports_email_admins"@, reports_email_admins);
        let members = with_optional(
            members,
            "require_email_verification"@,
            require_email_verification,
        );
        let members = with_optional(members, "sidebar"@, sidebar);
        let members = with_optional(members, "slur_filter_regex"@, slur_filter_regex);
        let members = with_optional(members, "taglines"@, taglines);
        members
    }

    /// Each key leads to what was written under it, and to nothing where
    /// nothing was written.
    pub proof fn lemma_members(
        actor_name_max_length: Option<JsonTree>,
        allowed_instances: Option<JsonTree>,
        application_email_admins: Option<JsonTree>,
        auth: JsonTree,
        banner: Option<JsonTree>,
        blocked_instances: Option<JsonTree>,
        captcha_difficulty: Option<JsonTree>,
        captcha_enabled: Option<JsonTree>,
        community_creation_admin_only: Option<JsonTree>,
        default_post_listing_type: Option<JsonTree>,
        default_theme: Option<JsonTree>,
        description: Option<JsonTree>,
        discussion_languages: Option<JsonTree>,
        enable_downvotes: Option<JsonTree>,
        enable_nsfw: Option<JsonTree>,
        federation_debug: Option<JsonTree>,
        federation_enabled: Option<JsonTree>,
        hide_modlog_mod_names: Option<JsonTree>,
        icon: Option<JsonTree>,
        legal_information: Option<JsonTree>,
        name: Option<JsonTree>,
        private_instance: Option<JsonTree>,
        rate_limit_comments: Option<JsonTree>,
        rate_limit_comment_per_second: Option<JsonTree>,
        rate_limit_images: Option<JsonTree>,
        rate_limit_image_per_second: Option<JsonTree>,
        rate_limit_message: Option<JsonTree>,
        rate_limit_message_per_second: Option<JsonTree>,
        rate_limit_post: Option<JsonTree>,
        rate_limit_post_per_second: Option<JsonTree>,
        rate_limit_register: Option<JsonTree>,
        rate_limit_register_per_second: Option<JsonTree>,
        rate_limit_search: Option<JsonTree>,
        rate_limit_search_per_second: Option<JsonTree>,
        registration_mode: Option<JsonTree>,
        reports_email_admins: Option<JsonTree>,
        require_email_verification: Option<JsonTree>,
        sidebar: Option<JsonTree>,
        slur_filter_regex: Option<JsonTree>,
        taglines: Option<JsonTree>,
    )
        ensures
            ({
                let members = Self::members(
                    actor_name_max_length,
                    allowed_instances,
                    application_email_admins,
                    auth,
                    banner,
                    blocked_instances,
                    captcha_difficulty,
                    captcha_enabled,
                    community_creation_admin_only,
                    default_post_listing_type,
                    default_theme,
                    description,
                    discussion_languages,
                    enable_downvotes,
                    enable_nsfw,
                    federation_debug,
                    federation_enabled,
                    hide_modlog_mod_names,
                    icon,
                    legal_information,
                    name,
                    private_instance,
                    rate_limit_comments,
                    rate_limit_comment_per_second,
                    rate_limit_images,
                    rate_limit_image_per_second,
                    rate_limit_message,
                    rate_limit_message_per_second,
                    rate_limit_post,
                    rate_limit_post_per_second,
                    rate_limit_register,
                    rate_limit_register_per_second,
                    rate_limit_search,
                    rate_limit_search_per_second,
                    registration_mode,
                    reports_email_admins,
                    require_email_verification,
                    sidebar,
                    slur_filter_regex,
                    taglines,
                );
                &&& lookup(members, "actor_name_max_length"@) == actor_name_max_length
                &&& lookup(members, "allowed_instances"@) == allowed_instances
                &&& lookup(members, "application_email_admins"@) == application_email_admins
                &&& lookup(members, "auth"@) == Some(auth)
                &&& lookup(members, "banner"@) == banner
                &&& lookup(members, "blocked_instances"@) == blocked_instances
                &&& lookup(members, "captcha_difficulty"@) == captcha_difficulty
                &&& lookup(members, "captcha_enabled"@) == captcha_enabled
                &&& lookup(members, "community_creation_admin_only"@)
                    == community_creation_admin_only
                &&& lookup(members, "default_post_listing_type"@) == default_post_listing_type
                &&& lookup(members, "default_theme"@) == default_theme
                &&& lookup(members, "description"@) == description
                &&& lookup(members, "discussion_languages"@) == discussion_languages
                &&& lookup(members, "enable_downvotes"@) == enable_downvotes
                &&& lookup(members, "enable_nsfw"@) == enable_nsfw
                &&& lookup(members, "federation_debug"@) == federation_debug
                &&& lookup(members, "federation_enabled"@) == federation_enabled
                &&& lookup(members, "hide_modlog_mod_names"@) == hide_modlog_mod_names
                &&& lookup(members, "icon"@) == icon
                &&& lookup(members, "legal_information"@) == legal_information
                &&& lookup(members, "name"@) == name
                &&& lookup(members, "private_instance"@) == private_instance
                &&& lookup(members, "rate_limit_comments"@) == rate_limit_comments
                &&& lookup(members, "rate_limit_comment_per_second"@)
                    == rate_limit_comment_per_second
                &&& lookup(members, "rate_limit_images"@) == rate_limit_images
                &&& lookup(members, "rate_limit_image_per_second"@) == rate_limit_image_per_second
                &&& lookup(members, "rate_limit_message"@) == rate_limit_message
                &&& lookup(members, "rate_limit_message_per_second"@)
                    == rate_limit_message_per_second
                &&& lookup(members, "rate_limit_post"@) == rate_limit_post
                &&& lookup(members, "rate_limit_post_per_second"@) == rate_limit_post_per_second
                &&& lookup(members, "rate_limit_register"@) == rate_limit_register
                &&& lookup(members, "rate_limit_register_per_second"@)
                    == rate_limit_register_per_second
                &&& lookup(members, "rate_limit_search"@) == rate_limit_search
                &&& lookup(members, "rate_limit_search_per_second"@) == rate_limit_search_per_second
                &&& lookup(members, "registration_mode"@) == registration_mode
                &&& lookup(members, "reports_email_admins"@) == reports_email_admins
                &&& lookup(members, "require_email_verification"@) == require_email_verification
                &&& lookup(members, "sidebar"@) == sidebar
                &&& lookup(members, "slur_filter_regex"@) == slur_filter_regex
                &&& lookup(members, "taglines"@) == taglines
            }),
    {
        broadcast use group_written_members;

        reveal_strlit("actor_name_max_length");
        reveal_strlit("allowed_instances");
        reveal_strlit("application_email_admins");
        reveal_strlit("auth");
        reveal_strlit("banner");
        reveal_strlit("blocked_instances");
        reveal_strlit("captcha_difficulty");
        reveal_strlit("captcha_enabled");
        reveal_strlit("community_creation_admin_only");
        reveal_strlit("default_post_listing_type");
        reveal_strlit("default_theme");
        reveal_strlit("description");
        reveal_strlit("discussion_languages");
        reveal_strlit("enable_downvotes");
        reveal_strlit("enable_nsfw");
        reveal_strlit("federation_debug");
        reveal_strlit("federation_enabled");
        reveal_strlit("hide_modlog_mod_names");
        reveal_strlit("icon");
        reveal_strlit("legal_information");
        reveal_strlit("name");
        reveal_strlit("private_instance");
        reveal_strlit("rate_limit_comments");
        reveal_strlit("rate_limit_comment_per_second");
        reveal_strlit("rate_limit_images");
        reveal_strlit("rate_limit_image_per_second");
        reveal_strlit("rate_limit_message");
        reveal_strlit("rate_limit_message_per_second");
        reveal_strlit("rate_limit_post");
        reveal_strlit("rate_limit_post_per_second");
        reveal_strlit("rate_limit_register");
        reveal_strlit("rate_limit_register_per_second");
        reveal_strlit("rate_limit_search");
        reveal_strlit("rate_limit_search_per_second");
        reveal_strlit("registration_mode");
        reveal_strlit("reports_email_admins");
        reveal_strlit("require_email_verification");
        reveal_strlit("sidebar");
        reveal_strlit("slur_filter_regex");
        reveal_strlit("taglines");
        assert("actor_name_max_length"@.len() == 21 && "actor_name_max_length"@[0] == 'a');
        assert("allowed_instances"@.len() == 17 && "allowed_instances"@[0] == 'a');
        assert("application_email_admins"@.len() == 24);
        assert("auth"@.len() == 4 && "auth"@[0] == 'a');
        assert("banner"@.len() == 6);
        assert("blocked_instances"@.len() == 17 && "blocked_instances"@[0] == 'b');
        assert("captcha_difficulty"@.len() == 18 && "captcha_difficulty"@[0] == 'c');
        assert("captcha_enabled"@.len() == 15 && "captcha_enabled"@[0] == 'c');
        assert("community_creation_admin_only"@.len() == 29
            && "community_creation_admin_only"@[0] == 'c');
        assert("default_post_listing_type"@.len() == 25);
        assert("default_theme"@.len() == 13);
        assert("description"@.len() == 11 && "description"@[0] == 'd');
        assert("discussion_languages"@.len() == 20 && "discussion_languages"@[0] == 'd');
        assert("enable_downvotes"@.len() == 16 && "enable_downvotes"@[0] == 'e');
        assert("enable_nsfw"@.len() == 11 && "enable_nsfw"@[0] == 'e');
        assert("federation_debug"@.len() == 16 && "federation_debug"@[0] == 'f');
        assert("federation_enabled"@.len() == 18 && "federation_enabled"@[0] == 'f');
        assert("hide_modlog_mod_names"@.len() == 21 && "hide_modlog_mod_names"@[0] == 'h');
        assert("icon"@.len() == 4 && "icon"@[0] == 'i');
        assert("legal_information"@.len() == 17 && "legal_information"@[0] == 'l');
        assert("name"@.len() == 4 && "name"@[0] == 'n');
        assert("private_instance"@.len() == 16 && "private_instance"@[0] == 'p');
        assert("rate_limit_comments"@.len() == 19 && "rate_limit_comments"@[11] == 'c');
        assert("rate_limit_comment_per_second"@.len() == 29
            && "rate_limit_comment_per_second"@[0] == 'r'
            && "rate_limit_comment_per_second"@[11] == 'c');
        assert("rate_limit_images"@.len() == 17
            && "rate_limit_images"@[0] == 'r'
            && "rate_limit_images"@[1] == 'a'
            && "rate_limit_images"@[11] == 'i');
        assert("rate_limit_image_per_second"@.len() == 27);
        assert("rate_limit_message"@.len() == 18 && "rate_limit_message"@[0] == 'r');
        assert("rate_limit_message_per_second"@.len() == 29
            && "rate_limit_message_per_second"@[0] == 'r'
            && "rate_limit_message_per_second"@[11] == 'm');
        assert("rate_limit_post"@.len() == 15 && "rate_limit_post"@[0] == 'r');
        assert("rate_limit_post_per_second"@.len() == 26
            && "rate_limit_post_per_second"@[1] == 'a');
        assert("rate_limit_register"@.len() == 19 && "rate_limit_register"@[11] == 'r');
        assert("rate_limit_register_per_second"@.len() == 30);
        assert("rate_limit_search"@.len() == 17
            && "rate_limit_search"@[0] == 'r'
            && "rate_limit_search"@[1] == 'a'
            && "rate_limit_search"@[11] == 's');
        assert("rate_limit_search_per_second"@.len() == 28);
        assert("registration_mode"@.len() == 17
            && "registration_mode"@[0] == 'r'
            && "registration_mode"@[1] == 'e');
        assert("reports_email_admins"@.len() == 20 && "reports_email_admins"@[0] == 'r');
        assert("require_email_verification"@.len() == 26
            && "require_email_verification"@[1] == 'e');
        assert("sidebar"@.len() == 7);
        assert("slur_filter_regex"@.len() == 17 && "slur_filter_regex"@[0] == 's');
        assert("taglines"@.len() == 8);
    }

    /// With every optional field absent, the mandatory fields are written
    /// and nothing else.
    pub proof fn lemma_mandatory_fields_alone(auth: JsonTree)
        ensures
            Self::members(
                None,
                None,
                None,
                auth,
                None,
                None,
                None,
                None,
                None,
                None,
                None,
                None,
                None,
                None,
                None,
                None,
                None,
                None,
                None,
                None,
                None,
                None,
                None,
                None,
                None,
                None,
                None,
                None,
                None,
                None,
                None,
                None,
                None,
                None,
                None,
                None,
                None,
                None,
                None,
                None,
            ) == Seq::<Member>::empty()
                .push(("auth"@, auth)),
    {
        reveal(with_field);
        reveal(with_optional);
    }
}

impl Payload for EditSite {
    open spec fn tree(&self) -> JsonTree {
        JsonTree::Object(
            Self::members(
                written(self.actor_name_max_length),
                written(self.allowed_instances),
                written(self.application_email_admins),
                self.auth.tree(),
                written(self.banner),
                written(self.blocked_instances),
                written(self.captcha_difficulty),
                written(self.captcha_enabled),
                written(self.community_creation_admin_only),
                written(self.default_post_listing_type),
                written(self.default_theme),
                written(self.description),
                written(self.discussion_languages),
                written(self.enable_downvotes),
                written(self.enable_nsfw),
                written(self.federation_debug),
                written(self.federation_enabled),
                written(self.hide_modlog_mod_names),
                written(self.icon),
                written(self.legal_information),
                written(self.name),
                written(self.private_instance),
                written(self.rate_limit_comments),
                written(self.rate_limit_comment_per_second),
                written(self.rate_limit_images),
                written(self.rate_limit_image_per_second),
                written(self.rate_limit_message),
                written(self.rate_limit_message_per_second),
                written(self.rate_limit_post),
                written(self.rate_limit_post_per_second),
                written(self.rate_limit_register),
                written(self.rate_limit_register_per_second),
                written(self.rate_limit_search),
                written(self.rate_limit_search_per_second),
                written(self.registration_mode),
                written(self.reports_email_admins),
                written(self.require_email_verification),
                written(self.sidebar),
                written(self.slur_filter_regex),
                written(self.taglines),
            ),
        )
    }

    open spec fn admits(t: JsonTree) -> bool {
        &&& t is Object
        &&& optional_admits::<i32>(t, "actor_name_max_length"@)
        &&& optional_admits::<Vec<String>>(t, "allowed_instances"@)
        &&& optional_admits::<bool>(t, "application_email_admins"@)
        &&& required_admits::<String>(t, "auth"@)
        &&& optional_admits::<String>(t, "banner"@)
        &&& optional_admits::<Vec<String>>(t, "blocked_instances"@)
        &&& optional_admits::<i32>(t, "captcha_difficulty"@)
        &&& optional_admits::<bool>(t, "captcha_enabled"@)
        &&& optional_admits::<bool>(t, "community_creation_admin_only"@)
        &&& optional_admits::<ListingType>(t, "default_post_listing_type"@)
        &&& optional_admits::<String>(t, "default_theme"@)
        &&& optional_admits::<String>(t, "description"@)
        &&& optional_admits::<Vec<i32>>(t, "discussion_languages"@)
        &&& optional_admits::<bool>(t, "enable_downvotes"@)
        &&& optional_admits::<bool>(t, "enable_nsfw"@)
        &&& optional_admits::<bool>(t, "federation_debug"@)
        &&& optional_admits::<bool>(t, "federation_enabled"@)
        &&& optional_admits::<bool>(t, "hide_modlog_mod_names"@)
        &&& optional_admits::<String>(t, "icon"@)
        &&& optional_admits::<String>(t, "legal_information"@)
        &&& optional_admits::<String>(t, "name"@)
        &&& optional_admits::<bool>(t, "private_instance"@)
        &&& optional_admits::<i32>(t, "rate_limit_comments"@)
        &&& optional_admits::<i32>(t, "rate_limit_comment_per_second"@)
        &&& optional_admits::<i32>(t, "rate_limit_images"@)
        &&& optional_admits::<i32>(t, "rate_limit_image_per_second"@)
        &&& optional_admits::<i32>(t, "rate_limit_message"@)
        &&& optional_admits::<i32>(t, "rate_limit_message_per_second"@)
        &&& optional_admits::<i32>(t, "rate_limit_post"@)
        &&& optional_admits::<i32>(t, "rate_limit_post_per_second"@)
        &&& optional_admits::<i32>(t, "rate_limit_register"@)
        &&& optional_admits::<i32>(t, "rate_limit_register_per_second"@)
        &&& optional_admits::<i32>(t, "rate_limit_search"@)
        &&& optional_admits::<i32>(t, "rate_limit_search_per_second"@)
        &&& optional_admits::<RegistrationMode>(t, "registration_mode"@)
        &&& optional_admits::<bool>(t, "reports_email_admins"@)
        &&& optional_admits::<bool>(t, "require_email_verification"@)
        &&& optional_admits::<String>(t, "sidebar"@)
        &&& optional_admits::<String>(t, "slur_filter_regex"@)
        &&& optional_admits::<Vec<String>>(t, "taglines"@)
    }

    open spec fn agrees(&self, t: JsonTree) -> bool {
        &&& optional_agrees(self.actor_name_max_length, t, "actor_name_max_length"@)
        &&& optional_agrees(self.allowed_instances, t, "allowed_instances"@)
        &&& optional_agrees(self.application_email_admins, t, "application_email_admins"@)
        &&& required_agrees(self.auth, t, "auth"@)
        &&& optional_agrees(self.banner, t, "banner"@)
        &&& optional_agrees(self.blocked_instances, t, "blocked_instances"@)
        &&& optional_agrees(self.captcha_difficulty, t, "captcha_difficulty"@)
        &&& optional_agrees(self.captcha_enabled, t, "captcha_enabled"@)
        &&& optional_agrees(self.community_creation_admin_only, t, "community_creation_admin_only"@)
        &&& optional_agrees(self.default_post_listing_type, t, "default_post_listing_type"@)
        &&& optional_agrees(self.default_theme, t, "default_theme"@)
        &&& optional_agrees(self.description, t, "description"@)
        &&& optional_agrees(self.discussion_languages, t, "discussion_languages"@)
        &&& optional_agrees(self.enable_downvotes, t, "enable_downvotes"@)
        &&& optional_agrees(self.enable_nsfw, t, "enable_nsfw"@)
        &&& optional_agrees(self.federation_debug, t, "federation_debug"@)
        &&& optional_agrees(self.federation_enabled, t, "federation_enabled"@)
        &&& optional_agrees(self.hide_modlog_mod_names, t, "hide_modlog_mod_names"@)
        &&& optional_agrees(self.icon, t, "icon"@)
        &&& optional_agrees(self.legal_information, t, "legal_information"@)
        &&& optional_agrees(self.name, t, "name"@)
        &&& optional_agrees(self.private_instance, t, "private_instance"@)
        &&& optional_agrees(self.rate_limit_comments, t, "rate_limit_comments"@)
        &&& optional_agrees(self.rate_limit_comment_per_second, t, "rate_limit_comment_per_second"@)
        &&& optional_agrees(self.rate_limit_images, t, "rate_limit_images"@)
        &&& optional_agrees(self.rate_limit_image_per_second, t, "rate_limit_image_per_second"@)
        &&& optional_agrees(self.rate_limit_message, t, "rate_limit_message"@)
        &&& optional_agrees(self.rate_limit_message_per_second, t, "rate_limit_message_per_second"@)
        &&& optional_agrees(self.rate_limit_post, t, "rate_limit_post"@)
        &&& optional_agrees(self.rate_limit_post_per_second, t, "rate_limit_post_per_second"@)
        &&& optional_agrees(self.rate_limit_register, t, "rate_limit_register"@)
        &&& optional_agrees(
            self.rate_limit_register_per_second,
            t,
            "rate_limit_register_per_second"@,
        )
        &&& optional_agrees(self.rate_limit_search, t, "rate_limit_search"@)
        &&& optional_agrees(self.rate_limit_search_per_second, t, "rate_limit_search_per_second"@)
        &&& optional_agrees(self.registration_mode, t, "registration_mode"@)
        &&& optional_agrees(self.reports_email_admins, t, "reports_email_admins"@)
        &&& optional_agrees(self.require_email_verification, t, "require_email_verification"@)
        &&& optional_agrees(self.sidebar, t, "sidebar"@)
        &&& optional_agrees(self.slur_filter_regex, t, "slur_filter_regex"@)
        &&& optional_agrees(self.taglines, t, "taglines"@)
    }

    fn to_json(&self) -> (out: JsonValue) {
        let mut members: Vec<(String, JsonValue)> = Vec::new();
        assert(members_view(members@) =~= Seq::empty());
        put_optional(&mut members, "actor_name_max_length", &self.actor_name_max_length);
        put_optional(&mut members, "allowed_instances", &self.allowed_instances);
        put_optional(&mut members, "application_email_admins", &self.application_email_admins);
        put(&mut members, "auth", &self.auth);
        put_optional(&mut members, "banner", &self.banner);
        put_optional(&mut members, "blocked_instances", &self.blocked_instances);
        put_optional(&mut members, "captcha_difficulty", &self.captcha_difficulty);
        put_optional(&mut members, "captcha_enabled", &self.captcha_enabled);
        put_optional(
            &mut members,
            "community_creation_admin_only",
            &self.community_creation_admin_only,
        );
        put_optional(&mut members, "default_post_listing_type", &self.default_post_listing_type);
        put_optional(&mut members, "default_theme", &self.default_theme);
        put_optional(&mut members, "description", &self.description);
        put_optional(&mut members, "discussion_languages", &self.discussion_languages);
        put_optional(&mut members, "enable_downvotes", &self.enable_downvotes);
        put_optional(&mut members, "enable_nsfw", &self.enable_nsfw);
        put_optional(&mut members, "federation_debug", &self.federation_debug);
        put_optional(&mut members, "federation_enabled", &self.federation_enabled);
        put_optional(&mut members, "hide_modlog_mod_names", &self.hide_modlog_mod_names);
        put_optional(&mut members, "icon", &self.icon);
        put_optional(&mut members, "legal_information", &self.legal_information);
        put_optional(&mut members, "name", &self.name);
        put_optional(&mut members, "private_instance", &self.private_instance);
        put_optional(&mut members, "rate_limit_comments", &self.rate_limit_comments);
        put_optional(
            &mut members,
            "rate_limit_comment_per_second",
            &self.rate_limit_comment_per_second,
        );
        put_optional(&mut members, "rate_limit_images", &self.rate_limit_images);
        put_optional(
            &mut members,
            "rate_limit_image_per_second",
            &self.rate_limit_image_per_second,
        );
        put_optional(&mut members, "rate_limit_message", &self.rate_limit_message);
        put_optional(
            &mut members,
            "rate_limit_message_per_second",
            &self.rate_limit_message_per_second,
        );
        put_optional(&mut members, "rate_limit_post", &self.rate_limit_post);
        put_optional(&mut members, "rate_limit_post_per_second", &self.rate_limit_post_per_second);
        put_optional(&mut members, "rate_limit_register", &self.rate_limit_register);
        put_optional(
            &mut members,
            "rate_limit_register_per_second",
            &self.rate_limit_register_per_second,
        );
        put_optional(&mut members, "rate_limit_search", &self.rate_limit_search);
        put_optional(
            &mut members,
            "rate_limit_search_per_second",
            &self.rate_limit_search_per_second,
        );
        put_optional(&mut members, "registration_mode", &self.registration_mode);
        put_optional(&mut members, "reports_email_admins", &self.reports_email_admins);
        put_optional(&mut members, "require_email_verification", &self.require_email_verification);
        put_optional(&mut members, "sidebar", &self.sidebar);
        put_optional(&mut members, "slur_filter_regex", &self.slur_filter_regex);
        put_optional(&mut members, "taglines", &self.taglines);
        object(members)
    }

    fn from_json(v: &JsonValue) -> (res: Option<Self>) {
        if !v.is_object() {
            return None;
        }
        let actor_name_max_length = optional::<i32>(v, "actor_name_max_length")?;
        let allowed_instances = optional::<Vec<String>>(v, "allowed_instances")?;
        let application_email_admins = optional::<bool>(v, "application_email_admins")?;
        let auth = required::<String>(v, "auth")?;
        let banner = optional::<String>(v, "banner")?;
        let blocked_instances = optional::<Vec<String>>(v, "blocked_instances")?;
        let captcha_difficulty = optional::<i32>(v, "captcha_difficulty")?;
        let captcha_enabled = optional::<bool>(v, "captcha_enabled")?;
        let community_creation_admin_only = optional::<bool>(v, "community_creation_admin_only")?;
        let default_post_listing_type = optional::<ListingType>(v, "default_post_listing_type")?;
        let default_theme = optional::<String>(v, "default_theme")?;
        let description = optional::<String>(v, "description")?;
        let discussion_languages = optional::<Vec<i32>>(v, "discussion_languages")?;
        let enable_downvotes = optional::<bool>(v, "enable_downvotes")?;
        let enable_nsfw = optional::<bool>(v, "enable_nsfw")?;
        let federation_debug = optional::<bool>(v, "federation_debug")?;
        let federation_enabled = optional::<bool>(v, "federation_enabled")?;
        let hide_modlog_mod_names = optional::<bool>(v, "hide_modlog_mod_names")?;
        let icon = optional::<String>(v, "icon")?;
        let legal_information = optional::<String>(v, "legal_information")?;
        let name = optional::<String>(v, "name")?;
        let private_instance = optional::<bool>(v, "private_instance")?;
        let rate_limit_comments = optional::<i32>(v, "rate_limit_comments")?;
        let rate_limit_comment_per_second = optional::<i32>(v, "rate_limit_comment_per_second")?;
        let rate_limit_images = optional::<i32>(v, "rate_limit_images")?;
        let rate_limit_image_per_second = optional::<i32>(v, "rate_limit_image_per_second")?;
        let rate_limit_message = optional::<i32>(v, "rate_limit_message")?;
        let rate_limit_message_per_second = optional::<i32>(v, "rate_limit_message_per_second")?;
        let rate_limit_post = optional::<i32>(v, "rate_limit_post")?;
        let rate_limit_post_per_second = optional::<i32>(v, "rate_limit_post_per_second")?;
        let rate_limit_register = optional::<i32>(v, "rate_limit_register")?;
        let rate_limit_register_per_second = optional::<i32>(v, "rate_limit_register_per_second")?;
        let rate_limit_search = optional::<i32>(v, "rate_limit_search")?;
        let rate_limit_search_per_second = optional::<i32>(v, "rate_limit_search_per_second")?;
        let registration_mode = optional::<RegistrationMode>(v, "registration_mode")?;
        let reports_email_admins = optional::<bool>(v, "reports_email_admins")?;
        let require_email_verification = optional::<bool>(v, "require_email_verification")?;
        let sidebar = optional::<String>(v, "sidebar")?;
        let slur_filter_regex = optional::<String>(v, "slur_filter_regex")?;
        let taglines = optional::<Vec<String>>(v, "taglines")?;
        Some(
            EditSite {
                actor_name_max_length,
                allowed_instances,
                application_email_admins,
                auth,
                banner,
                blocked_instances,
                captcha_difficulty,
                captcha_enabled,
                community_creation_admin_only,
                default_post_listing_type,
                default_theme,
                description,
                discussion_languages,
                enable_downvotes,
                enable_nsfw,
                federation_debug,
                federation_enabled,
                hide_modlog_mod_names,
                icon,
                legal_information,
                name,
                private_instance,
                rate_limit_comments,
                rate_limit_comment_per_second,
                rate_limit_images,
                rate_limit_image_per_second,
                rate_limit_message,
                rate_limit_message_per_second,
                rate_limit_post,
                rate_limit_post_per_second,
                rate_limit_register,
                rate_limit_register_per_second,
                rate_limit_search,
                rate_limit_search_per_second,
                registration_mode,
                reports_email_admins,
                require_email_verification,
                sidebar,
                slur_filter_regex,
                taglines,
            },
        )
    }

    proof fn lemma_round_trip(&self) {
        Self::lemma_members(
            written(self.actor_name_max_length),
            written(self.allowed_instances),
            written(self.application_email_admins),
            self.auth.tree(),
            written(self.banner),
            written(self.blocked_instances),
            written(self.captcha_difficulty),
            written(self.captcha_enabled),
            written(self.community_creation_admin_only),
            written(self.default_post_listing_type),
            written(self.default_theme),
            written(self.description),
            written(self.discussion_languages),
            written(self.enable_downvotes),
            written(self.enable_nsfw),
            written(self.federation_debug),
            written(self.federation_enabled),
            written(self.hide_modlog_mod_names),
            written(self.icon),
            written(self.legal_information),
            written(self.name),
            written(self.private_instance),
            written(self.rate_limit_comments),
            written(self.rate_limit_comment_per_second),
            written(self.rate_limit_images),
            written(self.rate_limit_image_per_second),
            written(self.rate_limit_message),
            written(self.rate_limit_message_per_second),
            written(self.rate_limit_post),
            written(self.rate_limit_post_per_second),
            written(self.rate_limit_register),
            written(self.rate_limit_register_per_second),
            written(self.rate_limit_search),
            written(self.rate_limit_search_per_second),
            written(self.registration_mode),
            written(self.reports_email_admins),
            written(self.require_email_verification),
            written(self.sidebar),
            written(self.slur_filter_regex),
            written(self.taglines),
        );
        lemma_optional_round_trip(self.actor_name_max_length);
        lemma_optional_round_trip(self.allowed_instances);
        lemma_optional_round_trip(self.application_email_admins);
        self.auth.lemma_round_trip();
        lemma_optional_round_trip(self.banner);
        lemma_optional_round_trip(self.blocked_instances);
        lemma_optional_round_trip(self.captcha_difficulty);
        lemma_optional_round_trip(self.captcha_enabled);
        lemma_optional_round_trip(self.community_creation_admin_only);
        lemma_optional_round_trip(self.default_post_listing_type);
        lemma_optional_round_trip(self.default_theme);
        lemma_optional_round_trip(self.description);
        lemma_optional_round_trip(self.discussion_languages);
        lemma_optional_round_trip(self.enable_downvotes);
        lemma_optional_round_trip(self.enable_nsfw);
        lemma_optional_round_trip(self.federation_debug);
        lemma_optional_round_trip(self.federation_enabled);
        lemma_optional_round_trip(self.hide_modlog_mod_names);
        lemma_optional_round_trip(self.icon);
        lemma_optional_round_trip(self.legal_information);
        lemma_optional_round_trip(self.name);
        lemma_optional_round_trip(self.private_instance);
        lemma_optional_round_trip(self.rate_limit_comments);
        lemma_optional_round_trip(self.rate_limit_comment_per_second);
        lemma_optional_round_trip(self.rate_limit_images);
        lemma_optional_round_trip(self.rate_limit_image_per_second);
        lemma_optional_round_trip(self.rate_limit_message);
        lemma_optional_round_trip(self.rate_limit_message_per_second);
        lemma_optional_round_trip(self.rate_limit_post);
        lemma_optional_round_trip(self.rate_limit_post_per_second);
        lemma_optional_round_trip(self.rate_limit_register);
        lemma_optional_round_trip(self.rate_limit_register_per_second);
        lemma_optional_round_trip(self.rate_limit_search);
        lemma_optional_round_trip(self.rate_limit_search_per_second);
        lemma_optional_round_trip(self.registration_mode);
        lemma_optional_round_trip(self.reports_email_admins);
        lemma_optional_round_trip(self.require_email_verification);
        lemma_optional_round_trip(self.sidebar);
        lemma_optional_round_trip(self.slur_filter_regex);
        lemma_optional_round_trip(self.taglines);
    }

    proof fn lemma_reads_one(&self, other: &Self, t: JsonTree) {
        lemma_optional_reads_one(
            self.actor_name_max_length,
            other.actor_name_max_length,
            t,
            "actor_name_max_length"@,
        );
        lemma_optional_reads_one(
            self.allowed_instances,
            other.allowed_instances,
            t,
            "allowed_instances"@,
        );
        lemma_optional_reads_one(
            self.application_email_admins,
            other.application_email_admins,
            t,
            "application_email_admins"@,
        );
        lemma_required_reads_one(self.auth, other.auth, t, "auth"@);
        lemma_optional_reads_one(self.banner, other.banner, t, "banner"@);
        lemma_optional_reads_one(
            self.blocked_instances,
            other.blocked_instances,
            t,
            "blocked_instances"@,
        );
        lemma_optional_reads_one(
            self.captcha_difficulty,
            other.captcha_difficulty,
            t,
            "captcha_difficulty"@,
        );
        lemma_optional_reads_one(
            self.captcha_enabled,
            other.captcha_enabled,
            t,
            "captcha_enabled"@,
        );
        lemma_optional_reads_one(
            self.community_creation_admin_only,
            other.community_creation_admin_only,
            t,
            "community_creation_admin_only"@,
        );
        lemma_optional_reads_one(
            self.default_post_listing_type,
            other.default_post_listing_type,
            t,
            "default_post_listing_type"@,
        );
        lemma_optional_reads_one(self.default_theme, other.default_theme, t, "default_theme"@);
        lemma_optional_reads_one(self.description, other.description, t, "description"@);
        lemma_optional_reads_one(
            self.discussion_languages,
            other.discussion_languages,
            t,
            "discussion_languages"@,
        );
        lemma_optional_reads_one(
            self.enable_downvotes,
            other.enable_downvotes,
            t,
            "enable_downvotes"@,
        );
        lemma_optional_reads_one(self.enable_nsfw, other.enable_nsfw, t, "enable_nsfw"@);
        lemma_optional_reads_one(
            self.federation_debug,
            other.federation_debug,
            t,
            "federation_debug"@,
        );
        lemma_optional_reads_one(
            self.federation_enabled,
            other.federation_enabled,
            t,
            "federation_enabled"@,
        );
        lemma_optional_reads_one(
            self.hide_modlog_mod_names,
            other.hide_modlog_mod_names,
            t,
            "hide_modlog_mod_names"@,
        );
        lemma_optional_reads_one(self.icon, other.icon, t, "icon"@);
        lemma_optional_reads_one(
            self.legal_information,
            other.legal_information,
            t,
            "legal_information"@,
        );
        lemma_optional_reads_one(self.name, other.name, t, "name"@);
        lemma_optional_reads_one(
            self.private_instance,
            other.private_instance,
            t,
            "private_instance"@,
        );
        lemma_optional_reads_one(
            self.rate_limit_comments,
            other.rate_limit_comments,
            t,
            "rate_limit_comments"@,
        );
        lemma_optional_reads_one(
            self.rate_limit_comment_per_second,
            other.rate_limit_comment_per_second,
            t,
            "rate_limit_comment_per_second"@,
        );
        lemma_optional_reads_one(
            self.rate_limit_images,
            other.rate_limit_images,
            t,
            "rate_limit_images"@,
        );
        lemma_optional_reads_one(
            self.rate_limit_image_per_second,
            other.rate_limit_image_per_second,
            t,
            "rate_limit_image_per_second"@,
        );
        lemma_optional_reads_one(
            self.rate_limit_message,
            other.rate_limit_message,
            t,
            "rate_limit_message"@,
        );
        lemma_optional_reads_one(
            self.rate_limit_message_per_second,
            other.rate_limit_message_per_second,
            t,
            "rate_limit_message_per_second"@,
        );
        lemma_optional_reads_one(
            self.rate_limit_post,
            other.rate_limit_post,
            t,
            "rate_limit_post"@,
        );
        lemma_optional_reads_one(
            self.rate_limit_post_per_second,
            other.rate_limit_post_per_second,
            t,
            "rate_limit_post_per_second"@,
        );
        lemma_optional_reads_one(
            self.rate_limit_register,
            other.rate_limit_register,
            t,
            "rate_limit_register"@,
        );
        lemma_optional_reads_one(
            self.rate_limit_register_per_second,
            other.rate_limit_register_per_second,
            t,
            "rate_limit_register_per_second"@,
        );
        lemma_optional_reads_one(
            self.rate_limit_search,
            other.rate_limit_search,
            t,
            "rate_limit_search"@,
        );
        lemma_optional_reads_one(
            self.rate_limit_search_per_second,
            other.rate_limit_search_per_second,
            t,
            "rate_limit_search_per_second"@,
        );
        lemma_optional_reads_one(
            self.registration_mode,
            other.registration_mode,
            t,
            "registration_mode"@,
        );
        lemma_optional_reads_one(
            self.reports_email_admins,
            other.reports_email_admins,
            t,
            "reports_email_admins"@,
        );
        lemma_optional_reads_one(
            self.require_email_verification,
            other.require_email_verification,
            t,
            "require_email_verification"@,
        );
        lemma_optional_reads_one(self.sidebar, other.sidebar, t, "sidebar"@);
        lemma_optional_reads_one(
            self.slur_filter_regex,
            other.slur_filter_regex,
            t,
            "slur_filter_regex"@,
        );
        lemma_optional_reads_one(self.taglines, other.taglines, t, "taglines"@);
    }
}

#[derive(Clone, Debug, PartialEq, Default)]
pub struct FederatedInstances {
    pub allowed: Vec<Instance>,
    pub blocked: Vec<Instance>,
    pub linked: Vec<Instance>,
}

impl FederatedInstances {
    /// The members that a record is written as, from what is written for
    /// each of its fields.
    pub open spec fn members(
        allowed: JsonTree,
        blocked: JsonTree,
        linked: JsonTree,
    ) -> Seq<Member> {
        let members = Seq::empty();
        let members = with_field(members, "allowed"@, allowed);
        let members = with_field(members, "blocked"@, blocked);
        let members = with_field(members, "linked"@, linked);
        members
    }

    /// Each key leads to what was written under it, and to nothing where
    /// nothing was written.
    pub proof fn lemma_members(allowed: JsonTree, blocked: JsonTree, linked: JsonTree)
        ensures
            ({
                let members = Self::members(allowed, blocked, linked);
                &&& lookup(members, "allowed"@) == Some(allowed)
                &&& lookup(members, "blocked"@) == Some(blocked)
                &&& lookup(members, "linked"@) == Some(linked)
            }),
    {
        broadcast use group_written_members;

        reveal_strlit("allowed");
        reveal_strlit("blocked");
        reveal_strlit("linked");
        assert("allowed"@.len() == 7 && "allowed"@[0] == 'a');
        assert("blocked"@.len() == 7 && "blocked"@[0] == 'b');
        assert("linked"@.len() == 6);
    }

    /// Every field is mandatory: each is written, in order, and nothing
    /// else.
    pub proof fn lemma_mandatory_fields_alone(
        allowed: JsonTree,
        blocked: JsonTree,
        linked: JsonTree,
    )
        ensures
            Self::members(allowed, blocked, linked) == Seq::<Member>::empty()
                .push(("allowed"@, allowed))
                .push(("blocked"@, blocked))
                .push(("linked"@, linked)),
    {
        reveal(with_field);
        reveal(with_optional);
    }
}

impl Payload for FederatedInstances {
    open spec fn tree(&self) -> JsonTree {
        JsonTree::Object(
            Self::members(self.allowed.tree(), self.blocked.tree(), self.linked.tree()),
        )
    }

    open spec fn admits(t: JsonTree) -> bool {
        &&& t is Object
        &&& required_admits::<Vec<Instance>>(t, "allowed"@)
        &&& required_admits::<Vec<Instance>>(t, "blocked"@)
        &&& required_admits::<Vec<Instance>>(t, "linked"@)
    }

    open spec fn agrees(&self, t: JsonTree) -> bool {
        &&& required_agrees(self.allowed, t, "allowed"@)
        &&& required_agrees(self.blocked, t, "blocked"@)
        &&& required_agrees(self.linked, t, "linked"@)
    }

    fn to_json(&self) -> (out: JsonValue) {
        let mut members: Vec<(String, JsonValue)> = Vec::new();
        assert(members_view(members@) =~= Seq::empty());
        put(&mut members, "allowed", &self.allowed);
        put(&mut members, "blocked", &self.blocked);
        put(&mut members, "linked", &self.linked);
        object(members)
    }

    fn from_json(v: &JsonValue) -> (res: Option<Self>) {
        if !v.is_object() {
            return None;
        }
        let allowed = required::<Vec<Instance>>(v, "allowed")?;
        let blocked = required::<Vec<Instance>>(v, "blocked")?;
        let linked = required::<Vec<Instance>>(v, "linked")?;
        Some(FederatedInstances { allowed, blocked, linked })
    }

    proof fn lemma_round_trip(&self) {
        Self::lemma_members(self.allowed.tree(), self.blocked.tree(), self.linked.tree());
        self.allowed.lemma_round_trip();
        self.blocked.lemma_round_trip();
        self.linked.lemma_round_trip();
    }

    proof fn lemma_reads_one(&self, other: &Self, t: JsonTree) {
        lemma_required_reads_one(self.allowed, other.allowed, t, "allowed"@);
        lemma_required_reads_one(self.blocked, other.blocked, t, "blocked"@);
        lemma_required_reads_one(self.linked, other.linked, t, "linked"@);
    }
}

#[derive(Clone, Debug, PartialEq, Default)]
pub struct GetFederatedInstances {
    pub auth: Option<String>,
}

impl GetFederatedInstances {
    /// The members that a record is written as, from what is written for
    /// each of its fields.
    pub open spec fn members(auth: Option<JsonTree>) -> Seq<Member> {
        let members = Seq::empty();
        let members = with_optional(members, "auth"@, auth);
        members
    }

    /// Each key leads to what was written under it, and to nothing where
    /// nothing was written.
    pub proof fn lemma_members(auth: Option<JsonTree>)
        ensures
            ({
                let members = Self::members(auth);
                &&& lookup(members, "auth"@) == auth
            }),
    {
        broadcast use group_written_members;

        reveal_strlit("auth");
        assert("auth"@.len() == 4);
    }

    /// With every field absent, nothing is written.
    pub proof fn lemma_mandatory_fields_alone()
        ensures
            Self::members(None) == Seq::<Member>::empty(),
    {
        reveal(with_field);
        reveal(with_optional);
    }
}

impl Payload for GetFederatedInstances {
    open spec fn tree(&self) -> JsonTree {
        JsonTree::Object(Self::members(written(self.auth)))
    }

    open spec fn admits(t: JsonTree) -> bool {
        &&& t is Object
        &&& optional_admits::<String>(t, "auth"@)
    }

    open spec fn agrees(&self, t: JsonTree) -> bool {
        &&& optional_agrees(self.auth, t, "auth"@)
    }

    fn to_json(&self) -> (out: JsonValue) {
        let mut members: Vec<(String, JsonValue)> = Vec::new();
        assert(members_view(members@) =~= Seq::empty());
        put_optional(&mut members, "auth", &self.auth);
        object(members)
    }

    fn from_json(v: &JsonValue) -> (res: Option<Self>) {
        if !v.is_object() {
            return None;
        }
        let auth = optional::<String>(v, "auth")?;
        Some(GetFederatedInstances { auth })
    }

    proof fn lemma_round_trip(&self) {
        Self::lemma_members(written(self.auth));
        lemma_optional_round_trip(self.auth);
    }

    proof fn lemma_reads_one(&self, other: &Self, t: JsonTree) {
        lemma_optional_reads_one(self.auth, other.auth, t, "auth"@);
    }
}

#[derive(Clone, Debug, PartialEq, Default)]
pub struct GetFederatedInstancesResponse {
    pub federated_instances: Option<FederatedInstances>,
}

impl GetFederatedInstancesResponse {
    /// The members that a record is written as, from what is written for
    /// each of its fields.
    pub open spec fn members(federated_instances: Option<JsonTree>) -> Seq<Member> {
        let members = Seq::empty();
        let members = with_optional(members, "federated_instances"@, federated_instances);
        members
    }

    /// Each key leads to what was written under it, and to nothing where
    /// nothing was written.
    pub proof fn lemma_members(federated_instances: Option<JsonTree>)
        ensures
            ({
                let members = Self::members(federated_instances);
                &&& lookup(members, "federated_instances"@) == federated_instances
            }),
    {
        broadcast use group_written_members;

        reveal_strlit("federated_instances");
        assert("federated_instances"@.len() == 19);
    }

    /// With every field absent, nothing is written.
    pub proof fn lemma_mandatory_fields_alone()
        ensures
            Self::members(None) == Seq::<Member>::empty(),
    {
        reveal(with_field);
        reveal(with_optional);
    }
}

impl Payload for GetFederatedInstancesResponse {
    open spec fn tree(&self) -> JsonTree {
        JsonTree::Object(Self::members(written(self.federated_instances)))
    }

    open spec fn admits(t: JsonTree) -> bool {
        &&& t is Object
        &&& optional_admits::<FederatedInstances>(t, "federated_instances"@)
    }

    open spec fn agrees(&self, t: JsonTree) -> bool {
        &&& optional_agrees(self.federated_instances, t, "federated_instances"@)
    }

    fn to_json(&self) -> (out: JsonValue) {
        let mut members: Vec<(String, JsonValue)> = Vec::new();
        assert(members_view(members@) =~= Seq::empty());
        put_optional(&mut members, "federated_instances", &self.federated_instances);
        object(members)
    }

    fn from_json(v: &JsonValue) -> (res: Option<Self>) {
        if !v.is_object() {
            return None;
        }
        let federated_instances = optional::<FederatedInstances>(v, "federated_instances")?;
        Some(GetFederatedInstancesResponse { federated_instances })
    }

    proof fn lemma_round_trip(&self) {
        Self::lemma_members(written(self.federated_instances));
        lemma_optional_round_trip(self.federated_instances);
    }

    proof fn lemma_reads_one(&self, other: &Self, t: JsonTree) {
        lemma_optional_reads_one(
            self.federated_instances,
            other.federated_instances,
            t,
            "federated_instances"@,
        );
    }
}

#[derive(Clone, Debug, PartialEq, Default)]
pub struct GetSite {
    pub auth: Option<String>,
}

impl GetSite {
    /// The members that a record is written as, from what is written for
    /// each of its fields.
    pub open spec fn members(auth: Option<JsonTree>) -> Seq<Member> {
        let members = Seq::empty();
        let members = with_optional(members, "auth"@, auth);
        members
    }

    /// Each key leads to what was written under it, and to nothing where
    /// nothing was written.
    pub proof fn lemma_members(auth: Option<JsonTree>)
        ensures
            ({
                let members = Self::members(auth);
                &&& lookup(members, "auth"@) == auth
            }),
    {
        broadcast use group_written_members;

        reveal_strlit("auth");
        assert("auth"@.len() == 4);
    }

    /// With every field absent, nothing is written.
    pub proof fn lemma_mandatory_fields_alone()
        ensures
            Self::members(None) == Seq::<Member>::empty(),
    {
        reveal(with_field);
        reveal(with_optional);
    }
}

impl Payload for GetSite {
    open spec fn tree(&self) -> JsonTree {
        JsonTree::Object(Self::members(written(self.auth)))
    }

    open spec fn admits(t: JsonTree) -> bool {
        &&& t is Object
        &&& optional_admits::<String>(t, "auth"@)
    }

    open spec fn agrees(&self, t: JsonTree) -> bool {
        &&& optional_agrees(self.auth, t, "auth"@)
    }

    fn to_json(&self) -> (out: JsonValue) {
        let mut members: Vec<(String, JsonValue)> = Vec::new();
        assert(members_view(members@) =~= Seq::empty());
        put_optional(&mut members, "auth", &self.auth);
        object(members)
    }

    fn from_json(v: &JsonValue) -> (res: Option<Self>) {
        if !v.is_object() {
            return None;
        }
        let auth = optional::<String>(v, "auth")?;
        Some(GetSite { auth })
    }

    proof fn lemma_round_trip(&self) {
        Self::lemma_members(written(self.auth));
        lemma_optional_round_trip(self.auth);
    }

    proof fn lemma_reads_one(&self, other: &Self, t: JsonTree) {
        lemma_optional_reads_one(self.auth, other.auth, t, "auth"@);
    }
}

#[derive(Clone, Debug, PartialEq, Default)]
pub struct GetSiteMetadata {
    pub url: String,
}

impl GetSiteMetadata {
    /// The members that a record is written as, from what is written for
    /// each of its fields.
    pub open spec fn members(url: JsonTree) -> Seq<Member> {
        let members = Seq::empty();
        let members = with_field(members, "url"@, url);
        members
    }

    /// Each key leads to what was written under it, and to nothing where
    /// nothing was written.
    pub proof fn lemma_members(url: JsonTree)
        ensures
            ({
                let members = Self::members(url);
                &&& lookup(members, "url"@) == Some(url)
            }),
    {
        broadcast use group_written_members;

        reveal_strlit("url");
        assert("url"@.len() == 3);
    }

    /// Every field is mandatory: each is written, in order, and nothing
    /// else.
    pub proof fn lemma_mandatory_fields_alone(url: JsonTree)
        ensures
            Self::members(url) == Seq::<Member>::empty()
                .push(("url"@, url)),
    {
        reveal(with_field);
        reveal(with_optional);
    }
}

impl Payload for GetSiteMetadata {
    open spec fn tree(&self) -> JsonTree {
        JsonTree::Object(Self::members(self.url.tree()))
    }

    open spec fn admits(t: JsonTree) -> bool {
        &&& t is Object
        &&& required_admits::<String>(t, "url"@)
    }

    open spec fn agrees(&self, t: JsonTree) -> bool {
        &&& required_agrees(self.url, t, "url"@)
    }

    fn to_json(&self) -> (out: JsonValue) {
        let mut members: Vec<(String, JsonValue)> = Vec::new();
        assert(members_view(members@) =~= Seq::empty());
        put(&mut members, "url", &self.url);
        object(members)
    }

    fn from_json(v: &JsonValue) -> (res: Option<Self>) {
        if !v.is_object() {
            return None;
        }
        let url = required::<String>(v, "url")?;
        Some(GetSiteMetadata { url })
    }

    proof fn lemma_round_trip(&self) {
        Self::lemma_members(self.url.tree());
        self.url.lemma_round_trip();
    }

    proof fn lemma_reads_one(&self, other: &Self, t: JsonTree) {
        lemma_required_reads_one(self.url, other.url, t, "url"@);
    }
}

#[derive(Clone, Debug, PartialEq, Default)]
pub struct GetSiteMetadataResponse {
    pub metadata: SiteMetadata,
}

impl GetSiteMetadataResponse {
    /// The members that a record is written as, from what is written for
    /// each of its fields.
    pub open spec fn members(metadata: JsonTree) -> Seq<Member> {
        let members = Seq::empty();
        let members = with_field(members, "metadata"@, metadata);
        members
    }

    /// Each key leads to what was written under it, and to nothing where
    /// nothing was written.
    pub proof fn lemma_members(metadata: JsonTree)
        ensures
            ({
                let members = Self::members(metadata);
                &&& lookup(members, "metadata"@) == Some(metadata)
            }),
    {
        broadcast use group_written_members;

        reveal_strlit("metadata");
        assert("metadata"@.len() == 8);
    }

    /// Every field is mandatory: each is written, in order, and nothing
    /// else.
    pub proof fn lemma_mandatory_fields_alone(metadata: JsonTree)
        ensures
            Self::members(metadata) == Seq::<Member>::empty()
                .push(("metadata"@, metadata)),
    {
        reveal(with_field);
        reveal(with_optional);
    }
}

impl Payload for GetSiteMetadataResponse {
    open spec fn tree(&self) -> JsonTree {
        JsonTree::Object(Self::members(self.metadata.tree()))
    }

    open spec fn admits(t: JsonTree) -> bool {
        &&& t is Object
        &&& required_admits::<SiteMetadata>(t, "metadata"@)
    }

    open spec fn agrees(&self, t: JsonTree) -> bool {
        &&& required_agrees(self.metadata, t, "metadata"@)
    }

    fn to_json(&self) -> (out: JsonValue) {
        let mut members: Vec<(String, JsonValue)> = Vec::new();
        assert(members_view(members@) =~= Seq::empty());
        put(&mut members, "metadata", &self.metadata);
        object(members)
    }

    fn from_json(v: &JsonValue) -> (res: Option<Self>) {
        if !v.is_object() {
            return None;
        }
        let metadata = required::<SiteMetadata>(v, "metadata")?;
        Some(GetSiteMetadataResponse { metadata })
    }

    proof fn lemma_round_trip(&self) {
        Self::lemma_members(self.metadata.tree());
        self.metadata.lemma_round_trip();
    }

    proof fn lemma_reads_one(&self, other: &Self, t: JsonTree) {
        lemma_required_reads_one(self.metadata, other.metadata, t, "metadata"@);
    }
}

#[derive(Clone, Debug, PartialEq, Default)]
pub struct GetSiteResponse {
    pub admins: Vec<PersonView>,
    pub all_languages: Vec<Language>,
    pub custom_emojis: Vec<CustomEmojiView>,
    pub discussion_languages: Vec<i32>,
    pub my_user: Option<MyUserInfo>,
    pub site_view: SiteView,
    pub taglines: Vec<Tagline>,
    pub version: String,
}

impl GetSiteResponse {
    /// The members that a record is written as, from what is written for
    /// each of its fields.
    pub open spec fn members(
        admins: JsonTree,
        all_languages: JsonTree,
        custom_emojis: JsonTree,
        discussion_languages: JsonTree,
        my_user: Option<JsonTree>,
        site_view: JsonTree,
        taglines: JsonTree,
        version: JsonTree,
    ) -> Seq<Member> {
        let members = Seq::empty();
        let members = with_field(members, "admins"@, admins);
        let members = with_field(members, "all_languages"@, all_languages);
        let members = with_field(members, "custom_emojis"@, custom_emojis);
        let members = with_field(members, "discussion_languages"@, discussion_languages);
        let members = with_optional(members, "my_user"@, my_user);
        let members = with_field(members, "site_view"@, site_view);
        let members = with_field(members, "taglines"@, taglines);
        let members = with_field(members, "version"@, version);
        members
    }

    /// Each key leads to what was written under it, and to nothing where
    /// nothing was written.
    pub proof fn lemma_members(
        admins: JsonTree,
        all_languages: JsonTree,
        custom_emojis: JsonTree,
        discussion_languages: JsonTree,
        my_user: Option<JsonTree>,
        site_view: JsonTree,
        taglines: JsonTree,
        version: JsonTree,
    )
        ensures
            ({
                let members = Self::members(
                    admins,
                    all_languages,
                    custom_emojis,
                    discussion_languages,
                    my_user,
                    site_view,
                    taglines,
                    version,
                );
                &&& lookup(members, "admins"@) == Some(admins)
                &&& lookup(members, "all_languages"@) == Some(all_languages)
                &&& lookup(members, "custom_emojis"@) == Some(custom_emojis)
                &&& lookup(members, "discussion_languages"@) == Some(discussion_languages)
                &&& lookup(members, "my_user"@) == my_user
                &&& lookup(members, "site_view"@) == Some(site_view)
                &&& lookup(members, "taglines"@) == Some(taglines)
                &&& lookup(members, "version"@) == Some(version)
            }),
    {
        broadcast use group_written_members;

        reveal_strlit("admins");
        reveal_strlit("all_languages");
        reveal_strlit("custom_emojis");
        reveal_strlit("discussion_languages");
        reveal_strlit("my_user");
        reveal_strlit("site_view");
        reveal_strlit("taglines");
        reveal_strlit("version");
        assert("admins"@.len() == 6);
        assert("all_languages"@.len() == 13 && "all_languages"@[0] == 'a');
        assert("custom_emojis"@.len() == 13 && "custom_emojis"@[0] == 'c');
        assert("discussion_languages"@.len() == 20);
        assert("my_user"@.len() == 7 && "my_user"@[0] == 'm');
        assert("site_view"@.len() == 9);
        assert("taglines"@.len() == 8);
        assert("version"@.len() == 7 && "version"@[0] == 'v');
    }

    /// With every optional field absent, the mandatory fields are written
    /// and nothing else.
    pub proof fn lemma_mandatory_fields_alone(
        admins: JsonTree,
        all_languages: JsonTree,
        custom_emojis: JsonTree,
        discussion_languages: JsonTree,
        site_view: JsonTree,
        taglines: JsonTree,
        version: JsonTree,
    )
        ensures
            Self::members(
                admins,
                all_languages,
                custom_emojis,
                discussion_languages,
                None,
                site_view,
                taglines,
                version,
            ) == Seq::<Member>::empty()
                .push(("admins"@, admins))
                .push(("all_languages"@, all_languages))
                .push(("custom_emojis"@, custom_emojis))
                .push(("discussion_languages"@, discussion_languages))
                .push(("site_view"@, site_view))
                .push(("taglines"@, taglines))
                .push(("version"@, version)),
    {
        reveal(with_field);
        reveal(with_optional);
    }
}

impl Payload for GetSiteResponse {
    open spec fn tree(&self) -> JsonTree {
        JsonTree::Object(
            Self::members(
                self.admins.tree(),
                self.all_languages.tree(),
                self.custom_emojis.tree(),
                self.discussion_languages.tree(),
                written(self.my_user),
                self.site_view.tree(),
                self.taglines.tree(),
                self.version.tree(),
            ),
        )
    }

    open spec fn admits(t: JsonTree) -> bool {
        &&& t is Object
        &&& required_admits::<Vec<PersonView>>(t, "admins"@)
        &&& required_admits::<Vec<Language>>(t, "all_languages"@)
        &&& required_admits::<Vec<CustomEmojiView>>(t, "custom_emojis"@)
        &&& required_admits::<Vec<i32>>(t, "discussion_languages"@)
        &&& optional_admits::<MyUserInfo>(t, "my_user"@)
        &&& required_admits::<SiteView>(t, "site_view"@)
        &&& required_admits::<Vec<Tagline>>(t, "taglines"@)
        &&& required_admits::<String>(t, "version"@)
    }

    open spec fn agrees(&self, t: JsonTree) -> bool {
        &&& required_agrees(self.admins, t, "admins"@)
        &&& required_agrees(self.all_languages, t, "all_languages"@)
        &&& required_agrees(self.custom_emojis, t, "custom_emojis"@)
        &&& required_agrees(self.discussion_languages, t, "discussion_languages"@)
        &&& optional_agrees(self.my_user, t, "my_user"@)
        &&& required_agrees(self.site_view, t, "site_view"@)
        &&& required_agrees(self.taglines, t, "taglines"@)
        &&& required_agrees(self.version, t, "version"@)
    }

    fn to_json(&self) -> (out: JsonValue) {
        let mut members: Vec<(String, JsonValue)> = Vec::new();
        assert(members_view(members@) =~= Seq::empty());
        put(&mut members, "admins", &self.admins);
        put(&mut members, "all_languages", &self.all_languages);
        put(&mut members, "custom_emojis", &self.custom_emojis);
        put(&mut members, "discussion_languages", &self.discussion_languages);
        put_optional(&mut members, "my_user", &self.my_user);
        put(&mut members, "site_view", &self.site_view);
        put(&mut members, "taglines", &self.taglines);
        put(&mut members, "version", &self.version);
        object(members)
    }

    fn from_json(v: &JsonValue) -> (res: Option<Self>) {
        if !v.is_object() {
            return None;
        }
        let admins = required::<Vec<PersonView>>(v, "admins")?;
        let all_languages = required::<Vec<Language>>(v, "all_languages")?;
        let custom_emojis = required::<Vec<CustomEmojiView>>(v, "custom_emojis")?;
        let discussion_languages = required::<Vec<i32>>(v, "discussion_languages")?;
        let my_user = optional::<MyUserInfo>(v, "my_user")?;
        let site_view = required::<SiteView>(v, "site_view")?;
        let taglines = required::<Vec<Tagline>>(v, "taglines")?;
        let version = required::<String>(v, "version")?;
        Some(
            GetSiteResponse {
                admins,
                all_languages,
                custom_emojis,
                discussion_languages,
                my_user,
                site_view,
                taglines,
                version,
            },
        )
    }

    proof fn lemma_round_trip(&self) {
        Self::lemma_members(
            self.admins.tree(),
            self.all_languages.tree(),
            self.custom_emojis.tree(),
            self.discussion_languages.tree(),
            written(self.my_user),
            self.site_view.tree(),
            self.taglines.tree(),
            self.version.tree(),
        );
        self.admins.lemma_round_trip();
        self.all_languages.lemma_round_trip();
        self.custom_emojis.lemma_round_trip();
        self.discussion_languages.lemma_round_trip();
        lemma_optional_round_trip(self.my_user);
        self.site_view.lemma_round_trip();
        self.taglines.lemma_round_trip();
        self.version.lemma_round_trip();
    }

    proof fn lemma_reads_one(&self, other: &Self, t: JsonTree) {
        lemma_required_reads_one(self.admins, other.admins, t, "admins"@);
        lemma_required_reads_one(self.all_languages, other.all_languages, t, "all_languages"@);
        lemma_required_reads_one(self.custom_emojis, other.custom_emojis, t, "custom_emojis"@);
        lemma_required_reads_one(
            self.discussion_languages,
            other.discussion_languages,
            t,
            "discussion_languages"@,
        );
        lemma_optional_reads_one(self.my_user, other.my_user, t, "my_user"@);
        lemma_required_reads_one(self.site_view, other.site_view, t, "site_view"@);
        lemma_required_reads_one(self.taglines, other.taglines, t, "taglines"@);
        lemma_required_reads_one(self.version, other.version, t, "version"@);
    }
}

#[derive(Clone, Debug, PartialEq, Default)]
pub struct Instance {
    pub domain: String,
    pub id: i32,
    pub published: String,
    pub software: Option<String>,
    pub updated: Option<String>,
    pub version: Option<String>,
}

impl Instance {
    /// The members that a record is written as, from what is written for
    /// each of its fields.
    pub open spec fn members(
        domain: JsonTree,
        id: JsonTree,
        published: JsonTree,
        software: Option<JsonTree>,
        updated: Option<JsonTree>,
        version: Option<JsonTree>,
    ) -> Seq<Member> {
        let members = Seq::empty();
        let members = with_field(members, "domain"@, domain);
        let members = with_field(members, "id"@, id);
        let members = with_field(members, "published"@, published);
        let members = with_optional(members, "software"@, software);
        let members = with_optional(members, "updated"@, updated);
        let members = with_optional(members, "version"@, version);
        members
    }

    /// Each key leads to what was written under it, and to nothing where
    /// nothing was written.
    pub proof fn lemma_members(
        domain: JsonTree,
        id: JsonTree,
        published: JsonTree,
        software: Option<JsonTree>,
        updated: Option<JsonTree>,
        version: Option<JsonTree>,
    )
        ensures
            ({
                let members = Self::members(domain, id, published, software, updated, version);
                &&& lookup(members, "domain"@) == Some(domain)
                &&& lookup(members, "id"@) == Some(id)
                &&& lookup(members, "published"@) == Some(published)
                &&& lookup(members, "software"@) == software
                &&& lookup(members, "updated"@) == updated
                &&& lookup(members, "version"@) == version
            }),
    {
        broadcast use group_written_members;

        reveal_strlit("domain");
        reveal_strlit("id");
        reveal_strlit("published");
        reveal_strlit("software");
        reveal_strlit("updated");
        reveal_strlit("version");
        assert("domain"@.len() == 6);
        assert("id"@.len() == 2);
        assert("published"@.len() == 9);
        assert("software"@.len() == 8);
        assert("updated"@.len() == 7 && "updated"@[0] == 'u');
        assert("version"@.len() == 7 && "version"@[0] == 'v');
    }

    /// With every optional field absent, the mandatory fields are written
    /// and nothing else.
    pub proof fn lemma_mandatory_fields_alone(domain: JsonTree, id: JsonTree, published: JsonTree)
        ensures
            Self::members(domain, id, published, None, None, None) == Seq::<Member>::empty()
                .push(("domain"@, domain))
                .push(("id"@, id))
                .push(("published"@, published)),
    {
        reveal(with_field);
        reveal(with_optional);
    }
}

impl Payload for Instance {
    open spec fn tree(&self) -> JsonTree {
        JsonTree::Object(
            Self::members(
                self.domain.tree(),
                self.id.tree(),
                self.published.tree(),
                written(self.software),
                written(self.updated),
                written(self.version),
            ),
        )
    }

    open spec fn admits(t: JsonTree) -> bool {
        &&& t is Object
        &&& required_admits::<String>(t, "domain"@)
        &&& required_admits::<i32>(t, "id"@)
        &&& required_admits::<String>(t, "published"@)
        &&& optional_admits::<String>(t, "software"@)
        &&& optional_admits::<String>(t, "updated"@)
        &&& optional_admits::<String>(t, "version"@)
    }

    open spec fn agrees(&self, t: JsonTree) -> bool {
        &&& required_agrees(self.domain, t, "domain"@)
        &&& required_agrees(self.id, t, "id"@)
        &&& required_agrees(self.published, t, "published"@)
        &&& optional_agrees(self.software, t, "software"@)
        &&& optional_agrees(self.updated, t, "updated"@)
        &&& optional_agrees(self.version, t, "version"@)
    }

    fn to_json(&self) -> (out: JsonValue) {
        let mut members: Vec<(String, JsonValue)> = Vec::new();
        assert(members_view(members@) =~= Seq::empty());
        put(&mut members, "domain", &self.domain);
        put(&mut members, "id", &self.id);
        put(&mut members, "published", &self.published);
        put_optional(&mut members, "software", &self.software);
        put_optional(&mut members, "updated", &self.updated);
        put_optional(&mut members, "version", &self.version);
        object(members)
    }

    fn from_json(v: &JsonValue) -> (res: Option<Self>) {
        if !v.is_object() {
            return None;
        }
        let domain = required::<String>(v, "domain")?;
        let id = required::<i32>(v, "id")?;
        let published = required::<String>(v, "published")?;
        let software = optional::<String>(v, "software")?;
        let updated = optional::<String>(v, "updated")?;
        let version = optional::<String>(v, "version")?;
        Some(Instance { domain, id, published, software, updated, version })
    }

    proof fn lemma_round_trip(&self) {
        Self::lemma_members(
            self.domain.tree(),
            self.id.tree(),
            self.published.tree(),
            written(self.software),
            written(self.updated),
            written(self.version),
        );
        self.domain.lemma_round_trip();
        self.id.lemma_round_trip();
        self.published.lemma_round_trip();
        lemma_optional_round_trip(self.software);
        lemma_optional_round_trip(self.updated);
        lemma_optional_round_trip(self.version);
    }

    proof fn lemma_reads_one(&self, other: &Self, t: JsonTree) {
        lemma_required_reads_one(self.domain, other.domain, t, "domain"@);
        lemma_required_reads_one(self.id, other.id, t, "id"@);
        lemma_required_reads_one(self.published, other.published, t, "published"@);
        lemma_optional_reads_one(self.software, other.software, t, "software"@);
        lemma_optional_reads_one(self.updated, other.updated, t, "updated"@);
        lemma_optional_reads_one(self.version, other.version, t, "version"@);
    }
}

#[derive(Clone, Debug, PartialEq, Default)]
pub struct Language {
    pub code: String,
    pub id: i32,
    pub name: String,
}

impl Language {
    /// The members that a record is written as, from what is written for
    /// each of its fields.
    pub open spec fn members(code: JsonTree, id: JsonTree, name: JsonTree) -> Seq<Member> {
        let members = Seq::empty();
        let members = with_field(members, "code"@, code);
        let members = with_field(members, "id"@, id);
        let members = with_field(members, "name"@, name);
        members
    }

    /// Each key leads to what was written under it, and to nothing where
    /// nothing was written.
    pub proof fn lemma_members(code: JsonTree, id: JsonTree, name: JsonTree)
        ensures
            ({
                let members = Self::members(code, id, name);
                &&& lookup(members, "code"@) == Some(code)
                &&& lookup(members, "id"@) == Some(id)
                &&& lookup(members, "name"@) == Some(name)
            }),
    {
        broadcast use group_written_members;

        reveal_strlit("code");
        reveal_strlit("id");
        reveal_strlit("name");
        assert("code"@.len() == 4 && "code"@[0] == 'c');
        assert("id"@.len() == 2);
        assert("name"@.len() == 4 && "name"@[0] == 'n');
    }

    /// Every field is mandatory: each is written, in order, and nothing
    /// else.
    pub proof fn lemma_mandatory_fields_alone(code: JsonTree, id: JsonTree, name: JsonTree)
        ensures
            Self::members(code, id, name) == Seq::<Member>::empty()
                .push(("code"@, code))
                .push(("id"@, id))
                .push(("name"@, name)),
    {
        reveal(with_field);
        reveal(with_optional);
    }
}

impl Payload for Language {
    open spec fn tree(&self) -> JsonTree {
        JsonTree::Object(Self::members(self.code.tree(), self.id.tree(), self.name.tree()))
    }

    open spec fn admits(t: JsonTree) -> bool {
        &&& t is Object
        &&& required_admits::<String>(t, "code"@)
        &&& required_admits::<i32>(t, "id"@)
        &&& required_admits::<String>(t, "name"@)
    }

    open spec fn agrees(&self, t: JsonTree) -> bool {
        &&& required_agrees(self.code, t, "code"@)
        &&& required_agrees(self.id, t, "id"@)
        &&& required_agrees(self.name, t, "name"@)
    }

    fn to_json(&self) -> (out: JsonValue) {
        let mut members: Vec<(String, JsonValue)> = Vec::new();
        assert(members_view(members@) =~= Seq::empty());
        put(&mut members, "code", &self.code);
        put(&mut members, "id", &self.id);
        put(&mut members, "name", &self.name);
        object(members)
    }

    fn from_json(v: &JsonValue) -> (res: Option<Self>) {
        if !v.is_object() {
            return None;
        }
        let code = required::<String>(v, "code")?;
        let id = required::<i32>(v, "id")?;
        let name = required::<String>(v, "name")?;
        Some(Language { code, id, name })
    }

    proof fn lemma_round_trip(&self) {
        Self::lemma_members(self.code.tree(), self.id.tree(), self.name.tree());
        self.code.lemma_round_trip();
        self.id.lemma_round_trip();
        self.name.lemma_round_trip();
    }

    proof fn lemma_reads_one(&self, other: &Self, t: JsonTree) {
        lemma_required_reads_one(self.code, other.code, t, "code"@);
        lemma_required_reads_one(self.id, other.id, t, "id"@);
        lemma_required_reads_one(self.name, other.name, t, "name"@);
    }
}

#[derive(Clone, Debug, PartialEq, Default)]
pub struct LocalSite {
    pub actor_name_max_length: i32,
    pub application_email_admins: bool,
    pub application_questions: Option<String>,
    pub captcha_difficulty: String,
    pub captcha_enabled: bool,
    pub community_creation_admin_only: bool,
    pub default_post_listing_type: ListingType,
    pub default_theme: String,
    pub enable_downvotes: bool,
    pub enable_nsfw: bool,
    pub federation_enabled: bool,
    pub hide_modlog_mod_names: bool,
    pub id: i32,
    pub legal_information: Option<String>,
    pub private_instance: bool,
    pub published: String,
    pub registration_mode: RegistrationMode,
    pub reports_email_admins: bool,
    pub require_email_verification: bool,
    pub site_id: i32,
    pub site_setup: bool,
    pub slur_filter_regex: Option<String>,
    pub updated: Option<String>,
}

impl LocalSite {
    /// The members that a record is written as, from what is written for
    /// each of its fields.
    pub open spec fn members(
        actor_name_max_length: JsonTree,
        application_email_admins: JsonTree,
        application_questions: Option<JsonTree>,
        captcha_difficulty: JsonTree,
        captcha_enabled: JsonTree,
        community_creation_admin_only: JsonTree,
        default_post_listing_type: JsonTree,
        default_theme: JsonTree,
        enable_downvotes: JsonTree,
        enable_nsfw: JsonTree,
        federation_enabled: JsonTree,
        hide_modlog_mod_names: JsonTree,
        id: JsonTree,
        legal_information: Option<JsonTree>,
        private_instance: JsonTree,
        published: JsonTree,
        registration_mode: JsonTree,
        reports_email_admins: JsonTree,
        require_email_verification: JsonTree,
        site_id: JsonTree,
        site_setup: JsonTree,
        slur_filter_regex: Option<JsonTree>,
        updated: Option<JsonTree>,
    ) -> Seq<Member> {
        let members = Seq::empty();
        let members = with_field(members, "actor_name_max_length"@, actor_name_max_length);
        let members = with_field(members, "application_email_admins"@, application_email_admins);
        let members = with_optional(members, "application_questions"@, application_questions);
        let members = with_field(members, "captcha_difficulty"@, captcha_difficulty);
        let members = with_field(members, "captcha_enabled"@, captcha_enabled);
        let members = with_field(
            members,
            "community_creation_admin_only"@,
            community_creation_admin_only,
        );
        let members = with_field(members, "default_post_listing_type"@, default_post_listing_type);
        let members = with_field(members, "default_theme"@, default_theme);
        let members = with_field(members, "enable_downvotes"@, enable_downvotes);
        let members = with_field(members, "enable_nsfw"@, enable_nsfw);
        let members = with_field(members, "federation_enabled"@, federation_enabled);
        let members = with_field(members, "hide_modlog_mod_names"@, hide_modlog_mod_names);
        let members = with_field(members, "id"@, id);
        let members = with_optional(members, "legal_information"@, legal_information);
        let members = with_field(members, "private_instance"@, private_instance);
        let members = with_field(members, "published"@, published);
        let members = with_field(members, "registration_mode"@, registration_mode);
        let members = with_field(members, "reports_email_admins"@, reports_email_admins);
        let members = with_field(
            members,
            "require_email_verification"@,
            require_email_verification,
        );
        let members = with_field(members, "site_id"@, site_id);
        let members = with_field(members, "site_setup"@, site_setup);
        let members = with_optional(members, "slur_filter_regex"@, slur_filter_regex);
        let members = with_optional(members, "updated"@, updated);
        members
    }

    /// Each key leads to what was written under it, and to nothing where
    /// nothing was written.
    pub proof fn lemma_members(
        actor_name_max_length: JsonTree,
        application_email_admins: JsonTree,
        application_questions: Option<JsonTree>,
        captcha_difficulty: JsonTree,
        captcha_enabled: JsonTree,
        community_creation_admin_only: JsonTree,
        default_post_listing_type: JsonTree,
        default_theme: JsonTree,
        enable_downvotes: JsonTree,
        enable_nsfw: JsonTree,
        federation_enabled: JsonTree,
        hide_modlog_mod_names: JsonTree,
        id: JsonTree,
        legal_information: Option<JsonTree>,
        private_instance: JsonTree,
        published: JsonTree,
        registration_mode: JsonTree,
        reports_email_admins: JsonTree,
        require_email_verification: JsonTree,
        site_id: JsonTree,
        site_setup: JsonTree,
        slur_filter_regex: Option<JsonTree>,
        updated: Option<JsonTree>,
    )
        ensures
            ({
                let members = Self::members(
                    actor_name_max_length,
                    application_email_admins,
                    application_questions,
                    captcha_difficulty,
                    captcha_enabled,
                    community_creation_admin_only,
                    default_post_listing_type,
                    default_theme,
                    enable_downvotes,
                    enable_nsfw,
                    federation_enabled,
                    hide_modlog_mod_names,
                    id,
                    legal_information,
                    private_instance,
                    published,
                    registration_mode,
                    reports_email_admins,
                    require_email_verification,
                    site_id,
                    site_setup,
                    slur_filter_regex,
                    updated,
                );
                &&& lookup(members, "actor_name_max_length"@) == Some(actor_name_max_length)
                &&& lookup(members, "application_email_admins"@) == Some(application_email_admins)
                &&& lookup(members, "application_questions"@) == application_questions
                &&& lookup(members, "captcha_difficulty"@) == Some(captcha_difficulty)
                &&& lookup(members, "captcha_enabled"@) == Some(captcha_enabled)
                &&& lookup(members, "community_creation_admin_only"@)
                    == Some(community_creation_admin_only)
                &&& lookup(members, "default_post_listing_type"@) == Some(default_post_listing_type)
                &&& lookup(members, "default_theme"@) == Some(default_theme)
                &&& lookup(members, "enable_downvotes"@) == Some(enable_downvotes)
                &&& lookup(members, "enable_nsfw"@) == Some(enable_nsfw)
                &&& lookup(members, "federation_enabled"@) == Some(federation_enabled)
                &&& lookup(members, "hide_modlog_mod_names"@) == Some(hide_modlog_mod_names)
                &&& lookup(members, "id"@) == Some(id)
                &&& lookup(members, "legal_information"@) == legal_information
                &&& lookup(members, "private_instance"@) == Some(private_instance)
                &&& lookup(members, "published"@) == Some(published)
                &&& lookup(members, "registration_mode"@) == Some(registration_mode)
                &&& lookup(members, "reports_email_admins"@) == Some(reports_email_admins)
                &&& lookup(members, "require_email_verification"@)
                    == Some(require_email_verification)
                &&& lookup(members, "site_id"@) == Some(site_id)
                &&& lookup(members, "site_setup"@) == Some(site_setup)
                &&& lookup(members, "slur_filter_regex"@) == slur_filter_regex
                &&& lookup(members, "updated"@) == updated
            }),
    {
        broadcast use group_written_members;

        reveal_strlit("actor_name_max_length");
        reveal_strlit("application_email_admins");
        reveal_strlit("application_questions");
        reveal_strlit("captcha_difficulty");
        reveal_strlit("captcha_enabled");
        reveal_strlit("community_creation_admin_only");
        reveal_strlit("default_post_listing_type");
        reveal_strlit("default_theme");
        reveal_strlit("enable_downvotes");
        reveal_strlit("enable_nsfw");
        reveal_strlit("federation_enabled");
        reveal_strlit("hide_modlog_mod_names");
        reveal_strlit("id");
        reveal_strlit("legal_information");
        reveal_strlit("private_instance");
        reveal_strlit("published");
        reveal_strlit("registration_mode");
        reveal_strlit("reports_email_admins");
        reveal_strlit("require_email_verification");
        reveal_strlit("site_id");
        reveal_strlit("site_setup");
        reveal_strlit("slur_filter_regex");
        reveal_strlit("updated");
        assert("actor_name_max_length"@.len() == 21
            && "actor_name_max_length"@[0] == 'a'
            && "actor_name_max_length"@[1] == 'c');
        assert("application_email_admins"@.len() == 24);
        assert("application_questions"@.len() == 21
            && "application_questions"@[0] == 'a'
            && "application_questions"@[1] == 'p');
        assert("captcha_difficulty"@.len() == 18 && "captcha_difficulty"@[0] == 'c');
        assert("captcha_enabled"@.len() == 15);
        assert("community_creation_admin_only"@.len() == 29);
        assert("default_post_listing_type"@.len() == 25);
        assert("default_theme"@.len() == 13);
        assert("enable_downvotes"@.len() == 16 && "enable_downvotes"@[0] == 'e');
        assert("enable_nsfw"@.len() == 11);
        assert("federation_enabled"@.len() == 18 && "federation_enabled"@[0] == 'f');
        assert("hide_modlog_mod_names"@.len() == 21 && "hide_modlog_mod_names"@[0] == 'h');
        assert("id"@.len() == 2);
        assert("legal_information"@.len() == 17 && "legal_information"@[0] == 'l');
        assert("private_instance"@.len() == 16 && "private_instance"@[0] == 'p');
        assert("published"@.len() == 9);
        assert("registration_mode"@.len() == 17 && "registration_mode"@[0] == 'r');
        assert("reports_email_admins"@.len() == 20);
        assert("require_email_verification"@.len() == 26);
        assert("site_id"@.len() == 7 && "site_id"@[0] == 's');
        assert("site_setup"@.len() == 10);
        assert("slur_filter_regex"@.len() == 17 && "slur_filter_regex"@[0] == 's');
        assert("updated"@.len() == 7 && "updated"@[0] == 'u');
    }

    /// With every optional field absent, the mandatory fields are written
    /// and nothing else.
    pub proof fn lemma_mandatory_fields_alone(
        actor_name_max_length: JsonTree,
        application_email_admins: JsonTree,
        captcha_difficulty: JsonTree,
        captcha_enabled: JsonTree,
        community_creation_admin_only: JsonTree,
        default_post_listing_type: JsonTree,
        default_theme: JsonTree,
        enable_downvotes: JsonTree,
        enable_nsfw: JsonTree,
        federation_enabled: JsonTree,
        hide_modlog_mod_names: JsonTree,
        id: JsonTree,
        private_instance: JsonTree,
        published: JsonTree,
        registration_mode: JsonTree,
        reports_email_admins: JsonTree,
        require_email_verification: JsonTree,
        site_id: JsonTree,
        site_setup: JsonTree,
    )
        ensures
            Self::members(
                actor_name_max_length,
                application_email_admins,
                None,
                captcha_difficulty,
                captcha_enabled,
                community_creation_admin_only,
                default_post_listing_type,
                default_theme,
                enable_downvotes,
                enable_nsfw,
                federation_enabled,
                hide_modlog_mod_names,
                id,
                None,
                private_instance,
                published,
                registration_mode,
                reports_email_admins,
                require_email_verification,
                site_id,
                site_setup,
                None,
                None,
            ) == Seq::<Member>::empty()
                .push(("actor_name_max_length"@, actor_name_max_length))
                .push(("application_email_admins"@, application_email_admins))
                .push(("captcha_difficulty"@, captcha_difficulty))
                .push(("captcha_enabled"@, captcha_enabled))
                .push(("community_creation_admin_only"@, community_creation_admin_only))
                .push(("default_post_listing_type"@, default_post_listing_type))
                .push(("default_theme"@, default_theme))
                .push(("enable_downvotes"@, enable_downvotes))
                .push(("enable_nsfw"@, enable_nsfw))
                .push(("federation_enabled"@, federation_enabled))
                .push(("hide_modlog_mod_names"@, hide_modlog_mod_names))
                .push(("id"@, id))
                .push(("private_instance"@, private_instance))
                .push(("published"@, published))
                .push(("registration_mode"@, registration_mode))
                .push(("reports_email_admins"@, reports_email_admins))
                .push(("require_email_verification"@, require_email_verification))
                .push(("site_id"@, site_id))
                .push(("site_setup"@, site_setup)),
    {
        reveal(with_field);
        reveal(with_optional);
    }
}

impl Payload for LocalSite {
    open spec fn tree(&self) -> JsonTree {
        JsonTree::Object(
            Self::members(
                self.actor_name_max_length.tree(),
                self.application_email_admins.tree(),
                written(self.application_questions),
                self.captcha_difficulty.tree(),
                self.captcha_enabled.tree(),
                self.community_creation_admin_only.tree(),
                self.default_post_listing_type.tree(),
                self.default_theme.tree(),
                self.enable_downvotes.tree(),
                self.enable_nsfw.tree(),
                self.federation_enabled.tree(),
                self.hide_modlog_mod_names.tree(),
                self.id.tree(),
                written(self.legal_information),
                self.private_instance.tree(),
                self.published.tree(),
                self.registration_mode.tree(),
                self.reports_email_admins.tree(),
                self.require_email_verification.tree(),
                self.site_id.tree(),
                self.site_setup.tree(),
                written(self.slur_filter_regex),
                written(self.updated),
            ),
        )
    }

    open spec fn admits(t: JsonTree) -> bool {
        &&& t is Object
        &&& required_admits::<i32>(t, "actor_name_max_length"@)
        &&& required_admits::<bool>(t, "application_email_admins"@)
        &&& optional_admits::<String>(t, "application_questions"@)
        &&& required_admits::<String>(t, "captcha_difficulty"@)
        &&& required_admits::<bool>(t, "captcha_enabled"@)
        &&& required_admits::<bool>(t, "community_creation_admin_only"@)
        &&& required_admits::<ListingType>(t, "default_post_listing_type"@)
        &&& required_admits::<String>(t, "default_theme"@)
        &&& required_admits::<bool>(t, "enable_downvotes"@)
        &&& required_admits::<bool>(t, "enable_nsfw"@)
        &&& required_admits::<bool>(t, "federation_enabled"@)
        &&& required_admits::<bool>(t, "hide_modlog_mod_names"@)
        &&& required_admits::<i32>(t, "id"@)
        &&& optional_admits::<String>(t, "legal_information"@)
        &&& required_admits::<bool>(t, "private_instance"@)
        &&& required_admits::<String>(t, "published"@)
        &&& required_admits::<RegistrationMode>(t, "registration_mode"@)
        &&& required_admits::<bool>(t, "reports_email_admins"@)
        &&& required_admits::<bool>(t, "require_email_verification"@)
        &&& required_admits::<i32>(t, "site_id"@)
        &&& required_admits::<bool>(t, "site_setup"@)
        &&& optional_admits::<String>(t, "slur_filter_regex"@)
        &&& optional_admits::<String>(t, "updated"@)
    }

    open spec fn agrees(&self, t: JsonTree) -> bool {
        &&& required_agrees(self.actor_name_max_length, t, "actor_name_max_length"@)
        &&& required_agrees(self.application_email_admins, t, "application_email_admins"@)
        &&& optional_agrees(self.application_questions, t, "application_questions"@)
        &&& required_agrees(self.captcha_difficulty, t, "captcha_difficulty"@)
        &&& required_agrees(self.captcha_enabled, t, "captcha_enabled"@)
        &&& required_agrees(self.community_creation_admin_only, t, "community_creation_admin_only"@)
        &&& required_agrees(self.default_post_listing_type, t, "default_post_listing_type"@)
        &&& required_agrees(self.default_theme, t, "default_theme"@)
        &&& required_agrees(self.enable_downvotes, t, "enable_downvotes"@)
        &&& required_agrees(self.enable_nsfw, t, "enable_nsfw"@)
        &&& required_agrees(self.federation_enabled, t, "federation_enabled"@)
        &&& required_agrees(self.hide_modlog_mod_names, t, "hide_modlog_mod_names"@)
        &&& required_agrees(self.id, t, "id"@)
        &&& optional_agrees(self.legal_information, t, "legal_information"@)
        &&& required_agrees(self.private_instance, t, "private_instance"@)
        &&& required_agrees(self.published, t, "published"@)
        &&& required_agrees(self.registration_mode, t, "registration_mode"@)
        &&& required_agrees(self.reports_email_admins, t, "reports_email_admins"@)
        &&& required_agrees(self.require_email_verification, t, "require_email_verification"@)
        &&& required_agrees(self.site_id, t, "site_id"@)
        &&& required_agrees(self.site_setup, t, "site_setup"@)
        &&& optional_agrees(self.slur_filter_regex, t, "slur_filter_regex"@)
        &&& optional_agrees(self.updated, t, "updated"@)
    }

    fn to_json(&self) -> (out: JsonValue) {
        let mut members: Vec<(String, JsonValue)> = Vec::new();
        assert(members_view(members@) =~= Seq::empty());
        put(&mut members, "actor_name_max_length", &self.actor_name_max_length);
        put(&mut members, "application_email_admins", &self.application_email_admins);
        put_optional(&mut members, "application_questions", &self.application_questions);
        put(&mut members, "captcha_difficulty", &self.captcha_difficulty);
        put(&mut members, "captcha_enabled", &self.captcha_enabled);
        put(&mut members, "community_creation_admin_only", &self.community_creation_admin_only);
        put(&mut members, "default_post_listing_type", &self.default_post_listing_type);
        put(&mut members, "default_theme", &self.default_theme);
        put(&mut members, "enable_downvotes", &self.enable_downvotes);
        put(&mut members, "enable_nsfw", &self.enable_nsfw);
        put(&mut members, "federation_enabled", &self.federation_enabled);
        put(&mut members, "hide_modlog_mod_names", &self.hide_modlog_mod_names);
        put(&mut members, "id", &self.id);
        put_optional(&mut members, "legal_information", &self.legal_information);
        put(&mut members, "private_instance", &self.private_instance);
        put(&mut members, "published", &self.published);
        put(&mut members, "registration_mode", &self.registration_mode);
        put(&mut members, "reports_email_admins", &self.reports_email_admins);
        put(&mut members, "require_email_verification", &self.require_email_verification);
        put(&mut members, "site_id", &self.site_id);
        put(&mut members, "site_setup", &self.site_setup);
        put_optional(&mut members, "slur_filter_regex", &self.slur_filter_regex);
        put_optional(&mut members, "updated", &self.updated);
        object(members)
    }

    fn from_json(v: &JsonValue) -> (res: Option<Self>) {
        if !v.is_object() {
            return None;
        }
        let actor_name_max_length = required::<i32>(v, "actor_name_max_length")?;
        let application_email_admins = required::<bool>(v, "application_email_admins")?;
        let application_questions = optional::<String>(v, "application_questions")?;
        let captcha_difficulty = required::<String>(v, "captcha_difficulty")?;
        let captcha_enabled = required::<bool>(v, "captcha_enabled")?;
        let community_creation_admin_only = required::<bool>(v, "community_creation_admin_only")?;
        let default_post_listing_type = required::<ListingType>(v, "default_post_listing_type")?;
        let default_theme = required::<String>(v, "default_theme")?;
        let enable_downvotes = required::<bool>(v, "enable_downvotes")?;
        let enable_nsfw = required::<bool>(v, "enable_nsfw")?;
        let federation_enabled = required::<bool>(v, "federation_enabled")?;
        let hide_modlog_mod_names = required::<bool>(v, "hide_modlog_mod_names")?;
        let id = required::<i32>(v, "id")?;
        let legal_information = optional::<String>(v, "legal_information")?;
        let private_instance = required::<bool>(v, "private_instance")?;
        let published = required::<String>(v, "published")?;
        let registration_mode = required::<RegistrationMode>(v, "registration_mode")?;
        let reports_email_admins = required::<bool>(v, "reports_email_admins")?;
        let require_email_verification = required::<bool>(v, "require_email_verification")?;
        let site_id = required::<i32>(v, "site_id")?;
        let site_setup = required::<bool>(v, "site_setup")?;
        let slur_filter_regex = optional::<String>(v, "slur_filter_regex")?;
        let updated = optional::<String>(v, "updated")?;
        Some(
            LocalSite {
                actor_name_max_length,
                application_email_admins,
                application_questions,
                captcha_difficulty,
                captcha_enabled,
                community_creation_admin_only,
                default_post_listing_type,
                default_theme,
                enable_downvotes,
                enable_nsfw,
                federation_enabled,
                hide_modlog_mod_names,
                id,
                legal_information,
                private_instance,
                published,
                registration_mode,
                reports_email_admins,
                require_email_verification,
                site_id,
                site_setup,
                slur_filter_regex,
                updated,
            },
        )
    }

    proof fn lemma_round_trip(&self) {
        Self::lemma_members(
            self.actor_name_max_length.tree(),
            self.application_email_admins.tree(),
            written(self.application_questions),
            self.captcha_difficulty.tree(),
            self.captcha_enabled.tree(),
            self.community_creation_admin_only.tree(),
            self.default_post_listing_type.tree(),
            self.default_theme.tree(),
            self.enable_downvotes.tree(),
            self.enable_nsfw.tree(),
            self.federation_enabled.tree(),
            self.hide_modlog_mod_names.tree(),
            self.id.tree(),
            written(self.legal_information),
            self.private_instance.tree(),
            self.published.tree(),
            self.registration_mode.tree(),
            self.reports_email_admins.tree(),
            self.require_email_verification.tree(),
            self.site_id.tree(),
            self.site_setup.tree(),
            written(self.slur_filter_regex),
            written(self.updated),
        );
        self.actor_name_max_length.lemma_round_trip();
        self.application_email_admins.lemma_round_trip();
        lemma_optional_round_trip(self.application_questions);
        self.captcha_difficulty.lemma_round_trip();
        self.captcha_enabled.lemma_round_trip();
        self.community_creation_admin_only.lemma_round_trip();
        self.default_post_listing_type.lemma_round_trip();
        self.default_theme.lemma_round_trip();
        self.enable_downvotes.lemma_round_trip();
        self.enable_nsfw.lemma_round_trip();
        self.federation_enabled.lemma_round_trip();
        self.hide_modlog_mod_names.lemma_round_trip();
        self.id.lemma_round_trip();
        lemma_optional_round_trip(self.legal_information);
        self.private_instance.lemma_round_trip();
        self.published.lemma_round_trip();
        self.registration_mode.lemma_round_trip();
        self.reports_email_admins.lemma_round_trip();
        self.require_email_verification.lemma_round_trip();
        self.site_id.lemma_round_trip();
        self.site_setup.lemma_round_trip();
        lemma_optional_round_trip(self.slur_filter_regex);
        lemma_optional_round_trip(self.updated);
    }

    proof fn lemma_reads_one(&self, other: &Self, t: JsonTree) {
        lemma_required_reads_one(
            self.actor_name_max_length,
            other.actor_name_max_length,
            t,
            "actor_name_max_length"@,
        );
        lemma_required_reads_one(
            self.application_email_admins,
            other.application_email_admins,
            t,
            "application_email_admins"@,
        );
        lemma_optional_reads_one(
            self.application_questions,
            other.application_questions,
            t,
            "application_questions"@,
        );
        lemma_required_reads_one(
            self.captcha_difficulty,
            other.captcha_difficulty,
            t,
            "captcha_difficulty"@,
        );
        lemma_required_reads_one(
            self.captcha_enabled,
            other.captcha_enabled,
            t,
            "captcha_enabled"@,
        );
        lemma_required_reads_one(
            self.community_creation_admin_only,
            other.community_creation_admin_only,
            t,
            "community_creation_admin_only"@,
        );
        lemma_required_reads_one(
            self.default_post_listing_type,
            other.default_post_listing_type,
            t,
            "default_post_listing_type"@,
        );
        lemma_required_reads_one(self.default_theme, other.default_theme, t, "default_theme"@);
        lemma_required_reads_one(
            self.enable_downvotes,
            other.enable_downvotes,
            t,
            "enable_downvotes"@,
        );
        lemma_required_reads_one(self.enable_nsfw, other.enable_nsfw, t, "enable_nsfw"@);
        lemma_required_reads_one(
            self.federation_enabled,
            other.federation_enabled,
            t,
            "federation_enabled"@,
        );
        lemma_required_reads_one(
            self.hide_modlog_mod_names,
            other.hide_modlog_mod_names,
            t,
            "hide_modlog_mod_names"@,
        );
        lemma_required_reads_one(self.id, other.id, t, "id"@);
        lemma_optional_reads_one(
            self.legal_information,
            other.legal_information,
            t,
            "legal_information"@,
        );
        lemma_required_reads_one(
            self.private_instance,
            other.private_instance,
            t,
            "private_instance"@,
        );
        lemma_required_reads_one(self.published, other.published, t, "published"@);
        lemma_required_reads_one(
            self.registration_mode,
            other.registration_mode,
            t,
            "registration_mode"@,
        );
        lemma_required_reads_one(
            self.reports_email_admins,
            other.reports_email_admins,
            t,
            "reports_email_admins"@,
        );
        lemma_required_reads_one(
            self.require_email_verification,
            other.require_email_verification,
            t,
            "require_email_verification"@,
        );
        lemma_required_reads_one(self.site_id, other.site_id, t, "site_id"@);
        lemma_required_reads_one(self.site_setup, other.site_setup, t, "site_setup"@);
        lemma_optional_reads_one(
            self.slur_filter_regex,
            other.slur_filter_regex,
            t,
            "slur_filter_regex"@,
        );
        lemma_optional_reads_one(self.updated, other.updated, t, "updated"@);
    }
}

#[derive(Clone, Debug, PartialEq, Default)]
pub struct LocalSiteRateLimit {
    pub comments: Option<i32>,
    pub comment_per_second: i32,
    pub id: i32,
    pub image: i32,
    pub image_per_second: i32,
    pub local_site_id: i32,
    pub message: i32,
    pub message_per_second: i32,
    pub post: i32,
    pub post_per_second: i32,
    pub published: String,
    pub register: i32,
    pub register_per_second: i32,
    pub search: i32,
    pub search_per_second: i32,
    pub updated: Option<String>,
}

impl LocalSiteRateLimit {
    /// The members that a record is written as, from what is written for
    /// each of its fields.
    pub open spec fn members(
        comments: Option<JsonTree>,
        comment_per_second: JsonTree,
        id: JsonTree,
        image: JsonTree,
        image_per_second: JsonTree,
        local_site_id: JsonTree,
        message: JsonTree,
        message_per_second: JsonTree,
        post: JsonTree,
        post_per_second: JsonTree,
        published: JsonTree,
        register: JsonTree,
        register_per_second: JsonTree,
        search: JsonTree,
        search_per_second: JsonTree,
        updated: Option<JsonTree>,
    ) -> Seq<Member> {
        let members = Seq::empty();
        let members = with_optional(members, "comments"@, comments);
        let members = with_field(members, "comment_per_second"@, comment_per_second);
        let members = with_field(members, "id"@, id);
        let members = with_field(members, "image"@, image);
        let members = with_field(members, "image_per_second"@, image_per_second);
        let members = with_field(members, "local_site_id"@, local_site_id);
        let members = with_field(members, "message"@, message);
        let members = with_field(members, "message_per_second"@, message_per_second);
        let members = with_field(members, "post"@, post);
        let members = with_field(members, "post_per_second"@, post_per_second);
        let members = with_field(members, "published"@, published);
        let members = with_field(members, "register"@, register);
        let members = with_field(members, "register_per_second"@, register_per_second);
        let members = with_field(members, "search"@, search);
        let members = with_field(members, "search_per_second"@, search_per_second);
        let members = with_optional(members, "updated"@, updated);
        members
    }

    /// Each key leads to what was written under it, and to nothing where
    /// nothing was written.
    pub proof fn lemma_members(
        comments: Option<JsonTree>,
        comment_per_second: JsonTree,
        id: JsonTree,
        image: JsonTree,
        image_per_second: JsonTree,
        local_site_id: JsonTree,
        message: JsonTree,
        message_per_second: JsonTree,
        post: JsonTree,
        post_per_second: JsonTree,
        published: JsonTree,
        register: JsonTree,
        register_per_second: JsonTree,
        search: JsonTree,
        search_per_second: JsonTree,
        updated: Option<JsonTree>,
    )
        ensures
            ({
                let members = Self::members(
                    comments,
                    comment_per_second,
                    id,
                    image,
                    image_per_second,
                    local_site_id,
                    message,
                    message_per_second,
                    post,
                    post_per_second,
                    published,
                    register,
                    register_per_second,
                    search,
                    search_per_second,
                    updated,
                );
                &&& lookup(members, "comments"@) == comments
                &&& lookup(members, "comment_per_second"@) == Some(comment_per_second)
                &&& lookup(members, "id"@) == Some(id)
                &&& lookup(members, "image"@) == Some(image)
                &&& lookup(members, "image_per_second"@) == Some(image_per_second)
                &&& lookup(members, "local_site_id"@) == Some(local_site_id)
                &&& lookup(members, "message"@) == Some(message)
                &&& lookup(members, "message_per_second"@) == Some(message_per_second)
                &&& lookup(members, "post"@) == Some(post)
                &&& lookup(members, "post_per_second"@) == Some(post_per_second)
                &&& lookup(members, "published"@) == Some(published)
                &&& lookup(members, "register"@) == Some(register)
                &&& lookup(members, "register_per_second"@) == Some(register_per_second)
                &&& lookup(members, "search"@) == Some(search)
                &&& lookup(members, "search_per_second"@) == Some(search_per_second)
                &&& lookup(members, "updated"@) == updated
            }),
    {
        broadcast use group_written_members;

        reveal_strlit("comments");
        reveal_strlit("comment_per_second");
        reveal_strlit("id");
        reveal_strlit("image");
        reveal_strlit("image_per_second");
        reveal_strlit("local_site_id");
        reveal_strlit("message");
        reveal_strlit("message_per_second");
        reveal_strlit("post");
        reveal_strlit("post_per_second");
        reveal_strlit("published");
        reveal_strlit("register");
        reveal_strlit("register_per_second");
        reveal_strlit("search");
        reveal_strlit("search_per_second");
        reveal_strlit("updated");
        assert("comments"@.len() == 8 && "comments"@[0] == 'c');
        assert("comment_per_second"@.len() == 18 && "comment_per_second"@[0] == 'c');
        assert("id"@.len() == 2);
        assert("image"@.len() == 5);
        assert("image_per_second"@.len() == 16);
        assert("local_site_id"@.len() == 13);
        assert("message"@.len() == 7 && "message"@[0] == 'm');
        assert("message_per_second"@.len() == 18 && "message_per_second"@[0] == 'm');
        assert("post"@.len() == 4);
        assert("post_per_second"@.len() == 15);
        assert("published"@.len() == 9);
        assert("register"@.len() == 8 && "register"@[0] == 'r');
        assert("register_per_second"@.len() == 19);
        assert("search"@.len() == 6);
        assert("search_per_second"@.len() == 17);
        assert("updated"@.len() == 7 && "updated"@[0] == 'u');
    }

    /// With every optional field absent, the mandatory fields are written
    /// and nothing else.
    pub proof fn lemma_mandatory_fields_alone(
        comment_per_second: JsonTree,
        id: JsonTree,
        image: JsonTree,
        image_per_second: JsonTree,
        local_site_id: JsonTree,
        message: JsonTree,
        message_per_second: JsonTree,
        post: JsonTree,
        post_per_second: JsonTree,
        published: JsonTree,
        register: JsonTree,
        register_per_second: JsonTree,
        search: JsonTree,
        search_per_second: JsonTree,
    )
        ensures
            Self::members(
                None,
                comment_per_second,
                id,
                image,
                image_per_second,
                local_site_id,
                message,
                message_per_second,
                post,
                post_per_second,
                published,
                register,
                register_per_second,
                search,
                search_per_second,
                None,
            ) == Seq::<Member>::empty()
                .push(("comment_per_second"@, comment_per_second))
                .push(("id"@, id))
                .push(("image"@, image))
                .push(("image_per_second"@, image_per_second))
                .push(("local_site_id"@, local_site_id))
                .push(("message"@, message))
                .push(("message_per_second"@, message_per_second))
                .push(("post"@, post))
                .push(("post_per_second"@, post_per_second))
                .push(("published"@, published))
                .push(("register"@, register))
                .push(("register_per_second"@, register_per_second))
                .push(("search"@, search))
                .push(("search_per_second"@, search_per_second)),
    {
        reveal(with_field);
        reveal(with_optional);
    }
}

impl Payload for LocalSiteRateLimit {
    open spec fn tree(&self) -> JsonTree {
        JsonTree::Object(
            Self::members(
                written(self.comments),
                self.comment_per_second.tree(),
                self.id.tree(),
                self.image.tree(),
                self.image_per_second.tree(),
                self.local_site_id.tree(),
                self.message.tree(),
                self.message_per_second.tree(),
                self.post.tree(),
                self.post_per_second.tree(),
                self.published.tree(),
                self.register.tree(),
                self.register_per_second.tree(),
                self.search.tree(),
                self.search_per_second.tree(),
                written(self.updated),
            ),
        )
    }

    open spec fn admits(t: JsonTree) -> bool {
        &&& t is Object
        &&& optional_admits::<i32>(t, "comments"@)
        &&& required_admits::<i32>(t, "comment_per_second"@)
        &&& required_admits::<i32>(t, "id"@)
        &&& required_admits::<i32>(t, "image"@)
        &&& required_admits::<i32>(t, "image_per_second"@)
        &&& required_admits::<i32>(t, "local_site_id"@)
        &&& required_admits::<i32>(t, "message"@)
        &&& required_admits::<i32>(t, "message_per_second"@)
        &&& required_admits::<i32>(t, "post"@)
        &&& required_admits::<i32>(t, "post_per_second"@)
        &&& required_admits::<String>(t, "published"@)
        &&& required_admits::<i32>(t, "register"@)
        &&& required_admits::<i32>(t, "register_per_second"@)
        &&& required_admits::<i32>(t, "search"@)
        &&& required_admits::<i32>(t, "search_per_second"@)
        &&& optional_admits::<String>(t, "updated"@)
    }

    open spec fn agrees(&self, t: JsonTree) -> bool {
        &&& optional_agrees(self.comments, t, "comments"@)
        &&& required_agrees(self.comment_per_second, t, "comment_per_second"@)
        &&& required_agrees(self.id, t, "id"@)
        &&& required_agrees(self.image, t, "image"@)
        &&& required_agrees(self.image_per_second, t, "image_per_second"@)
        &&& required_agrees(self.local_site_id, t, "local_site_id"@)
        &&& required_agrees(self.message, t, "message"@)
        &&& required_agrees(self.message_per_second, t, "message_per_second"@)
        &&& required_agrees(self.post, t, "post"@)
        &&& required_agrees(self.post_per_second, t, "post_per_second"@)
        &&& required_agrees(self.published, t, "published"@)
        &&& required_agrees(self.register, t, "register"@)
        &&& required_agrees(self.register_per_second, t, "register_per_second"@)
        &&& required_agrees(self.search, t, "search"@)
        &&& required_agrees(self.search_per_second, t, "search_per_second"@)
        &&& optional_agrees(self.updated, t, "updated"@)
    }

    fn to_json(&self) -> (out: JsonValue) {
        let mut members: Vec<(String, JsonValue)> = Vec::new();
        assert(members_view(members@) =~= Seq::empty());
        put_optional(&mut members, "comments", &self.comments);
        put(&mut members, "comment_per_second", &self.comment_per_second);
        put(&mut members, "id", &self.id);
        put(&mut members, "image", &self.image);
        put(&mut members, "image_per_second", &self.image_per_second);
        put(&mut members, "local_site_id", &self.local_site_id);
        put(&mut members, "message", &self.message);
        put(&mut members, "message_per_second", &self.message_per_second);
        put(&mut members, "post", &self.post);
        put(&mut members, "post_per_second", &self.post_per_second);
        put(&mut members, "published", &self.published);
        put(&mut members, "register", &self.register);
        put(&mut members, "register_per_second", &self.register_per_second);
        put(&mut members, "search", &self.search);
        put(&mut members, "search_per_second", &self.search_per_second);
        put_optional(&mut members, "updated", &self.updated);
        object(members)
    }

    fn from_json(v: &JsonValue) -> (res: Option<Self>) {
        if !v.is_object() {
            return None;
        }
        let comments = optional::<i32>(v, "comments")?;
        let comment_per_second = required::<i32>(v, "comment_per_second")?;
        let id = required::<i32>(v, "id")?;
        let image = required::<i32>(v, "image")?;
        let image_per_second = required::<i32>(v, "image_per_second")?;
        let local_site_id = required::<i32>(v, "local_site_id")?;
        let message = required::<i32>(v, "message")?;
        let message_per_second = required::<i32>(v, "message_per_second")?;
        let post = required::<i32>(v, "post")?;
        let post_per_second = required::<i32>(v, "post_per_second")?;
        let published = required::<String>(v, "published")?;
        let register = required::<i32>(v, "register")?;
        let register_per_second = required::<i32>(v, "register_per_second")?;
        let search = required::<i32>(v, "search")?;
        let search_per_second = required::<i32>(v, "search_per_second")?;
        let updated = optional::<String>(v, "updated")?;
        Some(
            LocalSiteRateLimit {
                comments,
                comment_per_second,
                id,
                image,
                image_per_second,
                local_site_id,
                message,
                message_per_second,
                post,
                post_per_second,
                published,
                register,
                register_per_second,
                search,
                search_per_second,
                updated,
            },
        )
    }

    proof fn lemma_round_trip(&self) {
        Self::lemma_members(
            written(self.comments),
            self.comment_per_second.tree(),
            self.id.tree(),
            self.image.tree(),
            self.image_per_second.tree(),
            self.local_site_id.tree(),
            self.message.tree(),
            self.message_per_second.tree(),
            self.post.tree(),
            self.post_per_second.tree(),
            self.published.tree(),
            self.register.tree(),
            self.register_per_second.tree(),
            self.search.tree(),
            self.search_per_second.tree(),
            written(self.updated),
        );
        lemma_optional_round_trip(self.comments);
        self.comment_per_second.lemma_round_trip();
        self.id.lemma_round_trip();
        self.image.lemma_round_trip();
        self.image_per_second.lemma_round_trip();
        self.local_site_id.lemma_round_trip();
        self.message.lemma_round_trip();
        self.message_per_second.lemma_round_trip();
        self.post.lemma_round_trip();
        self.post_per_second.lemma_round_trip();
        self.published.lemma_round_trip();
        self.register.lemma_round_trip();
        self.register_per_second.lemma_round_trip();
        self.search.lemma_round_trip();
        self.search_per_second.lemma_round_trip();
        lemma_optional_round_trip(self.updated);
    }

    proof fn lemma_reads_one(&self, other: &Self, t: JsonTree) {
        lemma_optional_reads_one(self.comments, other.comments, t, "comments"@);
        lemma_required_reads_one(
            self.comment_per_second,
            other.comment_per_second,
            t,
            "comment_per_second"@,
        );
        lemma_required_reads_one(self.id, other.id, t, "id"@);
        lemma_required_reads_one(self.image, other.image, t, "image"@);
        lemma_required_reads_one(
            self.image_per_second,
            other.image_per_second,
            t,
            "image_per_second"@,
        );
        lemma_required_reads_one(self.local_site_id, other.local_site_id, t, "local_site_id"@);
        lemma_required_reads_one(self.message, other.message, t, "message"@);
        lemma_required_reads_one(
            self.message_per_second,
            other.message_per_second,
            t,
            "message_per_second"@,
        );
        lemma_required_reads_one(self.post, other.post, t, "post"@);
        lemma_required_reads_one(
            self.post_per_second,
            other.post_per_second,
            t,
            "post_per_second"@,
        );
        lemma_required_reads_one(self.published, other.published, t, "published"@);
        lemma_required_reads_one(self.register, other.register, t, "register"@);
        lemma_required_reads_one(
            self.register_per_second,
            other.register_per_second,
            t,
            "register_per_second"@,
        );
        lemma_required_reads_one(self.search, other.search, t, "search"@);
        lemma_required_reads_one(
            self.search_per_second,
            other.search_per_second,
            t,
            "search_per_second"@,
        );
        lemma_optional_reads_one(self.updated, other.updated, t, "updated"@);
    }
}

#[derive(Clone, Debug, PartialEq, Default)]
pub struct Site {
    pub actor_id: String,
    pub banner: Option<String>,
    pub description: Option<String>,
    pub icon: Option<String>,
    pub id: i32,
    pub inbox_url: String,
    pub instance_id: i32,
    pub last_refreshed_at: String,
    pub name: String,
    pub private_key: Option<String>,
    pub public_key: String,
    pub published: String,
    pub sidebar: Option<String>,
    pub updated_at: Option<String>,
}

impl Site {
    /// The members that a record is written as, from what is written for
    /// each of its fields.
    pub open spec fn members(
        actor_id: JsonTree,
        banner: Option<JsonTree>,
        description: Option<JsonTree>,
        icon: Option<JsonTree>,
        id: JsonTree,
        inbox_url: JsonTree,
        instance_id: JsonTree,
        last_refreshed_at: JsonTree,
        name: JsonTree,
        private_key: Option<JsonTree>,
        public_key: JsonTree,
        published: JsonTree,
        sidebar: Option<JsonTree>,
        updated_at: Option<JsonTree>,
    ) -> Seq<Member> {
        let members = Seq::empty();
        let members = with_field(members, "actor_id"@, actor_id);
        let members = with_optional(members, "banner"@, banner);
        let members = with_optional(members, "description"@, description);
        let members = with_optional(members, "icon"@, icon);
        let members = with_field(members, "id"@, id);
        let members = with_field(members, "inbox_url"@, inbox_url);
        let members = with_field(members, "instance_id"@, instance_id);
        let members = with_field(members, "last_refreshed_at"@, last_refreshed_at);
        let members = with_field(members, "name"@, name);
        let members = with_optional(members, "private_key"@, private_key);
        let members = with_field(members, "public_key"@, public_key);
        let members = with_field(members, "published"@, published);
        let members = with_optional(members, "sidebar"@, sidebar);
        let members = with_optional(members, "updated_at"@, updated_at);
        members
    }

    /// Each key leads to what was written under it, and to nothing where
    /// nothing was written.
    pub proof fn lemma_members(
        actor_id: JsonTree,
        banner: Option<JsonTree>,
        description: Option<JsonTree>,
        icon: Option<JsonTree>,
        id: JsonTree,
        inbox_url: JsonTree,
        instance_id: JsonTree,
        last_refreshed_at: JsonTree,
        name: JsonTree,
        private_key: Option<JsonTree>,
        public_key: JsonTree,
        published: JsonTree,
        sidebar: Option<JsonTree>,
        updated_at: Option<JsonTree>,
    )
        ensures
            ({
                let members = Self::members(
                    actor_id,
                    banner,
                    description,
                    icon,
                    id,
                    inbox_url,
                    instance_id,
                    last_refreshed_at,
                    name,
                    private_key,
                    public_key,
                    published,
                    sidebar,
                    updated_at,
                );
                &&& lookup(members, "actor_id"@) == Some(actor_id)
                &&& lookup(members, "banner"@) == banner
                &&& lookup(members, "description"@) == description
                &&& lookup(members, "icon"@) == icon
                &&& lookup(members, "id"@) == Some(id)
                &&& lookup(members, "inbox_url"@) == Some(inbox_url)
                &&& lookup(members, "instance_id"@) == Some(instance_id)
                &&& lookup(members, "last_refreshed_at"@) == Some(last_refreshed_at)
                &&& lookup(members, "name"@) == Some(name)
                &&& lookup(members, "private_key"@) == private_key
                &&& lookup(members, "public_key"@) == Some(public_key)
                &&& lookup(members, "published"@) == Some(published)
                &&& lookup(members, "sidebar"@) == sidebar
                &&& lookup(members, "updated_at"@) == updated_at
            }),
    {
        broadcast use group_written_members;

        reveal_strlit("actor_id");
        reveal_strlit("banner");
        reveal_strlit("description");
        reveal_strlit("icon");
        reveal_strlit("id");
        reveal_strlit("inbox_url");
        reveal_strlit("instance_id");
        reveal_strlit("last_refreshed_at");
        reveal_strlit("name");
        reveal_strlit("private_key");
        reveal_strlit("public_key");
        reveal_strlit("published");
        reveal_strlit("sidebar");
        reveal_strlit("updated_at");
        assert("actor_id"@.len() == 8);
        assert("banner"@.len() == 6);
        assert("description"@.len() == 11 && "description"@[0] == 'd');
        assert("icon"@.len() == 4 && "icon"@[0] == 'i');
        assert("id"@.len() == 2);
        assert("inbox_url"@.len() == 9 && "inbox_url"@[0] == 'i');
        assert("instance_id"@.len() == 11 && "instance_id"@[0] == 'i');
        assert("last_refreshed_at"@.len() == 17);
        assert("name"@.len() == 4 && "name"@[0] == 'n');
        assert("private_key"@.len() == 11 && "private_key"@[0] == 'p');
        assert("public_key"@.len() == 10 && "public_key"@[0] == 'p');
        assert("published"@.len() == 9 && "published"@[0] == 'p');
        assert("sidebar"@.len() == 7);
        assert("updated_at"@.len() == 10 && "updated_at"@[0] == 'u');
    }

    /// With every optional field absent, the mandatory fields are written
    /// and nothing else.
    pub proof fn lemma_mandatory_fields_alone(
        actor_id: JsonTree,
        id: JsonTree,
        inbox_url: JsonTree,
        instance_id: JsonTree,
        last_refreshed_at: JsonTree,
        name: JsonTree,
        public_key: JsonTree,
        published: JsonTree,
    )
        ensures
            Self::members(
                actor_id,
                None,
                None,
                None,
                id,
                inbox_url,
                instance_id,
                last_refreshed_at,
                name,
                None,
                public_key,
                published,
                None,
                None,
            ) == Seq::<Member>::empty()
                .push(("actor_id"@, actor_id))
                .push(("id"@, id))
                .push(("inbox_url"@, inbox_url))
                .push(("instance_id"@, instance_id))
                .push(("last_refreshed_at"@, last_refreshed_at))
                .push(("name"@, name))
                .push(("public_key"@, public_key))
                .push(("published"@, published)),
    {
        reveal(with_field);
        reveal(with_optional);
    }
}

impl Payload for Site {
    open spec fn tree(&self) -> JsonTree {
        JsonTree::Object(
            Self::members(
                self.actor_id.tree(),
                written(self.banner),
                written(self.description),
                written(self.icon),
                self.id.tree(),
                self.inbox_url.tree(),
                self.instance_id.tree(),
                self.last_refreshed_at.tree(),
                self.name.tree(),
                written(self.private_key),
                self.public_key.tree(),
                self.published.tree(),
                written(self.sidebar),
                written(self.updated_at),
            ),
        )
    }

    open spec fn admits(t: JsonTree) -> bool {
        &&& t is Object
        &&& required_admits::<String>(t, "actor_id"@)
        &&& optional_admits::<String>(t, "banner"@)
        &&& optional_admits::<String>(t, "description"@)
        &&& optional_admits::<String>(t, "icon"@)
        &&& required_admits::<i32>(t, "id"@)
        &&& required_admits::<String>(t, "inbox_url"@)
        &&& required_admits::<i32>(t, "instance_id"@)
        &&& required_admits::<String>(t, "last_refreshed_at"@)
        &&& required_admits::<String>(t, "name"@)
        &&& optional_admits::<String>(t, "private_key"@)
        &&& required_admits::<String>(t, "public_key"@)
        &&& required_admits::<String>(t, "published"@)
        &&& optional_admits::<String>(t, "sidebar"@)
        &&& optional_admits::<String>(t, "updated_at"@)
    }

    open spec fn agrees(&self, t: JsonTree) -> bool {
        &&& required_agrees(self.actor_id, t, "actor_id"@)
        &&& optional_agrees(self.banner, t, "banner"@)
        &&& optional_agrees(self.description, t, "description"@)
        &&& optional_agrees(self.icon, t, "icon"@)
        &&& required_agrees(self.id, t, "id"@)
        &&& required_agrees(self.inbox_url, t, "inbox_url"@)
        &&& required_agrees(self.instance_id, t, "instance_id"@)
        &&& required_agrees(self.last_refreshed_at, t, "last_refreshed_at"@)
        &&& required_agrees(self.name, t, "name"@)
        &&& optional_agrees(self.private_key, t, "private_key"@)
        &&& required_agrees(self.public_key, t, "public_key"@)
        &&& required_agrees(self.published, t, "published"@)
        &&& optional_agrees(self.sidebar, t, "sidebar"@)
        &&& optional_agrees(self.updated_at, t, "updated_at"@)
    }

    fn to_json(&self) -> (out: JsonValue) {
        let mut members: Vec<(String, JsonValue)> = Vec::new();
        assert(members_view(members@) =~= Seq::empty());
        put(&mut members, "actor_id", &self.actor_id);
        put_optional(&mut members, "banner", &self.banner);
        put_optional(&mut members, "description", &self.description);
        put_optional(&mut members, "icon", &self.icon);
        put(&mut members, "id", &self.id);
        put(&mut members, "inbox_url", &self.inbox_url);
        put(&mut members, "instance_id", &self.instance_id);
        put(&mut members, "last_refreshed_at", &self.last_refreshed_at);
        put(&mut members, "name", &self.name);
        put_optional(&mut members, "private_key", &self.private_key);
        put(&mut members, "public_key", &self.public_key);
        put(&mut members, "published", &self.published);
        put_optional(&mut members, "sidebar", &self.sidebar);
        put_optional(&mut members, "updated_at", &self.updated_at);
        object(members)
    }

    fn from_json(v: &JsonValue) -> (res: Option<Self>) {
        if !v.is_object() {
            return None;
        }
        let actor_id = required::<String>(v, "actor_id")?;
        let banner = optional::<String>(v, "banner")?;
        let description = optional::<String>(v, "description")?;
        let icon = optional::<String>(v, "icon")?;
        let id = required::<i32>(v, "id")?;
        let inbox_url = required::<String>(v, "inbox_url")?;
        let instance_id = required::<i32>(v, "instance_id")?;
        let last_refreshed_at = required::<String>(v, "last_refreshed_at")?;
        let name = required::<String>(v, "name")?;
        let private_key = optional::<String>(v, "private_key")?;
        let public_key = required::<String>(v, "public_key")?;
        let published = required::<String>(v, "published")?;
        let sidebar = optional::<String>(v, "sidebar")?;
        let updated_at = optional::<String>(v, "updated_at")?;
        Some(
            Site {
                actor_id,
                banner,
                description,
                icon,
                id,
                inbox_url,
                instance_id,
                last_refreshed_at,
                name,
                private_key,
                public_key,
                published,
                sidebar,
                updated_at,
            },
        )
    }

    proof fn lemma_round_trip(&self) {
        Self::lemma_members(
            self.actor_id.tree(),
            written(self.banner),
            written(self.description),
            written(self.icon),
            self.id.tree(),
            self.inbox_url.tree(),
            self.instance_id.tree(),
            self.last_refreshed_at.tree(),
            self.name.tree(),
            written(self.private_key),
            self.public_key.tree(),
            self.published.tree(),
            written(self.sidebar),
            written(self.updated_at),
        );
        self.actor_id.lemma_round_trip();
        lemma_optional_round_trip(self.banner);
        lemma_optional_round_trip(self.description);
        lemma_optional_round_trip(self.icon);
        self.id.lemma_round_trip();
        self.inbox_url.lemma_round_trip();
        self.instance_id.lemma_round_trip();
        self.last_refreshed_at.lemma_round_trip();
        self.name.lemma_round_trip();
        lemma_optional_round_trip(self.private_key);
        self.public_key.lemma_round_trip();
        self.published.lemma_round_trip();
        lemma_optional_round_trip(self.sidebar);
        lemma_optional_round_trip(self.updated_at);
    }

    proof fn lemma_reads_one(&self, other: &Self, t: JsonTree) {
        lemma_required_reads_one(self.actor_id, other.actor_id, t, "actor_id"@);
        lemma_optional_reads_one(self.banner, other.banner, t, "banner"@);
        lemma_optional_reads_one(self.description, other.description, t, "description"@);
        lemma_optional_reads_one(self.icon, other.icon, t, "icon"@);
        lemma_required_reads_one(self.id, other.id, t, "id"@);
        lemma_required_reads_one(self.inbox_url, other.inbox_url, t, "inbox_url"@);
        lemma_required_reads_one(self.instance_id, other.instance_id, t, "instance_id"@);
        lemma_required_reads_one(
            self.last_refreshed_at,
            other.last_refreshed_at,
            t,
            "last_refreshed_at"@,
        );
        lemma_required_reads_one(self.name, other.name, t, "name"@);
        lemma_optional_reads_one(self.private_key, other.private_key, t, "private_key"@);
        lemma_required_reads_one(self.public_key, other.public_key, t, "public_key"@);
        lemma_required_reads_one(self.published, other.published, t, "published"@);
        lemma_optional_reads_one(self.sidebar, other.sidebar, t, "sidebar"@);
        lemma_optional_reads_one(self.updated_at, other.updated_at, t, "updated_at"@);
    }
}

#[derive(Clone, Debug, PartialEq, Default)]
pub struct SiteAggregates {
    pub comments: Option<i32>,
    pub communities: i32,
    pub id: i32,
    pub posts: i32,
    pub site_id: i32,
    pub users: i32,
    pub users_active_day: i32,
    pub users_active_half_year: i32,
    pub users_active_month: i32,
    pub users_active_week: i32,
}

impl SiteAggregates {
    /// The members that a record is written as, from what is written for
    /// each of its fields.
    pub open spec fn members(
        comments: Option<JsonTree>,
        communities: JsonTree,
        id: JsonTree,
        posts: JsonTree,
        site_id: JsonTree,
        users: JsonTree,
        users_active_day: JsonTree,
        users_active_half_year: JsonTree,
        users_active_month: JsonTree,
        users_active_week: JsonTree,
    ) -> Seq<Member> {
        let members = Seq::empty();
        let members = with_optional(members, "comments"@, comments);
        let members = with_field(members, "communities"@, communities);
        let members = with_field(members, "id"@, id);
        let members = with_field(members, "posts"@, posts);
        let members = with_field(members, "site_id"@, site_id);
        let members = with_field(members, "users"@, users);
        let members = with_field(members, "users_active_day"@, users_active_day);
        let members = with_field(members, "users_active_half_year"@, users_active_half_year);
        let members = with_field(members, "users_active_month"@, users_active_month);
        let members = with_field(members, "users_active_week"@, users_active_week);
        members
    }

    /// Each key leads to what was written under it, and to nothing where
    /// nothing was written.
    pub proof fn lemma_members(
        comments: Option<JsonTree>,
        communities: JsonTree,
        id: JsonTree,
        posts: JsonTree,
        site_id: JsonTree,
        users: JsonTree,
        users_active_day: JsonTree,
        users_active_half_year: JsonTree,
        users_active_month: JsonTree,
        users_active_week: JsonTree,
    )
        ensures
            ({
                let members = Self::members(
                    comments,
                    communities,
                    id,
                    posts,
                    site_id,
                    users,
                    users_active_day,
                    users_active_half_year,
                    users_active_month,
                    users_active_week,
                );
                &&& lookup(members, "comments"@) == comments
                &&& lookup(members, "communities"@) == Some(communities)
                &&& lookup(members, "id"@) == Some(id)
                &&& lookup(members, "posts"@) == Some(posts)
                &&& lookup(members, "site_id"@) == Some(site_id)
                &&& lookup(members, "users"@) == Some(users)
                &&& lookup(members, "users_active_day"@) == Some(users_active_day)
                &&& lookup(members, "users_active_half_year"@) == Some(users_active_half_year)
                &&& lookup(members, "users_active_month"@) == Some(users_active_month)
                &&& lookup(members, "users_active_week"@) == Some(users_active_week)
            }),
    {
        broadcast use group_written_members;

        reveal_strlit("comments");
        reveal_strlit("communities");
        reveal_strlit("id");
        reveal_strlit("posts");
        reveal_strlit("site_id");
        reveal_strlit("users");
        reveal_strlit("users_active_day");
        reveal_strlit("users_active_half_year");
        reveal_strlit("users_active_month");
        reveal_strlit("users_active_week");
        assert("comments"@.len() == 8);
        assert("communities"@.len() == 11);
        assert("id"@.len() == 2);
        assert("posts"@.len() == 5 && "posts"@[0] == 'p');
        assert("site_id"@.len() == 7);
        assert("users"@.len() == 5 && "users"@[0] == 'u');
        assert("users_active_day"@.len() == 16);
        assert("users_active_half_year"@.len() == 22);
        assert("users_active_month"@.len() == 18);
        assert("users_active_week"@.len() == 17);
    }

    /// With every optional field absent, the mandatory fields are written
    /// and nothing else.
    pub proof fn lemma_mandatory_fields_alone(
        communities: JsonTree,
        id: JsonTree,
        posts: JsonTree,
        site_id: JsonTree,
        users: JsonTree,
        users_active_day: JsonTree,
        users_active_half_year: JsonTree,
        users_active_month: JsonTree,
        users_active_week: JsonTree,
    )
        ensures
            Self::members(
                None,
                communities,
                id,
                posts,
                site_id,
                users,
                users_active_day,
                users_active_half_year,
                users_active_month,
                users_active_week,
            ) == Seq::<Member>::empty()
                .push(("communities"@, communities))
                .push(("id"@, id))
                .push(("posts"@, posts))
                .push(("site_id"@, site_id))
                .push(("users"@, users))
                .push(("users_active_day"@, users_active_day))
                .push(("users_active_half_year"@, users_active_half_year))
                .push(("users_active_month"@, users_active_month))
                .push(("users_active_week"@, users_active_week)),
    {
        reveal(with_field);
        reveal(with_optional);
    }
}

impl Payload for SiteAggregates {
    open spec fn tree(&self) -> JsonTree {
        JsonTree::Object(
            Self::members(
                written(self.comments),
                self.communities.tree(),
                self.id.tree(),
                self.posts.tree(),
                self.site_id.tree(),
                self.users.tree(),
                self.users_active_day.tree(),
                self.users_active_half_year.tree(),
                self.users_active_month.tree(),
                self.users_active_week.tree(),
            ),
        )
    }

    open spec fn admits(t: JsonTree) -> bool {
        &&& t is Object
        &&& optional_admits::<i32>(t, "comments"@)
        &&& required_admits::<i32>(t, "communities"@)
        &&& required_admits::<i32>(t, "id"@)
        &&& required_admits::<i32>(t, "posts"@)
        &&& required_admits::<i32>(t, "site_id"@)
        &&& required_admits::<i32>(t, "users"@)
        &&& required_admits::<i32>(t, "users_active_day"@)
        &&& required_admits::<i32>(t, "users_active_half_year"@)
        &&& required_admits::<i32>(t, "users_active_month"@)
        &&& required_admits::<i32>(t, "users_active_week"@)
    }

    open spec fn agrees(&self, t: JsonTree) -> bool {
        &&& optional_agrees(self.comments, t, "comments"@)
        &&& required_agrees(self.communities, t, "communities"@)
        &&& required_agrees(self.id, t, "id"@)
        &&& required_agrees(self.posts, t, "posts"@)
        &&& required_agrees(self.site_id, t, "site_id"@)
        &&& required_agrees(self.users, t, "users"@)
        &&& required_agrees(self.users_active_day, t, "users_active_day"@)
        &&& required_agrees(self.users_active_half_year, t, "users_active_half_year"@)
        &&& required_agrees(self.users_active_month, t, "users_active_month"@)
        &&& required_agrees(self.users_active_week, t, "users_active_week"@)
    }

    fn to_json(&self) -> (out: JsonValue) {
        let mut members: Vec<(String, JsonValue)> = Vec::new();
        assert(members_view(members@) =~= Seq::empty());
        put_optional(&mut members, "comments", &self.comments);
        put(&mut members, "communities", &self.communities);
        put(&mut members, "id", &self.id);
        put(&mut members, "posts", &self.posts);
        put(&mut members, "site_id", &self.site_id);
        put(&mut members, "users", &self.users);
        put(&mut members, "users_active_day", &self.users_active_day);
        put(&mut members, "users_active_half_year", &self.users_active_half_year);
        put(&mut members, "users_active_month", &self.users_active_month);
        put(&mut members, "users_active_week", &self.users_active_week);
        object(members)
    }

    fn from_json(v: &JsonValue) -> (res: Option<Self>) {
        if !v.is_object() {
            return None;
        }
        let comments = optional::<i32>(v, "comments")?;
        let communities = required::<i32>(v, "communities")?;
        let id = required::<i32>(v, "id")?;
        let posts = required::<i32>(v, "posts")?;
        let site_id = required::<i32>(v, "site_id")?;
        let users = required::<i32>(v, "users")?;
        let users_active_day = required::<i32>(v, "users_active_day")?;
        let users_active_half_year = required::<i32>(v, "users_active_half_year")?;
        let users_active_month = required::<i32>(v, "users_active_month")?;
        let users_active_week = required::<i32>(v, "users_active_week")?;
        Some(
            SiteAggregates {
                comments,
                communities,
                id,
                posts,
                site_id,
                users,
                users_active_day,
                users_active_half_year,
                users_active_month,
                users_active_week,
            },
        )
    }

    proof fn lemma_round_trip(&self) {
        Self::lemma_members(
            written(self.comments),
            self.communities.tree(),
            self.id.tree(),
            self.posts.tree(),
            self.site_id.tree(),
            self.users.tree(),
            self.users_active_day.tree(),
            self.users_active_half_year.tree(),
            self.users_active_month.tree(),
            self.users_active_week.tree(),
        );
        lemma_optional_round_trip(self.comments);
        self.communities.lemma_round_trip();
        self.id.lemma_round_trip();
        self.posts.lemma_round_trip();
        self.site_id.lemma_round_trip();
        self.users.lemma_round_trip();
        self.users_active_day.lemma_round_trip();
        self.users_active_half_year.lemma_round_trip();
        self.users_active_month.lemma_round_trip();
        self.users_active_week.lemma_round_trip();
    }

    proof fn lemma_reads_one(&self, other: &Self, t: JsonTree) {
        lemma_optional_reads_one(self.comments, other.comments, t, "comments"@);
        lemma_required_reads_one(self.communities, other.communities, t, "communities"@);
        lemma_required_reads_one(self.id, other.id, t, "id"@);
        lemma_required_reads_one(self.posts, other.posts, t, "posts"@);
        lemma_required_reads_one(self.site_id, other.site_id, t, "site_id"@);
        lemma_required_reads_one(self.users, other.users, t, "users"@);
        lemma_required_reads_one(
            self.users_active_day,
            other.users_active_day,
            t,
            "users_active_day"@,
        );
        lemma_required_reads_one(
            self.users_active_half_year,
            other.users_active_half_year,
            t,
            "users_active_half_year"@,
        );
        lemma_required_reads_one(
            self.users_active_month,
            other.users_active_month,
            t,
            "users_active_month"@,
        );
        lemma_required_reads_one(
            self.users_active_week,
            other.users_active_week,
            t,
            "users_active_week"@,
        );
    }
}

#[derive(Clone, Debug, PartialEq, Default)]
pub struct SiteMetadata {
    pub description: Option<String>,
    pub embed_video_url: Option<String>,
    pub image: Option<String>,
    pub title: Option<String>,
}

impl SiteMetadata {
    /// The members that a record is written as, from what is written for
    /// each of its fields.
    pub open spec fn members(
        description: Option<JsonTree>,
        embed_video_url: Option<JsonTree>,
        image: Option<JsonTree>,
        title: Option<JsonTree>,
    ) -> Seq<Member> {
        let members = Seq::empty();
        let members = with_optional(members, "description"@, description);
        let members = with_optional(members, "embed_video_url"@, embed_video_url);
        let members = with_optional(members, "image"@, image);
        let members = with_optional(members, "title"@, title);
        members
    }

    /// Each key leads to what was written under it, and to nothing where
    /// nothing was written.
    pub proof fn lemma_members(
        description: Option<JsonTree>,
        embed_video_url: Option<JsonTree>,
        image: Option<JsonTree>,
        title: Option<JsonTree>,
    )
        ensures
            ({
                let members = Self::members(description, embed_video_url, image, title);
                &&& lookup(members, "description"@) == description
                &&& lookup(members, "embed_video_url"@) == embed_video_url
                &&& lookup(members, "image"@) == image
                &&& lookup(members, "title"@) == title
            }),
    {
        broadcast use group_written_members;

        reveal_strlit("description");
        reveal_strlit("embed_video_url");
        reveal_strlit("image");
        reveal_strlit("title");
        assert("description"@.len() == 11);
        assert("embed_video_url"@.len() == 15);
        assert("image"@.len() == 5 && "image"@[0] == 'i');
        assert("title"@.len() == 5 && "title"@[0] == 't');
    }

    /// With every field absent, nothing is written.
    pub proof fn lemma_mandatory_fields_alone()
        ensures
            Self::members(None, None, None, None) == Seq::<Member>::empty(),
    {
        reveal(with_field);
        reveal(with_optional);
    }
}

impl Payload for SiteMetadata {
    open spec fn tree(&self) -> JsonTree {
        JsonTree::Object(
            Self::members(
                written(self.description),
                written(self.embed_video_url),
                written(self.image),
                written(self.title),
            ),
        )
    }

    open spec fn admits(t: JsonTree) -> bool {
        &&& t is Object
        &&& optional_admits::<String>(t, "description"@)
        &&& optional_admits::<String>(t, "embed_video_url"@)
        &&& optional_admits::<String>(t, "image"@)
        &&& optional_admits::<String>(t, "title"@)
    }

    open spec fn agrees(&self, t: JsonTree) -> bool {
        &&& optional_agrees(self.description, t, "description"@)
        &&& optional_agrees(self.embed_video_url, t, "embed_video_url"@)
        &&& optional_agrees(self.image, t, "image"@)
        &&& optional_agrees(self.title, t, "title"@)
    }

    fn to_json(&self) -> (out: JsonValue) {
        let mut members: Vec<(String, JsonValue)> = Vec::new();
        assert(members_view(members@) =~= Seq::empty());
        put_optional(&mut members, "description", &self.description);
        put_optional(&mut members, "embed_video_url", &self.embed_video_url);
        put_optional(&mut members, "image", &self.image);
        put_optional(&mut members, "title", &self.title);
        object(members)
    }

    fn from_json(v: &JsonValue) -> (res: Option<Self>) {
        if !v.is_object() {
            return None;
        }
        let description = optional::<String>(v, "description")?;
        let embed_video_url = optional::<String>(v, "embed_video_url")?;
        let image = optional::<String>(v, "image")?;
        let title = optional::<String>(v, "title")?;
        Some(SiteMetadata { description, embed_video_url, image, title })
    }

    proof fn lemma_round_trip(&self) {
        Self::lemma_members(
            written(self.description),
            written(self.embed_video_url),
            written(self.image),
            written(self.title),
        );
        lemma_optional_round_trip(self.description);
        lemma_optional_round_trip(self.embed_video_url);
        lemma_optional_round_trip(self.image);
        lemma_optional_round_trip(self.title);
    }

    proof fn lemma_reads_one(&self, other: &Self, t: JsonTree) {
        lemma_optional_reads_one(self.description, other.description, t, "description"@);
        lemma_optional_reads_one(
            self.embed_video_url,
            other.embed_video_url,
            t,
            "embed_video_url"@,
        );
        lemma_optional_reads_one(self.image, other.image, t, "image"@);
        lemma_optional_reads_one(self.title, other.title, t, "title"@);
    }
}

#[derive(Clone, Debug, PartialEq, Default)]
pub struct SiteResponse {
    pub site_view: SiteView,
    pub taglines: Vec<Tagline>,
}

impl SiteResponse {
    /// The members that a record is written as, from what is written for
    /// each of its fields.
    pub open spec fn members(site_view: JsonTree, taglines: JsonTree) -> Seq<Member> {
        let members = Seq::empty();
        let members = with_field(members, "site_view"@, site_view);
        let members = with_field(members, "taglines"@, taglines);
        members
    }

    /// Each key leads to what was written under it, and to nothing where
    /// nothing was written.
    pub proof fn lemma_members(site_view: JsonTree, taglines: JsonTree)
        ensures
            ({
                let members = Self::members(site_view, taglines);
                &&& lookup(members, "site_view"@) == Some(site_view)
                &&& lookup(members, "taglines"@) == Some(taglines)
            }),
    {
        broadcast use group_written_members;

        reveal_strlit("site_view");
        reveal_strlit("taglines");
        assert("site_view"@.len() == 9);
        assert("taglines"@.len() == 8);
    }

    /// Every field is mandatory: each is written, in order, and nothing
    /// else.
    pub proof fn lemma_mandatory_fields_alone(site_view: JsonTree, taglines: JsonTree)
        ensures
            Self::members(site_view, taglines) == Seq::<Member>::empty()
                .push(("site_view"@, site_view))
                .push(("taglines"@, taglines)),
    {
        reveal(with_field);
        reveal(with_optional);
    }
}

impl Payload for SiteResponse {
    open spec fn tree(&self) -> JsonTree {
        JsonTree::Object(Self::members(self.site_view.tree(), self.taglines.tree()))
    }

    open spec fn admits(t: JsonTree) -> bool {
        &&& t is Object
        &&& required_admits::<SiteView>(t, "site_view"@)
        &&& required_admits::<Vec<Tagline>>(t, "taglines"@)
    }

    open spec fn agrees(&self, t: JsonTree) -> bool {
        &&& required_agrees(self.site_view, t, "site_view"@)
        &&& required_agrees(self.taglines, t, "taglines"@)
    }

    fn to_json(&self) -> (out: JsonValue) {
        let mut members: Vec<(String, JsonValue)> = Vec::new();
        assert(members_view(members@) =~= Seq::empty());
        put(&mut members, "site_view", &self.site_view);
        put(&mut members, "taglines", &self.taglines);
        object(members)
    }

    fn from_json(v: &JsonValue) -> (res: Option<Self>) {
        if !v.is_object() {
            return None;
        }
        let site_view = required::<SiteView>(v, "site_view")?;
        let taglines = required::<Vec<Tagline>>(v, "taglines")?;
        Some(SiteResponse { site_view, taglines })
    }

    proof fn lemma_round_trip(&self) {
        Self::lemma_members(self.site_view.tree(), self.taglines.tree());
        self.site_view.lemma_round_trip();
        self.taglines.lemma_round_trip();
    }

    proof fn lemma_reads_one(&self, other: &Self, t: JsonTree) {
        lemma_required_reads_one(self.site_view, other.site_view, t, "site_view"@);
        lemma_required_reads_one(self.taglines, other.taglines, t, "taglines"@);
    }
}

#[derive(Clone, Debug, PartialEq, Default)]
pub struct SiteView {
    pub counts: SiteAggregates,
    pub local_site: LocalSite,
    pub local_site_rate_limit: LocalSiteRateLimit,
    pub site: Site,
}

impl SiteView {
    /// The members that a record is written as, from what is written for
    /// each of its fields.
    pub open spec fn members(
        counts: JsonTree,
        local_site: JsonTree,
        local_site_rate_limit: JsonTree,
        site: JsonTree,
    ) -> Seq<Member> {
        let members = Seq::empty();
        let members = with_field(members, "counts"@, counts);
        let members = with_field(members, "local_site"@, local_site);
        let members = with_field(members, "local_site_rate_limit"@, local_site_rate_limit);
        let members = with_field(members, "site"@, site);
        members
    }

    /// Each key leads to what was written under it, and to nothing where
    /// nothing was written.
    pub proof fn lemma_members(
        counts: JsonTree,
        local_site: JsonTree,
        local_site_rate_limit: JsonTree,
        site: JsonTree,
    )
        ensures
            ({
                let members = Self::members(counts, local_site, local_site_rate_limit, site);
                &&& lookup(members, "counts"@) == Some(counts)
                &&& lookup(members, "local_site"@) == Some(local_site)
                &&& lookup(members, "local_site_rate_limit"@) == Some(local_site_rate_limit)
                &&& lookup(members, "site"@) == Some(site)
            }),
    {
        broadcast use group_written_members;

        reveal_strlit("counts");
        reveal_strlit("local_site");
        reveal_strlit("local_site_rate_limit");
        reveal_strlit("site");
        assert("counts"@.len() == 6);
        assert("local_site"@.len() == 10);
        assert("local_site_rate_limit"@.len() == 21);
        assert("site"@.len() == 4);
    }

    /// Every field is mandatory: each is written, in order, and nothing
    /// else.
    pub proof fn lemma_mandatory_fields_alone(
        counts: JsonTree,
        local_site: JsonTree,
        local_site_rate_limit: JsonTree,
        site: JsonTree,
    )
        ensures
            Self::members(counts, local_site, local_site_rate_limit, site) == Seq::<Member>::empty()
                .push(("counts"@, counts))
                .push(("local_site"@, local_site))
                .push(("local_site_rate_limit"@, local_site_rate_limit))
                .push(("site"@, site)),
    {
        reveal(with_field);
        reveal(with_optional);
    }
}

impl Payload for SiteView {
    open spec fn tree(&self) -> JsonTree {
        JsonTree::Object(
            Self::members(
                self.counts.tree(),
                self.local_site.tree(),
                self.local_site_rate_limit.tree(),
                self.site.tree(),
            ),
        )
    }

    open spec fn admits(t: JsonTree) -> bool {
        &&& t is Object
        &&& required_admits::<SiteAggregates>(t, "counts"@)
        &&& required_admits::<LocalSite>(t, "local_site"@)
        &&& required_admits::<LocalSiteRateLimit>(t, "local_site_rate_limit"@)
        &&& required_admits::<Site>(t, "site"@)
    }

    open spec fn agrees(&self, t: JsonTree) -> bool {
        &&& required_agrees(self.counts, t, "counts"@)
        &&& required_agrees(self.local_site, t, "local_site"@)
        &&& required_agrees(self.local_site_rate_limit, t, "local_site_rate_limit"@)
        &&& required_agrees(self.site, t, "site"@)
    }

    fn to_json(&self) -> (out: JsonValue) {
        let mut members: Vec<(String, JsonValue)> = Vec::new();
        assert(members_view(members@) =~= Seq::empty());
        put(&mut members, "counts", &self.counts);
        put(&mut members, "local_site", &self.local_site);
        put(&mut members, "local_site_rate_limit", &self.local_site_rate_limit);
        put(&mut members, "site", &self.site);
        object(members)
    }

    fn from_json(v: &JsonValue) -> (res: Option<Self>) {
        if !v.is_object() {
            return None;
        }
        let counts = required::<SiteAggregates>(v, "counts")?;
        let local_site = required::<LocalSite>(v, "local_site")?;
        let local_site_rate_limit = required::<LocalSiteRateLimit>(v, "local_site_rate_limit")?;
        let site = required::<Site>(v, "site")?;
        Some(SiteView { counts, local_site, local_site_rate_limit, site })
    }

    proof fn lemma_round_trip(&self) {
        Self::lemma_members(
            self.counts.tree(),
            self.local_site.tree(),
            self.local_site_rate_limit.tree(),
            self.site.tree(),
        );
        self.counts.lemma_round_trip();
        self.local_site.lemma_round_trip();
        self.local_site_rate_limit.lemma_round_trip();
        self.site.lemma_round_trip();
    }

    proof fn lemma_reads_one(&self, other: &Self, t: JsonTree) {
        lemma_required_reads_one(self.counts, other.counts, t, "counts"@);
        lemma_required_reads_one(self.local_site, other.local_site, t, "local_site"@);
        lemma_required_reads_one(
            self.local_site_rate_limit,
            other.local_site_rate_limit,
            t,
            "local_site_rate_limit"@,
        );
        lemma_required_reads_one(self.site, other.site, t, "site"@);
    }
}

#[derive(Clone, Debug, PartialEq, Default)]
pub struct Tagline {
    pub content: String,
    pub id: i32,
    pub local_site_id: i32,
    pub published: String,
    pub updated: Option<String>,
}

impl Tagline {
    /// The members that a record is written as, from what is written for
    /// each of its fields.
    pub open spec fn members(
        content: JsonTree,
        id: JsonTree,
        local_site_id: JsonTree,
        published: JsonTree,
        updated: Option<JsonTree>,
    ) -> Seq<Member> {
        let members = Seq::empty();
        let members = with_field(members, "content"@, content);
        let members = with_field(members, "id"@, id);
        let members = with_field(members, "local_site_id"@, local_site_id);
        let members = with_field(members, "published"@, published);
        let members = with_optional(members, "updated"@, updated);
        members
    }

    /// Each key leads to what was written under it, and to nothing where
    /// nothing was written.
    pub proof fn lemma_members(
        content: JsonTree,
        id: JsonTree,
        local_site_id: JsonTree,
        published: JsonTree,
        updated: Option<JsonTree>,
    )
        ensures
            ({
                let members = Self::members(content, id, local_site_id, published, updated);
                &&& lookup(members, "content"@) == Some(content)
                &&& lookup(members, "id"@) == Some(id)
                &&& lookup(members, "local_site_id"@) == Some(local_site_id)
                &&& lookup(members, "published"@) == Some(published)
                &&& lookup(members, "updated"@) == updated
            }),
    {
        broadcast use group_written_members;

        reveal_strlit("content");
        reveal_strlit("id");
        reveal_strlit("local_site_id");
        reveal_strlit("published");
        reveal_strlit("updated");
        assert("content"@.len() == 7 && "content"@[0] == 'c');
        assert("id"@.len() == 2);
        assert("local_site_id"@.len() == 13);
        assert("published"@.len() == 9);
        assert("updated"@.len() == 7 && "updated"@[0] == 'u');
    }

    /// With every optional field absent, the mandatory fields are written
    /// and nothing else.
    pub proof fn lemma_mandatory_fields_alone(
        content: JsonTree,
        id: JsonTree,
        local_site_id: JsonTree,
        published: JsonTree,
    )
        ensures
            Self::members(content, id, local_site_id, published, None) == Seq::<Member>::empty()
                .push(("content"@, content))
                .push(("id"@, id))
                .push(("local_site_id"@, local_site_id))
                .push(("published"@, published)),
    {
        reveal(with_field);
        reveal(with_optional);
    }
}

impl Payload for Tagline {
    open spec fn tree(&self) -> JsonTree {
        JsonTree::Object(
            Self::members(
                self.content.tree(),
                self.id.tree(),
                self.local_site_id.tree(),
                self.published.tree(),
                written(self.updated),
            ),
        )
    }

    open spec fn admits(t: JsonTree) -> bool {
        &&& t is Object
        &&& required_admits::<String>(t, "content"@)
        &&& required_admits::<i32>(t, "id"@)
        &&& required_admits::<i32>(t, "local_site_id"@)
        &&& required_admits::<String>(t, "published"@)
        &&& optional_admits::<String>(t, "updated"@)
    }

    open spec fn agrees(&self, t: JsonTree) -> bool {
        &&& required_agrees(self.content, t, "content"@)
        &&& required_agrees(self.id, t, "id"@)
        &&& required_agrees(self.local_site_id, t, "local_site_id"@)
        &&& required_agrees(self.published, t, "published"@)
        &&& optional_agrees(self.updated, t, "updated"@)
    }

    fn to_json(&self) -> (out: JsonValue) {
        let mut members: Vec<(String, JsonValue)> = Vec::new();
        assert(members_view(members@) =~= Seq::empty());
        put(&mut members, "content", &self.content);
        put(&mut members, "id", &self.id);
        put(&mut members, "local_site_id", &self.local_site_id);
        put(&mut members, "published", &self.published);
        put_optional(&mut members, "updated", &self.updated);
        object(members)
    }

    fn from_json(v: &JsonValue) -> (res: Option<Self>) {
        if !v.is_object() {
            return None;
        }
        let content = required::<String>(v, "content")?;
        let id = required::<i32>(v, "id")?;
        let local_site_id = required::<i32>(v, "local_site_id")?;
        let published = required::<String>(v, "published")?;
        let updated = optional::<String>(v, "updated")?;
        Some(Tagline { content, id, local_site_id, published, updated })
    }

    proof fn lemma_round_trip(&self) {
        Self::lemma_members(
            self.content.tree(),
            self.id.tree(),
            self.local_site_id.tree(),
            self.published.tree(),
            written(self.updated),
        );
        self.content.lemma_round_trip();
        self.id.lemma_round_trip();
        self.local_site_id.lemma_round_trip();
        self.published.lemma_round_trip();
        lemma_optional_round_trip(self.updated);
    }

    proof fn lemma_reads_one(&self, other: &Self, t: JsonTree) {
        lemma_required_reads_one(self.content, other.content, t, "content"@);
        lemma_required_reads_one(self.id, other.id, t, "id"@);
        lemma_required_reads_one(self.local_site_id, other.local_site_id, t, "local_site_id"@);
        lemma_required_reads_one(self.published, other.published, t, "published"@);
        lemma_optional_reads_one(self.updated, other.updated, t, "updated"@);
    }
}

} // verus!
