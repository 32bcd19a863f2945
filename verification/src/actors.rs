//! Persons and communities as the interface addresses them. One that lives
//! on this instance goes by its name; one that lives elsewhere goes by its
//! name, an `@`, and the host that is read from its address.

use vstd::prelude::*;
use vstd::string::*;
use crate::records::{Community, Person};

verus! {

/// The pattern of the address of a person; its first group is the host.
pub const PERSON_ADDRESS: &'static str = "https://(.*)/u/(.*)";

/// The pattern of the address of a community; its first group is the host.
pub const COMMUNITY_ADDRESS: &'static str = "https://(.*)/c/(.*)";

/// The host that stands in where an address does not show one.
pub const UNKNOWN_HOST: &'static str = "error.com";

/// The picture of a person who has none.
pub const DEFAULT_AVATAR: &'static str = "/static/default_assets/default-profile.png";

/// The picture of a community that has none.
pub const DEFAULT_COMMUNITY_ICON: &'static str = "/static/default_assets/default-community.png";

/// What the first group of a pattern holds in the first match of the pattern
/// in a text, as the crate `regex` finds it; `None` where the pattern is not
/// one, where nothing matches, and where the group takes no part in the
/// match.
pub uninterp spec fn first_capture(pattern: Seq<char>, text: Seq<char>) -> Option<Seq<char>>;

/// `regex::Regex::new`, `Regex::captures` on what it gives, and
/// `Captures::get(1)` on what that gives, read as text. The pattern is
/// compiled, the leftmost match in the text is looked for, and the text of
/// the first group of that match is handed back. Each step is a function of
/// what it is given, so the result is one of the pattern and the text, which
/// `first_capture` names. A step that finds nothing gives `None`.
#[verifier::external_body]
fn first_group(pattern: &str, text: &str) -> (res: Option<String>)
    ensures
        match res {
            Some(group) => first_capture(pattern@, text@) == Some(group@),
            None => first_capture(pattern@, text@) is None,
        },
{
    let re = regex::Regex::new(pattern).ok()?;
    let found = re.captures(text)?;
    found.get(1).map(|group| group.as_str().to_owned())
}

/// The host that was read from an address, or `UNKNOWN_HOST` where none
/// was.
pub open spec fn host_text(captured: Option<Seq<char>>) -> Seq<char> {
    match captured {
        Some(host) => host,
        None => UNKNOWN_HOST@,
    }
}

/// The name by which an actor goes: its name where it is local, and else
/// its name, an `@`, and its host.
pub open spec fn qualified_text(name: Seq<char>, local: bool, captured: Option<Seq<char>>) -> Seq<
    char,
> {
    if local {
        name
    } else {
        name + "@"@ + host_text(captured)
    }
}

/// The name by which an actor goes, given what was read from its address.
pub fn qualified(name: &str, local: bool, captured: &Option<String>) -> (out: String)
    ensures
        out@ == qualified_text(
            name@,
            local,
            match *captured {
                Some(host) => Some(host@),
                None => None,
            },
        ),
{
    let mut out = name.to_owned();
    if !local {
        out.append("@");
        match captured {
            Some(host) => out.append(host.as_str()),
            None => out.append(UNKNOWN_HOST),
        }
    }
    out
}

/// The name by which a community goes.
pub open spec fn community_name_text(community: Community) -> Seq<char> {
    qualified_text(
        community.name@,
        community.local,
        first_capture(COMMUNITY_ADDRESS@, community.actor_id@),
    )
}

/// The name by which a person goes.
pub open spec fn person_name_text(person: Person) -> Seq<char> {
    qualified_text(person.name@, person.local, first_capture(PERSON_ADDRESS@, person.actor_id@))
}

/// The name by which a community goes: `name` on this instance, and
/// `name@host` elsewhere.
pub fn community_name(community: &Community) -> (out: String)
    ensures
        out@ == community_name_text(*community),
{
    if community.local {
        qualified(community.name.as_str(), true, &None)
    } else {
        let captured = first_group(COMMUNITY_ADDRESS, community.actor_id.as_str());
        qualified(community.name.as_str(), false, &captured)
    }
}

/// The name by which a person goes: `name` on this instance, and
/// `name@host` elsewhere.
pub fn person_name(person: &Person) -> (out: String)
    ensures
        out@ == person_name_text(*person),
{
    if person.local {
        qualified(person.name.as_str(), true, &None)
    } else {
        let captured = first_group(PERSON_ADDRESS, person.actor_id.as_str());
        qualified(person.name.as_str(), false, &captured)
    }
}

/// The page of a community: `/community/` and the name by which it goes.
pub fn community_link(community: &Community) -> (out: String)
    ensures
        out@ == "/community/"@ + community_name_text(*community),
{
    let mut out = "/community/".to_owned();
    let name = community_name(community);
    out.append(name.as_str());
    out
}

/// The page of a person: `/user/` and the name by which they go.
pub fn person_link(person: &Person) -> (out: String)
    ensures
        out@ == "/user/"@ + person_name_text(*person),
{
    let mut out = "/user/".to_owned();
    let name = person_name(person);
    out.append(name.as_str());
    out
}

/// The picture of a person: their own, or `DEFAULT_AVATAR`.
pub fn person_avatar(person: &Person) -> (out: String)
    ensures
        out@ == match person.avatar {
            Some(picture) => picture@,
            None => DEFAULT_AVATAR@,
        },
{
    match &person.avatar {
        Some(picture) => picture.clone(),
        None => DEFAULT_AVATAR.to_owned(),
    }
}

/// The picture of a community: its own, or `DEFAULT_COMMUNITY_ICON`.
pub fn community_icon(community: &Community) -> (out: String)
    ensures
        out@ == match community.icon {
            Some(picture) => picture@,
            None => DEFAULT_COMMUNITY_ICON@,
        },
{
    match &community.icon {
        Some(picture) => picture.clone(),
        None => DEFAULT_COMMUNITY_ICON.to_owned(),
    }
}

} // verus!
