//! The details of the instance that the client talks to. They are read once,
//! outside this crate, and handed in where a URL is built.

use vstd::prelude::*;
use vstd::string::*;

verus! {

/// The file of instance details: one table, `instance`.
#[derive(Clone, Debug, PartialEq, Eq, Default)]
pub struct InstanceToml {
    pub instance: Instance,
}

/// The details of an instance.
#[derive(Clone, Debug, PartialEq, Eq, Default)]
pub struct Instance {
    pub name: String,
    pub slogan: String,
    /// The base URL, without a slash at its end.
    pub url: String,
    /// The version segment of the API, such as `v3`.
    pub api_version: String,
    pub donation_url: String,
    pub source_code_url: String,
    pub documentation_url: String,
    pub logo_name: String,
    pub no_logo_text: bool,
    pub logo_text_name: String,
    pub logo_width: i32,
    pub logo_height: i32,
    pub favicon_name: String,
}

impl Instance {
    /// The base URL of the instance and the version segment of its API: what
    /// a URL is built from.
    pub fn base_url_and_version(&self) -> (res: (&str, &str))
        ensures
            res.0@ == self.url@,
            res.1@ == self.api_version@,
    {
        (self.url.as_str(), self.api_version.as_str())
    }

    /// The file of the logo: the logo alone where the instance says that it
    /// holds no text, and else the logo with the text.
    pub fn logo_source(&self) -> (file: &str)
        ensures
            file@ == if self.no_logo_text {
                self.logo_name@
            } else {
                self.logo_text_name@
            },
    {
        if self.no_logo_text {
            self.logo_name.as_str()
        } else {
            self.logo_text_name.as_str()
        }
    }

    /// The name to write beside the logo: the name of the instance where the
    /// logo holds no text, and nothing where it does.
    pub fn name_beside_logo(&self) -> (name: &str)
        ensures
            name@ == if self.no_logo_text {
                self.name@
            } else {
                Seq::<char>::empty()
            },
    {
        if self.no_logo_text {
            self.name.as_str()
        } else {
            proof {
                reveal_strlit("");
            }
            assert(""@ =~= Seq::<char>::empty());
            ""
        }
    }

    /// The title of the pages: the name, a colon, and the slogan.
    pub fn title(&self) -> (out: String)
        ensures
            out@ == self.name@ + ": "@ + self.slogan@,
    {
        let mut out = self.name.clone();
        out.append(": ");
        out.append(self.slogan.as_str());
        out
    }
}

/// The path under which a file of the instance is served.
pub fn asset_path(file: &str) -> (out: String)
    ensures
        out@ == "/assets/"@ + file@,
{
    let mut out = "/assets/".to_owned();
    out.append(file);
    out
}

} // verus!
