//! The URL of a request: base, `/api/`, version, endpoint, and the query
//! string of the request record.

use vstd::prelude::*;
use vstd::string::*;
use crate::endpoints::Operation;
use crate::error::ApiError;
use crate::instance::Instance;
use crate::payload::Payload;
use crate::query::{query_text, to_query};

verus! {

/// What a URL is built for: the path of an endpoint.
#[derive(Clone, Debug, PartialEq, Eq, Default)]
pub struct ApiUrlConstructor {
    pub endpoint: String,
    pub id: Option<i32>,
    pub params: Option<&'static str>,
}

impl ApiUrlConstructor {
    /// What a URL for an operation is built for: its path from the registry,
    /// and nothing else.
    pub fn for_operation(operation: Operation) -> (out: Self)
        ensures
            out.endpoint@ == operation.path_text(),
            out.id is None,
            out.params is None,
    {
        ApiUrlConstructor { endpoint: operation.path().to_owned(), id: None, params: None }
    }
}

/// The URL `{base}/api/{version}/{endpoint}?{query}`.
pub open spec fn url_text(
    base: Seq<char>,
    version: Seq<char>,
    endpoint: Seq<char>,
    query: Seq<char>,
) -> Seq<char> {
    base + "/api/"@ + version + "/"@ + endpoint + "?"@ + query
}

/// The query part of a URL: the query string of the request, and the path of
/// the endpoint in its place where the request has none.
pub open spec fn query_or_endpoint(query: Option<Seq<char>>, endpoint: Seq<char>) -> Seq<char> {
    match query {
        Some(text) => text,
        None => endpoint,
    }
}

/// Joins the parts of a URL.
pub fn compose_url(base_url: &str, api_version: &str, endpoint: &str, query: &str) -> (out: String)
    ensures
        out@ == url_text(base_url@, api_version@, endpoint@, query@),
{
    let mut out = base_url.to_owned();
    out.append("/api/");
    out.append(api_version);
    out.append("/");
    out.append(endpoint);
    out.append("?");
    out.append(query);
    out
}

/// The URL of a request from its query string, or from the error that took
/// the place of one: on an error the path of the endpoint stands where the
/// query would.
pub fn url_with_query(
    base_url: &str,
    api_version: &str,
    endpoint: &str,
    query: &Result<String, ApiError>,
) -> (out: String)
    ensures
        out@ == url_text(
            base_url@,
            api_version@,
            endpoint@,
            match *query {
                Ok(text) => text@,
                Err(_) => endpoint@,
            },
        ),
{
    match query {
        Ok(text) => compose_url(base_url, api_version, endpoint, text.as_str()),
        Err(_) => compose_url(base_url, api_version, endpoint, endpoint),
    }
}

/// The URL of a request on an instance.
///
/// A record without a query string does not fail the call: the path of the
/// endpoint then stands in the query's place.
pub fn api_url_builder<T: Payload>(
    instance: &Instance,
    url_constructor: &ApiUrlConstructor,
    form: &T,
) -> (out: String)
    ensures
        out@ == url_text(
            instance.url@,
            instance.api_version@,
            url_constructor.endpoint@,
            query_or_endpoint(query_text(form.tree()), url_constructor.endpoint@),
        ),
{
    let query = to_query(form);
    url_with_query(
        instance.url.as_str(),
        instance.api_version.as_str(),
        url_constructor.endpoint.as_str(),
        &query,
    )
}

} // verus!
