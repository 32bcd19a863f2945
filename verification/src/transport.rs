//! What is made of the reply to a request. The request itself is sent
//! elsewhere; this module takes what came back, or that nothing did, and
//! gives the response record or the error. It also keeps the state of a
//! request whose caller may go away before the reply arrives.

use vstd::prelude::*;
use vstd::string::*;
use crate::error::ApiError;
use crate::json::{JsonTree, JsonValue};
use crate::json_text::{json_document, parse_json};
use crate::payload::Payload;
use crate::policy::DecodePolicy;

verus! {

/// The outcome of sending a request.
#[derive(Clone, Debug, PartialEq, Eq)]
pub enum HttpReply {
    /// The request failed on the way: no connection, no name, no time left.
    Failed,
    /// The server answered.
    Answered { status: u16, body: String },
}

/// The number of characters of a body that a `Decode` error keeps.
pub const SNIPPET_LIMIT: usize = 512;

/// The start of a body that a `Decode` error keeps: the whole body where it
/// is short, and else its first `SNIPPET_LIMIT` characters.
pub open spec fn snippet_of(body: Seq<char>) -> Seq<char> {
    if body.len() <= SNIPPET_LIMIT {
        body
    } else {
        body.subrange(0, SNIPPET_LIMIT as int)
    }
}

/// The start of a body, for a `Decode` error.
pub fn snippet(body: &str) -> (out: String)
    ensures
        out@ == snippet_of(body@),
{
    if body.unicode_len() <= SNIPPET_LIMIT {
        body.to_owned()
    } else {
        body.substring_char(0, SNIPPET_LIMIT).to_owned()
    }
}

/// A status in the 200s.
pub open spec fn is_success(status: u16) -> bool {
    200 <= status <= 299
}

/// `res` is what a body decodes to, where `parsed` is the tree of the body:
/// the record that the tree reads as, or a `Decode` error with the start of
/// the body where there is no tree or the tree is not such a record.
pub open spec fn decodes_to<T: Payload>(
    parsed: Option<JsonTree>,
    body: Seq<char>,
    res: Result<T, ApiError>,
) -> bool {
    if parsed is Some && T::admits(parsed->0) {
        res matches Ok(r) && r.agrees(parsed->0)
    } else {
        res matches Err(ApiError::Decode(s)) && s@ == snippet_of(body)
    }
}

/// The tree of a body with the defaults of a policy filled in.
pub open spec fn filled_document(body: Seq<char>, policy: DecodePolicy) -> Option<JsonTree> {
    match json_document(body) {
        Some(t) => Some(policy.applied(t)),
        None => None,
    }
}

/// `res` is what is made of `reply` under a policy.
pub open spec fn interprets_with<T: Payload>(
    reply: HttpReply,
    policy: DecodePolicy,
    res: Result<T, ApiError>,
) -> bool {
    match reply {
        HttpReply::Failed => res == Err::<T, ApiError>(ApiError::Transport),
        HttpReply::Answered { status, body } => if is_success(status) {
            decodes_to(filled_document(body@, policy), body@, res)
        } else {
            res matches Err(ApiError::HttpStatus(code, text)) && code == status && text@ == body@
        },
    }
}

/// `res` is what is made of `reply` where the reply is read as the schema
/// says.
pub open spec fn interprets<T: Payload>(reply: HttpReply, res: Result<T, ApiError>) -> bool {
    match reply {
        HttpReply::Failed => res == Err::<T, ApiError>(ApiError::Transport),
        HttpReply::Answered { status, body } => if is_success(status) {
            decodes_to(json_document(body@), body@, res)
        } else {
            res matches Err(ApiError::HttpStatus(code, text)) && code == status && text@ == body@
        },
    }
}

/// Reads a record from the tree of a body. `parsed` is `None` where the
/// body has no tree.
pub fn decode_tree<T: Payload>(parsed: &Option<JsonValue>, body: &str) -> (res: Result<
    T,
    ApiError,
>)
    ensures
        decodes_to(
            match *parsed {
                Some(v) => Some(v@),
                None => None,
            },
            body@,
            res,
        ),
{
    match parsed {
        Some(v) => match T::from_json(v) {
            Some(r) => Ok(r),
            None => Err(ApiError::Decode(snippet(body))),
        },
        None => Err(ApiError::Decode(snippet(body))),
    }
}

/// Reads a record from the body of a reply.
pub fn decode_body<T: Payload>(body: &str) -> (res: Result<T, ApiError>)
    ensures
        decodes_to(json_document(body@), body@, res),
{
    let parsed = parse_json(body);
    decode_tree(&parsed, body)
}

/// Reads a record from the tree of a body after the defaults of a policy
/// were filled in. `parsed` is `None` where the body has no tree.
pub fn decode_tree_with<T: Payload>(
    parsed: &Option<JsonValue>,
    body: &str,
    policy: &DecodePolicy,
) -> (res: Result<T, ApiError>)
    ensures
        decodes_to(
            match *parsed {
                Some(v) => Some(policy.applied(v@)),
                None => None,
            },
            body@,
            res,
        ),
{
    match parsed {
        Some(v) => {
            let filled = Some(policy.apply(v));
            decode_tree(&filled, body)
        },
        None => decode_tree(&None, body),
    }
}

/// Reads a record from the body of a reply under a policy.
pub fn decode_body_with<T: Payload>(body: &str, policy: &DecodePolicy) -> (res: Result<
    T,
    ApiError,
>)
    ensures
        decodes_to(filled_document(body@, *policy), body@, res),
{
    let parsed = parse_json(body);
    decode_tree_with(&parsed, body, policy)
}

/// Makes the response record, or the error, of the outcome of a request.
///
/// No reply gives `Transport`. A status outside the 200s gives `HttpStatus`
/// with the status and the body. Else the body is read: as the record, or,
/// where it is not one, as `Decode` with the start of the body.
pub fn api_get<T: Payload>(reply: &HttpReply) -> (res: Result<T, ApiError>)
    ensures
        interprets(*reply, res),
{
    match reply {
        HttpReply::Failed => Err(ApiError::Transport),
        HttpReply::Answered { status, body } => {
            if 200 <= *status && *status <= 299 {
                decode_body(body.as_str())
            } else {
                Err(ApiError::HttpStatus(*status, body.clone()))
            }
        },
    }
}

/// As `api_get`, but the body is read after the defaults of `policy` were
/// filled in: a mandatory field that the policy has a default for may be
/// missing from the reply.
pub fn api_get_with<T: Payload>(reply: &HttpReply, policy: &DecodePolicy) -> (res: Result<
    T,
    ApiError,
>)
    ensures
        interprets_with(*reply, *policy, res),
{
    match reply {
        HttpReply::Failed => Err(ApiError::Transport),
        HttpReply::Answered { status, body } => {
            if 200 <= *status && *status <= 299 {
                decode_body_with(body.as_str(), policy)
            } else {
                Err(ApiError::HttpStatus(*status, body.clone()))
            }
        },
    }
}

/// Under the policy without defaults a reply is read as the schema says.
pub proof fn lemma_strict_is_plain<T: Payload>(
    reply: HttpReply,
    policy: DecodePolicy,
    res: Result<T, ApiError>,
)
    requires
        policy.defaults@.len() == 0,
    ensures
        interprets_with(reply, policy, res) == interprets(reply, res),
{
    if let HttpReply::Answered { status, body } = reply {
        if let Some(t) = json_document(body@) {
            policy.lemma_strict_changes_nothing(t);
        }
    }
}

/// Where a request stands whose caller is a part of the interface that may
/// be torn down at any time.
#[derive(Clone, Copy, Debug, PartialEq, Eq, Structural)]
pub enum RequestState {
    /// Sent, and the caller still waits for the reply.
    Pending,
    /// The reply was handed to the caller.
    Delivered,
    /// The caller was torn down before a reply was handed to it.
    Cancelled,
}

/// What can happen to a request after it was sent.
#[derive(Clone, Copy, Debug, PartialEq, Eq, Structural)]
pub enum RequestEvent {
    /// The outcome of the request has arrived.
    Arrived,
    /// The caller was torn down.
    TornDown,
}

/// What the one who runs the request has to do after an event.
#[derive(Clone, Copy, Debug, PartialEq, Eq, Structural)]
pub enum RequestAction {
    /// Hand the outcome to the caller.
    Deliver,
    /// Abort the request that is under way.
    Abort,
    /// Do nothing, and drop the outcome if there is one.
    Discard,
}

impl RequestState {
    /// The state of a request that was sent just now.
    pub fn new() -> (state: Self)
        ensures
            state == RequestState::Pending,
    {
        RequestState::Pending
    }

    /// The state after an event.
    pub open spec fn next(self, event: RequestEvent) -> RequestState {
        match (self, event) {
            (RequestState::Pending, RequestEvent::Arrived) => RequestState::Delivered,
            (RequestState::Pending, RequestEvent::TornDown) => RequestState::Cancelled,
            (state, _) => state,
        }
    }

    /// The action that an event asks for.
    pub open spec fn action(self, event: RequestEvent) -> RequestAction {
        match (self, event) {
            (RequestState::Pending, RequestEvent::Arrived) => RequestAction::Deliver,
            (RequestState::Pending, RequestEvent::TornDown) => RequestAction::Abort,
            _ => RequestAction::Discard,
        }
    }

    /// Takes an event: gives the state after it and the action it asks for.
    ///
    /// An outcome is delivered only to a caller that still waits. Tearing
    /// the caller down aborts a request that is under way; whatever arrives
    /// after that is dropped.
    pub fn step(self, event: RequestEvent) -> (res: (RequestState, RequestAction))
        ensures
            res.0 == self.next(event),
            res.1 == self.action(event),
    {
        match self {
            RequestState::Pending => match event {
                RequestEvent::Arrived => (RequestState::Delivered, RequestAction::Deliver),
                RequestEvent::TornDown => (RequestState::Cancelled, RequestAction::Abort),
            },
            RequestState::Delivered => (RequestState::Delivered, RequestAction::Discard),
            RequestState::Cancelled => (RequestState::Cancelled, RequestAction::Discard),
        }
    }

    /// The state after a run of events.
    pub open spec fn after(self, events: Seq<RequestEvent>) -> RequestState
        decreases events.len(),
    {
        if events.len() == 0 {
            self
        } else {
            self.after(events.drop_last()).next(events.last())
        }
    }
}

/// Takes the outcome of a request whose caller may be gone: the outcome is
/// made into a result only where the caller still waits.
pub fn settle<T: Payload>(state: RequestState, reply: &HttpReply) -> (res: (
    RequestState,
    Option<Result<T, ApiError>>,
))
    ensures
        res.0 == state.next(RequestEvent::Arrived),
        match res.1 {
            Some(result) => state == RequestState::Pending && interprets(*reply, result),
            None => state != RequestState::Pending,
        },
{
    let (next, action) = state.step(RequestEvent::Arrived);
    match action {
        RequestAction::Deliver => (next, Some(api_get(reply))),
        _ => (next, None),
    }
}

/// A request does not wait again once it has stopped waiting.
pub proof fn lemma_never_pending_again(state: RequestState, events: Seq<RequestEvent>)
    requires
        state != RequestState::Pending,
    ensures
        state.after(events) == state,
    decreases events.len(),
{
    if events.len() > 0 {
        lemma_never_pending_again(state, events.drop_last());
    }
}

/// The state after some events and then some more.
pub proof fn lemma_after_concat(
    state: RequestState,
    first: Seq<RequestEvent>,
    second: Seq<RequestEvent>,
)
    ensures
        state.after(first + second) == state.after(first).after(second),
    decreases second.len(),
{
    if second.len() == 0 {
        assert(first + second =~= first);
    } else {
        assert((first + second).drop_last() =~= first + second.drop_last());
        lemma_after_concat(state, first, second.drop_last());
    }
}

/// Nothing is delivered after the caller was torn down: whatever the events
/// of a request are, if the caller is torn down at one of them, no later
/// event asks to deliver.
pub proof fn lemma_no_delivery_after_teardown(events: Seq<RequestEvent>, torn: int, later: int)
    requires
        0 <= torn < later < events.len(),
        events[torn] == RequestEvent::TornDown,
    ensures
        RequestState::Pending.after(events.subrange(0, later)).action(events[later])
            != RequestAction::Deliver,
{
    let start = RequestState::Pending;
    let upto = events.subrange(0, torn + 1);
    let between = events.subrange(torn + 1, later);
    assert(upto.drop_last() =~= events.subrange(0, torn));
    assert(upto.last() == RequestEvent::TornDown);
    assert(start.after(upto) != RequestState::Pending);
    assert(events.subrange(0, later) =~= upto + between);
    lemma_after_concat(start, upto, between);
    lemma_never_pending_again(start.after(upto), between);
}

/// An outcome is delivered at most once: whatever the events of a request
/// are, no two of them ask to deliver.
pub proof fn lemma_delivers_once(events: Seq<RequestEvent>, first: int, second: int)
    requires
        0 <= first < second < events.len(),
        RequestState::Pending.after(events.subrange(0, first)).action(events[first])
            == RequestAction::Deliver,
    ensures
        RequestState::Pending.after(events.subrange(0, second)).action(events[second])
            != RequestAction::Deliver,
{
    let start = RequestState::Pending;
    let upto = events.subrange(0, first + 1);
    let between = events.subrange(first + 1, second);
    assert(upto.drop_last() =~= events.subrange(0, first));
    assert(upto.last() == events[first]);
    assert(start.after(upto) == RequestState::Delivered);
    assert(events.subrange(0, second) =~= upto + between);
    lemma_after_concat(start, upto, between);
    lemma_never_pending_again(start.after(upto), between);
}

} // verus!
