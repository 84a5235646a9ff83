//! The exchange between a handler of stored resources (endpoints, endpoint
//! tests) and the server that runs it.
//!
//! A handler never reads a body, parses it or touches the store itself. It
//! answers each step with an action for the server to perform, and the
//! server reports what came of it as an event. The handler decides which
//! action comes next, and what the request is finally answered with.
use vstd::prelude::*;

use crate::pipeline::{
    ParamValue, ParamView, RequestError, RequestErrorView, RequestParams, BAD_REQUEST,
    INTERNAL_SERVER_ERROR,
};
use crate::text::{ends_with, ends_with_json, json_extension};

verus! {

/// What a request is answered with: a body of JSON text, no body, or an error.
pub type Reply = Result<Option<String>, RequestError>;

/// A reply with its texts taken as sequences of characters.
pub type ReplyView = Result<Option<Seq<char>>, RequestErrorView>;

pub open spec fn reply_view(r: Reply) -> ReplyView {
    match r {
        Ok(Some(body)) => Ok(Some(body@)),
        Ok(None) => Ok(None),
        Err(e) => Err(e@),
    }
}

/// What the server is asked to do next for a request on stored resources.
#[derive(Debug, PartialEq, Eq)]
pub enum StoreAction {
    /// Collect the request's body.
    ReadBody,
    /// Parse the collected body into the resource, or into a patch of it.
    ParseBody,
    /// Look up the resource with this key and render it as JSON.
    Fetch(String),
    /// Render every stored resource as JSON.
    FetchAll,
    /// Store the parsed resource in this file.
    Add(String),
    /// Apply the parsed patch to the resource with this key.
    Update(String),
    /// Delete the resource with this key.
    Remove(String),
    /// Answer the request.
    Respond(Reply),
}

pub enum StoreActionView {
    ReadBody,
    ParseBody,
    Fetch(Seq<char>),
    FetchAll,
    Add(Seq<char>),
    Update(Seq<char>),
    Remove(Seq<char>),
    Respond(ReplyView),
}

impl View for StoreAction {
    type V = StoreActionView;

    open spec fn view(&self) -> StoreActionView {
        match self {
            StoreAction::ReadBody => StoreActionView::ReadBody,
            StoreAction::ParseBody => StoreActionView::ParseBody,
            StoreAction::Fetch(k) => StoreActionView::Fetch(k@),
            StoreAction::FetchAll => StoreActionView::FetchAll,
            StoreAction::Add(f) => StoreActionView::Add(f@),
            StoreAction::Update(k) => StoreActionView::Update(k@),
            StoreAction::Remove(k) => StoreActionView::Remove(k@),
            StoreAction::Respond(r) => StoreActionView::Respond(reply_view(*r)),
        }
    }
}

/// What came of the action that the server was last asked to perform.
#[derive(Debug, PartialEq, Eq)]
pub enum StoreEvent {
    /// The body was collected, or not, with the reader's message.
    BodyRead(Result<(), String>),
    /// The body was parsed, or not, with the parser's message.
    BodyParsed(Result<(), String>),
    /// What was looked up was found and rendered as this JSON text.
    Found(String),
    /// Nothing is stored under the key looked up.
    NotFound,
    /// What was found could not be rendered as JSON, with the renderer's message.
    RenderFailed(String),
    /// The store failed with this error.
    StoreFailed(RequestError),
    /// The store accepted the write, or refused it with this message.
    Written(Result<(), String>),
}

pub enum StoreEventView {
    BodyRead(Result<(), Seq<char>>),
    BodyParsed(Result<(), Seq<char>>),
    Found(Seq<char>),
    NotFound,
    RenderFailed(Seq<char>),
    StoreFailed(RequestErrorView),
    Written(Result<(), Seq<char>>),
}

pub open spec fn outcome_view(r: Result<(), String>) -> Result<(), Seq<char>> {
    match r {
        Ok(()) => Ok(()),
        Err(m) => Err(m@),
    }
}

impl View for StoreEvent {
    type V = StoreEventView;

    open spec fn view(&self) -> StoreEventView {
        match self {
            StoreEvent::BodyRead(r) => StoreEventView::BodyRead(outcome_view(*r)),
            StoreEvent::BodyParsed(r) => StoreEventView::BodyParsed(outcome_view(*r)),
            StoreEvent::Found(j) => StoreEventView::Found(j@),
            StoreEvent::NotFound => StoreEventView::NotFound,
            StoreEvent::RenderFailed(m) => StoreEventView::RenderFailed(m@),
            StoreEvent::StoreFailed(e) => StoreEventView::StoreFailed(e@),
            StoreEvent::Written(r) => StoreEventView::Written(outcome_view(*r)),
        }
    }
}

/// What a request body is being read and parsed for.
#[derive(Clone, Debug, PartialEq, Eq)]
pub enum Pending {
    /// A new resource, to be stored in this file.
    Add(String),
    /// A patch of the resource with this key.
    Update(String),
    /// Nothing: once the body is read, the request is refused with this error.
    Refuse(RequestError),
}

pub enum PendingView {
    Add(Seq<char>),
    Update(Seq<char>),
    Refuse(RequestErrorView),
}

impl View for Pending {
    type V = PendingView;

    open spec fn view(&self) -> PendingView {
        match self {
            Pending::Add(f) => PendingView::Add(f@),
            Pending::Update(k) => PendingView::Update(k@),
            Pending::Refuse(e) => PendingView::Refuse(e@),
        }
    }
}

/// Where a request on stored resources stands.
#[derive(Clone, Debug, PartialEq, Eq)]
pub enum StorePhase {
    ReadingBody(Pending),
    ParsingBody(Pending),
    /// A lookup under this key is under way.
    Fetching(String),
    Listing,
    Writing,
    Answered,
}

pub enum StorePhaseView {
    ReadingBody(PendingView),
    ParsingBody(PendingView),
    Fetching(Seq<char>),
    Listing,
    Writing,
    Answered,
}

impl View for StorePhase {
    type V = StorePhaseView;

    open spec fn view(&self) -> StorePhaseView {
        match self {
            StorePhase::ReadingBody(p) => StorePhaseView::ReadingBody(p@),
            StorePhase::ParsingBody(p) => StorePhaseView::ParsingBody(p@),
            StorePhase::Fetching(k) => StorePhaseView::Fetching(k@),
            StorePhase::Listing => StorePhaseView::Listing,
            StorePhase::Writing => StorePhaseView::Writing,
            StorePhase::Answered => StorePhaseView::Answered,
        }
    }
}

/// The events that the server may report in a phase: those that can come of
/// the action asked for when the phase was entered.
pub open spec fn store_accepts(phase: StorePhaseView, event: StoreEventView) -> bool {
    match (phase, event) {
        (StorePhaseView::ReadingBody(_), StoreEventView::BodyRead(_)) => true,
        (StorePhaseView::ParsingBody(_), StoreEventView::BodyParsed(_)) => true,
        (StorePhaseView::Fetching(_), StoreEventView::Found(_)) => true,
        (StorePhaseView::Fetching(_), StoreEventView::NotFound) => true,
        (StorePhaseView::Fetching(_), StoreEventView::RenderFailed(_)) => true,
        (StorePhaseView::Fetching(_), StoreEventView::StoreFailed(_)) => true,
        (StorePhaseView::Listing, StoreEventView::Found(_)) => true,
        (StorePhaseView::Listing, StoreEventView::RenderFailed(_)) => true,
        (StorePhaseView::Listing, StoreEventView::StoreFailed(_)) => true,
        (StorePhaseView::Writing, StoreEventView::Written(_)) => true,
        _ => false,
    }
}

/// Whether the server may report `event` in `phase`.
pub fn accepts(phase: &StorePhase, event: &StoreEvent) -> (res: bool)
    ensures
        res == store_accepts(phase@, event@),
{
    match (phase, event) {
        (StorePhase::ReadingBody(_), StoreEvent::BodyRead(_)) => true,
        (StorePhase::ParsingBody(_), StoreEvent::BodyParsed(_)) => true,
        (StorePhase::Fetching(_), StoreEvent::Found(_)) => true,
        (StorePhase::Fetching(_), StoreEvent::NotFound) => true,
        (StorePhase::Fetching(_), StoreEvent::RenderFailed(_)) => true,
        (StorePhase::Fetching(_), StoreEvent::StoreFailed(_)) => true,
        (StorePhase::Listing, StoreEvent::Found(_)) => true,
        (StorePhase::Listing, StoreEvent::RenderFailed(_)) => true,
        (StorePhase::Listing, StoreEvent::StoreFailed(_)) => true,
        (StorePhase::Writing, StoreEvent::Written(_)) => true,
        _ => false,
    }
}

/// The action asks the store for something: to look up, list, add,
/// patch or delete.
pub open spec fn is_store_request(a: StoreActionView) -> bool {
    match a {
        StoreActionView::Fetch(_) => true,
        StoreActionView::FetchAll => true,
        StoreActionView::Add(_) => true,
        StoreActionView::Update(_) => true,
        StoreActionView::Remove(_) => true,
        _ => false,
    }
}

/// How many more events a request may take before it is answered.
pub open spec fn store_rank(phase: StorePhaseView) -> nat {
    match phase {
        StorePhaseView::ReadingBody(_) => 3,
        StorePhaseView::ParsingBody(_) => 2,
        StorePhaseView::Fetching(_) => 1,
        StorePhaseView::Listing => 1,
        StorePhaseView::Writing => 1,
        StorePhaseView::Answered => 0,
    }
}

/// A request refused before its body is parsed is refused with status 400.
pub open spec fn refusals_are_bad_requests(phase: StorePhaseView) -> bool {
    match phase {
        StorePhaseView::ReadingBody(PendingView::Refuse(e)) => e is Expected && e->Expected_0 == BAD_REQUEST,
        StorePhaseView::ParsingBody(PendingView::Refuse(e)) => e is Expected && e->Expected_0 == BAD_REQUEST,
        _ => true,
    }
}

/// The handler's answer to an error.
pub open spec fn fail(e: RequestErrorView) -> (StorePhaseView, StoreActionView) {
    (StorePhaseView::Answered, StoreActionView::Respond(Err(e)))
}

/// The handler's answer with a body, or without one.
pub open spec fn succeed(body: Option<Seq<char>>) -> (StorePhaseView, StoreActionView) {
    (StorePhaseView::Answered, StoreActionView::Respond(Ok(body)))
}

// ---- Parameters -------------------------------------------------------------

/// The value that the client gave to the parameter `name`, if it gave one.
pub open spec fn client_param(params: Map<Seq<char>, ParamView>, name: Seq<char>) -> Option<
    Seq<char>,
> {
    if params.contains_key(name) {
        match params[name] {
            ParamView::Client(Some(v)) => Some(v),
            _ => None,
        }
    } else {
        None
    }
}

/// Either the parameter `name` is absent, or the client gave it a value: the
/// shape that a lookup parameter must have.
pub open spec fn absent_or_given(params: Map<Seq<char>, ParamView>, name: Seq<char>) -> bool {
    params.contains_key(name) ==> params[name] matches ParamView::Client(Some(_))
}

/// The value that the client gave to the parameter `name`, if it gave one.
pub fn client_value(params: &RequestParams, name: &String) -> (res: Option<String>)
    requires
        params.wf(),
    ensures
        res matches Some(v) ==> client_param(params@, name@) == Some(v@),
        res is None ==> client_param(params@, name@) is None,
{
    match params.get(name) {
        Some(ParamValue::Client(Some(v))) => Some(v.clone()),
        _ => None,
    }
}

/// Whether the parameter `name` is absent or given a value by the client.
pub fn is_absent_or_given(params: &RequestParams, name: &String) -> (res: bool)
    requires
        params.wf(),
    ensures
        res == absent_or_given(params@, name@),
{
    match params.get(name) {
        None => true,
        Some(ParamValue::Client(Some(_))) => true,
        _ => false,
    }
}

/// The file that a new resource goes to: the one the client named in
/// `target_file`, or `default.json`.
pub open spec fn target_file(params: Map<Seq<char>, ParamView>) -> Seq<char> {
    match client_param(params, "target_file"@) {
        Some(f) => f,
        None => "default.json"@,
    }
}

/// The file that a new resource goes to.
pub fn resolve_target_file(params: &RequestParams) -> (res: String)
    requires
        params.wf(),
    ensures
        res@ == target_file(params@),
{
    match client_value(params, &"target_file".to_owned()) {
        Some(f) => f,
        None => "default.json".to_owned(),
    }
}

// ---- Errors -----------------------------------------------------------------

/// The answer to a request whose body could not be collected.
pub open spec fn body_read_error(cause: Seq<char>) -> RequestErrorView {
    RequestErrorView::Expected(INTERNAL_SERVER_ERROR, "Cannot get request's body. "@ + cause)
}

/// The answer to a request refused for what it sent, with this message.
pub open spec fn bad_request(message: Seq<char>) -> RequestErrorView {
    RequestErrorView::Expected(BAD_REQUEST, message)
}

/// The answer to a write that the store refused.
pub open spec fn write_error(cause: Seq<char>) -> RequestErrorView {
    bad_request(cause + ". Operation might have been partially completed."@)
}

/// The answer to a new resource aimed at a file that is not JSON.
pub open spec fn target_file_error(target: Seq<char>) -> RequestErrorView {
    bad_request("Target file "@ + target + " doesn't end with `.json`."@)
}

/// The answer to a request whose body could not be collected.
pub fn body_read_failed(cause: &String) -> (res: RequestError)
    ensures
        res@ == body_read_error(cause@),
{
    RequestError::Expected(INTERNAL_SERVER_ERROR, "Cannot get request's body. ".to_owned().concat(cause.as_str()))
}

/// A request refused for what it sent: `prefix` followed by `detail`.
pub fn refused(prefix: &str, detail: &String) -> (res: RequestError)
    ensures
        res@ == bad_request(prefix@ + detail@),
{
    RequestError::Expected(BAD_REQUEST, prefix.to_owned().concat(detail.as_str()))
}

/// A request refused for what it sent, with this message.
pub fn refused_with(message: &str) -> (res: RequestError)
    ensures
        res@ == bad_request(message@),
{
    RequestError::Expected(BAD_REQUEST, message.to_owned())
}

/// The answer to a write that the store refused.
pub fn write_failed(cause: &String) -> (res: RequestError)
    ensures
        res@ == write_error(cause@),
{
    RequestError::Expected(BAD_REQUEST, cause.clone().concat(". Operation might have been partially completed."))
}

/// The answer to a new resource aimed at a file that is not JSON.
pub fn target_file_refused(target: &String) -> (res: RequestError)
    ensures
        res@ == target_file_error(target@),
{
    let message = "Target file ".to_owned().concat(target.as_str()).concat(" doesn't end with `.json`.");
    RequestError::Expected(BAD_REQUEST, message)
}

/// A failure to render something as JSON, in the given context.
pub fn render_failed(context: &str, cause: &String) -> (res: RequestError)
    ensures
        res@ == (RequestErrorView::Other { context: context@, cause: cause@ }),
{
    RequestError::Other { context: context.to_owned(), cause: cause.clone() }
}

/// The answer to a lookup that found nothing: `prefix`, the key, and a backquote.
pub fn not_found(prefix: &str, key: &String) -> (res: RequestError)
    ensures
        res@ == bad_request(prefix@ + key@ + "`"@),
{
    RequestError::Expected(BAD_REQUEST, prefix.to_owned().concat(key.as_str()).concat("`"))
}

/// Whether a new resource may go to `target`, or the error that refuses it.
pub fn check_target_file(target: &String) -> (res: Result<(), RequestError>)
    ensures
        res is Ok <==> ends_with(target@, json_extension()),
        res matches Err(e) ==> e@ == target_file_error(target@),
{
    if ends_with_json(target.as_str()) {
        Ok(())
    } else {
        Err(target_file_refused(target))
    }
}

} // verus!
