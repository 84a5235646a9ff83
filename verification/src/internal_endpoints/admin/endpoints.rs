//! The admin handler of endpoints: lists, shows, adds, patches and deletes
//! the endpoints that Silence serves.
use vstd::prelude::*;

use crate::internal_endpoints::admin::exchange::{
    absent_or_given, bad_request, body_read_error, body_read_failed, check_target_file,
    client_param, client_value, fail, is_absent_or_given, is_store_request, not_found,
    refusals_are_bad_requests, refused, refused_with, render_failed, resolve_target_file,
    store_accepts, store_rank, succeed, target_file, target_file_error, write_error, write_failed,
    Pending, PendingView, StoreAction, StoreActionView, StoreEvent, StoreEventView, StorePhase,
    StorePhaseView,
};
use crate::pipeline::{
    HttpMethod, ParamView, RequestErrorView, RequestParams, BAD_REQUEST, INTERNAL_SERVER_ERROR,
};
use crate::text::{ends_with, json_extension};

verus! {

/// Endpoint manager.
#[derive(Clone, Copy, Debug)]
pub struct EndpointsManager;

/// The requests the handler serves: every method but an unknown one, and a
/// `GET` whose `endpoint_id`, if present, has a value.
pub open spec fn endpoints_request_ok(method: HttpMethod, params: Map<Seq<char>, ParamView>) -> bool {
    &&& method != HttpMethod::Unknown
    &&& method == HttpMethod::Get ==> absent_or_given(params, "endpoint_id"@)
}

/// Where a request stands once the handler has read its method and
/// parameters, and what it asks for first.
pub open spec fn endpoints_start(method: HttpMethod, params: Map<Seq<char>, ParamView>) -> (
    StorePhaseView,
    StoreActionView,
) {
    match method {
        HttpMethod::Get => match client_param(params, "endpoint_id"@) {
            Some(id) => (StorePhaseView::Fetching(id), StoreActionView::Fetch(id)),
            None => (StorePhaseView::Listing, StoreActionView::FetchAll),
        },
        HttpMethod::Post => (
            StorePhaseView::ReadingBody(PendingView::Add(target_file(params))),
            StoreActionView::ReadBody,
        ),
        HttpMethod::Put => (
            StorePhaseView::ReadingBody(
                match client_param(params, "endpoint_id"@) {
                    Some(id) => PendingView::Update(id),
                    None => PendingView::Refuse(
                        bad_request("Endpoint's id to delete was not specified."@),
                    ),
                },
            ),
            StoreActionView::ReadBody,
        ),
        _ => match client_param(params, "id"@) {
            Some(id) => (StorePhaseView::Writing, StoreActionView::Remove(id)),
            None => (
                StorePhaseView::Answered,
                StoreActionView::Respond(
                    Err(bad_request("Endpoint id to delete was not specified."@)),
                ),
            ),
        },
    }
}

/// What the handler does with an event that the server reports in a phase.
pub open spec fn endpoints_step(phase: StorePhaseView, event: StoreEventView) -> (
    StorePhaseView,
    StoreActionView,
) {
    match (phase, event) {
        (StorePhaseView::ReadingBody(_), StoreEventView::BodyRead(Err(m))) => fail(body_read_error(m)),
        (StorePhaseView::ReadingBody(PendingView::Refuse(e)), StoreEventView::BodyRead(Ok(()))) => fail(e),
        (StorePhaseView::ReadingBody(p), StoreEventView::BodyRead(Ok(()))) => (
            StorePhaseView::ParsingBody(p),
            StoreActionView::ParseBody,
        ),
        (StorePhaseView::ParsingBody(PendingView::Refuse(e)), StoreEventView::BodyParsed(_)) => fail(e),
        (StorePhaseView::ParsingBody(PendingView::Add(_)), StoreEventView::BodyParsed(Err(m))) => fail(
            bad_request("Cannot deserialize endpoint. "@ + m),
        ),
        (StorePhaseView::ParsingBody(PendingView::Update(_)), StoreEventView::BodyParsed(Err(m))) => fail(
            bad_request("Cannot deserialize endpoint's patch. "@ + m),
        ),
        (StorePhaseView::ParsingBody(PendingView::Add(f)), StoreEventView::BodyParsed(Ok(()))) => if ends_with(
            f,
            json_extension(),
        ) {
            (StorePhaseView::Writing, StoreActionView::Add(f))
        } else {
            fail(target_file_error(f))
        },
        (StorePhaseView::ParsingBody(PendingView::Update(k)), StoreEventView::BodyParsed(Ok(()))) => (
            StorePhaseView::Writing,
            StoreActionView::Update(k),
        ),
        (StorePhaseView::Fetching(_), StoreEventView::Found(j)) => succeed(Some(j)),
        (StorePhaseView::Listing, StoreEventView::Found(j)) => succeed(Some(j)),
        (StorePhaseView::Fetching(k), StoreEventView::NotFound) => fail(
            bad_request("Cannot find endpoint with id `"@ + k + "`"@),
        ),
        (StorePhaseView::Fetching(_), StoreEventView::RenderFailed(m)) => fail(
            RequestErrorView::Other { context: "Cannot serialize endpoint."@, cause: m },
        ),
        (StorePhaseView::Listing, StoreEventView::RenderFailed(m)) => fail(
            RequestErrorView::Other { context: "Cannot serialize endpoints."@, cause: m },
        ),
        (_, StoreEventView::StoreFailed(e)) => fail(e),
        (_, StoreEventView::Written(Ok(()))) => succeed(None),
        (_, StoreEventView::Written(Err(m))) => fail(write_error(m)),
        // An event that the phase does not accept; `store_accepts` rules it out.
        _ => (phase, StoreActionView::FetchAll),
    }
}

impl EndpointsManager {
    /// The name under which the handler is registered.
    pub fn name(&self) -> (res: &'static str)
        ensures
            res@ == "silence_endpoints"@,
    {
        "silence_endpoints"
    }

    /// Whether the handler serves a request with this method and parameters.
    pub fn request_ok(&self, method: HttpMethod, params: &RequestParams) -> (res: bool)
        requires
            params.wf(),
        ensures
            res == endpoints_request_ok(method, params@),
    {
        method != HttpMethod::Unknown && (method != HttpMethod::Get || is_absent_or_given(
            params,
            &"endpoint_id".to_owned(),
        ))
    }

    /// Reads the request's method and parameters: where the request stands
    /// and what the server is to do first.
    pub fn start(&self, method: HttpMethod, params: &RequestParams) -> (res: (StorePhase, StoreAction))
        requires
            params.wf(),
            endpoints_request_ok(method, params@),
        ensures
            (res.0@, res.1@) == endpoints_start(method, params@),
    {
        match method {
            HttpMethod::Get => match client_value(params, &"endpoint_id".to_owned()) {
                Some(id) => {
                    let key = id.clone();
                    (StorePhase::Fetching(id), StoreAction::Fetch(key))
                },
                None => (StorePhase::Listing, StoreAction::FetchAll),
            },
            HttpMethod::Post => {
                let target = resolve_target_file(params);
                (StorePhase::ReadingBody(Pending::Add(target)), StoreAction::ReadBody)
            },
            HttpMethod::Put => {
                let pending = match client_value(params, &"endpoint_id".to_owned()) {
                    Some(id) => Pending::Update(id),
                    None => Pending::Refuse(refused_with("Endpoint's id to delete was not specified.")),
                };
                (StorePhase::ReadingBody(pending), StoreAction::ReadBody)
            },
            _ => match client_value(params, &"id".to_owned()) {
                Some(id) => (StorePhase::Writing, StoreAction::Remove(id)),
                None => (
                    StorePhase::Answered,
                    StoreAction::Respond(Err(refused_with("Endpoint id to delete was not specified."))),
                ),
            },
        }
    }

    /// Takes what came of the last action: where the request now stands and
    /// what the server is to do next.
    pub fn advance(&self, phase: StorePhase, event: StoreEvent) -> (res: (StorePhase, StoreAction))
        requires
            store_accepts(phase@, event@),
        ensures
            (res.0@, res.1@) == endpoints_step(phase@, event@),
    {
        match (phase, event) {
            (StorePhase::ReadingBody(_), StoreEvent::BodyRead(Err(m))) => {
                (StorePhase::Answered, StoreAction::Respond(Err(body_read_failed(&m))))
            },
            (StorePhase::ReadingBody(Pending::Refuse(e)), StoreEvent::BodyRead(Ok(()))) => {
                (StorePhase::Answered, StoreAction::Respond(Err(e)))
            },
            (StorePhase::ReadingBody(p), StoreEvent::BodyRead(Ok(()))) => {
                (StorePhase::ParsingBody(p), StoreAction::ParseBody)
            },
            (StorePhase::ParsingBody(Pending::Refuse(e)), StoreEvent::BodyParsed(_)) => {
                (StorePhase::Answered, StoreAction::Respond(Err(e)))
            },
            (StorePhase::ParsingBody(Pending::Add(_)), StoreEvent::BodyParsed(Err(m))) => {
                (StorePhase::Answered, StoreAction::Respond(Err(refused("Cannot deserialize endpoint. ", &m))))
            },
            (StorePhase::ParsingBody(Pending::Update(_)), StoreEvent::BodyParsed(Err(m))) => {
                (
                    StorePhase::Answered,
                    StoreAction::Respond(Err(refused("Cannot deserialize endpoint's patch. ", &m))),
                )
            },
            (StorePhase::ParsingBody(Pending::Add(f)), StoreEvent::BodyParsed(Ok(()))) => {
                match check_target_file(&f) {
                    Ok(()) => (StorePhase::Writing, StoreAction::Add(f)),
                    Err(e) => (StorePhase::Answered, StoreAction::Respond(Err(e))),
                }
            },
            (StorePhase::ParsingBody(Pending::Update(k)), StoreEvent::BodyParsed(Ok(()))) => {
                (StorePhase::Writing, StoreAction::Update(k))
            },
            (StorePhase::Fetching(_), StoreEvent::Found(j)) => {
                (StorePhase::Answered, StoreAction::Respond(Ok(Some(j))))
            },
            (StorePhase::Listing, StoreEvent::Found(j)) => {
                (StorePhase::Answered, StoreAction::Respond(Ok(Some(j))))
            },
            (StorePhase::Fetching(k), StoreEvent::NotFound) => {
                (StorePhase::Answered, StoreAction::Respond(Err(not_found("Cannot find endpoint with id `", &k))))
            },
            (StorePhase::Fetching(_), StoreEvent::RenderFailed(m)) => {
                (StorePhase::Answered, StoreAction::Respond(Err(render_failed("Cannot serialize endpoint.", &m))))
            },
            (StorePhase::Listing, StoreEvent::RenderFailed(m)) => {
                (StorePhase::Answered, StoreAction::Respond(Err(render_failed("Cannot serialize endpoints.", &m))))
            },
            (_, StoreEvent::StoreFailed(e)) => (StorePhase::Answered, StoreAction::Respond(Err(e))),
            (_, StoreEvent::Written(Ok(()))) => (StorePhase::Answered, StoreAction::Respond(Ok(None))),
            (_, StoreEvent::Written(Err(m))) => {
                (StorePhase::Answered, StoreAction::Respond(Err(write_failed(&m))))
            },
            _ => unreached(),
        }
    }
}

/// A new endpoint only ever reaches the store for a file whose name ends
/// with `.json`.
pub proof fn lemma_endpoints_add_only_json_files(
    method: HttpMethod,
    params: Map<Seq<char>, ParamView>,
    phase: StorePhaseView,
    event: StoreEventView,
)
    requires
        store_accepts(phase, event),
    ensures
        !(endpoints_start(method, params).1 is Add),
        endpoints_step(phase, event).1 matches StoreActionView::Add(f) ==> ends_with(f, json_extension()),
{
}

/// Every event brings a request closer to its answer, and the request is
/// answered exactly when the handler's action is a response: a request is
/// answered after at most three events, and takes none after its answer.
pub proof fn lemma_endpoints_progress(
    method: HttpMethod,
    params: Map<Seq<char>, ParamView>,
    phase: StorePhaseView,
    event: StoreEventView,
)
    requires
        store_accepts(phase, event),
    ensures
        store_rank(endpoints_step(phase, event).0) < store_rank(phase),
        store_rank(endpoints_start(method, params).0) <= 3,
        (endpoints_step(phase, event).0 is Answered) == (endpoints_step(phase, event).1 is Respond),
        (endpoints_start(method, params).0 is Answered) == (endpoints_start(method, params).1 is Respond),
        forall|e: StoreEventView| !store_accepts(StorePhaseView::Answered, e),
{
}

/// The handler answers a failed body read with status 500, and every other
/// request it refuses itself, with status 400; errors of the store are
/// passed on as they are.
pub proof fn lemma_endpoints_statuses(
    method: HttpMethod,
    params: Map<Seq<char>, ParamView>,
    phase: StorePhaseView,
    event: StoreEventView,
)
    requires
        store_accepts(phase, event),
        refusals_are_bad_requests(phase),
    ensures
        refusals_are_bad_requests(endpoints_start(method, params).0),
        refusals_are_bad_requests(endpoints_step(phase, event).0),
        endpoints_start(method, params).1 matches StoreActionView::Respond(Err(e)) ==> e is Expected
            && e->Expected_0 == BAD_REQUEST,
        endpoints_step(phase, event).1 matches StoreActionView::Respond(Err(RequestErrorView::Expected(code, _))) ==>
            (event matches StoreEventView::StoreFailed(e) && e is Expected && e->Expected_0 == code)
            || (code == INTERNAL_SERVER_ERROR && event is BodyRead)
            || code == BAD_REQUEST,
{
}

/// A request touches the store at most once: once the store has been asked
/// for something, the next event answers the request. A resource is only
/// written once the request's body has been read and parsed.
pub proof fn lemma_endpoints_single_store_access(
    phase: StorePhaseView,
    event: StoreEventView,
    next_event: StoreEventView,
)
    requires
        store_accepts(phase, event),
        is_store_request(endpoints_step(phase, event).1),
        store_accepts(endpoints_step(phase, event).0, next_event),
    ensures
        endpoints_step(endpoints_step(phase, event).0, next_event).1 is Respond,
        (endpoints_step(phase, event).1 is Add || endpoints_step(phase, event).1 is Update) ==> phase is ParsingBody
            && event matches StoreEventView::BodyParsed(Ok(_)),
{
}

/// A lookup or a listing that the store answers with JSON is answered with
/// exactly that JSON as the body, and every answer with a body carries the
/// JSON that the store rendered: the handler never alters, drops or invents
/// a body.
pub proof fn lemma_endpoints_bodies_are_what_the_store_rendered(
    key: Seq<char>,
    json: Seq<char>,
    phase: StorePhaseView,
    event: StoreEventView,
)
    requires
        store_accepts(phase, event),
    ensures
        endpoints_step(StorePhaseView::Fetching(key), StoreEventView::Found(json)).0 is Answered,
        endpoints_step(StorePhaseView::Fetching(key), StoreEventView::Found(json)).1
            == StoreActionView::Respond(Ok(Some(json))),
        endpoints_step(StorePhaseView::Listing, StoreEventView::Found(json)).0 is Answered,
        endpoints_step(StorePhaseView::Listing, StoreEventView::Found(json)).1
            == StoreActionView::Respond(Ok(Some(json))),
        endpoints_step(phase, event).1 matches StoreActionView::Respond(Ok(Some(body)))
            ==> event == StoreEventView::Found(body),
        endpoints_step(phase, event).1 matches StoreActionView::Respond(Ok(None))
            ==> event matches StoreEventView::Written(Ok(_)),
{
}

} // verus!
