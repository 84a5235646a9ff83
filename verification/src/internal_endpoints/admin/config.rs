//! The admin handler of Silence's configuration: shows it, and patches it.
use vstd::prelude::*;

use crate::internal_endpoints::admin::exchange::{
    bad_request, body_read_error, body_read_failed, outcome_view, refused, render_failed,
    reply_view, Reply, ReplyView,
};
use crate::pipeline::{HttpMethod, RequestError, RequestErrorView};

verus! {

/// Config manager.
#[derive(Clone, Copy, Debug)]
pub struct ConfigManager;

/// What the server is asked to do next for a request on the configuration.
#[derive(Debug, PartialEq, Eq)]
pub enum ConfigAction {
    /// Render the current configuration as JSON.
    Render,
    /// Collect the request's body.
    ReadBody,
    /// Parse the collected body into a patch of the configuration.
    ParsePatch,
    /// Apply the parsed patch to the configuration and save it.
    ApplyPatch,
    /// Answer the request.
    Respond(Reply),
}

pub enum ConfigActionView {
    Render,
    ReadBody,
    ParsePatch,
    ApplyPatch,
    Respond(ReplyView),
}

impl View for ConfigAction {
    type V = ConfigActionView;

    open spec fn view(&self) -> ConfigActionView {
        match self {
            ConfigAction::Render => ConfigActionView::Render,
            ConfigAction::ReadBody => ConfigActionView::ReadBody,
            ConfigAction::ParsePatch => ConfigActionView::ParsePatch,
            ConfigAction::ApplyPatch => ConfigActionView::ApplyPatch,
            ConfigAction::Respond(r) => ConfigActionView::Respond(reply_view(*r)),
        }
    }
}

/// What came of the action that the server was last asked to perform.
#[derive(Debug, PartialEq, Eq)]
pub enum ConfigEvent {
    /// The configuration was rendered as this JSON text, or not, with the
    /// renderer's message.
    Rendered(Result<String, String>),
    /// The body was collected, or not, with the reader's message.
    BodyRead(Result<(), String>),
    /// The body was parsed into a patch, or not, with the parser's message.
    PatchParsed(Result<(), String>),
    /// The patched configuration was saved, or saving failed with this error.
    Saved(Result<(), RequestError>),
}

pub enum ConfigEventView {
    Rendered(Result<Seq<char>, Seq<char>>),
    BodyRead(Result<(), Seq<char>>),
    PatchParsed(Result<(), Seq<char>>),
    Saved(Result<(), RequestErrorView>),
}

impl View for ConfigEvent {
    type V = ConfigEventView;

    open spec fn view(&self) -> ConfigEventView {
        match self {
            ConfigEvent::Rendered(Ok(j)) => ConfigEventView::Rendered(Ok(j@)),
            ConfigEvent::Rendered(Err(m)) => ConfigEventView::Rendered(Err(m@)),
            ConfigEvent::BodyRead(r) => ConfigEventView::BodyRead(outcome_view(*r)),
            ConfigEvent::PatchParsed(r) => ConfigEventView::PatchParsed(outcome_view(*r)),
            ConfigEvent::Saved(Ok(())) => ConfigEventView::Saved(Ok(())),
            ConfigEvent::Saved(Err(e)) => ConfigEventView::Saved(Err(e@)),
        }
    }
}

/// Where a request on the configuration stands.
#[derive(Clone, Copy, Debug, PartialEq, Eq, Structural)]
pub enum ConfigPhase {
    Rendering,
    ReadingBody,
    ParsingPatch,
    Saving,
    Answered,
}

/// The requests the handler serves: those that read or patch the configuration.
pub open spec fn config_request_ok(method: HttpMethod) -> bool {
    method == HttpMethod::Get || method == HttpMethod::Put
}

/// The events that the server may report in a phase.
pub open spec fn config_accepts(phase: ConfigPhase, event: ConfigEventView) -> bool {
    match (phase, event) {
        (ConfigPhase::Rendering, ConfigEventView::Rendered(_)) => true,
        (ConfigPhase::ReadingBody, ConfigEventView::BodyRead(_)) => true,
        (ConfigPhase::ParsingPatch, ConfigEventView::PatchParsed(_)) => true,
        (ConfigPhase::Saving, ConfigEventView::Saved(_)) => true,
        _ => false,
    }
}

/// How many more events a request may take before it is answered.
pub open spec fn config_rank(phase: ConfigPhase) -> nat {
    match phase {
        ConfigPhase::Rendering => 1,
        ConfigPhase::ReadingBody => 3,
        ConfigPhase::ParsingPatch => 2,
        ConfigPhase::Saving => 1,
        ConfigPhase::Answered => 0,
    }
}

/// Where a request stands once the handler has read its method, and what it
/// asks for first.
pub open spec fn config_start(method: HttpMethod) -> (ConfigPhase, ConfigActionView) {
    if method == HttpMethod::Get {
        (ConfigPhase::Rendering, ConfigActionView::Render)
    } else {
        (ConfigPhase::ReadingBody, ConfigActionView::ReadBody)
    }
}

/// What the handler does with an event that the server reports in a phase.
pub open spec fn config_step(phase: ConfigPhase, event: ConfigEventView) -> (ConfigPhase, ConfigActionView) {
    match event {
        ConfigEventView::Rendered(Ok(j)) => (ConfigPhase::Answered, ConfigActionView::Respond(Ok(Some(j)))),
        ConfigEventView::Rendered(Err(m)) => (
            ConfigPhase::Answered,
            ConfigActionView::Respond(
                Err(RequestErrorView::Other { context: "Cannot serialize endpoints"@, cause: m }),
            ),
        ),
        ConfigEventView::BodyRead(Ok(())) => (ConfigPhase::ParsingPatch, ConfigActionView::ParsePatch),
        ConfigEventView::BodyRead(Err(m)) => (
            ConfigPhase::Answered,
            ConfigActionView::Respond(Err(body_read_error(m))),
        ),
        ConfigEventView::PatchParsed(Ok(())) => (ConfigPhase::Saving, ConfigActionView::ApplyPatch),
        ConfigEventView::PatchParsed(Err(m)) => (
            ConfigPhase::Answered,
            ConfigActionView::Respond(Err(bad_request("Cannot deserialize config's patch. "@ + m))),
        ),
        ConfigEventView::Saved(Ok(())) => (ConfigPhase::Answered, ConfigActionView::Respond(Ok(None))),
        ConfigEventView::Saved(Err(e)) => (ConfigPhase::Answered, ConfigActionView::Respond(Err(e))),
    }
}

impl ConfigManager {
    /// The name under which the handler is registered.
    pub fn name(&self) -> (res: &'static str)
        ensures
            res@ == "silence_config"@,
    {
        "silence_config"
    }

    /// Whether the handler serves a request with this method.
    pub fn request_ok(&self, method: HttpMethod) -> (res: bool)
        ensures
            res == config_request_ok(method),
    {
        method == HttpMethod::Get || method == HttpMethod::Put
    }

    /// Reads the request's method: where the request stands and what the
    /// server is to do first.
    pub fn start(&self, method: HttpMethod) -> (res: (ConfigPhase, ConfigAction))
        requires
            config_request_ok(method),
        ensures
            (res.0, res.1@) == config_start(method),
    {
        if method == HttpMethod::Get {
            (ConfigPhase::Rendering, ConfigAction::Render)
        } else {
            (ConfigPhase::ReadingBody, ConfigAction::ReadBody)
        }
    }

    /// Whether the server may report `event` in `phase`.
    pub fn accepts(&self, phase: ConfigPhase, event: &ConfigEvent) -> (res: bool)
        ensures
            res == config_accepts(phase, event@),
    {
        match (phase, event) {
            (ConfigPhase::Rendering, ConfigEvent::Rendered(_)) => true,
            (ConfigPhase::ReadingBody, ConfigEvent::BodyRead(_)) => true,
            (ConfigPhase::ParsingPatch, ConfigEvent::PatchParsed(_)) => true,
            (ConfigPhase::Saving, ConfigEvent::Saved(_)) => true,
            _ => false,
        }
    }

    /// Takes what came of the last action: where the request now stands and
    /// what the server is to do next.
    pub fn advance(&self, phase: ConfigPhase, event: ConfigEvent) -> (res: (ConfigPhase, ConfigAction))
        requires
            config_accepts(phase, event@),
        ensures
            (res.0, res.1@) == config_step(phase, event@),
    {
        match event {
            ConfigEvent::Rendered(Ok(j)) => (ConfigPhase::Answered, ConfigAction::Respond(Ok(Some(j)))),
            ConfigEvent::Rendered(Err(m)) => (
                ConfigPhase::Answered,
                ConfigAction::Respond(Err(render_failed("Cannot serialize endpoints", &m))),
            ),
            ConfigEvent::BodyRead(Ok(())) => (ConfigPhase::ParsingPatch, ConfigAction::ParsePatch),
            ConfigEvent::BodyRead(Err(m)) => (
                ConfigPhase::Answered,
                ConfigAction::Respond(Err(body_read_failed(&m))),
            ),
            ConfigEvent::PatchParsed(Ok(())) => (ConfigPhase::Saving, ConfigAction::ApplyPatch),
            ConfigEvent::PatchParsed(Err(m)) => (
                ConfigPhase::Answered,
                ConfigAction::Respond(Err(refused("Cannot deserialize config's patch. ", &m))),
            ),
            ConfigEvent::Saved(Ok(())) => (ConfigPhase::Answered, ConfigAction::Respond(Ok(None))),
            ConfigEvent::Saved(Err(e)) => (ConfigPhase::Answered, ConfigAction::Respond(Err(e))),
        }
    }
}

/// Every event brings a request on the configuration closer to its answer;
/// the request is answered exactly when the action is a response, and a
/// patch is only applied once it has been read and parsed.
pub proof fn lemma_config_progress(method: HttpMethod, phase: ConfigPhase, event: ConfigEventView)
    requires
        config_accepts(phase, event),
    ensures
        config_rank(config_step(phase, event).0) < config_rank(phase),
        (config_step(phase, event).0 == ConfigPhase::Answered) == (config_step(phase, event).1 is Respond),
        config_step(phase, event).1 is ApplyPatch ==> phase == ConfigPhase::ParsingPatch
            && event matches ConfigEventView::PatchParsed(Ok(_)),
        config_request_ok(method) ==> !(config_start(method).1 is ApplyPatch),
        forall|e: ConfigEventView| !config_accepts(ConfigPhase::Answered, e),
{
}

/// The answer to a request for the configuration is the configuration
/// exactly as rendered, and every answer with a body carries what the
/// renderer produced.
pub proof fn lemma_config_body_is_the_rendered_configuration(
    json: Seq<char>,
    phase: ConfigPhase,
    event: ConfigEventView,
)
    requires
        config_accepts(phase, event),
    ensures
        config_step(ConfigPhase::Rendering, ConfigEventView::Rendered(Ok(json))).0
            == ConfigPhase::Answered,
        config_step(ConfigPhase::Rendering, ConfigEventView::Rendered(Ok(json))).1
            == ConfigActionView::Respond(Ok(Some(json))),
        config_step(phase, event).1 matches ConfigActionView::Respond(Ok(Some(body)))
            ==> event == ConfigEventView::Rendered(Ok(body)),
        config_step(phase, event).1 matches ConfigActionView::Respond(Ok(None))
            ==> event matches ConfigEventView::Saved(Ok(_)),
{
}

} // verus!
