use silence::internal_endpoints::admin::config::{ConfigAction, ConfigEvent, ConfigManager, ConfigPhase};
use silence::internal_endpoints::admin::endpoint_tests::EndpointTestsManager;
use silence::internal_endpoints::admin::endpoints::EndpointsManager;
use silence::internal_endpoints::admin::exchange::{accepts, Pending, StoreAction, StoreEvent, StorePhase};
use silence::pipeline::{HttpMethod, ParamValue, RequestError, RequestParams};

fn s(x: &str) -> String {
    x.to_string()
}

fn params(pairs: &[(&str, &str)]) -> RequestParams {
    let mut p = RequestParams::new();
    for (k, v) in pairs {
        p.insert(s(k), ParamValue::Client(Some(s(v))));
    }
    p
}

fn bad(msg: &str) -> StoreAction {
    StoreAction::Respond(Err(RequestError::Expected(400, s(msg))))
}

// ---- Endpoints ----------------------------------------------------------------

#[test]
fn endpoints_get_one_found() {
    let m = EndpointsManager;
    let (phase, action) = m.start(HttpMethod::Get, &params(&[("endpoint_id", "users")]));
    assert_eq!(action, StoreAction::Fetch(s("users")));
    assert_eq!(phase, StorePhase::Fetching(s("users")));
    let (phase, action) = m.advance(phase, StoreEvent::Found(s("{\"id\":\"users\"}")));
    assert_eq!(phase, StorePhase::Answered);
    assert_eq!(action, StoreAction::Respond(Ok(Some(s("{\"id\":\"users\"}")))));
}

#[test]
fn endpoints_get_one_missing() {
    let m = EndpointsManager;
    let (phase, _) = m.start(HttpMethod::Get, &params(&[("endpoint_id", "ghost")]));
    let (_, action) = m.advance(phase, StoreEvent::NotFound);
    assert_eq!(action, bad("Cannot find endpoint with id `ghost`"));
}

#[test]
fn endpoints_get_one_render_and_store_failures() {
    let m = EndpointsManager;
    let (phase, _) = m.start(HttpMethod::Get, &params(&[("endpoint_id", "e")]));
    let (_, action) = m.advance(phase.clone(), StoreEvent::RenderFailed(s("boom")));
    assert_eq!(
        action,
        StoreAction::Respond(Err(RequestError::Other { context: s("Cannot serialize endpoint."), cause: s("boom") }))
    );
    let err = RequestError::Expected(503, s("store down"));
    let (_, action) = m.advance(phase, StoreEvent::StoreFailed(err.clone()));
    assert_eq!(action, StoreAction::Respond(Err(err)));
}

#[test]
fn endpoints_get_all() {
    let m = EndpointsManager;
    let (phase, action) = m.start(HttpMethod::Get, &RequestParams::new());
    assert_eq!((phase.clone(), action), (StorePhase::Listing, StoreAction::FetchAll));
    let (_, action) = m.advance(phase.clone(), StoreEvent::Found(s("[]")));
    assert_eq!(action, StoreAction::Respond(Ok(Some(s("[]")))));
    let (_, action) = m.advance(phase, StoreEvent::RenderFailed(s("x")));
    assert_eq!(
        action,
        StoreAction::Respond(Err(RequestError::Other { context: s("Cannot serialize endpoints."), cause: s("x") }))
    );
}

#[test]
fn endpoints_get_rejects_badly_shaped_id() {
    let m = EndpointsManager;
    let mut p = RequestParams::new();
    p.insert(s("endpoint_id"), ParamValue::Client(None));
    assert!(!m.request_ok(HttpMethod::Get, &p));
    assert!(!m.request_ok(HttpMethod::Unknown, &RequestParams::new()));
    assert!(m.request_ok(HttpMethod::Delete, &p));
    assert!(m.request_ok(HttpMethod::Get, &params(&[("endpoint_id", "a")])));
}

#[test]
fn endpoints_post_to_default_file() {
    let m = EndpointsManager;
    let (phase, action) = m.start(HttpMethod::Post, &RequestParams::new());
    assert_eq!(action, StoreAction::ReadBody);
    assert_eq!(phase, StorePhase::ReadingBody(Pending::Add(s("default.json"))));
    let (phase, action) = m.advance(phase, StoreEvent::BodyRead(Ok(())));
    assert_eq!(action, StoreAction::ParseBody);
    let (phase, action) = m.advance(phase, StoreEvent::BodyParsed(Ok(())));
    assert_eq!(action, StoreAction::Add(s("default.json")));
    assert_eq!(phase, StorePhase::Writing);
    let (phase, action) = m.advance(phase, StoreEvent::Written(Ok(())));
    assert_eq!(phase, StorePhase::Answered);
    assert_eq!(action, StoreAction::Respond(Ok(None)));
}

#[test]
fn endpoints_post_to_non_json_file_is_refused() {
    let m = EndpointsManager;
    let (phase, _) = m.start(HttpMethod::Post, &params(&[("target_file", "eps.yaml")]));
    let (phase, _) = m.advance(phase, StoreEvent::BodyRead(Ok(())));
    let (phase, action) = m.advance(phase, StoreEvent::BodyParsed(Ok(())));
    assert_eq!(phase, StorePhase::Answered);
    assert_eq!(action, bad("Target file eps.yaml doesn't end with `.json`."));
}

#[test]
fn endpoints_post_parse_error_comes_before_file_check() {
    let m = EndpointsManager;
    let (phase, _) = m.start(HttpMethod::Post, &params(&[("target_file", "eps.yaml")]));
    let (phase, _) = m.advance(phase, StoreEvent::BodyRead(Ok(())));
    let (_, action) = m.advance(phase, StoreEvent::BodyParsed(Err(s("missing field `id`"))));
    assert_eq!(action, bad("Cannot deserialize endpoint. missing field `id`"));
}

#[test]
fn endpoints_post_body_read_error_is_internal() {
    let m = EndpointsManager;
    let (phase, _) = m.start(HttpMethod::Post, &RequestParams::new());
    let (phase, action) = m.advance(phase, StoreEvent::BodyRead(Err(s("reset"))));
    assert_eq!(phase, StorePhase::Answered);
    assert_eq!(action, StoreAction::Respond(Err(RequestError::Expected(500, s("Cannot get request's body. reset")))));
}

#[test]
fn endpoints_post_write_error() {
    let m = EndpointsManager;
    let (phase, _) = m.start(HttpMethod::Post, &params(&[("target_file", "a.json")]));
    let (phase, _) = m.advance(phase, StoreEvent::BodyRead(Ok(())));
    let (phase, action) = m.advance(phase, StoreEvent::BodyParsed(Ok(())));
    assert_eq!(action, StoreAction::Add(s("a.json")));
    let (_, action) = m.advance(phase, StoreEvent::Written(Err(s("Endpoint already exists"))));
    assert_eq!(action, bad("Endpoint already exists. Operation might have been partially completed."));
}

#[test]
fn endpoints_put_flow() {
    let m = EndpointsManager;
    let (phase, action) = m.start(HttpMethod::Put, &params(&[("endpoint_id", "e1")]));
    assert_eq!(action, StoreAction::ReadBody);
    let (phase, _) = m.advance(phase, StoreEvent::BodyRead(Ok(())));
    let (phase, action) = m.advance(phase, StoreEvent::BodyParsed(Ok(())));
    assert_eq!(action, StoreAction::Update(s("e1")));
    let (_, action) = m.advance(phase, StoreEvent::Written(Ok(())));
    assert_eq!(action, StoreAction::Respond(Ok(None)));
}

#[test]
fn endpoints_put_without_id_fails_after_body_read() {
    let m = EndpointsManager;
    let (phase, action) = m.start(HttpMethod::Put, &RequestParams::new());
    assert_eq!(action, StoreAction::ReadBody);
    let (_, action) = m.advance(phase.clone(), StoreEvent::BodyRead(Err(s("eof"))));
    assert_eq!(action, StoreAction::Respond(Err(RequestError::Expected(500, s("Cannot get request's body. eof")))));
    let (phase, action) = m.advance(phase, StoreEvent::BodyRead(Ok(())));
    assert_eq!(phase, StorePhase::Answered);
    assert_eq!(action, bad("Endpoint's id to delete was not specified."));
}

#[test]
fn endpoints_put_patch_parse_error() {
    let m = EndpointsManager;
    let (phase, _) = m.start(HttpMethod::Put, &params(&[("endpoint_id", "e1")]));
    let (phase, _) = m.advance(phase, StoreEvent::BodyRead(Ok(())));
    let (_, action) = m.advance(phase, StoreEvent::BodyParsed(Err(s("bad"))));
    assert_eq!(action, bad("Cannot deserialize endpoint's patch. bad"));
}

#[test]
fn endpoints_delete() {
    let m = EndpointsManager;
    let (phase, action) = m.start(HttpMethod::Delete, &params(&[("id", "e1")]));
    assert_eq!(action, StoreAction::Remove(s("e1")));
    let (_, action) = m.advance(phase, StoreEvent::Written(Err(s("nope"))));
    assert_eq!(action, bad("nope. Operation might have been partially completed."));
    let (phase, action) = m.start(HttpMethod::Delete, &params(&[("endpoint_id", "e1")]));
    assert_eq!(phase, StorePhase::Answered);
    assert_eq!(action, bad("Endpoint id to delete was not specified."));
}

#[test]
fn endpoints_accepts_only_fitting_events() {
    assert!(accepts(&StorePhase::Listing, &StoreEvent::Found(s("[]"))));
    assert!(!accepts(&StorePhase::Listing, &StoreEvent::NotFound));
    assert!(!accepts(&StorePhase::Answered, &StoreEvent::Written(Ok(()))));
    assert!(!accepts(&StorePhase::Writing, &StoreEvent::BodyRead(Ok(()))));
    assert!(accepts(&StorePhase::Fetching(s("a")), &StoreEvent::NotFound));
}

#[test]
fn endpoints_name() {
    assert_eq!(EndpointsManager.name(), "silence_endpoints");
}

// ---- Endpoint tests -----------------------------------------------------------

#[test]
fn tests_get_decodes_name() {
    let m = EndpointTestsManager;
    let (phase, action) = m.start(HttpMethod::Get, &params(&[("test_name", "my%20test")]));
    assert_eq!(action, StoreAction::Fetch(s("my test")));
    let (_, action) = m.advance(phase, StoreEvent::NotFound);
    assert_eq!(action, bad("Cannot find test with name `my test`"));
}

#[test]
fn tests_get_all_and_render_errors() {
    let m = EndpointTestsManager;
    let (phase, action) = m.start(HttpMethod::Get, &RequestParams::new());
    assert_eq!(action, StoreAction::FetchAll);
    let (_, action) = m.advance(phase, StoreEvent::RenderFailed(s("e")));
    assert_eq!(action, StoreAction::Respond(Err(RequestError::Other { context: s("Cannot serialize tests."), cause: s("e") })));
    let (phase, _) = m.start(HttpMethod::Get, &params(&[("test_name", "t")]));
    let (_, action) = m.advance(phase, StoreEvent::RenderFailed(s("e")));
    assert_eq!(action, StoreAction::Respond(Err(RequestError::Other { context: s("Cannot serialize test."), cause: s("e") })));
}

#[test]
fn tests_post_and_parse_error() {
    let m = EndpointTestsManager;
    let (phase, _) = m.start(HttpMethod::Post, &params(&[("target_file", "tests.json")]));
    let (phase, _) = m.advance(phase, StoreEvent::BodyRead(Ok(())));
    let (_, action) = m.advance(phase.clone(), StoreEvent::BodyParsed(Err(s("x"))));
    assert_eq!(action, bad("Cannot deserialize test. x"));
    let (_, action) = m.advance(phase, StoreEvent::BodyParsed(Ok(())));
    assert_eq!(action, StoreAction::Add(s("tests.json")));
}

#[test]
fn tests_put_decodes_and_parses_patch() {
    let m = EndpointTestsManager;
    let (phase, _) = m.start(HttpMethod::Put, &params(&[("test_name", "a%20b")]));
    assert_eq!(phase, StorePhase::ReadingBody(Pending::Update(s("a b"))));
    let (phase, _) = m.advance(phase, StoreEvent::BodyRead(Ok(())));
    let (_, action) = m.advance(phase.clone(), StoreEvent::BodyParsed(Err(s("y"))));
    assert_eq!(action, bad("Cannot deserialize test's patch. y"));
    let (_, action) = m.advance(phase, StoreEvent::BodyParsed(Ok(())));
    assert_eq!(action, StoreAction::Update(s("a b")));
}

#[test]
fn tests_put_and_delete_without_name() {
    let m = EndpointTestsManager;
    let (phase, _) = m.start(HttpMethod::Put, &RequestParams::new());
    let (_, action) = m.advance(phase, StoreEvent::BodyRead(Ok(())));
    assert_eq!(action, bad("Test's name to delete was not specified."));
    let (_, action) = m.start(HttpMethod::Delete, &RequestParams::new());
    assert_eq!(action, bad("Test's name to delete was not specified."));
}

#[test]
fn tests_delete_decodes_name() {
    let m = EndpointTestsManager;
    let (phase, action) = m.start(HttpMethod::Delete, &params(&[("test_name", "x%20y%20z")]));
    assert_eq!(action, StoreAction::Remove(s("x y z")));
    let (_, action) = m.advance(phase, StoreEvent::Written(Ok(())));
    assert_eq!(action, StoreAction::Respond(Ok(None)));
    assert_eq!(EndpointTestsManager.name(), "silence_endpoint_tests");
}

// ---- Configuration -------------------------------------------------------------

#[test]
fn config_get() {
    let m = ConfigManager;
    assert!(m.request_ok(HttpMethod::Get));
    assert!(!m.request_ok(HttpMethod::Post));
    let (phase, action) = m.start(HttpMethod::Get);
    assert_eq!((phase, action), (ConfigPhase::Rendering, ConfigAction::Render));
    let (_, action) = m.advance(phase, ConfigEvent::Rendered(Ok(s("{}"))));
    assert_eq!(action, ConfigAction::Respond(Ok(Some(s("{}")))));
    let (_, action) = m.advance(phase, ConfigEvent::Rendered(Err(s("e"))));
    assert_eq!(action, ConfigAction::Respond(Err(RequestError::Other { context: s("Cannot serialize endpoints"), cause: s("e") })));
}

#[test]
fn config_put() {
    let m = ConfigManager;
    let (phase, action) = m.start(HttpMethod::Put);
    assert_eq!(action, ConfigAction::ReadBody);
    let (_, action) = m.advance(phase, ConfigEvent::BodyRead(Err(s("r"))));
    assert_eq!(action, ConfigAction::Respond(Err(RequestError::Expected(500, s("Cannot get request's body. r")))));
    let (phase, action) = m.advance(phase, ConfigEvent::BodyRead(Ok(())));
    assert_eq!((phase, action), (ConfigPhase::ParsingPatch, ConfigAction::ParsePatch));
    let (_, action) = m.advance(phase, ConfigEvent::PatchParsed(Err(s("p"))));
    assert_eq!(action, ConfigAction::Respond(Err(RequestError::Expected(400, s("Cannot deserialize config's patch. p")))));
    let (phase, action) = m.advance(phase, ConfigEvent::PatchParsed(Ok(())));
    assert_eq!((phase, action), (ConfigPhase::Saving, ConfigAction::ApplyPatch));
    let err = RequestError::Other { context: s("Cannot save config."), cause: s("disk") };
    let (_, action) = m.advance(phase, ConfigEvent::Saved(Err(err.clone())));
    assert_eq!(action, ConfigAction::Respond(Err(err)));
    let (phase, action) = m.advance(phase, ConfigEvent::Saved(Ok(())));
    assert_eq!((phase, action), (ConfigPhase::Answered, ConfigAction::Respond(Ok(None))));
    assert!(!m.accepts(ConfigPhase::Answered, &ConfigEvent::Saved(Ok(()))));
    assert!(m.accepts(ConfigPhase::Saving, &ConfigEvent::Saved(Ok(()))));
    assert_eq!(m.name(), "silence_config");
}
