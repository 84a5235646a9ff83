use silence::internal_endpoints::mysql_proxy::{InternalParams, MySQLExecutor, MySQLExecutorProxy};
use silence::pipeline::{ParamValue, RequestParams};
use silence::text::{decode_spaces, ends_with_json};

#[test]
fn decode_spaces_replaces_each_escape() {
    assert_eq!(decode_spaces("a%20b"), "a b");
    assert_eq!(decode_spaces("%20%20x%20"), "  x ");
    assert_eq!(decode_spaces("my%20first%20test"), "my first test");
}

#[test]
fn decode_spaces_leaves_plain_names() {
    assert_eq!(decode_spaces(""), "");
    assert_eq!(decode_spaces("plain"), "plain");
    assert_eq!(decode_spaces("%2"), "%2");
    assert_eq!(decode_spaces("100%"), "100%");
}

#[test]
fn decode_spaces_leaves_no_escape_behind() {
    assert_eq!(decode_spaces("%%2020"), "% 20");
    assert_eq!(decode_spaces("%2%200"), "%2 0");
    for s in ["%%2020", "%2%200", "%20%2020", "x%202%200"] {
        assert!(!decode_spaces(s).contains("%20"));
    }
}

#[test]
fn decode_spaces_agrees_with_str_replace() {
    for s in ["", "%20", "a%20%20b", "%%2020", "%2%200", "ab%20c%2", "é%20ü"] {
        assert_eq!(decode_spaces(s), s.replace("%20", " "));
    }
}

#[test]
fn ends_with_json_checks_the_extension() {
    assert!(ends_with_json("default.json"));
    assert!(ends_with_json(".json"));
    assert!(!ends_with_json("json"));
    assert!(!ends_with_json("endpoints.yaml"));
    assert!(!ends_with_json("data.json.bak"));
    assert!(!ends_with_json(""));
}

#[test]
fn params_get_after_insert() {
    let mut params = RequestParams::new();
    assert_eq!(params.len(), 0);
    assert_eq!(params.insert("a".to_string(), ParamValue::Client(Some("1".to_string()))), None);
    assert_eq!(params.insert("b".to_string(), ParamValue::Client(None)), None);
    assert_eq!(params.get(&"a".to_string()), Some(&ParamValue::Client(Some("1".to_string()))));
    assert_eq!(params.get(&"b".to_string()), Some(&ParamValue::Client(None)));
    assert_eq!(params.get(&"c".to_string()), None);
    assert_eq!(params.len(), 2);
}

#[test]
fn params_insert_replaces_and_returns_the_old_value() {
    let mut params = RequestParams::new();
    params.insert("a".to_string(), ParamValue::Client(Some("1".to_string())));
    params.insert("b".to_string(), ParamValue::Client(Some("2".to_string())));
    let old = params.insert("a".to_string(), ParamValue::Internal("x".to_string()));
    assert_eq!(old, Some(ParamValue::Client(Some("1".to_string()))));
    assert_eq!(params.get(&"a".to_string()), Some(&ParamValue::Internal("x".to_string())));
    assert_eq!(params.get(&"b".to_string()), Some(&ParamValue::Client(Some("2".to_string()))));
    assert_eq!(params.len(), 2);
}

fn internal() -> InternalParams {
    InternalParams {
        users_target_table: "users".to_string(),
        sessions_target_table: "sessions".to_string(),
        roles_target_table: "roles".to_string(),
    }
}

#[test]
fn proxy_injects_internal_params() {
    let proxy = MySQLExecutorProxy::default();
    let mut params = RequestParams::new();
    params.insert("name".to_string(), ParamValue::Client(Some("bob".to_string())));
    proxy.inject_internal_params(&mut params, &internal());
    assert_eq!(params.len(), 4);
    assert_eq!(params.get(&"users_target_table".to_string()), Some(&ParamValue::Internal("users".to_string())));
    assert_eq!(params.get(&"sessions_target_table".to_string()), Some(&ParamValue::Internal("sessions".to_string())));
    assert_eq!(params.get(&"roles_target_table".to_string()), Some(&ParamValue::Internal("roles".to_string())));
    assert_eq!(params.get(&"name".to_string()), Some(&ParamValue::Client(Some("bob".to_string()))));
}

#[test]
fn proxy_overrides_client_table_names() {
    let proxy = MySQLExecutorProxy::default();
    let mut params = RequestParams::new();
    params.insert("users_target_table".to_string(), ParamValue::Client(Some("admins".to_string())));
    proxy.inject_internal_params(&mut params, &internal());
    assert_eq!(params.get(&"users_target_table".to_string()), Some(&ParamValue::Internal("users".to_string())));
    assert_eq!(params.len(), 3);
}

#[test]
fn proxy_injection_is_idempotent() {
    let proxy = MySQLExecutorProxy::default();
    let mut once = RequestParams::new();
    once.insert("q".to_string(), ParamValue::Client(Some("1".to_string())));
    proxy.inject_internal_params(&mut once, &internal());
    let mut twice = once.clone();
    proxy.inject_internal_params(&mut twice, &internal());
    assert_eq!(twice.len(), once.len());
    for key in ["q", "users_target_table", "sessions_target_table", "roles_target_table"] {
        assert_eq!(twice.get(&key.to_string()), once.get(&key.to_string()));
    }
}

#[test]
fn proxy_defaults_and_conversions() {
    let proxy = MySQLExecutorProxy::default();
    assert_eq!(proxy.executor().query, "SELECT * FROM example");
    assert_eq!(proxy.name(), "silence_mysql_proxy");
    let exec = MySQLExecutor::from_query("SELECT 1".to_string());
    let proxy: MySQLExecutorProxy = exec.clone().into();
    assert_eq!(proxy, MySQLExecutorProxy(exec));
}
