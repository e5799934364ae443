use cc_sonde::config::{Config, WarpScriptApp, WarpScriptProbe};
use cc_sonde::web::{
    asset_path, check_ingest, is_authorized, mask_tokens, prepare_config_update, route_request,
    unmask_tokens, HttpMethod, IngestCheck, Route, UiAuth, TOKEN_MASK,
};
use cc_sonde::config::{Checks, Probe};

fn app(id: &str, token: Option<&str>) -> WarpScriptApp {
    WarpScriptApp { id: id.to_string(), warp_token: token.map(|t| t.to_string()) }
}

fn ws(name: &str, apps: Vec<WarpScriptApp>) -> WarpScriptProbe<f64> {
    WarpScriptProbe {
        name: name.to_string(),
        warpscript_file: "f".to_string(),
        interval_seconds: 60,
        command_timeout_seconds: 30,
        delay_after_scale_seconds: None,
        apps,
        levels: Vec::new(),
    }
}

fn health_probe() -> Probe {
    Probe {
        name: "h".to_string(),
        url: "http://x".to_string(),
        interval_seconds: 10,
        checks: Checks { expected_status: Some(200), expected_body_contains: None, expected_body_regex: None, expected_header: None },
        on_failure_command: None,
        command_timeout_seconds: 30,
        delay_after_success_seconds: None,
        delay_after_failure_seconds: None,
        failure_retries_before_command: None,
    }
}

fn sample() -> Config<f64> {
    Config {
        probes: vec![health_probe()],
        warpscript_probes: vec![
            ws("cpu", vec![app("a1", Some("secret1")), app("a2", None)]),
            ws("mem", vec![app("a1", Some("secret2"))]),
        ],
        agent_probes: Vec::new(),
    }
}

fn tokens(c: &Config<f64>) -> Vec<Option<String>> {
    c.warpscript_probes.iter().flat_map(|p| p.apps.iter().map(|a| a.warp_token.clone())).collect()
}

fn auth() -> UiAuth {
    UiAuth::from_env(Some("admin".to_string()), Some("pw:1".to_string())).unwrap()
}

#[test]
fn mask_hides_set_tokens_only() {
    let mut c = sample();
    mask_tokens(&mut c);
    assert_eq!(tokens(&c), vec![Some(TOKEN_MASK.to_string()), None, Some(TOKEN_MASK.to_string())]);
    assert_eq!(c.warpscript_probes[0].apps[0].id, "a1");
}

#[test]
fn mask_then_unmask_restores_every_token() {
    let stored = sample();
    let mut c = sample();
    mask_tokens(&mut c);
    unmask_tokens(&mut c, &stored);
    assert_eq!(tokens(&c), tokens(&stored));
}

#[test]
fn unmask_keeps_genuine_changes_and_cleared_tokens() {
    let old = sample();
    let mut c = Config {
        probes: vec![health_probe()],
        warpscript_probes: vec![
            ws("cpu", vec![app("a1", Some("new-secret")), app("a2", Some(TOKEN_MASK))]),
            ws("mem", vec![app("a1", None)]),
            ws("other", vec![app("a1", Some(TOKEN_MASK))]),
        ],
        agent_probes: Vec::new(),
    };
    unmask_tokens(&mut c, &old);
    assert_eq!(tokens(&c), vec![Some("new-secret".to_string()), None, None, None]);
}

#[test]
fn unmask_uses_the_last_stored_token_for_a_repeated_key() {
    let old = Config::<f64> {
        probes: Vec::new(),
        warpscript_probes: vec![ws("cpu", vec![app("a1", Some("first"))]), ws("cpu", vec![app("a1", Some("second")), app("a1", None)])],
        agent_probes: Vec::new(),
    };
    let mut c = Config::<f64> { probes: Vec::new(), warpscript_probes: vec![ws("cpu", vec![app("a1", Some(TOKEN_MASK))])], agent_probes: Vec::new() };
    unmask_tokens(&mut c, &old);
    assert_eq!(tokens(&c), vec![Some("second".to_string())]);
}

#[test]
fn ui_auth_needs_both_values_non_empty() {
    assert!(UiAuth::from_env(Some("u".to_string()), Some("p".to_string())).is_some());
    assert!(UiAuth::from_env(Some("".to_string()), Some("p".to_string())).is_none());
    assert!(UiAuth::from_env(Some("u".to_string()), None).is_none());
    assert!(UiAuth::from_env(None, Some("p".to_string())).is_none());
}

#[test]
fn basic_auth_checks_decoded_credentials() {
    let a = auth();
    // base64("admin:pw:1") == "YWRtaW46cHc6MQ=="
    assert!(is_authorized(Some("Basic YWRtaW46cHc6MQ=="), &a));
    assert!(is_authorized(Some("Basic   YWRtaW46cHc6MQ==  "), &a));
    // base64("admin:wrong")
    assert!(!is_authorized(Some("Basic YWRtaW46d3Jvbmc="), &a));
    assert!(!is_authorized(Some("Bearer YWRtaW46cHc6MQ=="), &a));
    assert!(!is_authorized(Some("Basic !!!"), &a));
    // base64("adminpw") has no colon
    assert!(!is_authorized(Some("Basic YWRtaW5wdw=="), &a));
    // base64 of the bytes ff fe (not UTF-8)
    assert!(!is_authorized(Some("Basic //4="), &a));
    assert!(!is_authorized(None, &a));
}

#[test]
fn routing_follows_the_endpoint_table() {
    let a = auth();
    let ok = Some("Basic YWRtaW46cHc6MQ==");
    assert!(matches!(route_request(HttpMethod::Get, "/healthz", None, None), Route::Liveness));
    match route_request(HttpMethod::Post, "/api/metrics/app_7", None, None) {
        Route::IngestMetrics { app_id } => assert_eq!(app_id, "app_7"),
        _ => panic!("expected ingest"),
    }
    assert!(matches!(route_request(HttpMethod::Get, "/api/metrics/app_7", None, None), Route::NotFound));
    assert!(matches!(route_request(HttpMethod::Get, "/", None, None), Route::LegacyRoot));
    assert!(matches!(route_request(HttpMethod::Get, "/other", None, None), Route::NotFound));
    assert!(matches!(route_request(HttpMethod::Get, "/api/config", Some(&a), None), Route::Unauthorized));
    assert!(matches!(route_request(HttpMethod::Get, "/api/config", Some(&a), ok), Route::GetConfig));
    assert!(matches!(route_request(HttpMethod::Put, "/api/config", Some(&a), ok), Route::PutConfig));
    assert!(matches!(route_request(HttpMethod::Get, "/assets/app.js", Some(&a), ok), Route::Asset));
    assert!(matches!(route_request(HttpMethod::Put, "/x", Some(&a), ok), Route::MethodNotAllowed));
    assert!(matches!(route_request(HttpMethod::Other, "/api/config", Some(&a), ok), Route::MethodNotAllowed));
}

#[test]
fn ingest_requires_token_and_declared_app() {
    let apps = vec!["app_1".to_string(), "app_2".to_string()];
    assert!(matches!(check_ingest(Some("s3"), None, &apps, "app_1"), IngestCheck::Unauthorized));
    assert!(matches!(check_ingest(Some("s3"), Some("bad"), &apps, "app_1"), IngestCheck::Unauthorized));
    assert!(matches!(check_ingest(Some("s3"), Some("s3"), &apps, "app_9"), IngestCheck::UnknownApp));
    assert!(matches!(check_ingest(Some("s3"), Some("s3"), &apps, "app_2"), IngestCheck::Accepted));
    assert!(matches!(check_ingest(None, None, &apps, "app_1"), IngestCheck::Accepted));
}

#[test]
fn assets_map_to_embedded_paths() {
    assert_eq!(asset_path("/"), "index.html");
    assert_eq!(asset_path("/assets/app.js"), "assets/app.js");
    assert_eq!(asset_path("//x"), "x");
}

#[test]
fn config_update_restores_tokens_then_validates() {
    let stored = sample();
    let mut incoming = sample();
    mask_tokens(&mut incoming);
    let c = prepare_config_update(incoming, Some(&stored)).ok().unwrap();
    assert_eq!(tokens(&c), tokens(&stored));
    let mut bad = sample();
    bad.probes.clear();
    let e = prepare_config_update(bad, Some(&stored)).err().unwrap();
    assert_eq!(e.message(), "Configuration must contain at least one probe");
}
