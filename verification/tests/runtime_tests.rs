use cc_sonde::config::WarpScriptApp;
use cc_sonde::healthcheck::HealthcheckState;
use cc_sonde::runtime::{
    bind_address, command_is_blank, gather_failure_reason, ingest_url, instance_hostname, redis_url,
    resolve_warp_token, substitute_script,
};
use cc_sonde::supervisor::expand_warpscript_probes;
use cc_sonde::config::{Checks, Probe, WarpScriptProbe};
use cc_sonde::text::{decimal_string, replace_all, split_once_char, strip_prefix, trim};

fn s(v: &str) -> Option<String> {
    Some(v.to_string())
}

#[test]
fn redis_url_prefers_the_full_url() {
    assert_eq!(redis_url(s("redis://h:1"), s("x"), None, None), s("redis://h:1"));
    assert_eq!(redis_url(None, s("cache"), None, None), s("redis://cache:6379"));
    assert_eq!(redis_url(None, s("cache"), s("7000"), None), s("redis://cache:7000"));
    assert_eq!(redis_url(None, None, s("7000"), s("pw")), None);
}

#[test]
fn redis_password_is_percent_encoded() {
    assert_eq!(redis_url(None, s("h"), s("1"), s("p@ss w/é")), s("redis://:p%40ss%20w%2F%C3%A9@h:1"));
    assert_eq!(redis_url(None, s("h"), s("1"), s("")), s("redis://:@h:1"));
}

#[test]
fn warp_token_prefers_the_apps_own_token() {
    let with = WarpScriptApp { id: "a".to_string(), warp_token: s("app-token") };
    let empty = WarpScriptApp { id: "a".to_string(), warp_token: s("") };
    assert_eq!(resolve_warp_token(Some(&with), s("env")), s("app-token"));
    assert_eq!(resolve_warp_token(Some(&empty), s("env")), s("env"));
    assert_eq!(resolve_warp_token(None, s("env")), s("env"));
    assert_eq!(resolve_warp_token(None, s("")), None);
    assert_eq!(resolve_warp_token(Some(&empty), None), None);
}

#[test]
fn script_placeholders_are_substituted() {
    assert_eq!(
        substitute_script("'${WARP_TOKEN}' 'app=${APP_ID}' FETCH ${WARP_TOKEN}", "tk", Some("a1")),
        "'tk' 'app=a1' FETCH tk"
    );
    assert_eq!(substitute_script("${APP_ID}", "tk", None), "${APP_ID}");
}

#[test]
fn agent_identity_and_url() {
    assert_eq!(instance_hostname(s("vm-1")), "vm-1");
    assert_eq!(instance_hostname(s("")), "unknown");
    assert_eq!(instance_hostname(None), "unknown");
    assert_eq!(ingest_url("http://m:8080/api/metrics//", "app_1"), "http://m:8080/api/metrics/app_1");
    assert_eq!(ingest_url("http://m/api/metrics", "x"), "http://m/api/metrics/x");
}

#[test]
fn bind_address_joins_host_and_port() {
    assert_eq!(bind_address("0.0.0.0", 8080), "0.0.0.0:8080");
    assert_eq!(bind_address("::1", 0), "::1:0");
}

#[test]
fn blank_commands_are_refused() {
    assert!(command_is_blank(""));
    assert!(command_is_blank(" \t\n\u{3000}"));
    assert!(!command_is_blank(" ls "));
}

#[test]
fn gather_errors_are_joined() {
    assert_eq!(gather_failure_reason(&Vec::new()), None);
    assert_eq!(gather_failure_reason(&vec!["cpu: timeout".to_string()]), s("cpu: timeout"));
    assert_eq!(
        gather_failure_reason(&vec!["cpu: timeout".to_string(), "mem: 500".to_string()]),
        s("cpu: timeout; mem: 500")
    );
}

fn hprobe(retries: Option<u32>) -> Probe {
    Probe {
        name: "h".to_string(),
        url: "http://x".to_string(),
        interval_seconds: 30,
        checks: Checks { expected_status: Some(200), expected_body_contains: None, expected_body_regex: None, expected_header: None },
        on_failure_command: s("restart"),
        command_timeout_seconds: 12,
        delay_after_success_seconds: Some(60),
        delay_after_failure_seconds: Some(5),
        failure_retries_before_command: retries,
    }
}

#[test]
fn healthcheck_runs_the_failure_command_after_the_retries() {
    let p = hprobe(Some(2));
    let mut st = HealthcheckState::new();
    let step = st.on_check(&p, false, false);
    assert!(step.run_command.is_none());
    assert_eq!(step.wait_seconds, 5);
    assert!(st.on_check(&p, false, false).run_command.is_none());
    let step = st.on_check(&p, false, false);
    assert_eq!(step.run_command, s("restart"));
    assert_eq!(step.timeout_seconds, 12);
    let step = st.on_check(&p, true, false);
    assert!(step.run_command.is_none());
    assert_eq!(step.wait_seconds, 60);
    assert_eq!(st.consecutive_failures, 0);
}

#[test]
fn healthcheck_default_runs_on_every_failure_except_in_dry_run() {
    let p = hprobe(None);
    let mut st = HealthcheckState::new();
    assert_eq!(st.on_check(&p, false, false).run_command, s("restart"));
    assert_eq!(st.on_check(&p, false, false).run_command, s("restart"));
    assert!(st.on_check(&p, false, true).run_command.is_none());
}

fn ws(name: &str, apps: &[&str]) -> WarpScriptProbe<f64> {
    WarpScriptProbe {
        name: name.to_string(),
        warpscript_file: "f".to_string(),
        interval_seconds: 60,
        command_timeout_seconds: 30,
        delay_after_scale_seconds: None,
        apps: apps.iter().map(|a| WarpScriptApp { id: a.to_string(), warp_token: None }).collect(),
        levels: Vec::new(),
    }
}

#[test]
fn probes_expand_to_one_task_per_app() {
    let out = expand_warpscript_probes(vec![ws("cpu", &["a1", "a2"]), ws("solo", &[]), ws("mem", &["b"])]);
    let names: Vec<&str> = out.iter().map(|p| p.name.as_str()).collect();
    assert_eq!(names, vec!["cpu - a1", "cpu - a2", "solo", "mem - b"]);
    assert_eq!(out[1].apps.len(), 1);
    assert_eq!(out[1].apps[0].id, "a2");
    assert!(out[2].apps.is_empty());
}

#[test]
fn text_helpers() {
    assert_eq!(replace_all("aaa", "aa", "b"), "ba");
    assert_eq!(replace_all("x", "y", "z"), "x");
    assert_eq!(strip_prefix("Basic abc", "Basic "), Some("abc"));
    assert_eq!(strip_prefix("Bas", "Basic "), None);
    assert_eq!(trim("  a b \n"), "a b");
    assert_eq!(split_once_char("u:p:q", ':'), Some(("u", "p:q")));
    assert_eq!(split_once_char("up", ':'), None);
    assert_eq!(decimal_string(0), "0");
    assert_eq!(decimal_string(4294967295), "4294967295");
}
