use cc_sonde::config::{Checks, Config, ConfigError, Probe, ScalingLevel, WarpScriptApp, WarpScriptProbe};
use std::collections::HashMap;

fn checks(status: Option<u16>) -> Checks {
    Checks {
        expected_status: status,
        expected_body_contains: None,
        expected_body_regex: None,
        expected_header: None,
    }
}

fn probe(name: &str, url: &str, interval: u64, checks: Checks) -> Probe {
    Probe {
        name: name.to_string(),
        url: url.to_string(),
        interval_seconds: interval,
        checks,
        on_failure_command: None,
        command_timeout_seconds: cc_sonde::config::default_timeout(),
        delay_after_success_seconds: None,
        delay_after_failure_seconds: None,
        failure_retries_before_command: None,
    }
}

fn config(probes: Vec<Probe>) -> Config<f64> {
    Config { probes, warpscript_probes: Vec::new(), agent_probes: Vec::new() }
}

fn level(n: u32, up: Option<f64>, down: Option<f64>) -> ScalingLevel<f64> {
    ScalingLevel {
        level: n,
        scale_up_threshold: up,
        scale_down_threshold: down,
        upscale_command: Some(format!("up-from-{}", n)),
        downscale_command: Some(format!("down-from-{}", n)),
    }
}

fn warpscript_probe(levels: Vec<ScalingLevel<f64>>) -> WarpScriptProbe<f64> {
    WarpScriptProbe {
        name: "ws".to_string(),
        warpscript_file: "cpu.mc2".to_string(),
        interval_seconds: 60,
        command_timeout_seconds: 30,
        delay_after_scale_seconds: None,
        apps: vec![WarpScriptApp { id: "app_1".to_string(), warp_token: None }],
        levels,
    }
}

// [[probes]] name = "Test Probe", url = "https://example.com", interval_seconds = 60,
// [probes.checks] expected_status = 200
#[test]
fn test_valid_config() {
    let config = config(vec![probe("Test Probe", "https://example.com", 60, checks(Some(200)))]);
    assert!(config.validate().is_ok());
}

// probes = []
#[test]
fn test_empty_probes() {
    let config = config(Vec::new());
    assert!(config.validate().is_err());
}

// [[probes]] name = "Test", url = "https://example.com", interval_seconds = 60, [probes.checks]
#[test]
fn test_no_checks() {
    let config = config(vec![probe("Test", "https://example.com", 60, checks(None))]);
    assert!(config.validate().is_err());
}

#[test]
fn validate_reports_each_error_with_its_message() {
    let c = config(Vec::new());
    let e = c.validate().unwrap_err();
    assert!(matches!(e, ConfigError::NoProbes));
    assert_eq!(e.message(), "Configuration must contain at least one probe");

    let e = config(vec![probe("", "u", 1, checks(Some(200)))]).validate().unwrap_err();
    assert!(matches!(e, ConfigError::EmptyName));
    assert_eq!(e.message(), "Probe name cannot be empty");

    let e = config(vec![probe("p", "", 1, checks(Some(200)))]).validate().unwrap_err();
    assert_eq!(e.message(), "Probe 'p' has empty URL");

    let e = config(vec![probe("p", "u", 0, checks(Some(200)))]).validate().unwrap_err();
    assert_eq!(e.message(), "Probe 'p' has invalid interval (must be > 0)");

    let e = config(vec![probe("p", "u", 1, checks(None))]).validate().unwrap_err();
    assert_eq!(e.message(), "Probe 'p' has no checks configured");
}

#[test]
fn validate_rejects_an_invalid_regex_through_the_regex_crate() {
    let mut c = checks(None);
    c.expected_body_regex = Some("(unclosed".to_string());
    let e = config(vec![probe("p", "u", 1, c)]).validate().unwrap_err();
    match &e {
        ConfigError::InvalidRegex { probe, reason } => {
            assert_eq!(probe, "p");
            assert!(!reason.is_empty());
            assert_ne!(reason, "(unclosed");
        }
        _ => panic!("expected an invalid regex error"),
    }
    assert!(e.message().starts_with("Probe 'p' has invalid regex: "));

    let mut ok = checks(None);
    ok.expected_body_regex = Some("^ok.*$".to_string());
    assert!(config(vec![probe("p", "u", 1, ok)]).validate().is_ok());
}

#[test]
fn validate_reports_the_first_failing_probe() {
    let c = config(vec![
        probe("good", "u", 1, checks(Some(200))),
        probe("bad1", "", 1, checks(Some(200))),
        probe("bad2", "u", 0, checks(Some(200))),
    ]);
    assert_eq!(c.validate().unwrap_err().message(), "Probe 'bad1' has empty URL");
}

#[test]
fn header_check_alone_is_a_check() {
    let mut c = checks(None);
    let mut h = HashMap::new();
    h.insert("content-type".to_string(), "text/html".to_string());
    c.expected_header = Some(h);
    assert!(config(vec![probe("p", "u", 1, c)]).validate().is_ok());
}

#[test]
fn probe_delays_default_to_the_interval() {
    let mut p = probe("p", "u", 45, checks(Some(200)));
    assert_eq!(p.get_delay_after_success(), 45);
    assert_eq!(p.get_delay_after_failure(), 45);
    assert_eq!(p.get_failure_retries_before_command(), 0);
    p.delay_after_success_seconds = Some(10);
    p.delay_after_failure_seconds = Some(5);
    p.failure_retries_before_command = Some(3);
    assert_eq!(p.get_delay_after_success(), 10);
    assert_eq!(p.get_delay_after_failure(), 5);
    assert_eq!(p.get_failure_retries_before_command(), 3);
    assert_eq!(cc_sonde::config::default_timeout(), 30);
}

#[test]
fn warpscript_levels_and_thresholds() {
    let mut p = warpscript_probe(vec![
        level(2, Some(80.0), Some(20.0)),
        level(1, Some(70.0), None),
        level(3, None, Some(30.0)),
    ]);
    assert_eq!(p.min_level(), 1);
    assert_eq!(p.max_level(), 3);
    assert_eq!(p.get_level(2).unwrap().scale_up_threshold, Some(80.0));
    assert!(p.get_level(7).is_none());
    assert_eq!(p.scale_up_threshold(1), Some(&70.0));
    assert_eq!(p.scale_up_threshold(3), None);
    assert_eq!(p.scale_down_threshold(1), None);
    assert_eq!(p.scale_down_threshold(3), Some(&30.0));
    assert_eq!(p.scale_up_threshold(9), None);
    assert_eq!(p.get_delay_after_scale(), 60);
    p.delay_after_scale_seconds = Some(300);
    assert_eq!(p.get_delay_after_scale(), 300);
}

#[test]
fn warpscript_probe_without_levels_defaults_to_level_one() {
    let p = warpscript_probe(Vec::new());
    assert_eq!(p.min_level(), 1);
    assert_eq!(p.max_level(), 1);
    assert_eq!(p.scale_up_threshold(1), None);
}
