use cc_sonde::config::{AgentApp, AgentProbe, AgentScaling, Config};
use cc_sonde::scaling::{agent_engine_spec, ComputedLevel};
use cc_sonde::supervisor::expand_agent_probes;
use cc_sonde::web::{check_ingest, IngestCheck};

fn lvl(n: u32, flavor: &str, instances: u32) -> ComputedLevel {
    ComputedLevel { level: n, flavor: flavor.to_string(), instances }
}

fn agent(name: &str, app_ids: &[&str], levels: Vec<ComputedLevel>) -> AgentProbe<f64> {
    AgentProbe {
        name: name.to_string(),
        interval_seconds: 30,
        window_seconds: 120,
        command_timeout_seconds: 30,
        suppress_command_output: false,
        on_failure_command: None,
        failure_retries_before_command: None,
        delay_after_onf_command_success_seconds: None,
        delay_after_onf_command_failure_seconds: Some(5),
        apps: app_ids.iter().map(|id| AgentApp { id: id.to_string() }).collect(),
        levels,
        scaling: AgentScaling {
            upscale_command: "up ${APP_ID} ${FLAVOR} ${INSTANCES}".to_string(),
            downscale_command: "down ${APP_ID}".to_string(),
            scale_up_threshold: vec![("cpu".to_string(), 70.0), ("memory".to_string(), 80.0)],
            scale_down_threshold: vec![("cpu".to_string(), 30.0), ("memory".to_string(), 40.0)],
            delay_after_upscale_then_upscale_seconds: Some(300),
            delay_after_upscale_then_downscale_seconds: None,
            delay_after_downscale_then_downscale_seconds: Some(600),
            delay_after_downscale_then_upscale_seconds: None,
        },
    }
}

fn three_levels() -> Vec<ComputedLevel> {
    vec![lvl(1, "S", 1), lvl(2, "M", 2), lvl(3, "L", 3)]
}

#[test]
fn agent_probe_expands_into_one_task_per_app() {
    let probes = vec![
        agent("Agent Scaler", &["app_a", "app_b"], three_levels()),
        agent("Lonely", &[], three_levels()),
        agent("Other", &["app_c"], Vec::new()),
    ];
    let tasks = expand_agent_probes(probes);
    let names: Vec<&str> = tasks.iter().map(|t| t.name.as_str()).collect();
    assert_eq!(names, vec!["Agent Scaler - app_a", "Agent Scaler - app_b", "Other - app_c"]);
    assert_eq!(tasks[1].apps.len(), 1);
    assert_eq!(tasks[1].apps[0].id, "app_b");
    assert_eq!(tasks[1].window_seconds, 120);
    assert_eq!(tasks[1].levels.len(), 3);
    assert_eq!(tasks[1].scaling.scale_up_threshold[1].0, "memory");
    assert_eq!(tasks[2].levels.len(), 0);
}

#[test]
fn declared_agent_apps_are_listed_in_order() {
    let config = Config::<f64> {
        probes: Vec::new(),
        warpscript_probes: Vec::new(),
        agent_probes: vec![
            agent("a", &["app_a", "app_b"], three_levels()),
            agent("b", &[], three_levels()),
            agent("c", &["app_c"], three_levels()),
        ],
    };
    let ids = config.agent_app_ids();
    assert_eq!(ids, vec!["app_a".to_string(), "app_b".to_string(), "app_c".to_string()]);
    assert!(matches!(check_ingest(None, None, &ids, "app_c"), IngestCheck::Accepted));
    assert!(matches!(check_ingest(None, None, &ids, "app_x"), IngestCheck::UnknownApp));
}

#[test]
fn agent_scale_up_needs_one_metric_above_and_room_to_grow() {
    let p = agent("a", &["app"], three_levels());
    assert!(p.should_scale_up(1, &vec![false, true]));
    assert!(!p.should_scale_up(1, &vec![false, false]));
    assert!(!p.should_scale_up(3, &vec![true, true]));
    assert!(!p.should_scale_up(1, &Vec::new()));
}

#[test]
fn agent_scale_down_needs_every_metric_below_and_room_to_shrink() {
    let p = agent("a", &["app"], three_levels());
    assert!(p.should_scale_down(2, &vec![true, true]));
    assert!(!p.should_scale_down(2, &vec![true, false]));
    assert!(!p.should_scale_down(1, &vec![true, true]));
    assert!(!p.should_scale_down(2, &Vec::new()));
}

#[test]
fn stateless_agent_probe_ignores_level_bounds() {
    let p = agent("a", &["app"], Vec::new());
    assert!(p.is_stateless());
    assert_eq!(p.min_level(), 1);
    assert_eq!(p.max_level(), 1);
    assert!(p.should_scale_up(1, &vec![true]));
    assert!(p.should_scale_down(1, &vec![true, true]));
}

#[test]
fn agent_probe_maps_to_engine_parameters() {
    let p = agent("Agent Scaler - app_a", &["app_a"], three_levels());
    let s = agent_engine_spec(&p);
    assert_eq!(s.name, "Agent Scaler - app_a");
    assert_eq!(s.lock_kind, "agent");
    assert_eq!(s.app_id.as_deref(), Some("app_a"));
    assert_eq!(s.lock_extra_seconds, 0);
    assert_eq!(s.failure_retries_before_command, 0);
    assert_eq!(s.delay_after_onf_command_success, 30);
    assert_eq!(s.delay_after_onf_command_failure, 5);
    assert!(!s.stateless);
    assert_eq!(s.levels.len(), 3);
    assert_eq!(s.levels[2].flavor, "L");
    assert_eq!(s.delay_after_upscale_then_upscale, 300);
    assert_eq!(s.delay_after_upscale_then_downscale, 30);
    assert_eq!(s.delay_after_downscale_then_downscale, 600);
    assert_eq!(s.delay_after_downscale_then_upscale, 30);
    assert_eq!(s.upscale_command, "up ${APP_ID} ${FLAVOR} ${INSTANCES}");
    assert_eq!(s.lock_key(), "poc-sonde:lock:agent:Agent Scaler - app_a");
}

#[test]
fn expanded_agent_tasks_serve_the_declared_apps() {
    let config = Config::<f64> {
        probes: Vec::new(),
        warpscript_probes: Vec::new(),
        agent_probes: vec![
            agent("a", &["app_a", "app_b"], three_levels()),
            agent("b", &[], Vec::new()),
            agent("c", &["app_c"], Vec::new()),
        ],
    };
    let declared = config.agent_app_ids();
    let tasks = expand_agent_probes(config.agent_probes.clone());
    let served: Vec<String> = tasks.iter().map(|t| t.apps[0].id.clone()).collect();
    assert_eq!(served, declared);
}
