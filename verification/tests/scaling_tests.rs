use cc_sonde::config::{ScalingLevel, WarpScriptApp, WarpScriptProbe};
use cc_sonde::scaling::{
    build_scaling_command, combine_evaluations, MetricEvaluation, resolve_level, resume, warpscript_engine_spec, ComputedLevel, LockOutcome,
    MetricsOutcome, Phase, ProbeStateRecord, ScalingAction, ScalingEngine, ScalingProbeSpec,
    StateOutcome,
};

fn spec(stateless: bool) -> ScalingProbeSpec {
    ScalingProbeSpec {
        name: "cpu".to_string(),
        lock_kind: "agent".to_string(),
        app_id: Some("app_1".to_string()),
        interval_seconds: 60,
        command_timeout_seconds: 30,
        lock_extra_seconds: 5,
        suppress_command_output: false,
        on_failure_command: Some("alert ${APP_ID}".to_string()),
        failure_retries_before_command: 2,
        delay_after_onf_command_success: 600,
        delay_after_onf_command_failure: 120,
        stateless,
        levels: vec![
            ComputedLevel { level: 1, flavor: "S".to_string(), instances: 1 },
            ComputedLevel { level: 2, flavor: "M".to_string(), instances: 2 },
            ComputedLevel { level: 3, flavor: "XL".to_string(), instances: 4 },
        ],
        upscale_command: "scale ${APP_ID} ${FLAVOR} ${INSTANCES}".to_string(),
        downscale_command: "down ${APP_ID} ${FLAVOR} ${INSTANCES}".to_string(),
        delay_after_upscale_then_upscale: 300,
        delay_after_upscale_then_downscale: 900,
        delay_after_downscale_then_downscale: 600,
        delay_after_downscale_then_upscale: 200,
    }
}

fn end_cycle(a: ScalingAction) -> (Option<ProbeStateRecord>, bool, u64) {
    match a {
        ScalingAction::EndCycle { save, release_lock, wait_seconds } => (save, release_lock, wait_seconds),
        _ => panic!("expected the cycle to end"),
    }
}

fn command(a: ScalingAction) -> String {
    match a {
        ScalingAction::RunCommand { command, .. } => command,
        _ => panic!("expected a command"),
    }
}

/// Run a cycle up to the point where metrics are expected, at time `now`.
fn start_cycle(s: &ScalingProbeSpec, e: &mut ScalingEngine, now: u64) {
    match e.on_wake(s) {
        ScalingAction::AcquireLock { key, ttl_ms } => {
            assert_eq!(key, "poc-sonde:lock:agent:cpu");
            assert_eq!(ttl_ms, 45_000);
        }
        _ => panic!("expected a lock request"),
    }
    assert!(matches!(e.on_lock(s, LockOutcome::Acquired, false), ScalingAction::LoadState));
    assert!(matches!(e.on_state(s, StateOutcome::Loaded(None), false, now), ScalingAction::GatherMetrics));
}

#[test]
fn scaling_command_without_placeholders_is_unchanged() {
    assert_eq!(build_scaling_command("exit 1", None, "S", 1), "exit 1");
    assert_eq!(build_scaling_command("true", None, "S", 1), "true");
    assert_eq!(build_scaling_command("nonexistent_xyz_cmd_42", None, "S", 1), "nonexistent_xyz_cmd_42");
}

#[test]
fn scaling_command_text_substitutes_flavor_and_instances() {
    assert_eq!(build_scaling_command("echo ${FLAVOR} ${INSTANCES}", Some("myapp"), "XL", 3), "echo XL 3");
}

#[test]
fn command_outcome_decides_scaling_success() {
    let s = spec(false);
    let mut e = resume(&s, None, 0);
    start_cycle(&s, &mut e, 1000);
    let _ = e.on_metrics(&s, MetricsOutcome::Gathered { scale_up: true, scale_down: false }, false, 1000);
    let (save, _, _) = end_cycle(e.on_command(&s, false, 1000));
    assert_eq!(save.unwrap().current_level, 1);
    start_cycle(&s, &mut e, 2000);
    let _ = e.on_metrics(&s, MetricsOutcome::Gathered { scale_up: true, scale_down: false }, false, 2000);
    let (save, _, _) = end_cycle(e.on_command(&s, true, 2000));
    assert_eq!(save.unwrap().current_level, 2);
}

#[test]
fn scaling_command_substitutes_every_placeholder() {
    assert_eq!(
        build_scaling_command("clever scale --app ${APP_ID} --flavor ${FLAVOR} -n ${INSTANCES} ${APP_ID}", Some("a1"), "M", 12),
        "clever scale --app a1 --flavor M -n 12 a1"
    );
    assert_eq!(build_scaling_command("x ${APP_ID}", None, "", 0), "x ${APP_ID}");
}

#[test]
fn fresh_engine_starts_at_min_level_immediately() {
    let s = spec(false);
    let e = resume(&s, None, 1000);
    assert_eq!(e.current_level, 1);
    assert_eq!(e.next_delay, 0);
    assert!(matches!(e.phase, Phase::Idle));
}

#[test]
fn resume_keeps_a_configured_level_and_the_remaining_delay() {
    let s = spec(false);
    let rec = ProbeStateRecord {
        probe_name: "cpu".to_string(),
        last_check_timestamp: 900,
        current_level: 3,
        next_check_timestamp: 1060,
        consecutive_failures: 2,
        upscale_blocked_until: 1200,
        downscale_blocked_until: 1300,
        consecutive_scaling_failures: 1,
    };
    let e = resume(&s, Some(&rec), 1000);
    assert_eq!(e.current_level, 3);
    assert_eq!(e.next_delay, 60);
    assert_eq!(e.consecutive_failures, 2);
    assert_eq!(e.consecutive_scaling_failures, 1);
    assert_eq!(e.upscale_blocked_until, 1200);
    let late = resume(&s, Some(&rec), 5000);
    assert_eq!(late.next_delay, 0);
}

#[test]
fn unknown_or_stateless_levels_reset_to_min() {
    assert_eq!(resolve_level(&spec(false), 7), 1);
    assert_eq!(resolve_level(&spec(false), 2), 2);
    assert_eq!(resolve_level(&spec(true), 3), 1);
}

#[test]
fn upscale_runs_the_command_then_moves_one_level_and_sets_cooldowns() {
    let s = spec(false);
    let mut e = resume(&s, None, 1000);
    start_cycle(&s, &mut e, 1000);
    let a = e.on_metrics(&s, MetricsOutcome::Gathered { scale_up: true, scale_down: false }, false, 1001);
    assert_eq!(command(a), "scale app_1 M 2");
    assert!(matches!(e.phase, Phase::AwaitingScaleCommand { up: true }));
    let (save, release, wait) = end_cycle(e.on_command(&s, true, 1010));
    let rec = save.unwrap();
    assert_eq!(e.current_level, 2);
    assert_eq!(rec.current_level, 2);
    assert_eq!(rec.upscale_blocked_until, 1310);
    assert_eq!(rec.downscale_blocked_until, 1910);
    assert_eq!(wait, 300);
    assert_eq!(rec.last_check_timestamp, 1000);
    assert_eq!(rec.next_check_timestamp, 1300);
    assert!(release);
    assert!(matches!(e.phase, Phase::Idle));
}

#[test]
fn failed_scale_command_keeps_the_level() {
    let s = spec(false);
    let mut e = resume(&s, None, 1000);
    start_cycle(&s, &mut e, 1000);
    let _ = e.on_metrics(&s, MetricsOutcome::Gathered { scale_up: true, scale_down: false }, false, 1000);
    let (save, _, wait) = end_cycle(e.on_command(&s, false, 1005));
    let rec = save.unwrap();
    assert_eq!(rec.current_level, 1);
    assert_eq!(rec.consecutive_scaling_failures, 1);
    assert_eq!(wait, 60);
}

#[test]
fn cooldown_blocks_a_scale_step() {
    let s = spec(false);
    let rec = ProbeStateRecord {
        probe_name: "cpu".to_string(),
        last_check_timestamp: 0,
        current_level: 2,
        next_check_timestamp: 0,
        consecutive_failures: 0,
        upscale_blocked_until: 2000,
        downscale_blocked_until: 0,
        consecutive_scaling_failures: 0,
    };
    let mut e = resume(&s, Some(&rec), 1000);
    start_cycle(&s, &mut e, 1000);
    let (save, _, wait) = end_cycle(e.on_metrics(&s, MetricsOutcome::Gathered { scale_up: true, scale_down: false }, false, 1000));
    assert_eq!(save.unwrap().current_level, 2);
    assert_eq!(wait, 60);
}

#[test]
fn both_cooldowns_active_skip_the_cycle_until_the_earlier_ends() {
    let s = spec(false);
    let rec = ProbeStateRecord {
        probe_name: "cpu".to_string(),
        last_check_timestamp: 0,
        current_level: 2,
        next_check_timestamp: 0,
        consecutive_failures: 0,
        upscale_blocked_until: 1500,
        downscale_blocked_until: 1200,
        consecutive_scaling_failures: 0,
    };
    let mut e = resume(&s, Some(&rec), 1000);
    let _ = e.on_wake(&s);
    let _ = e.on_lock(&s, LockOutcome::Acquired, true);
    let (save, release, wait) = end_cycle(e.on_state(&s, StateOutcome::Loaded(None), true, 1000));
    assert!(save.is_none());
    assert!(release);
    assert_eq!(wait, 200);
}

#[test]
fn lock_held_elsewhere_or_failing_in_multi_instance_skips_the_cycle() {
    let s = spec(false);
    let mut e = resume(&s, None, 0);
    let _ = e.on_wake(&s);
    let (save, release, wait) = end_cycle(e.on_lock(&s, LockOutcome::HeldElsewhere, false));
    assert!(save.is_none());
    assert!(!release);
    assert_eq!(wait, 60);
    let _ = e.on_wake(&s);
    assert!(matches!(e.on_lock(&s, LockOutcome::Failed, true), ScalingAction::EndCycle { .. }));
    let _ = e.on_wake(&s);
    assert!(matches!(e.on_lock(&s, LockOutcome::Failed, false), ScalingAction::LoadState));
    assert!(!e.holds_lock);
}

#[test]
fn state_refresh_adopts_another_instances_schedule() {
    let s = spec(false);
    let mut e = resume(&s, None, 0);
    let _ = e.on_wake(&s);
    let _ = e.on_lock(&s, LockOutcome::Acquired, true);
    let fresh = ProbeStateRecord {
        probe_name: "cpu".to_string(),
        last_check_timestamp: 990,
        current_level: 3,
        next_check_timestamp: 1050,
        consecutive_failures: 0,
        upscale_blocked_until: 0,
        downscale_blocked_until: 0,
        consecutive_scaling_failures: 0,
    };
    let (save, release, wait) = end_cycle(e.on_state(&s, StateOutcome::Loaded(Some(fresh)), true, 1000));
    assert!(save.is_none());
    assert!(release);
    assert_eq!(wait, 50);
    assert_eq!(e.current_level, 3);
    let _ = e.on_wake(&s);
    let _ = e.on_lock(&s, LockOutcome::Acquired, true);
    let (_, _, wait) = end_cycle(e.on_state(&s, StateOutcome::Failed, true, 1000));
    assert_eq!(wait, 60);
}

#[test]
fn failure_command_runs_after_the_allowed_retries() {
    let s = spec(false);
    let mut e = resume(&s, None, 0);
    for expected in 1..=2u32 {
        start_cycle(&s, &mut e, 1000);
        let (save, _, wait) = end_cycle(e.on_metrics(&s, MetricsOutcome::Failed, false, 1000));
        assert_eq!(save.unwrap().consecutive_failures, expected);
        assert_eq!(wait, 60);
    }
    start_cycle(&s, &mut e, 1000);
    let a = e.on_metrics(&s, MetricsOutcome::Failed, false, 1000);
    assert_eq!(command(a), "alert app_1");
    let (_, _, wait) = end_cycle(e.on_command(&s, true, 1001));
    assert_eq!(wait, 600);
    start_cycle(&s, &mut e, 2000);
    let _ = e.on_metrics(&s, MetricsOutcome::Failed, false, 2000);
    let (save, _, wait) = end_cycle(e.on_command(&s, false, 2001));
    assert_eq!(wait, 120);
    assert_eq!(save.unwrap().consecutive_failures, 4);
    start_cycle(&s, &mut e, 3000);
    let (save, _, _) = end_cycle(e.on_metrics(&s, MetricsOutcome::Gathered { scale_up: false, scale_down: false }, false, 3000));
    assert_eq!(save.unwrap().consecutive_failures, 0);
}

#[test]
fn dry_run_scales_without_running_a_command() {
    let s = spec(false);
    let mut e = resume(&s, None, 0);
    start_cycle(&s, &mut e, 1000);
    let (save, _, wait) = end_cycle(e.on_metrics(&s, MetricsOutcome::Gathered { scale_up: true, scale_down: false }, true, 1000));
    assert_eq!(save.unwrap().current_level, 2);
    assert_eq!(wait, 300);
    // Down from level 2 back to 1.
    start_cycle(&s, &mut e, 2000);
    let (save, _, wait) = end_cycle(e.on_metrics(&s, MetricsOutcome::Gathered { scale_up: false, scale_down: true }, true, 2000));
    let rec = save.unwrap();
    assert_eq!(rec.current_level, 1);
    assert_eq!(rec.downscale_blocked_until, 2600);
    assert_eq!(rec.upscale_blocked_until, 2200);
    assert_eq!(wait, 200);
}

#[test]
fn stateless_probe_runs_commands_without_changing_level() {
    let s = spec(true);
    let mut e = resume(&s, None, 0);
    start_cycle(&s, &mut e, 1000);
    let a = e.on_metrics(&s, MetricsOutcome::Gathered { scale_up: true, scale_down: false }, false, 1000);
    assert_eq!(command(a), "scale app_1  0");
    let (save, _, _) = end_cycle(e.on_command(&s, true, 1000));
    assert_eq!(save.unwrap().current_level, 1);
}

#[test]
fn warpscript_probe_maps_to_engine_parameters() {
    let probe = WarpScriptProbe {
        name: "ws".to_string(),
        warpscript_file: "f".to_string(),
        interval_seconds: 60,
        command_timeout_seconds: 20,
        delay_after_scale_seconds: Some(500),
        apps: vec![WarpScriptApp { id: "a9".to_string(), warp_token: None }],
        levels: vec![
            ScalingLevel { level: 1, scale_up_threshold: Some(1.0f64), scale_down_threshold: None, upscale_command: Some("up1".to_string()), downscale_command: None },
            ScalingLevel { level: 2, scale_up_threshold: None, scale_down_threshold: Some(0.5f64), upscale_command: None, downscale_command: Some("down2".to_string()) },
        ],
    };
    let s1 = warpscript_engine_spec(&probe, 1, 15);
    assert_eq!(s1.upscale_command, "up1");
    assert_eq!(s1.downscale_command, "");
    assert_eq!(s1.app_id.as_deref(), Some("a9"));
    assert_eq!(s1.lock_extra_seconds, 15);
    assert_eq!(s1.delay_after_downscale_then_upscale, 500);
    assert_eq!(s1.levels.len(), 2);
    assert_eq!(s1.lock_key(), "poc-sonde:lock:warpscript:ws");
    let s2 = warpscript_engine_spec(&probe, 2, 15);
    assert_eq!(s2.downscale_command, "down2");
    assert_eq!(s2.min_level(), 1);
    assert_eq!(s2.max_level(), 2);
    assert!(s2.get_computed_level(2).is_some());
    assert!(s2.get_computed_level(3).is_none());
}

#[test]
fn delay_and_ttl_bounds_are_checked() {
    let mut s = spec(false);
    assert!(s.check_fits_after(1000));
    assert!(!s.check_fits_after(u64::MAX - 10));
    assert!(s.check_lock_ttl_fits());
    assert_eq!(s.lock_ttl_ms(), 45_000);
    s.command_timeout_seconds = u64::MAX;
    assert!(!s.check_lock_ttl_fits());
}

#[test]
fn no_second_upscale_before_the_cooldown_ends() {
    let s = spec(false);
    let mut e = resume(&s, None, 0);
    start_cycle(&s, &mut e, 1000);
    let _ = e.on_metrics(&s, MetricsOutcome::Gathered { scale_up: true, scale_down: false }, false, 1000);
    let _ = e.on_command(&s, true, 1000);
    assert_eq!(e.current_level, 2);
    // Next check at 1250 (< 1000 + 300): both directions are in cooldown, so the
    // cycle ends before gathering and waits for the upscale cooldown to end.
    let _ = e.on_wake(&s);
    let _ = e.on_lock(&s, LockOutcome::Acquired, false);
    let (save, _, wait) = end_cycle(e.on_state(&s, StateOutcome::Loaded(None), false, 1250));
    assert!(save.is_none());
    assert_eq!(wait, 50);
    assert_eq!(e.current_level, 2);
    // At 1300 the upscale cooldown is over.
    start_cycle(&s, &mut e, 1300);
    let a = e.on_metrics(&s, MetricsOutcome::Gathered { scale_up: true, scale_down: false }, false, 1300);
    assert_eq!(command(a), "scale app_1 XL 4");
}

#[test]
fn metric_evaluations_combine_or_up_and_down() {
    let ev = |u: bool, d: bool| MetricEvaluation { above_scale_up: u, below_scale_down: d };
    assert_eq!(combine_evaluations(&vec![ev(false, true), ev(true, false)]), (true, false));
    assert_eq!(combine_evaluations(&vec![ev(false, true), ev(false, true)]), (false, true));
    assert_eq!(combine_evaluations(&vec![ev(false, true), ev(false, false)]), (false, false));
    assert_eq!(combine_evaluations(&Vec::new()), (false, false));
}
