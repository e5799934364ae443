//! The shared scaling engine.
//!
//! One scaling cycle takes a distributed lock, refreshes the persisted state,
//! honours the directional cooldowns, gathers metric values, decides whether to
//! scale up or down, runs the matching command and persists the new state.
//! The engine holds every decision of that cycle: it is a state machine whose
//! transitions each consume the outcome of one piece of outside work (sleeping,
//! locking, loading state, gathering metrics, running a command) and name the
//! next piece of outside work to perform.
//!
//! Whether the metric values call for scaling up or down is evaluated by the
//! caller against the probe's thresholds and handed in as two booleans.
use vstd::prelude::*;
use vstd::string::StringExecFns;

use crate::config::{delay_or_interval, or_interval, AgentProbe, WarpScriptProbe};
use crate::levels::{
    find_level, has_level_in, lemma_level_index, lemma_min_max_level, level_index_in, max_level_in, max_level_of,
    min_level_in, min_level_of, numbers_of, Leveled,
};
use crate::text::{clone_opt_string, decimal, decimal_string, opt_view, replace_all, replaced};

verus! {

/// The concrete target of one level: flavor and number of instances.
#[derive(Debug, Clone)]
pub struct ComputedLevel {
    pub level: u32,
    pub flavor: String,
    pub instances: u32,
}

/// Scaling parameters that a probe exposes for the engine to drive it.
pub struct ScalingProbeSpec {
    pub name: String,
    /// Distinguishes lock keys between probe kinds (e.g. "warpscript", "agent").
    pub lock_kind: String,
    pub app_id: Option<String>,
    pub interval_seconds: u64,
    pub command_timeout_seconds: u64,
    /// Extra seconds added to the lock TTL on top of `command_timeout_seconds`.
    pub lock_extra_seconds: u64,
    pub suppress_command_output: bool,
    pub on_failure_command: Option<String>,
    pub failure_retries_before_command: u32,
    pub delay_after_onf_command_success: u64,
    pub delay_after_onf_command_failure: u64,
    /// Stateless probes run their command on each threshold crossing and never change level.
    pub stateless: bool,
    pub levels: Vec<ComputedLevel>,
    pub upscale_command: String,
    pub downscale_command: String,
    pub delay_after_upscale_then_upscale: u64,
    pub delay_after_upscale_then_downscale: u64,
    pub delay_after_downscale_then_downscale: u64,
    pub delay_after_downscale_then_upscale: u64,
}

/// The persisted state of a scaling probe (the metric values are kept by the caller).
#[derive(Clone, Debug)]
pub struct ProbeStateRecord {
    pub probe_name: String,
    pub last_check_timestamp: u64,
    pub current_level: u32,
    pub next_check_timestamp: u64,
    pub consecutive_failures: u32,
    pub upscale_blocked_until: u64,
    pub downscale_blocked_until: u64,
    pub consecutive_scaling_failures: u32,
}

/// Which piece of outside work the engine is waiting for.
pub enum Phase {
    /// Between cycles: the caller sleeps, then calls `on_wake`.
    Idle,
    AwaitingLock,
    AwaitingState,
    AwaitingMetrics,
    AwaitingFailureCommand,
    AwaitingScaleCommand { up: bool },
}

/// Outcome of a lock acquisition.
pub enum LockOutcome {
    Acquired,
    HeldElsewhere,
    Failed,
}

/// Outcome of re-reading the persisted state under the lock.
pub enum StateOutcome {
    Loaded(Option<ProbeStateRecord>),
    Failed,
}

/// Outcome of gathering metric values, with the threshold evaluations done by the caller.
pub enum MetricsOutcome {
    Failed,
    Gathered { scale_up: bool, scale_down: bool },
}

/// The next piece of outside work.
pub enum ScalingAction {
    AcquireLock { key: String, ttl_ms: u64 },
    LoadState,
    GatherMetrics,
    RunCommand { command: String, timeout_seconds: u64, log_output: bool },
    /// Save the state when given, release the lock when held, then sleep `wait_seconds`.
    EndCycle { save: Option<ProbeStateRecord>, release_lock: bool, wait_seconds: u64 },
}

/// The engine's state between two pieces of outside work.
pub struct ScalingEngine {
    pub current_level: u32,
    pub consecutive_failures: u32,
    pub consecutive_scaling_failures: u32,
    pub upscale_blocked_until: u64,
    pub downscale_blocked_until: u64,
    /// Seconds to wait before the next cycle.
    pub next_delay: u64,
    /// When the current cycle's check started.
    pub check_timestamp: u64,
    pub holds_lock: bool,
    pub phase: Phase,
}

/// The scaling command with `${APP_ID}` (when an app is given), `${FLAVOR}` and
/// `${INSTANCES}` substituted, in that order.
pub open spec fn scaling_command_text(
    command: Seq<char>,
    app_id: Option<Seq<char>>,
    flavor: Seq<char>,
    instances: nat,
) -> Seq<char> {
    let c = match app_id {
        Some(id) => replaced(command, "${APP_ID}"@, id),
        None => command,
    };
    let c = replaced(c, "${FLAVOR}"@, flavor);
    replaced(c, "${INSTANCES}"@, decimal(instances))
}

/// The failure command with `${APP_ID}` substituted when an app is given.
pub open spec fn failure_command_text(command: Seq<char>, app_id: Option<Seq<char>>) -> Seq<char> {
    match app_id {
        Some(id) => replaced(command, "${APP_ID}"@, id),
        None => command,
    }
}

/// Build the command of one scaling step: substitutes `${APP_ID}` (when `app_id` is
/// given), `${FLAVOR}` and `${INSTANCES}`.
pub fn build_scaling_command(command: &str, app_id: Option<&str>, flavor: &str, instances: u32) -> (r:
    String)
    ensures
        r@ == scaling_command_text(
            command@,
            match app_id {
                Some(id) => Some(id@),
                None => None,
            },
            flavor@,
            instances as nat,
        ),
{
    proof {
        reveal_strlit("${APP_ID}");
        reveal_strlit("${FLAVOR}");
        reveal_strlit("${INSTANCES}");
    }
    let c = match app_id {
        Some(id) => replace_all(command, "${APP_ID}", id),
        None => String::from_str(command),
    };
    let c = replace_all(c.as_str(), "${FLAVOR}", flavor);
    let n = decimal_string(instances as u64);
    replace_all(c.as_str(), "${INSTANCES}", n.as_str())
}

fn build_failure_command(command: &String, app_id: &Option<String>) -> (r: String)
    ensures
        r@ == failure_command_text(command@, opt_view(*app_id)),
{
    proof {
        reveal_strlit("${APP_ID}");
    }
    match app_id {
        Some(id) => replace_all(command.as_str(), "${APP_ID}", id.as_str()),
        None => command.clone(),
    }
}

impl Leveled for ComputedLevel {
    open spec fn spec_level(&self) -> u32 {
        self.level
    }

    fn level_number(&self) -> (r: u32) {
        self.level
    }
}

impl ScalingProbeSpec {
    pub open spec fn level_numbers(&self) -> Seq<u32> {
        numbers_of(self.levels@)
    }

    pub open spec fn spec_min_level(&self) -> u32 {
        min_level_of(self.level_numbers())
    }

    pub open spec fn spec_max_level(&self) -> u32 {
        max_level_of(self.level_numbers())
    }

    /// Some configured level has number `n`.
    pub open spec fn has_level(&self, n: int) -> bool {
        has_level_in(self.levels@, n)
    }

    /// Index of the first configured level with number `n` (meaningful when `has_level(n)`).
    pub open spec fn level_index(&self, n: int) -> int {
        level_index_in(self.levels@, n)
    }

    /// The level the engine adopts for a level read from persisted state.
    pub open spec fn resolve_level(&self, loaded: u32) -> u32 {
        if self.stateless {
            self.spec_min_level()
        } else if self.has_level(loaded as int) {
            loaded
        } else {
            self.spec_min_level()
        }
    }

    /// A level the engine may hold.
    pub open spec fn level_ok(&self, level: u32) -> bool {
        if self.stateless {
            level == self.spec_min_level()
        } else {
            self.has_level(level as int) || level == self.spec_min_level()
        }
    }

    /// Adding any of the probe's delays to `t` stays within `u64`.
    pub open spec fn fits_after(&self, t: u64) -> bool {
        &&& t + self.interval_seconds <= u64::MAX
        &&& t + self.delay_after_onf_command_success <= u64::MAX
        &&& t + self.delay_after_onf_command_failure <= u64::MAX
        &&& t + self.delay_after_upscale_then_upscale <= u64::MAX
        &&& t + self.delay_after_upscale_then_downscale <= u64::MAX
        &&& t + self.delay_after_downscale_then_downscale <= u64::MAX
        &&& t + self.delay_after_downscale_then_upscale <= u64::MAX
    }

    /// The lock TTL in milliseconds fits in `u64`.
    pub open spec fn lock_ttl_fits(&self) -> bool {
        (self.lock_extra_seconds + self.command_timeout_seconds + 10) * 1000 <= u64::MAX
    }

    pub open spec fn spec_lock_ttl_ms(&self) -> int {
        (self.lock_extra_seconds + self.command_timeout_seconds + 10) * 1000
    }

    pub open spec fn lock_key_view(&self) -> Seq<char> {
        "poc-sonde:lock:"@ + self.lock_kind@ + ":"@ + self.name@
    }

    /// Smallest configured level number, 1 when none is configured.
    pub fn min_level(&self) -> (r: u32)
        ensures
            r == self.spec_min_level(),
    {
        min_level_in(&self.levels)
    }

    /// Largest configured level number, 1 when none is configured.
    pub fn max_level(&self) -> (r: u32)
        ensures
            r == self.spec_max_level(),
    {
        max_level_in(&self.levels)
    }

    /// The first configured level with number `n`.
    pub fn get_computed_level(&self, n: u32) -> (r: Option<&ComputedLevel>)
        ensures
            r is None <==> !self.has_level(n as int),
            r matches Some(l) ==> *l == self.levels@[self.level_index(n as int)],
    {
        match find_level(&self.levels, n) {
            Some(i) => Some(&self.levels[i]),
            None => None,
        }
    }

    /// Whether `t` plus any of the probe's delays stays within `u64`.
    pub fn check_fits_after(&self, t: u64) -> (r: bool)
        ensures
            r == self.fits_after(t),
    {
        let room = u64::MAX - t;
        self.interval_seconds <= room && self.delay_after_onf_command_success <= room
            && self.delay_after_onf_command_failure <= room && self.delay_after_upscale_then_upscale
            <= room && self.delay_after_upscale_then_downscale <= room
            && self.delay_after_downscale_then_downscale <= room
            && self.delay_after_downscale_then_upscale <= room
    }

    /// Whether the lock TTL in milliseconds fits in `u64`.
    pub fn check_lock_ttl_fits(&self) -> (r: bool)
        ensures
            r == self.lock_ttl_fits(),
    {
        let a = self.lock_extra_seconds;
        let b = self.command_timeout_seconds;
        if a > u64::MAX - b {
            return false;
        }
        let s = a + b;
        if s > u64::MAX - 10 {
            return false;
        }
        (s + 10) <= u64::MAX / 1000
    }

    /// Key of the distributed lock: `poc-sonde:lock:{kind}:{name}`.
    pub fn lock_key(&self) -> (r: String)
        ensures
            r@ == self.lock_key_view(),
    {
        let k = String::from_str("poc-sonde:lock:");
        let k = k.concat(self.lock_kind.as_str());
        let k = k.concat(":");
        k.concat(self.name.as_str())
    }

    /// Lock TTL: the command timeout plus the extra seconds plus ten, in milliseconds.
    pub fn lock_ttl_ms(&self) -> (r: u64)
        requires
            self.lock_ttl_fits(),
        ensures
            r == self.spec_lock_ttl_ms(),
    {
        (self.lock_extra_seconds + self.command_timeout_seconds + 10) * 1000
    }
}

/// The engine state that `resume` restores from an optional persisted record at time `now`.
pub open spec fn resumed(spec: ScalingProbeSpec, saved: Option<ProbeStateRecord>, now: u64) -> ScalingEngine {
    match saved {
        None => ScalingEngine {
            current_level: spec.spec_min_level(),
            consecutive_failures: 0,
            consecutive_scaling_failures: 0,
            upscale_blocked_until: 0,
            downscale_blocked_until: 0,
            next_delay: 0,
            check_timestamp: 0,
            holds_lock: false,
            phase: Phase::Idle,
        },
        Some(s) => ScalingEngine {
            current_level: spec.resolve_level(s.current_level),
            consecutive_failures: s.consecutive_failures,
            consecutive_scaling_failures: s.consecutive_scaling_failures,
            upscale_blocked_until: s.upscale_blocked_until,
            downscale_blocked_until: s.downscale_blocked_until,
            next_delay: if s.next_check_timestamp > now {
                (s.next_check_timestamp - now) as u64
            } else {
                0
            },
            check_timestamp: 0,
            holds_lock: false,
            phase: Phase::Idle,
        },
    }
}

/// Start the engine from the persisted state (if any) at time `now`.
pub fn resume(spec: &ScalingProbeSpec, saved: Option<&ProbeStateRecord>, now: u64) -> (e:
    ScalingEngine)
    ensures
        e == resumed(
            *spec,
            match saved {
                Some(s) => Some(*s),
                None => None,
            },
            now,
        ),
        e.inv(*spec),
{
    let min = spec.min_level();
    match saved {
        None => ScalingEngine {
            current_level: min,
            consecutive_failures: 0,
            consecutive_scaling_failures: 0,
            upscale_blocked_until: 0,
            downscale_blocked_until: 0,
            next_delay: 0,
            check_timestamp: 0,
            holds_lock: false,
            phase: Phase::Idle,
        },
        Some(s) => {
            let delay = if s.next_check_timestamp > now {
                s.next_check_timestamp - now
            } else {
                0
            };
            let level = resolve_level(spec, s.current_level);
            ScalingEngine {
                current_level: level,
                consecutive_failures: s.consecutive_failures,
                consecutive_scaling_failures: s.consecutive_scaling_failures,
                upscale_blocked_until: s.upscale_blocked_until,
                downscale_blocked_until: s.downscale_blocked_until,
                next_delay: delay,
                check_timestamp: 0,
                holds_lock: false,
                phase: Phase::Idle,
            }
        },
    }
}

/// The level adopted for a level read from persisted state: stateless probes stay at
/// the minimum level, and a level that is not configured falls back to the minimum.
pub fn resolve_level(spec: &ScalingProbeSpec, loaded: u32) -> (r: u32)
    ensures
        r == spec.resolve_level(loaded),
        spec.level_ok(r),
{
    if spec.stateless {
        spec.min_level()
    } else if spec.get_computed_level(loaded).is_some() {
        loaded
    } else {
        spec.min_level()
    }
}

/// The smaller of two blocked-until timestamps minus `now`, floored at zero.
pub open spec fn cooldown_wait(up: u64, down: u64, now: u64) -> u64 {
    let m = if up < down {
        up
    } else {
        down
    };
    if m > now {
        (m - now) as u64
    } else {
        0
    }
}

impl ScalingEngine {
    /// The state record this engine persists at the end of a cycle.
    pub open spec fn record(self, spec: ScalingProbeSpec) -> ProbeStateRecord {
        ProbeStateRecord {
            probe_name: spec.name,
            last_check_timestamp: self.check_timestamp,
            current_level: self.current_level,
            next_check_timestamp: (self.check_timestamp + self.next_delay) as u64,
            consecutive_failures: self.consecutive_failures,
            upscale_blocked_until: self.upscale_blocked_until,
            downscale_blocked_until: self.downscale_blocked_until,
            consecutive_scaling_failures: self.consecutive_scaling_failures,
        }
    }

    /// The engine's invariant: a level it may hold, no lock held between cycles or while
    /// one is being requested, and once a check has started, room after the check
    /// timestamp for every delay.
    pub open spec fn inv(self, spec: ScalingProbeSpec) -> bool {
        &&& spec.level_ok(self.current_level)
        &&& (self.phase is Idle || self.phase is AwaitingLock) ==> !self.holds_lock
        &&& (match self.phase {
            Phase::AwaitingMetrics | Phase::AwaitingFailureCommand | Phase::AwaitingScaleCommand {
                ..
            } => spec.fits_after(self.check_timestamp),
            _ => true,
        })
    }

    pub open spec fn is_idle(self) -> bool {
        self.phase is Idle
    }

    /// Finish the cycle: back to idle, no lock held, and the action that tells the caller
    /// what to save, whether to release the lock and how long to wait.
    fn end_cycle(&mut self, spec: &ScalingProbeSpec, save: bool) -> (a: ScalingAction)
        requires
            save ==> old(self).check_timestamp + old(self).next_delay <= u64::MAX,
        ensures
            *final(self) == (ScalingEngine {
                holds_lock: false,
                phase: Phase::Idle,
                ..*old(self)
            }),
            a == (ScalingAction::EndCycle {
                save: if save {
                    Some(old(self).record(*spec))
                } else {
                    None
                },
                release_lock: old(self).holds_lock,
                wait_seconds: old(self).next_delay,
            }),
    {
        let release = self.holds_lock;
        self.holds_lock = false;
        self.phase = Phase::Idle;
        let save_record = if save {
            Some(
                ProbeStateRecord {
                    probe_name: spec.name.clone(),
                    last_check_timestamp: self.check_timestamp,
                    current_level: self.current_level,
                    next_check_timestamp: self.check_timestamp + self.next_delay,
                    consecutive_failures: self.consecutive_failures,
                    upscale_blocked_until: self.upscale_blocked_until,
                    downscale_blocked_until: self.downscale_blocked_until,
                    consecutive_scaling_failures: self.consecutive_scaling_failures,
                },
            )
        } else {
            None
        };
        ScalingAction::EndCycle { save: save_record, release_lock: release, wait_seconds: self.next_delay }
    }

    /// Whether a scale step decided from these evaluations has its target level
    /// configured (always true for stateless probes and when no step is taken).
    pub fn check_scale_step(&self, spec: &ScalingProbeSpec, scale_up: bool, scale_down: bool) -> (r:
        bool)
        ensures
            r == scale_step_possible(*spec, *self, scale_up, scale_down),
    {
        let dir: Option<bool> = if scale_up {
            if self.check_timestamp < self.upscale_blocked_until {
                None
            } else {
                Some(true)
            }
        } else if scale_down {
            if self.check_timestamp < self.downscale_blocked_until {
                None
            } else {
                Some(false)
            }
        } else {
            None
        };
        match dir {
            None => true,
            Some(up) => {
                if spec.stateless {
                    true
                } else if up {
                    self.current_level < u32::MAX && spec.get_computed_level(
                        self.current_level + 1,
                    ).is_some()
                } else {
                    self.current_level > 0 && spec.get_computed_level(
                        self.current_level - 1,
                    ).is_some()
                }
            },
        }
    }

    /// A cycle starts: ask for the distributed lock.
    pub fn on_wake(&mut self, spec: &ScalingProbeSpec) -> (a: ScalingAction)
        requires
            old(self).phase is Idle,
            old(self).inv(*spec),
            spec.lock_ttl_fits(),
        ensures
            final(self).inv(*spec),
            wake_step(*spec, *old(self), *final(self), a),
    {
        self.phase = Phase::AwaitingLock;
        ScalingAction::AcquireLock { key: spec.lock_key(), ttl_ms: spec.lock_ttl_ms() }
    }

    /// The lock attempt finished. A lock held elsewhere, or a failed attempt in
    /// multi-instance mode, skips the cycle; a failed attempt in single-instance mode
    /// proceeds without the lock.
    pub fn on_lock(&mut self, spec: &ScalingProbeSpec, outcome: LockOutcome, multi_instance: bool) -> (a:
        ScalingAction)
        requires
            old(self).phase is AwaitingLock,
            old(self).inv(*spec),
        ensures
            final(self).inv(*spec),
            multi_instance && final(self).phase is AwaitingState ==> final(self).holds_lock,
            lock_step(*spec, *old(self), outcome, multi_instance, *final(self), a),
    {
        match outcome {
            LockOutcome::Acquired => {
                self.holds_lock = true;
                self.phase = Phase::AwaitingState;
                ScalingAction::LoadState
            },
            LockOutcome::HeldElsewhere => {
                self.next_delay = spec.interval_seconds;
                self.end_cycle(spec, false)
            },
            LockOutcome::Failed => {
                if multi_instance {
                    self.next_delay = spec.interval_seconds;
                    self.end_cycle(spec, false)
                } else {
                    self.holds_lock = false;
                    self.phase = Phase::AwaitingState;
                    ScalingAction::LoadState
                }
            },
        }
    }

    /// The state re-read under the lock arrived at time `now`. A fresh record replaces the
    /// engine's counters, cooldowns and level; a record scheduled for later, a failed read
    /// in multi-instance mode, or cooldowns active in both directions end the cycle;
    /// otherwise the check starts and metrics are gathered.
    pub fn on_state(
        &mut self,
        spec: &ScalingProbeSpec,
        outcome: StateOutcome,
        multi_instance: bool,
        now: u64,
    ) -> (a: ScalingAction)
        requires
            old(self).phase is AwaitingState,
            old(self).inv(*spec),
            spec.fits_after(now),
        ensures
            final(self).inv(*spec),
            final(self).phase is AwaitingMetrics ==> final(self).holds_lock == old(self).holds_lock,
            state_step(*spec, *old(self), outcome, multi_instance, now, *final(self), a),
    {
        let mut skip_with_delay: Option<u64> = None;
        match &outcome {
            StateOutcome::Loaded(Some(fresh)) => {
                self.current_level = resolve_level(spec, fresh.current_level);
                self.consecutive_failures = fresh.consecutive_failures;
                self.consecutive_scaling_failures = fresh.consecutive_scaling_failures;
                self.upscale_blocked_until = fresh.upscale_blocked_until;
                self.downscale_blocked_until = fresh.downscale_blocked_until;
                if fresh.next_check_timestamp > now {
                    skip_with_delay = Some(fresh.next_check_timestamp - now);
                }
            },
            StateOutcome::Loaded(None) => {},
            StateOutcome::Failed => {
                if multi_instance {
                    self.next_delay = spec.interval_seconds;
                    return self.end_cycle(spec, false);
                }
            },
        }
        if let Some(delay) = skip_with_delay {
            self.next_delay = delay;
            return self.end_cycle(spec, false);
        }
        if now < self.upscale_blocked_until && now < self.downscale_blocked_until {
            let m = if self.upscale_blocked_until < self.downscale_blocked_until {
                self.upscale_blocked_until
            } else {
                self.downscale_blocked_until
            };
            self.next_delay = if m > now {
                m - now
            } else {
                0
            };
            return self.end_cycle(spec, false);
        }
        self.check_timestamp = now;
        self.phase = Phase::AwaitingMetrics;
        ScalingAction::GatherMetrics
    }

    /// A scale command (or its dry-run stand-in) succeeded at time `now`.
    fn apply_scale_success(&mut self, spec: &ScalingProbeSpec, up: bool, now: u64)
        requires
            spec.fits_after(now),
            !spec.stateless ==> (if up {
                spec.has_level(old(self).current_level + 1)
            } else {
                spec.has_level(old(self).current_level - 1)
            }),
        ensures
            *final(self) == scaled(*spec, *old(self), up, now),
    {
        self.consecutive_scaling_failures = 0;
        if !spec.stateless {
            if up {
                self.current_level = self.current_level + 1;
            } else {
                self.current_level = self.current_level - 1;
            }
        }
        if up {
            self.upscale_blocked_until = now + spec.delay_after_upscale_then_upscale;
            self.downscale_blocked_until = now + spec.delay_after_upscale_then_downscale;
        } else {
            self.downscale_blocked_until = now + spec.delay_after_downscale_then_downscale;
            self.upscale_blocked_until = now + spec.delay_after_downscale_then_upscale;
        }
        let m = if self.upscale_blocked_until < self.downscale_blocked_until {
            self.upscale_blocked_until
        } else {
            self.downscale_blocked_until
        };
        self.next_delay = m - now;
    }

    /// The metrics of the current check arrived at time `now`. A failure counts towards
    /// the failure command; values that call for scaling run the scale command unless
    /// that direction is in cooldown; in dry-run mode no command runs and a scale step
    /// is applied as if its command had succeeded.
    pub fn on_metrics(
        &mut self,
        spec: &ScalingProbeSpec,
        outcome: MetricsOutcome,
        dry_run: bool,
        now: u64,
    ) -> (a: ScalingAction)
        requires
            old(self).phase is AwaitingMetrics,
            old(self).inv(*spec),
            spec.fits_after(now),
            outcome is Failed ==> old(self).consecutive_failures < u32::MAX,
            outcome matches MetricsOutcome::Gathered { scale_up, scale_down } ==> scale_step_possible(
                *spec,
                *old(self),
                scale_up,
                scale_down,
            ),
        ensures
            final(self).inv(*spec),
            dry_run ==> !(a is RunCommand),
            a is RunCommand ==> final(self).holds_lock == old(self).holds_lock,
            metrics_step(*spec, *old(self), outcome, dry_run, now, *final(self), a),
    {
        match outcome {
            MetricsOutcome::Failed => {
                self.consecutive_failures = self.consecutive_failures + 1;
                self.next_delay = spec.interval_seconds;
                if let Some(command) = &spec.on_failure_command {
                    if self.consecutive_failures > spec.failure_retries_before_command {
                        if dry_run {
                            self.next_delay = spec.delay_after_onf_command_success;
                            return self.end_cycle(spec, true);
                        }
                        let cmd = build_failure_command(command, &spec.app_id);
                        self.phase = Phase::AwaitingFailureCommand;
                        return ScalingAction::RunCommand {
                            command: cmd,
                            timeout_seconds: spec.command_timeout_seconds,
                            log_output: !spec.suppress_command_output,
                        };
                    }
                }
                self.end_cycle(spec, true)
            },
            MetricsOutcome::Gathered { scale_up, scale_down } => {
                self.consecutive_failures = 0;
                let dir: Option<bool> = if scale_up {
                    if self.check_timestamp < self.upscale_blocked_until {
                        None
                    } else {
                        Some(true)
                    }
                } else if scale_down {
                    if self.check_timestamp < self.downscale_blocked_until {
                        None
                    } else {
                        Some(false)
                    }
                } else {
                    None
                };
                match dir {
                    None => {
                        self.next_delay = spec.interval_seconds;
                        self.end_cycle(spec, true)
                    },
                    Some(up) => {
                        if dry_run {
                            proof {
                                lemma_scaled_keeps_level_ok(*spec, self.current_level, up);
                            }
                            self.apply_scale_success(spec, up, now);
                            return self.end_cycle(spec, true);
                        }
                        let cmd = build_scale_command(spec, self.current_level, up);
                        self.phase = Phase::AwaitingScaleCommand { up };
                        ScalingAction::RunCommand {
                            command: cmd,
                            timeout_seconds: spec.command_timeout_seconds,
                            log_output: !spec.suppress_command_output,
                        }
                    },
                }
            },
        }
    }

    /// The command of the current cycle finished at time `now`.
    pub fn on_command(&mut self, spec: &ScalingProbeSpec, success: bool, now: u64) -> (a:
        ScalingAction)
        requires
            old(self).phase is AwaitingFailureCommand || old(self).phase is AwaitingScaleCommand,
            old(self).inv(*spec),
            spec.fits_after(now),
            old(self).phase is AwaitingScaleCommand && !success
                ==> old(self).consecutive_scaling_failures < u32::MAX,
            match old(self).phase {
                Phase::AwaitingScaleCommand { up } => !spec.stateless ==> spec.has_level(
                    target_level(old(self).current_level, up),
                ),
                _ => true,
            },
        ensures
            final(self).inv(*spec),
            command_step(*spec, *old(self), success, now, *final(self), a),
    {
        match self.phase {
            Phase::AwaitingScaleCommand { up } => {
                if success {
                    proof {
                        lemma_scaled_keeps_level_ok(*spec, self.current_level, up);
                    }
                    self.apply_scale_success(spec, up, now);
                } else {
                    self.consecutive_scaling_failures = self.consecutive_scaling_failures + 1;
                    self.next_delay = spec.interval_seconds;
                }
                self.end_cycle(spec, true)
            },
            _ => {
                self.next_delay = if success {
                    spec.delay_after_onf_command_success
                } else {
                    spec.delay_after_onf_command_failure
                };
                self.end_cycle(spec, true)
            },
        }
    }
}

/// The wake transition: a cycle starts by asking for the lock.
pub open spec fn wake_step(spec: ScalingProbeSpec, before: ScalingEngine, after: ScalingEngine, a: ScalingAction) -> bool {
    &&& after == (ScalingEngine { phase: Phase::AwaitingLock, ..before })
    &&& a matches ScalingAction::AcquireLock { key, ttl_ms } && key@ == spec.lock_key_view() && ttl_ms
== spec.spec_lock_ttl_ms()
}

/// One lock transition: `before` awaiting the lock, the attempt's `outcome`, and the
/// engine `after` it with the action `a`.
pub open spec fn lock_step(
    spec: ScalingProbeSpec,
    before: ScalingEngine,
    outcome: LockOutcome,
    multi_instance: bool,
    after: ScalingEngine,
    a: ScalingAction,
) -> bool {
    match outcome {
        LockOutcome::HeldElsewhere => skipped(before, after, a, spec.interval_seconds),
        LockOutcome::Failed => if multi_instance {
            skipped(before, after, a, spec.interval_seconds)
        } else {
            &&& after == (ScalingEngine {
                holds_lock: false,
                phase: Phase::AwaitingState,
                ..before
            })
            &&& a is LoadState
        },
        LockOutcome::Acquired => {
            &&& after == (ScalingEngine {
                holds_lock: true,
                phase: Phase::AwaitingState,
                ..before
            })
            &&& a is LoadState
        },
    }
}

/// One state-refresh transition at time `now`.
pub open spec fn state_step(
    spec: ScalingProbeSpec,
    before: ScalingEngine,
    outcome: StateOutcome,
    multi_instance: bool,
    now: u64,
    after: ScalingEngine,
    a: ScalingAction,
) -> bool {
    ({
        let refreshed = refreshed(spec, before, outcome);
        match outcome {
            StateOutcome::Failed if multi_instance => skipped(
                before,
                after,
                a,
                spec.interval_seconds,
            ),
            StateOutcome::Loaded(Some(fresh)) if fresh.next_check_timestamp > now => skipped(
                refreshed,
                after,
                a,
                (fresh.next_check_timestamp - now) as u64,
            ),
            _ => if now < refreshed.upscale_blocked_until && now
                < refreshed.downscale_blocked_until {
                skipped(
                    refreshed,
                    after,
                    a,
                    cooldown_wait(
                        refreshed.upscale_blocked_until,
                        refreshed.downscale_blocked_until,
                        now,
                    ),
                )
            } else {
                &&& after == (ScalingEngine {
                    check_timestamp: now,
                    phase: Phase::AwaitingMetrics,
                    ..refreshed
                })
                &&& a is GatherMetrics
            },
        }
    })
}

/// One metrics transition at time `now`.
pub open spec fn metrics_step(
    spec: ScalingProbeSpec,
    before: ScalingEngine,
    outcome: MetricsOutcome,
    dry_run: bool,
    now: u64,
    after: ScalingEngine,
    a: ScalingAction,
) -> bool {
    match outcome {
        MetricsOutcome::Failed => {
            let failed = ScalingEngine {
                consecutive_failures: (before.consecutive_failures + 1) as u32,
                ..before
            };
            if failure_command_due(spec, failed.consecutive_failures) {
                if dry_run {
                    ended_saving(
                        ScalingEngine {
                            next_delay: spec.delay_after_onf_command_success,
                            ..failed
                        },
                        after,
                        a,
                        spec,
                    )
                } else {
                    &&& after == (ScalingEngine {
                        next_delay: spec.interval_seconds,
                        phase: Phase::AwaitingFailureCommand,
                        ..failed
                    })
                    &&& a matches ScalingAction::RunCommand {
                        command,
                        timeout_seconds,
                        log_output,
                    } && command@ == failure_command_text(
                        spec.on_failure_command->0@,
                        opt_view(spec.app_id),
                    ) && timeout_seconds == spec.command_timeout_seconds && log_output
                        == !spec.suppress_command_output
                }
            } else {
                ended_saving(
                    ScalingEngine { next_delay: spec.interval_seconds, ..failed },
                    after,
                    a,
                    spec,
                )
            }
        },
        MetricsOutcome::Gathered { scale_up, scale_down } => {
            let ok = ScalingEngine { consecutive_failures: 0, ..before };
            match scale_direction(ok, scale_up, scale_down) {
                None => ended_saving(
                    ScalingEngine { next_delay: spec.interval_seconds, ..ok },
                    after,
                    a,
                    spec,
                ),
                Some(up) => if dry_run {
                    ended_saving(scaled(spec, ok, up, now), after, a, spec)
                } else {
                    &&& after == (ScalingEngine {
                        phase: Phase::AwaitingScaleCommand { up },
                        ..ok
                    })
                    &&& a matches ScalingAction::RunCommand {
                        command,
                        timeout_seconds,
                        log_output,
                    } && command@ == scale_command_for(spec, ok.current_level, up)
                        && timeout_seconds == spec.command_timeout_seconds && log_output
                        == !spec.suppress_command_output
                },
            }
        },
    }
}

/// One command-completion transition at time `now`.
pub open spec fn command_step(
    spec: ScalingProbeSpec,
    before: ScalingEngine,
    success: bool,
    now: u64,
    after: ScalingEngine,
    a: ScalingAction,
) -> bool {
    match before.phase {
        Phase::AwaitingFailureCommand => ended_saving(
            ScalingEngine {
                next_delay: if success {
                    spec.delay_after_onf_command_success
                } else {
                    spec.delay_after_onf_command_failure
                },
                ..before
            },
            after,
            a,
            spec,
        ),
        Phase::AwaitingScaleCommand { up } => if success {
            ended_saving(scaled(spec, before, up, now), after, a, spec)
        } else {
            ended_saving(
                ScalingEngine {
                    consecutive_scaling_failures: (before.consecutive_scaling_failures
                        + 1) as u32,
                    next_delay: spec.interval_seconds,
                    ..before
                },
                after,
                a,
                spec,
            )
        },
        _ => false,
    }
}

/// The engine after a refresh outcome: a fresh record replaces counters, cooldowns and
/// (resolved) level; otherwise nothing changes.
pub open spec fn refreshed(spec: ScalingProbeSpec, e: ScalingEngine, outcome: StateOutcome) -> ScalingEngine {
    match outcome {
        StateOutcome::Loaded(Some(fresh)) => ScalingEngine {
            current_level: spec.resolve_level(fresh.current_level),
            consecutive_failures: fresh.consecutive_failures,
            consecutive_scaling_failures: fresh.consecutive_scaling_failures,
            upscale_blocked_until: fresh.upscale_blocked_until,
            downscale_blocked_until: fresh.downscale_blocked_until,
            ..e
        },
        _ => e,
    }
}

/// The cycle ended without saving: `after` is `before` idle, lock released, waiting `wait`.
pub open spec fn skipped(before: ScalingEngine, after: ScalingEngine, a: ScalingAction, wait: u64) -> bool {
    &&& after == (ScalingEngine { next_delay: wait, holds_lock: false, phase: Phase::Idle, ..before })
    &&& a == (ScalingAction::EndCycle { save: None, release_lock: before.holds_lock, wait_seconds: wait })
}

/// The cycle ended saving the state of `before`: `after` is `before` idle and lock released.
pub open spec fn ended_saving(
    before: ScalingEngine,
    after: ScalingEngine,
    a: ScalingAction,
    spec: ScalingProbeSpec,
) -> bool {
    &&& after == (ScalingEngine { holds_lock: false, phase: Phase::Idle, ..before })
    &&& a == (ScalingAction::EndCycle {
        save: Some(before.record(spec)),
        release_lock: before.holds_lock,
        wait_seconds: before.next_delay,
    })
}

/// The failure command is configured and the consecutive failures exceed the allowed retries.
pub open spec fn failure_command_due(spec: ScalingProbeSpec, consecutive_failures: u32) -> bool {
    spec.on_failure_command is Some && consecutive_failures > spec.failure_retries_before_command
}

/// The scaling direction chosen from the evaluations: up before down, and a direction
/// still in cooldown at the check timestamp gives no step at all.
pub open spec fn scale_direction(e: ScalingEngine, scale_up: bool, scale_down: bool) -> Option<bool> {
    if scale_up {
        if e.check_timestamp < e.upscale_blocked_until {
            None
        } else {
            Some(true)
        }
    } else if scale_down {
        if e.check_timestamp < e.downscale_blocked_until {
            None
        } else {
            Some(false)
        }
    } else {
        None
    }
}

/// A level-based step needs the target level to be configured.
pub open spec fn scale_step_possible(
    spec: ScalingProbeSpec,
    e: ScalingEngine,
    scale_up: bool,
    scale_down: bool,
) -> bool {
    match scale_direction(e, scale_up, scale_down) {
        Some(up) => !spec.stateless ==> if up {
            spec.has_level(e.current_level + 1)
        } else {
            spec.has_level(e.current_level - 1)
        },
        None => true,
    }
}

/// The level after a scale step from `level`.
pub open spec fn target_level(level: u32, up: bool) -> int {
    if up {
        level + 1
    } else {
        level - 1
    }
}

/// The command text of a scale step from `level`: stateless probes substitute an empty
/// flavor and zero instances, level-based probes those of the target level.
pub open spec fn scale_command_for(spec: ScalingProbeSpec, level: u32, up: bool) -> Seq<char> {
    let command = if up {
        spec.upscale_command@
    } else {
        spec.downscale_command@
    };
    if spec.stateless {
        scaling_command_text(command, opt_view(spec.app_id), Seq::empty(), 0)
    } else {
        let l = spec.levels@[spec.level_index(target_level(level, up))];
        scaling_command_text(command, opt_view(spec.app_id), l.flavor@, l.instances as nat)
    }
}

/// The engine after a successful scale step at time `now`: scaling failures reset, the
/// level moves by one (unless stateless), both cooldowns restart from `now`, and the next
/// cycle waits for the earlier of them.
pub open spec fn scaled(spec: ScalingProbeSpec, e: ScalingEngine, up: bool, now: u64) -> ScalingEngine {
    let level = if spec.stateless {
        e.current_level
    } else {
        target_level(e.current_level, up) as u32
    };
    let upb = if up {
        now + spec.delay_after_upscale_then_upscale
    } else {
        now + spec.delay_after_downscale_then_upscale
    };
    let downb = if up {
        now + spec.delay_after_upscale_then_downscale
    } else {
        now + spec.delay_after_downscale_then_downscale
    };
    let m = if upb < downb {
        upb
    } else {
        downb
    };
    ScalingEngine {
        consecutive_scaling_failures: 0,
        current_level: level,
        upscale_blocked_until: upb as u64,
        downscale_blocked_until: downb as u64,
        next_delay: (m - now) as u64,
        ..e
    }
}

proof fn lemma_scaled_keeps_level_ok(spec: ScalingProbeSpec, level: u32, up: bool)
    requires
        spec.level_ok(level),
        !spec.stateless ==> spec.has_level(target_level(level, up)),
    ensures
        spec.level_ok(
            if spec.stateless {
                level
            } else {
                target_level(level, up) as u32
            },
        ),
{
}

/// The command text for a scale step from `level`.
fn build_scale_command(spec: &ScalingProbeSpec, level: u32, up: bool) -> (r: String)
    requires
        !spec.stateless ==> spec.has_level(target_level(level, up)),
    ensures
        r@ == scale_command_for(*spec, level, up),
{
    let command = if up {
        &spec.upscale_command
    } else {
        &spec.downscale_command
    };
    let app_id: Option<&str> = match &spec.app_id {
        Some(id) => Some(id.as_str()),
        None => None,
    };
    if spec.stateless {
        proof {
            reveal_strlit("");
        }
        let r = build_scaling_command(command.as_str(), app_id, "", 0);
        assert(""@ =~= Seq::<char>::empty());
        r
    } else {
        let target = if up {
            level + 1
        } else {
            level - 1
        };
        let l = spec.get_computed_level(target);
        let l = match l {
            Some(l) => l,
            None => {
                assert(false);
                return String::new();
            },
        };
        build_scaling_command(command.as_str(), app_id, l.flavor.as_str(), l.instances)
    }
}

/// A level the engine may hold lies between the minimum and the maximum level.
pub proof fn law_level_within_bounds(spec: ScalingProbeSpec, level: u32)
    requires
        spec.level_ok(level),
    ensures
        spec.spec_min_level() <= level <= spec.spec_max_level(),
{
    let nums = spec.level_numbers();
    if nums.len() > 0 {
        lemma_min_max_level(nums);
        let k = choose|k: int| 0 <= k < nums.len() && nums[k] == spec.spec_min_level();
        assert(nums[k] <= spec.spec_max_level());
        if spec.has_level(level as int) {
            let i = choose|i: int| 0 <= i < spec.levels@.len() && spec.levels@[i].level == level;
            assert(nums[i] == level);
        }
    }
}

/// Restarting from the state an engine saved restores its level, failure counters and
/// cooldowns.
pub proof fn law_resume_restores_saved_state(spec: ScalingProbeSpec, e: ScalingEngine, now: u64)
    requires
        e.inv(spec),
    ensures
        ({
            let r = resumed(spec, Some(e.record(spec)), now);
            &&& r.current_level == e.current_level
            &&& r.consecutive_failures == e.consecutive_failures
            &&& r.consecutive_scaling_failures == e.consecutive_scaling_failures
            &&& r.upscale_blocked_until == e.upscale_blocked_until
            &&& r.downscale_blocked_until == e.downscale_blocked_until
        }),
{
}

/// A successful scale step moves a level-based probe exactly one level in its
/// direction and leaves a stateless probe's level alone.
pub proof fn law_scale_step_moves_one_level(spec: ScalingProbeSpec, e: ScalingEngine, up: bool, now: u64)
    requires
        !spec.stateless ==> spec.has_level(target_level(e.current_level, up)),
    ensures
        scaled(spec, e, up, now).current_level == if spec.stateless {
            e.current_level as int
        } else if up {
            e.current_level + 1
        } else {
            e.current_level - 1
        },
{
}

/// No scale step is taken in a direction whose cooldown has not ended at the check
/// timestamp.
pub proof fn law_no_scale_step_during_cooldown(e: ScalingEngine, scale_up: bool, scale_down: bool)
    ensures
        scale_direction(e, scale_up, scale_down) == Some(true) ==> e.check_timestamp
            >= e.upscale_blocked_until,
        scale_direction(e, scale_up, scale_down) == Some(false) ==> e.check_timestamp
            >= e.downscale_blocked_until,
        scale_direction(e, scale_up, scale_down) == Some(false) ==> !scale_up,
{
}

/// After a successful upscale at `now`, a later check before the up-then-up delay has
/// elapsed takes no further upscale step, and one before the up-then-down delay has
/// elapsed takes no downscale step.
pub proof fn law_cooldown_after_upscale(
    spec: ScalingProbeSpec,
    e: ScalingEngine,
    now: u64,
    t: u64,
    scale_up: bool,
    scale_down: bool,
)
    requires
        spec.fits_after(now),
    ensures
        t < now + spec.delay_after_upscale_then_upscale ==> scale_direction(
            ScalingEngine { check_timestamp: t, ..scaled(spec, e, true, now) },
            scale_up,
            scale_down,
        ) != Some(true),
        t < now + spec.delay_after_upscale_then_downscale ==> scale_direction(
            ScalingEngine { check_timestamp: t, ..scaled(spec, e, true, now) },
            scale_up,
            scale_down,
        ) != Some(false),
{
}

/// After a successful downscale at `now`, a later check before the down-then-down delay
/// has elapsed takes no further downscale step, and one before the down-then-up delay
/// has elapsed takes no upscale step.
pub proof fn law_cooldown_after_downscale(
    spec: ScalingProbeSpec,
    e: ScalingEngine,
    now: u64,
    t: u64,
    scale_up: bool,
    scale_down: bool,
)
    requires
        spec.fits_after(now),
    ensures
        t < now + spec.delay_after_downscale_then_downscale ==> scale_direction(
            ScalingEngine { check_timestamp: t, ..scaled(spec, e, false, now) },
            scale_up,
            scale_down,
        ) != Some(false),
        t < now + spec.delay_after_downscale_then_upscale ==> scale_direction(
            ScalingEngine { check_timestamp: t, ..scaled(spec, e, false, now) },
            scale_up,
            scale_down,
        ) != Some(true),
{
}

/// The engine view of a level-based WarpScript probe at `current_level`: one cooldown
/// for every direction (the probe's delay after scaling), the scale commands of the
/// current level (empty when that level has none), and levels without flavor or
/// instance count.
pub open spec fn warpscript_engine_spec_ok<T>(
    probe: WarpScriptProbe<T>,
    current_level: u32,
    request_timeout_seconds: u64,
    s: ScalingProbeSpec,
) -> bool {
    let delay = match probe.delay_after_scale_seconds {
        Some(d) => d,
        None => probe.interval_seconds,
    };
    let level_cmd = |up: bool|
        if probe.has_level(current_level as int) {
            let l = probe.levels@[probe.level_index(current_level as int)];
            match if up {
                l.upscale_command
            } else {
                l.downscale_command
            } {
                Some(c) => c@,
                None => Seq::empty(),
            }
        } else {
            Seq::empty()
        };
    &&& s.name@ == probe.name@
    &&& s.lock_kind@ == "warpscript"@
    &&& opt_view(s.app_id) == if probe.apps@.len() > 0 {
        Some(probe.apps@[0].id@)
    } else {
        None
    }
    &&& s.interval_seconds == probe.interval_seconds
    &&& s.command_timeout_seconds == probe.command_timeout_seconds
    &&& s.lock_extra_seconds == request_timeout_seconds
    &&& !s.suppress_command_output
    &&& s.on_failure_command is None
    &&& s.failure_retries_before_command == 0
    &&& s.delay_after_onf_command_success == probe.interval_seconds
    &&& s.delay_after_onf_command_failure == probe.interval_seconds
    &&& !s.stateless
    &&& s.levels@.len() == probe.levels@.len()
    &&& forall|i: int|
        0 <= i < s.levels@.len() ==> (#[trigger] s.levels@[i]).level == probe.levels@[i].level
            && s.levels@[i].flavor@.len() == 0 && s.levels@[i].instances == 0
    &&& s.upscale_command@ == level_cmd(true)
    &&& s.downscale_command@ == level_cmd(false)
    &&& s.delay_after_upscale_then_upscale == delay
    &&& s.delay_after_upscale_then_downscale == delay
    &&& s.delay_after_downscale_then_downscale == delay
    &&& s.delay_after_downscale_then_upscale == delay
}

fn opt_command(c: &Option<String>) -> (r: String)
    ensures
        r@ == match c {
            Some(s) => s@,
            None => Seq::<char>::empty(),
        },
{
    match c {
        Some(s) => s.clone(),
        None => String::new(),
    }
}

/// Drive a level-based WarpScript probe with the engine: the engine parameters for the
/// probe at `current_level`, the metric request timeout covering the lock.
pub fn warpscript_engine_spec<T>(
    probe: &WarpScriptProbe<T>,
    current_level: u32,
    request_timeout_seconds: u64,
) -> (r: ScalingProbeSpec)
    ensures
        warpscript_engine_spec_ok(*probe, current_level, request_timeout_seconds, r),
{
    let delay = probe.get_delay_after_scale();
    let mut levels: Vec<ComputedLevel> = Vec::new();
    let n = probe.levels.len();
    let mut i: usize = 0;
    while i < n
        invariant
            n == probe.levels@.len(),
            i <= n,
            levels@.len() == i,
            forall|k: int|
                0 <= k < i ==> (#[trigger] levels@[k]).level == probe.levels@[k].level
                    && levels@[k].flavor@.len() == 0 && levels@[k].instances == 0,
        decreases n - i,
    {
        levels.push(ComputedLevel { level: probe.levels[i].level, flavor: String::new(), instances: 0 });
        i = i + 1;
    }
    let (up, down) = match probe.get_level(current_level) {
        Some(l) => (opt_command(&l.upscale_command), opt_command(&l.downscale_command)),
        None => (String::new(), String::new()),
    };
    let app_id = if probe.apps.len() > 0 {
        Some(probe.apps[0].id.clone())
    } else {
        None
    };
    ScalingProbeSpec {
        name: probe.name.clone(),
        lock_kind: String::from_str("warpscript"),
        app_id,
        interval_seconds: probe.interval_seconds,
        command_timeout_seconds: probe.command_timeout_seconds,
        lock_extra_seconds: request_timeout_seconds,
        suppress_command_output: false,
        on_failure_command: None,
        failure_retries_before_command: 0,
        delay_after_onf_command_success: probe.interval_seconds,
        delay_after_onf_command_failure: probe.interval_seconds,
        stateless: false,
        levels,
        upscale_command: up,
        downscale_command: down,
        delay_after_upscale_then_upscale: delay,
        delay_after_upscale_then_downscale: delay,
        delay_after_downscale_then_downscale: delay,
        delay_after_downscale_then_upscale: delay,
    }
}

/// `s` drives agent probe `probe`: its settings taken over one for one, the lock keyed
/// by kind "agent" with no extra time (samples are read locally), the probe's first app,
/// unset delays defaulting to the interval, and stateless when it has no levels.
pub open spec fn agent_engine_spec_ok<T>(probe: AgentProbe<T>, s: ScalingProbeSpec) -> bool {
    &&& s.name@ == probe.name@
    &&& s.lock_kind@ == "agent"@
    &&& opt_view(s.app_id) == if probe.apps@.len() > 0 {
        Some(probe.apps@[0].id@)
    } else {
        None
    }
    &&& s.interval_seconds == probe.interval_seconds
    &&& s.command_timeout_seconds == probe.command_timeout_seconds
    &&& s.lock_extra_seconds == 0
    &&& s.suppress_command_output == probe.suppress_command_output
    &&& opt_view(s.on_failure_command) == opt_view(probe.on_failure_command)
    &&& s.failure_retries_before_command == match probe.failure_retries_before_command {
        Some(n) => n,
        None => 0,
    }
    &&& s.delay_after_onf_command_success == or_interval(
        probe.delay_after_onf_command_success_seconds,
        probe.interval_seconds,
    )
    &&& s.delay_after_onf_command_failure == or_interval(
        probe.delay_after_onf_command_failure_seconds,
        probe.interval_seconds,
    )
    &&& s.stateless == probe.spec_is_stateless()
    &&& s.levels@ == probe.levels@
    &&& s.upscale_command@ == probe.scaling.upscale_command@
    &&& s.downscale_command@ == probe.scaling.downscale_command@
    &&& s.delay_after_upscale_then_upscale == or_interval(
        probe.scaling.delay_after_upscale_then_upscale_seconds,
        probe.interval_seconds,
    )
    &&& s.delay_after_upscale_then_downscale == or_interval(
        probe.scaling.delay_after_upscale_then_downscale_seconds,
        probe.interval_seconds,
    )
    &&& s.delay_after_downscale_then_downscale == or_interval(
        probe.scaling.delay_after_downscale_then_downscale_seconds,
        probe.interval_seconds,
    )
    &&& s.delay_after_downscale_then_upscale == or_interval(
        probe.scaling.delay_after_downscale_then_upscale_seconds,
        probe.interval_seconds,
    )
}

/// A copy of computed levels.
pub(crate) fn clone_computed_levels(levels: &Vec<ComputedLevel>) -> (r: Vec<ComputedLevel>)
    ensures
        r@ == levels@,
{
    let mut out: Vec<ComputedLevel> = Vec::new();
    let n = levels.len();
    let mut i: usize = 0;
    while i < n
        invariant
            n == levels@.len(),
            i <= n,
            out@ == levels@.take(i as int),
        decreases n - i,
    {
        let l = &levels[i];
        out.push(ComputedLevel { level: l.level, flavor: l.flavor.clone(), instances: l.instances });
        assert(out@ =~= levels@.take(i + 1));
        i = i + 1;
    }
    assert(levels@.take(n as int) =~= levels@);
    out
}

/// Drive an agent probe with the engine.
pub fn agent_engine_spec<T>(probe: &AgentProbe<T>) -> (r: ScalingProbeSpec)
    ensures
        agent_engine_spec_ok(*probe, r),
{
    let interval = probe.interval_seconds;
    let sc = &probe.scaling;
    let app_id = if probe.apps.len() > 0 {
        Some(probe.apps[0].id.clone())
    } else {
        None
    };
    ScalingProbeSpec {
        name: probe.name.clone(),
        lock_kind: String::from_str("agent"),
        app_id,
        interval_seconds: interval,
        command_timeout_seconds: probe.command_timeout_seconds,
        lock_extra_seconds: 0,
        suppress_command_output: probe.suppress_command_output,
        on_failure_command: clone_opt_string(&probe.on_failure_command),
        failure_retries_before_command: probe.get_failure_retries_before_command(),
        delay_after_onf_command_success: probe.get_delay_after_onf_command_success(),
        delay_after_onf_command_failure: probe.get_delay_after_onf_command_failure(),
        stateless: probe.is_stateless(),
        levels: clone_computed_levels(&probe.levels),
        upscale_command: sc.upscale_command.clone(),
        downscale_command: sc.downscale_command.clone(),
        delay_after_upscale_then_upscale: delay_or_interval(
            sc.delay_after_upscale_then_upscale_seconds,
            interval,
        ),
        delay_after_upscale_then_downscale: delay_or_interval(
            sc.delay_after_upscale_then_downscale_seconds,
            interval,
        ),
        delay_after_downscale_then_downscale: delay_or_interval(
            sc.delay_after_downscale_then_downscale_seconds,
            interval,
        ),
        delay_after_downscale_then_upscale: delay_or_interval(
            sc.delay_after_downscale_then_upscale_seconds,
            interval,
        ),
    }
}

/// What happened between two states of the engine within a cycle.
pub enum CycleEvent {
    Wake,
    Lock { outcome: LockOutcome, multi_instance: bool },
    State { outcome: StateOutcome, multi_instance: bool, now: u64 },
    Metrics { outcome: MetricsOutcome, dry_run: bool, now: u64 },
    Command { success: bool, now: u64 },
}

/// One transition of the engine, taken from the phase that awaits its event.
pub open spec fn engine_step(
    spec: ScalingProbeSpec,
    before: ScalingEngine,
    ev: CycleEvent,
    after: ScalingEngine,
    a: ScalingAction,
) -> bool {
    match ev {
        CycleEvent::Wake => before.phase is Idle && wake_step(spec, before, after, a),
        CycleEvent::Lock { outcome, multi_instance } => before.phase is AwaitingLock && lock_step(
            spec,
            before,
            outcome,
            multi_instance,
            after,
            a,
        ),
        CycleEvent::State { outcome, multi_instance, now } => before.phase is AwaitingState
            && state_step(spec, before, outcome, multi_instance, now, after, a),
        CycleEvent::Metrics { outcome, dry_run, now } => before.phase is AwaitingMetrics
            && metrics_step(spec, before, outcome, dry_run, now, after, a),
        CycleEvent::Command { success, now } => (before.phase is AwaitingFailureCommand
            || before.phase is AwaitingScaleCommand) && command_step(
            spec,
            before,
            success,
            now,
            after,
            a,
        ),
    }
}

/// One whole cycle: from an idle engine, the transitions `engines[i]` to
/// `engines[i + 1]` under `events[i]` with action `actions[i]`, ending with the only
/// `EndCycle` action.
pub open spec fn cycle(
    spec: ScalingProbeSpec,
    engines: Seq<ScalingEngine>,
    events: Seq<CycleEvent>,
    actions: Seq<ScalingAction>,
) -> bool {
    &&& events.len() >= 1
    &&& engines.len() == events.len() + 1
    &&& actions.len() == events.len()
    &&& engines[0].phase is Idle
    &&& engines[0].inv(spec)
    &&& forall|i: int|
        0 <= i < events.len() ==> engine_step(
            spec,
            engines[i],
            #[trigger] events[i],
            engines[i + 1],
            actions[i],
        )
    &&& forall|i: int| 0 <= i < events.len() - 1 ==> !(#[trigger] actions[i] is EndCycle)
    &&& actions.last() is EndCycle
}

proof fn lemma_step_lock_flag(
    spec: ScalingProbeSpec,
    before: ScalingEngine,
    ev: CycleEvent,
    after: ScalingEngine,
    a: ScalingAction,
)
    requires
        engine_step(spec, before, ev, after, a),
    ensures
        a matches ScalingAction::EndCycle { release_lock, .. } ==> release_lock == before.holds_lock,
        !(ev is Wake) && !(ev is Lock) && !(a is EndCycle) ==> after.holds_lock == before.holds_lock,
        ev is Wake ==> after.holds_lock == before.holds_lock && a is AcquireLock,
        !(a is EndCycle) ==> !(after.phase is Idle),
        after.phase is AwaitingLock ==> ev is Wake,
{
}

/// A cycle whose lock is held elsewhere, or whose lock attempt fails in multi-instance
/// mode, ends right after the attempt: nothing is gathered, saved, run or released, and
/// the next cycle comes one interval later.
pub proof fn law_lock_not_taken_skips_cycle(
    spec: ScalingProbeSpec,
    engines: Seq<ScalingEngine>,
    events: Seq<CycleEvent>,
    actions: Seq<ScalingAction>,
)
    requires
        cycle(spec, engines, events, actions),
        events.len() >= 2,
        events[1] matches CycleEvent::Lock { outcome, multi_instance } && (outcome is HeldElsewhere
            || (outcome is Failed && multi_instance)),
    ensures
        events.len() == 2,
        actions[1] == (ScalingAction::EndCycle {
            save: None,
            release_lock: false,
            wait_seconds: spec.interval_seconds,
        }),
{
    assert(engine_step(spec, engines[0], events[0], engines[1], actions[0]));
    assert(engine_step(spec, engines[1], events[1], engines[2], actions[1]));
    if events.len() > 2 {
        assert(!(actions[1] is EndCycle));
    }
}

/// In multi-instance mode, a cycle that took the lock but cannot re-read the state ends
/// there: nothing is gathered, saved or run, the lock is released, and the next cycle
/// comes one interval later.
pub proof fn law_failed_state_read_fails_closed(
    spec: ScalingProbeSpec,
    engines: Seq<ScalingEngine>,
    events: Seq<CycleEvent>,
    actions: Seq<ScalingAction>,
)
    requires
        cycle(spec, engines, events, actions),
        events.len() >= 3,
        events[1] matches CycleEvent::Lock { outcome, .. } && outcome is Acquired,
        events[2] matches CycleEvent::State { outcome, multi_instance, .. } && outcome is Failed
            && multi_instance,
    ensures
        events.len() == 3,
        actions[2] == (ScalingAction::EndCycle {
            save: None,
            release_lock: true,
            wait_seconds: spec.interval_seconds,
        }),
{
    assert(engine_step(spec, engines[0], events[0], engines[1], actions[0]));
    assert(engine_step(spec, engines[1], events[1], engines[2], actions[1]));
    assert(engine_step(spec, engines[2], events[2], engines[3], actions[2]));
    assert(!(actions[1] is EndCycle));
    if events.len() > 3 {
        assert(!(actions[2] is EndCycle));
    }
}

proof fn lemma_lock_flag_kept(
    spec: ScalingProbeSpec,
    engines: Seq<ScalingEngine>,
    events: Seq<CycleEvent>,
    actions: Seq<ScalingAction>,
    i: int,
    acquired: bool,
)
    requires
        cycle(spec, engines, events, actions),
        2 <= i <= events.len() - 1,
        engines[2].holds_lock == acquired,
    ensures
        engines[i].holds_lock == acquired,
    decreases i,
{
    if i > 2 {
        lemma_lock_flag_kept(spec, engines, events, actions, i - 1, acquired);
        let j = i - 1;
        assert(engine_step(spec, engines[j], events[j], engines[j + 1], actions[j]));
        assert(!(actions[j] is EndCycle));
        lemma_step_lock_flag(spec, engines[j], events[j], engines[j + 1], actions[j]);
        assert(engine_step(spec, engines[j - 1], events[j - 1], engines[j], actions[j - 1]));
        assert(!(actions[j - 1] is EndCycle));
        lemma_step_lock_flag(spec, engines[j - 1], events[j - 1], engines[j], actions[j - 1]);
        assert(engine_step(spec, engines[j - 2], events[j - 2], engines[j - 1], actions[j - 2]));
        assert(!(actions[j - 2] is EndCycle));
        lemma_step_lock_flag(spec, engines[j - 2], events[j - 2], engines[j - 1], actions[j - 2]);
        assert(!(engines[j - 1].phase is Idle));
        assert(!(engines[j].phase is Idle));
        assert(!(events[j] is Wake));
        assert(!(engines[j].phase is AwaitingLock));
        assert(!(events[j] is Lock));
    }
}

/// A cycle releases the lock at its end exactly when it acquired it; a cycle that went
/// on without the lock (single-instance mode after a failed attempt) releases nothing.
pub proof fn law_lock_released_iff_acquired(
    spec: ScalingProbeSpec,
    engines: Seq<ScalingEngine>,
    events: Seq<CycleEvent>,
    actions: Seq<ScalingAction>,
)
    requires
        cycle(spec, engines, events, actions),
        events.len() >= 2,
    ensures
        actions.last() matches ScalingAction::EndCycle { release_lock, .. } && release_lock == (
        events[1] matches CycleEvent::Lock { outcome, .. } && outcome is Acquired),
{
    let n: int = events.len() as int;
    let acquired = events[1] matches CycleEvent::Lock { outcome, .. } && outcome is Acquired;
    assert(engine_step(spec, engines[0], events[0], engines[1], actions[0]));
    lemma_step_lock_flag(spec, engines[0], events[0], engines[1], actions[0]);
    assert(engine_step(spec, engines[1], events[1], engines[2], actions[1]));
    lemma_step_lock_flag(spec, engines[1], events[1], engines[2], actions[1]);
    if n == 2 {
        assert(!acquired);
    } else {
        assert(!(actions[1] is EndCycle));
        assert(engines[2].holds_lock == acquired);
        lemma_lock_flag_kept(spec, engines, events, actions, n - 1, acquired);
        assert(engine_step(spec, engines[n - 1], events[n - 1], engines[n], actions[n - 1]));
        lemma_step_lock_flag(spec, engines[n - 1], events[n - 1], engines[n], actions[n - 1]);
    }
}

/// A failed metric gathering whose failure command is not due (or, in dry-run mode, is
/// due) ends the cycle saving one more failure, with level, cooldowns and scaling
/// failures unchanged; the next check comes one interval later, or after the delay for
/// a succeeded failure command in dry-run mode.
pub proof fn law_gather_failure_record(
    spec: ScalingProbeSpec,
    e: ScalingEngine,
    dry_run: bool,
    now: u64,
    after: ScalingEngine,
    a: ScalingAction,
)
    requires
        metrics_step(spec, e, MetricsOutcome::Failed, dry_run, now, after, a),
        e.consecutive_failures < u32::MAX,
        !failure_command_due(spec, (e.consecutive_failures + 1) as u32) || dry_run,
    ensures
        a matches ScalingAction::EndCycle { save: Some(s), release_lock, .. } && {
            &&& s.consecutive_failures == e.consecutive_failures + 1
            &&& s.current_level == e.current_level
            &&& s.upscale_blocked_until == e.upscale_blocked_until
            &&& s.downscale_blocked_until == e.downscale_blocked_until
            &&& s.consecutive_scaling_failures == e.consecutive_scaling_failures
            &&& s.last_check_timestamp == e.check_timestamp
            &&& s.next_check_timestamp == (e.check_timestamp + if failure_command_due(
                spec,
                (e.consecutive_failures + 1) as u32,
            ) {
                spec.delay_after_onf_command_success
            } else {
                spec.interval_seconds
            }) as u64
            &&& release_lock == e.holds_lock
        },
{
}

/// A failed metric gathering whose failure command is due runs that command (outside
/// dry-run mode); when it finishes, the cycle saves one more failure with level,
/// cooldowns and scaling failures unchanged, and waits the delay for a succeeded or a
/// failed failure command.
pub proof fn law_failure_command_record(
    spec: ScalingProbeSpec,
    e: ScalingEngine,
    now: u64,
    e2: ScalingEngine,
    a2: ScalingAction,
    success: bool,
    now2: u64,
    e3: ScalingEngine,
    a3: ScalingAction,
)
    requires
        metrics_step(spec, e, MetricsOutcome::Failed, false, now, e2, a2),
        e.consecutive_failures < u32::MAX,
        failure_command_due(spec, (e.consecutive_failures + 1) as u32),
        command_step(spec, e2, success, now2, e3, a3),
    ensures
        a2 is RunCommand,
        a3 matches ScalingAction::EndCycle { save: Some(s), release_lock, .. } && {
            &&& s.consecutive_failures == e.consecutive_failures + 1
            &&& s.current_level == e.current_level
            &&& s.upscale_blocked_until == e.upscale_blocked_until
            &&& s.downscale_blocked_until == e.downscale_blocked_until
            &&& s.consecutive_scaling_failures == e.consecutive_scaling_failures
            &&& s.next_check_timestamp == (e.check_timestamp + if success {
                spec.delay_after_onf_command_success
            } else {
                spec.delay_after_onf_command_failure
            }) as u64
            &&& release_lock == e.holds_lock
        },
{
}

/// Gathered metrics that call for no scale step (or only for one still in cooldown) end
/// the cycle saving the same level and cooldowns, no failure, and the next check one
/// interval later.
pub proof fn law_no_scale_step_record(
    spec: ScalingProbeSpec,
    e: ScalingEngine,
    scale_up: bool,
    scale_down: bool,
    dry_run: bool,
    now: u64,
    after: ScalingEngine,
    a: ScalingAction,
)
    requires
        metrics_step(
            spec,
            e,
            MetricsOutcome::Gathered { scale_up, scale_down },
            dry_run,
            now,
            after,
            a,
        ),
        scale_direction(e, scale_up, scale_down) is None,
    ensures
        a matches ScalingAction::EndCycle { save: Some(s), .. } && {
            &&& s.current_level == e.current_level
            &&& s.consecutive_failures == 0
            &&& s.upscale_blocked_until == e.upscale_blocked_until
            &&& s.downscale_blocked_until == e.downscale_blocked_until
            &&& s.consecutive_scaling_failures == e.consecutive_scaling_failures
            &&& s.last_check_timestamp == e.check_timestamp
            &&& s.next_check_timestamp == (e.check_timestamp + spec.interval_seconds) as u64
        },
{
    assert(scale_direction(ScalingEngine { consecutive_failures: 0, ..e }, scale_up, scale_down)
        == scale_direction(e, scale_up, scale_down));
}

/// The record a successful scale step at time `t` saves, when the check also ran at `t`.
pub open spec fn scaled_record_ok(spec: ScalingProbeSpec, e: ScalingEngine, up: bool, t: u64, s: ProbeStateRecord) -> bool {
    let (du, dd) = if up {
        (spec.delay_after_upscale_then_upscale, spec.delay_after_upscale_then_downscale)
    } else {
        (spec.delay_after_downscale_then_upscale, spec.delay_after_downscale_then_downscale)
    };
    &&& s.current_level == if spec.stateless {
        e.current_level as int
    } else {
        target_level(e.current_level, up)
    }
    &&& s.upscale_blocked_until == t + du
    &&& s.downscale_blocked_until == t + dd
    &&& s.consecutive_scaling_failures == 0
    &&& s.consecutive_failures == 0
    &&& s.last_check_timestamp == t
    &&& s.next_check_timestamp == t + if du < dd {
        du
    } else {
        dd
    }
}

/// A scale step taken at time `t` (the check at `t`, its command finishing at `t`)
/// saves the level one step further (unchanged for stateless probes), both cooldowns
/// restarted from `t`, no failures, and the next check when the earlier cooldown ends.
pub proof fn law_successful_scale_record(
    spec: ScalingProbeSpec,
    e: ScalingEngine,
    scale_up: bool,
    scale_down: bool,
    up: bool,
    t: u64,
    e2: ScalingEngine,
    a2: ScalingAction,
    e3: ScalingEngine,
    a3: ScalingAction,
)
    requires
        e.check_timestamp == t,
        spec.fits_after(t),
        scale_direction(e, scale_up, scale_down) == Some(up),
        !spec.stateless ==> spec.has_level(target_level(e.current_level, up)),
        metrics_step(
            spec,
            e,
            MetricsOutcome::Gathered { scale_up, scale_down },
            false,
            t,
            e2,
            a2,
        ),
        command_step(spec, e2, true, t, e3, a3),
    ensures
        a2 is RunCommand,
        a3 matches ScalingAction::EndCycle { save: Some(s), .. } && scaled_record_ok(spec, e, up, t, s),
{
    assert(scale_direction(ScalingEngine { consecutive_failures: 0, ..e }, scale_up, scale_down)
        == scale_direction(e, scale_up, scale_down));
}

/// In dry-run mode a scale step at time `t` saves the same record as a succeeded command,
/// with no command run.
pub proof fn law_dry_run_scale_record(
    spec: ScalingProbeSpec,
    e: ScalingEngine,
    scale_up: bool,
    scale_down: bool,
    up: bool,
    t: u64,
    after: ScalingEngine,
    a: ScalingAction,
)
    requires
        e.check_timestamp == t,
        spec.fits_after(t),
        scale_direction(e, scale_up, scale_down) == Some(up),
        !spec.stateless ==> spec.has_level(target_level(e.current_level, up)),
        metrics_step(spec, e, MetricsOutcome::Gathered { scale_up, scale_down }, true, t, after, a),
    ensures
        a matches ScalingAction::EndCycle { save: Some(s), .. } && scaled_record_ok(spec, e, up, t, s),
{
    assert(scale_direction(ScalingEngine { consecutive_failures: 0, ..e }, scale_up, scale_down)
        == scale_direction(e, scale_up, scale_down));
}

/// A scale command that fails keeps the level and cooldowns, counts one more scaling
/// failure, and waits one interval.
pub proof fn law_failed_scale_command_record(
    spec: ScalingProbeSpec,
    e: ScalingEngine,
    scale_up: bool,
    scale_down: bool,
    now: u64,
    e2: ScalingEngine,
    a2: ScalingAction,
    now2: u64,
    e3: ScalingEngine,
    a3: ScalingAction,
)
    requires
        scale_direction(e, scale_up, scale_down) is Some,
        e.consecutive_scaling_failures < u32::MAX,
        metrics_step(
            spec,
            e,
            MetricsOutcome::Gathered { scale_up, scale_down },
            false,
            now,
            e2,
            a2,
        ),
        command_step(spec, e2, false, now2, e3, a3),
    ensures
        a2 is RunCommand,
        a3 matches ScalingAction::EndCycle { save: Some(s), .. } && {
            &&& s.current_level == e.current_level
            &&& s.consecutive_scaling_failures == e.consecutive_scaling_failures + 1
            &&& s.consecutive_failures == 0
            &&& s.upscale_blocked_until == e.upscale_blocked_until
            &&& s.downscale_blocked_until == e.downscale_blocked_until
            &&& s.last_check_timestamp == e.check_timestamp
            &&& s.next_check_timestamp == (e.check_timestamp + spec.interval_seconds) as u64
        },
{
    assert(scale_direction(ScalingEngine { consecutive_failures: 0, ..e }, scale_up, scale_down)
        == scale_direction(e, scale_up, scale_down));
}

/// After the state re-read at time `t`, with cooldowns `U` and `D` then in force: when
/// both are still running the cycle ends unsaved, releasing a held lock, until the
/// earlier ends; when the upscale cooldown is running, the check that follows takes no
/// upscale step.
pub proof fn law_cooldown_at_refresh(
    spec: ScalingProbeSpec,
    e: ScalingEngine,
    outcome: StateOutcome,
    multi_instance: bool,
    t: u64,
    after: ScalingEngine,
    a: ScalingAction,
)
    requires
        state_step(spec, e, outcome, multi_instance, t, after, a),
        !(outcome is Failed && multi_instance),
        !(outcome matches StateOutcome::Loaded(Some(f)) && f.next_check_timestamp > t),
    ensures
        ({
            let r = refreshed(spec, e, outcome);
            &&& t < r.upscale_blocked_until && t < r.downscale_blocked_until ==> a == (
            ScalingAction::EndCycle {
                save: None,
                release_lock: e.holds_lock,
                wait_seconds: cooldown_wait(r.upscale_blocked_until, r.downscale_blocked_until, t),
            })
            &&& t < r.upscale_blocked_until && after.phase is AwaitingMetrics ==> forall|
                su: bool,
                sd: bool,
            | scale_direction(after, su, sd) != Some(true)
        }),
{
}

/// Law: when a probe takes a scale step (not in dry-run mode), it keeps its level until
/// the command completes and runs the upscale (downscale) command with the probe's
/// timeout: a level-based probe substitutes the flavor and instance count of the level one
/// above (one below) the current level, taken from a configured entry with that number; a
/// stateless probe substitutes an empty flavor and zero instances.
pub proof fn law_scale_command_uses_target_level(
    spec: ScalingProbeSpec,
    before: ScalingEngine,
    scale_up: bool,
    scale_down: bool,
    now: u64,
    after: ScalingEngine,
    a: ScalingAction,
)
    requires
        scale_step_possible(spec, before, scale_up, scale_down),
        metrics_step(
            spec,
            before,
            MetricsOutcome::Gathered { scale_up, scale_down },
            false,
            now,
            after,
            a,
        ),
        a is RunCommand,
    ensures
        after.current_level == before.current_level,
        ({
            &&& after.phase matches Phase::AwaitingScaleCommand { up }
            &&& up == scale_up
            &&& (!up ==> scale_down)
            &&& a matches ScalingAction::RunCommand { command, timeout_seconds, log_output }
            &&& timeout_seconds == spec.command_timeout_seconds
            &&& log_output == !spec.suppress_command_output
            &&& spec.stateless ==> command@ == scaling_command_text(
                if up {
                    spec.upscale_command@
                } else {
                    spec.downscale_command@
                },
                opt_view(spec.app_id),
                Seq::empty(),
                0,
            )
            &&& !spec.stateless ==> exists|i: int|
                0 <= i < spec.levels@.len() && spec.levels@[i].level == (if up {
                    before.current_level + 1
                } else {
                    before.current_level - 1
                }) && command@ == scaling_command_text(
                    if up {
                        spec.upscale_command@
                    } else {
                        spec.downscale_command@
                    },
                    opt_view(spec.app_id),
                    spec.levels@[i].flavor@,
                    spec.levels@[i].instances as nat,
                )
        }),
{
    let ok = ScalingEngine { consecutive_failures: 0, ..before };
    let up = scale_direction(ok, scale_up, scale_down)->0;
    if !spec.stateless {
        let t = target_level(before.current_level, up);
        assert(spec.has_level(t));
        lemma_level_index(spec.levels@, t);
        let i = spec.level_index(t);
        assert(0 <= i < spec.levels@.len() && spec.levels@[i].level == t);
    }
}

/// Per-metric evaluations of one check against the thresholds of the current level.
pub struct MetricEvaluation {
    /// The metric exceeds its scale-up threshold.
    pub above_scale_up: bool,
    /// The metric is below its scale-down threshold.
    pub below_scale_down: bool,
}

/// Combine per-metric evaluations: scale up when any metric calls for it, scale down only
/// when there is at least one metric and every metric calls for it.
pub fn combine_evaluations(evals: &Vec<MetricEvaluation>) -> (r: (bool, bool))
    ensures
        r.0 == exists|i: int| 0 <= i < evals@.len() && (#[trigger] evals@[i]).above_scale_up,
        r.1 == (evals@.len() > 0 && forall|i: int|
            0 <= i < evals@.len() ==> (#[trigger] evals@[i]).below_scale_down),
{
    let n = evals.len();
    let mut any_up = false;
    let mut all_down = true;
    let mut i: usize = 0;
    while i < n
        invariant
            n == evals@.len(),
            i <= n,
            any_up == exists|k: int| 0 <= k < i && (#[trigger] evals@[k]).above_scale_up,
            all_down == forall|k: int| 0 <= k < i ==> (#[trigger] evals@[k]).below_scale_down,
        decreases n - i,
    {
        let e = &evals[i];
        if e.above_scale_up {
            any_up = true;
        }
        if !e.below_scale_down {
            all_down = false;
        }
        proof {
            if !any_up {
                assert forall|k: int| 0 <= k < i + 1 implies !(#[trigger] evals@[k]).above_scale_up by {
                    if k < i {
                        if evals@[k].above_scale_up {
                            assert(exists|k2: int| 0 <= k2 < i && (#[trigger] evals@[k2]).above_scale_up);
                        }
                    }
                }
            }
            if !all_down {
                if e.below_scale_down {
                    let k = choose|k: int| 0 <= k < i && !(#[trigger] evals@[k]).below_scale_down;
                    assert(0 <= k < i + 1 && !evals@[k].below_scale_down);
                } else {
                    assert(!evals@[i as int].below_scale_down);
                }
            }
        }
        i = i + 1;
    }
    (any_up, n > 0 && all_down)
}

} // verus!
