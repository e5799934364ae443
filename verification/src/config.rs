//! Probe configuration: health-check probes, WarpScript scaling probes and agent
//! scaling probes, with their derived settings and the validation of a configuration.
//!
//! Scaling thresholds are of the type parameter `T`: the library never compares
//! them, it only finds the threshold that governs a decision.
use std::collections::HashMap;
use vstd::prelude::*;
use vstd::string::StringExecFns;

use crate::levels::{
    find_level, lemma_level_index, lemma_min_max_level, has_level_in, level_index_in, max_level_in, max_level_of, min_level_in, min_level_of,
    numbers_of, Leveled,
};
use crate::outside::{regex_error, regex_parse_error};
use crate::scaling::ComputedLevel;

verus! {

/// A whole configuration.
#[derive(Debug, Clone)]
pub struct Config<T> {
    pub probes: Vec<Probe>,
    pub warpscript_probes: Vec<WarpScriptProbe<T>>,
    pub agent_probes: Vec<AgentProbe<T>>,
}

/// An HTTP health-check probe.
#[derive(Debug, Clone)]
pub struct Probe {
    pub name: String,
    pub url: String,
    pub interval_seconds: u64,
    pub checks: Checks,
    pub on_failure_command: Option<String>,
    pub command_timeout_seconds: u64,
    /// Delay in seconds before next execution after a successful check (defaults to interval_seconds)
    pub delay_after_success_seconds: Option<u64>,
    /// Delay in seconds before next execution after a failed check (defaults to interval_seconds)
    pub delay_after_failure_seconds: Option<u64>,
    /// Number of consecutive failures before executing the failure command (defaults to 0 = execute immediately)
    pub failure_retries_before_command: Option<u32>,
}

/// What a health check verifies in a response.
#[derive(Debug, Clone)]
pub struct Checks {
    pub expected_status: Option<u16>,
    pub expected_body_contains: Option<String>,
    pub expected_body_regex: Option<String>,
    pub expected_header: Option<HashMap<String, String>>,
}

/// A WarpScript probe that scales through levels.
#[derive(Debug, Clone)]
pub struct WarpScriptProbe<T> {
    pub name: String,
    pub warpscript_file: String,
    pub interval_seconds: u64,
    pub command_timeout_seconds: u64,
    /// Delay after scaling up or down
    pub delay_after_scale_seconds: Option<u64>,
    /// Applications to manage (each with optional warp_token)
    pub apps: Vec<WarpScriptApp>,
    /// Scaling levels (must be ordered by level number)
    pub levels: Vec<ScalingLevel<T>>,
}

/// An application managed by a WarpScript probe.
#[derive(Debug, Clone)]
pub struct WarpScriptApp {
    /// Application ID
    pub id: String,
    /// Optional Warp token for this specific app (overrides WARP_TOKEN env var)
    pub warp_token: Option<String>,
}

/// One scaling level of a WarpScript probe.
#[derive(Debug, Clone)]
pub struct ScalingLevel<T> {
    /// Level number (1, 2, 3, etc.)
    pub level: u32,
    /// Threshold to trigger upscale (move to level+1)
    pub scale_up_threshold: Option<T>,
    /// Threshold to trigger downscale (move to level-1)
    pub scale_down_threshold: Option<T>,
    /// Command to execute when scaling up FROM this level
    pub upscale_command: Option<String>,
    /// Command to execute when scaling down FROM this level
    pub downscale_command: Option<String>,
}

/// An application watched by an agent probe; its agents push samples under its id.
#[derive(Debug, Clone)]
pub struct AgentApp {
    pub id: String,
}

/// How an agent probe scales.
#[derive(Debug, Clone)]
pub struct AgentScaling<T> {
    pub upscale_command: String,
    pub downscale_command: String,
    /// Per-metric thresholds (metric name, threshold) above which to scale up
    pub scale_up_threshold: Vec<(String, T)>,
    /// Per-metric thresholds (metric name, threshold) below which to scale down
    pub scale_down_threshold: Vec<(String, T)>,
    /// Cooldown before another upscale after an upscale (defaults to interval_seconds)
    pub delay_after_upscale_then_upscale_seconds: Option<u64>,
    /// Cooldown before a downscale after an upscale (defaults to interval_seconds)
    pub delay_after_upscale_then_downscale_seconds: Option<u64>,
    /// Cooldown before another downscale after a downscale (defaults to interval_seconds)
    pub delay_after_downscale_then_downscale_seconds: Option<u64>,
    /// Cooldown before an upscale after a downscale (defaults to interval_seconds)
    pub delay_after_downscale_then_upscale_seconds: Option<u64>,
}

/// A scaling probe fed by samples that local agents push; it scales on their average
/// over `window_seconds`.
#[derive(Debug, Clone)]
pub struct AgentProbe<T> {
    pub name: String,
    /// How often the scaling decision is evaluated
    pub interval_seconds: u64,
    /// How long samples are kept and averaged
    pub window_seconds: u64,
    pub command_timeout_seconds: u64,
    pub suppress_command_output: bool,
    pub on_failure_command: Option<String>,
    /// Number of consecutive failures before executing the failure command (defaults to 0)
    pub failure_retries_before_command: Option<u32>,
    /// Delay after the failure command succeeded (defaults to interval_seconds)
    pub delay_after_onf_command_success_seconds: Option<u64>,
    /// Delay after the failure command failed (defaults to interval_seconds)
    pub delay_after_onf_command_failure_seconds: Option<u64>,
    /// Applications to manage; each runs a task of its own
    pub apps: Vec<AgentApp>,
    /// Scaling levels (flavor and instances of each); none makes the probe stateless
    pub levels: Vec<ComputedLevel>,
    pub scaling: AgentScaling<T>,
}

/// Default timeout, in seconds, for a probe's remediation command.
pub fn default_timeout() -> (r: u64)
    ensures
        r == 30,
{
    30
}

impl Probe {
    pub fn get_delay_after_success(&self) -> (r: u64)
        ensures
            r == match self.delay_after_success_seconds {
                Some(d) => d,
                None => self.interval_seconds,
            },
    {
        match self.delay_after_success_seconds {
            Some(d) => d,
            None => self.interval_seconds,
        }
    }

    pub fn get_delay_after_failure(&self) -> (r: u64)
        ensures
            r == match self.delay_after_failure_seconds {
                Some(d) => d,
                None => self.interval_seconds,
            },
    {
        match self.delay_after_failure_seconds {
            Some(d) => d,
            None => self.interval_seconds,
        }
    }

    pub fn get_failure_retries_before_command(&self) -> (r: u32)
        ensures
            r == match self.failure_retries_before_command {
                Some(n) => n,
                None => 0,
            },
    {
        match self.failure_retries_before_command {
            Some(n) => n,
            None => 0,
        }
    }
}

impl<T> Leveled for ScalingLevel<T> {
    open spec fn spec_level(&self) -> u32 {
        self.level
    }

    fn level_number(&self) -> (r: u32) {
        self.level
    }
}

impl<T> WarpScriptProbe<T> {
    pub open spec fn level_numbers(&self) -> Seq<u32> {
        numbers_of(self.levels@)
    }

    pub open spec fn spec_min_level(&self) -> u32 {
        min_level_of(self.level_numbers())
    }

    pub open spec fn spec_max_level(&self) -> u32 {
        max_level_of(self.level_numbers())
    }

    /// Some level has number `n`.
    pub open spec fn has_level(&self, n: int) -> bool {
        has_level_in(self.levels@, n)
    }

    /// Index of the first level with number `n` (meaningful when `has_level(n)`).
    pub open spec fn level_index(&self, n: int) -> int {
        level_index_in(self.levels@, n)
    }

    /// The threshold that decides a scale-up from `current`, if one can happen.
    pub open spec fn spec_scale_up_threshold(&self, current: u32) -> Option<T> {
        if current >= self.spec_max_level() || !self.has_level(current as int) {
            None
        } else {
            self.levels@[self.level_index(current as int)].scale_up_threshold
        }
    }

    /// The threshold that decides a scale-down from `current`, if one can happen.
    pub open spec fn spec_scale_down_threshold(&self, current: u32) -> Option<T> {
        if current <= self.spec_min_level() || !self.has_level(current as int) {
            None
        } else {
            self.levels@[self.level_index(current as int)].scale_down_threshold
        }
    }

    pub fn get_delay_after_scale(&self) -> (r: u64)
        ensures
            r == match self.delay_after_scale_seconds {
                Some(d) => d,
                None => self.interval_seconds,
            },
    {
        match self.delay_after_scale_seconds {
            Some(d) => d,
            None => self.interval_seconds,
        }
    }

    /// Get level configuration by level number
    pub fn get_level(&self, level_num: u32) -> (r: Option<&ScalingLevel<T>>)
        ensures
            r is None <==> !self.has_level(level_num as int),
            r matches Some(l) ==> *l == self.levels@[self.level_index(level_num as int)],
    {
        match find_level(&self.levels, level_num) {
            Some(i) => Some(&self.levels[i]),
            None => None,
        }
    }

    /// Get minimum level number
    pub fn min_level(&self) -> (r: u32)
        ensures
            r == self.spec_min_level(),
    {
        min_level_in(&self.levels)
    }

    /// Get maximum level number
    pub fn max_level(&self) -> (r: u32)
        ensures
            r == self.spec_max_level(),
    {
        max_level_in(&self.levels)
    }

    /// The threshold a value must exceed to scale up from `current_level`: none when the
    /// probe is already at its maximum level, when `current_level` is not configured, or
    /// when that level has no scale-up threshold.
    pub fn scale_up_threshold(&self, current_level: u32) -> (r: Option<&T>)
        ensures
            r is Some <==> self.spec_scale_up_threshold(current_level) is Some,
            r matches Some(t) ==> Some(*t) == self.spec_scale_up_threshold(current_level),
    {
        if current_level >= self.max_level() {
            return None;
        }
        match self.get_level(current_level) {
            Some(l) => match &l.scale_up_threshold {
                Some(t) => Some(t),
                None => None,
            },
            None => None,
        }
    }

    /// The threshold a value must fall below to scale down from `current_level`: none
    /// when the probe is already at its minimum level, when `current_level` is not
    /// configured, or when that level has no scale-down threshold.
    pub fn scale_down_threshold(&self, current_level: u32) -> (r: Option<&T>)
        ensures
            r is Some <==> self.spec_scale_down_threshold(current_level) is Some,
            r matches Some(t) ==> Some(*t) == self.spec_scale_down_threshold(current_level),
    {
        if current_level <= self.min_level() {
            return None;
        }
        match self.get_level(current_level) {
            Some(l) => match &l.scale_down_threshold {
                Some(t) => Some(t),
                None => None,
            },
            None => None,
        }
    }
}

/// A configured delay, or the interval when none is configured.
pub open spec fn or_interval(delay: Option<u64>, interval: u64) -> u64 {
    match delay {
        Some(d) => d,
        None => interval,
    }
}

/// The delay to use: `delay` when configured, else `interval`.
pub fn delay_or_interval(delay: Option<u64>, interval: u64) -> (r: u64)
    ensures
        r == or_interval(delay, interval),
{
    match delay {
        Some(d) => d,
        None => interval,
    }
}

impl<T> AgentProbe<T> {
    pub open spec fn level_numbers(&self) -> Seq<u32> {
        numbers_of(self.levels@)
    }

    pub open spec fn spec_min_level(&self) -> u32 {
        min_level_of(self.level_numbers())
    }

    pub open spec fn spec_max_level(&self) -> u32 {
        max_level_of(self.level_numbers())
    }

    /// A probe without levels only runs its commands on threshold crossings.
    pub open spec fn spec_is_stateless(&self) -> bool {
        self.levels@.len() == 0
    }

    /// Scale up from `current_level` when some metric is above its threshold
    /// (`above[i]` for the threshold `i`), unless a level-based probe is at its top.
    pub open spec fn spec_should_scale_up(&self, current_level: u32, above: Seq<bool>) -> bool {
        &&& (self.spec_is_stateless() || current_level < self.spec_max_level())
        &&& exists|i: int| 0 <= i < above.len() && above[i]
    }

    /// Scale down from `current_level` when there is at least one scale-down threshold
    /// and every metric is below its threshold (`below[i]` for the threshold `i`),
    /// unless a level-based probe is at its bottom.
    pub open spec fn spec_should_scale_down(&self, current_level: u32, below: Seq<bool>) -> bool {
        &&& (self.spec_is_stateless() || current_level > self.spec_min_level())
        &&& below.len() > 0
        &&& forall|i: int| 0 <= i < below.len() ==> below[i]
    }

    pub fn get_failure_retries_before_command(&self) -> (r: u32)
        ensures
            r == match self.failure_retries_before_command {
                Some(n) => n,
                None => 0,
            },
    {
        match self.failure_retries_before_command {
            Some(n) => n,
            None => 0,
        }
    }

    pub fn get_delay_after_onf_command_success(&self) -> (r: u64)
        ensures
            r == or_interval(self.delay_after_onf_command_success_seconds, self.interval_seconds),
    {
        delay_or_interval(self.delay_after_onf_command_success_seconds, self.interval_seconds)
    }

    pub fn get_delay_after_onf_command_failure(&self) -> (r: u64)
        ensures
            r == or_interval(self.delay_after_onf_command_failure_seconds, self.interval_seconds),
    {
        delay_or_interval(self.delay_after_onf_command_failure_seconds, self.interval_seconds)
    }

    pub fn is_stateless(&self) -> (r: bool)
        ensures
            r == self.spec_is_stateless(),
    {
        self.levels.len() == 0
    }

    /// Get minimum level number
    pub fn min_level(&self) -> (r: u32)
        ensures
            r == self.spec_min_level(),
    {
        min_level_in(&self.levels)
    }

    /// Get maximum level number
    pub fn max_level(&self) -> (r: u32)
        ensures
            r == self.spec_max_level(),
    {
        max_level_in(&self.levels)
    }

    /// Whether to scale up from `current_level`, given for each scale-up threshold, in
    /// order, whether its metric's average is above it (a metric without samples is not).
    pub fn should_scale_up(&self, current_level: u32, above: &Vec<bool>) -> (r: bool)
        ensures
            r == self.spec_should_scale_up(current_level, above@),
    {
        if !self.is_stateless() && current_level >= self.max_level() {
            return false;
        }
        let n = above.len();
        let mut i: usize = 0;
        while i < n
            invariant
                n == above@.len(),
                i <= n,
                self.spec_is_stateless() || current_level < self.spec_max_level(),
                forall|k: int| 0 <= k < i ==> !above@[k],
            decreases n - i,
        {
            if above[i] {
                assert(above@[i as int]);
                return true;
            }
            i = i + 1;
        }
        false
    }

    /// Whether to scale down from `current_level`, given for each scale-down threshold,
    /// in order, whether its metric's average is below it (a metric without samples is
    /// not).
    pub fn should_scale_down(&self, current_level: u32, below: &Vec<bool>) -> (r: bool)
        ensures
            r == self.spec_should_scale_down(current_level, below@),
    {
        if !self.is_stateless() && current_level <= self.min_level() {
            return false;
        }
        let n = below.len();
        if n == 0 {
            return false;
        }
        let mut i: usize = 0;
        while i < n
            invariant
                n == below@.len(),
                i <= n,
                n > 0,
                self.spec_is_stateless() || current_level > self.spec_min_level(),
                forall|k: int| 0 <= k < i ==> below@[k],
            decreases n - i,
        {
            if !below[i] {
                return false;
            }
            i = i + 1;
        }
        true
    }
}

/// A configured level of `levels` has a number above `l`.
pub open spec fn has_level_above<L: Leveled>(levels: Seq<L>, l: u32) -> bool {
    exists|k: int| 0 <= k < levels.len() && levels[k].spec_level() > l
}

/// A configured level of `levels` has a number below `l`.
pub open spec fn has_level_below<L: Leveled>(levels: Seq<L>, l: u32) -> bool {
    exists|k: int| 0 <= k < levels.len() && levels[k].spec_level() < l
}

/// For a non-empty level list, being below the maximum level is having a configured
/// level above, and being above the minimum is having one below.
proof fn lemma_bounds_by_levels<L: Leveled>(levels: Seq<L>, l: u32)
    requires
        levels.len() > 0,
    ensures
        l < max_level_of(numbers_of(levels)) <==> has_level_above(levels, l),
        l > min_level_of(numbers_of(levels)) <==> has_level_below(levels, l),
{
    let nums = numbers_of(levels);
    lemma_min_max_level(nums);
    assert(forall|k: int| 0 <= k < levels.len() ==> nums[k] == #[trigger] levels[k].spec_level());
    if l < max_level_of(nums) {
        let k = choose|k: int| 0 <= k < nums.len() && nums[k] == max_level_of(nums);
        assert(levels[k].spec_level() > l);
    }
    if has_level_above(levels, l) {
        let k = choose|k: int| 0 <= k < levels.len() && levels[k].spec_level() > l;
        assert(nums[k] <= max_level_of(nums));
    }
    if l > min_level_of(nums) {
        let k = choose|k: int| 0 <= k < nums.len() && nums[k] == min_level_of(nums);
        assert(levels[k].spec_level() < l);
    }
    if has_level_below(levels, l) {
        let k = choose|k: int| 0 <= k < levels.len() && levels[k].spec_level() < l;
        assert(nums[k] >= min_level_of(nums));
    }
}

/// Law: an agent probe with levels scales up from level `l` exactly when some metric is
/// above its threshold and a configured level lies above `l` (so from just below its top
/// level, never from its top level), and scales down exactly when every metric of a
/// non-empty list is below its threshold and a configured level lies below `l`. Without
/// levels only the metrics decide.
pub proof fn law_agent_scaling_decision<T>(p: AgentProbe<T>, l: u32, above: Seq<bool>, below: Seq<bool>)
    ensures
        p.spec_should_scale_up(l, above) <==> (exists|i: int| 0 <= i < above.len() && above[i]) && (
        p.levels@.len() == 0 || has_level_above(p.levels@, l)),
        p.spec_should_scale_down(l, below) <==> below.len() > 0 && (forall|i: int|
            0 <= i < below.len() ==> below[i]) && (p.levels@.len() == 0 || has_level_below(
            p.levels@,
            l,
        )),
{
    if p.levels@.len() > 0 {
        lemma_bounds_by_levels(p.levels@, l);
    }
}

/// Law: from a configured level `l` with a configured level above it, the scale-up
/// threshold is the one of the first entry numbered `l`; with no configured level above
/// `l` there is none.
pub proof fn law_scale_up_threshold_of_current_level<T>(p: WarpScriptProbe<T>, l: u32)
    ensures
        has_level_above(p.levels@, l) && has_level_in(p.levels@, l as int) ==> exists|k: int|
            0 <= k < p.levels@.len() && p.levels@[k].level == l && (forall|j: int|
                0 <= j < k ==> p.levels@[j].level != l) && p.spec_scale_up_threshold(l)
                == p.levels@[k].scale_up_threshold,
        !has_level_above(p.levels@, l) ==> p.spec_scale_up_threshold(l) is None,
{
    if p.levels@.len() > 0 {
        lemma_bounds_by_levels(p.levels@, l);
    }
    if has_level_in(p.levels@, l as int) {
        lemma_level_index(p.levels@, l as int);
        let k = p.level_index(l as int);
        assert(forall|j: int| 0 <= j < k ==> p.levels@[j].spec_level() != l);
        assert(p.levels@[k].level == l);
    }
}

/// Law: from a configured level `l` with a configured level below it, the scale-down
/// threshold is the one of the first entry numbered `l`; with no configured level below
/// `l` there is none.
pub proof fn law_scale_down_threshold_of_current_level<T>(p: WarpScriptProbe<T>, l: u32)
    ensures
        has_level_below(p.levels@, l) && has_level_in(p.levels@, l as int) ==> exists|k: int|
            0 <= k < p.levels@.len() && p.levels@[k].level == l && (forall|j: int|
                0 <= j < k ==> p.levels@[j].level != l) && p.spec_scale_down_threshold(l)
                == p.levels@[k].scale_down_threshold,
        !has_level_below(p.levels@, l) ==> p.spec_scale_down_threshold(l) is None,
{
    if p.levels@.len() > 0 {
        lemma_bounds_by_levels(p.levels@, l);
    }
    if has_level_in(p.levels@, l as int) {
        lemma_level_index(p.levels@, l as int);
        let k = p.level_index(l as int);
        assert(forall|j: int| 0 <= j < k ==> p.levels@[j].spec_level() != l);
        assert(p.levels@[k].level == l);
    }
}

/// The app ids of agent probes, probe after probe and app after app.
pub open spec fn agent_app_ids_of<T>(probes: Seq<AgentProbe<T>>) -> Seq<Seq<char>>
    decreases probes.len(),
{
    if probes.len() == 0 {
        Seq::empty()
    } else {
        agent_app_ids_of(probes.drop_last()) + probes.last().apps@.map_values(|a: AgentApp| a.id@)
    }
}

/// The app ids that have an agent probe declared.
pub open spec fn declared_agent_apps<T>(probes: Seq<AgentProbe<T>>) -> Set<Seq<char>> {
    agent_app_ids_of(probes).to_set()
}

impl<T> Config<T> {
    /// The app ids of all agent probes (the apps whose agents may push samples).
    pub fn agent_app_ids(&self) -> (r: Vec<String>)
        ensures
            r@.map_values(|s: String| s@) == agent_app_ids_of(self.agent_probes@),
    {
        let probes = &self.agent_probes;
        let mut out: Vec<String> = Vec::new();
        let n = probes.len();
        let mut i: usize = 0;
        while i < n
            invariant
                n == probes@.len(),
                i <= n,
                out@.map_values(|s: String| s@) == agent_app_ids_of(probes@.take(i as int)),
            decreases n - i,
        {
            let apps = &probes[i].apps;
            let m = apps.len();
            let mut j: usize = 0;
            while j < m
                invariant
                    n == probes@.len(),
                    i < n,
                    apps == probes@[i as int].apps,
                    m == apps@.len(),
                    j <= m,
                    out@.map_values(|s: String| s@) == agent_app_ids_of(probes@.take(i as int))
                        + apps@.take(j as int).map_values(|a: AgentApp| a.id@),
                decreases m - j,
            {
                let ghost before = out@;
                out.push(apps[j].id.clone());
                proof {
                    assert(out@.map_values(|s: String| s@) =~= before.map_values(|s: String| s@).push(
                        apps@[j as int].id@,
                    ));
                    assert(apps@.take(j + 1).map_values(|a: AgentApp| a.id@) =~= apps@.take(
                        j as int,
                    ).map_values(|a: AgentApp| a.id@).push(apps@[j as int].id@));
                }
                j = j + 1;
            }
            proof {
                assert(probes@.take(i + 1).drop_last() =~= probes@.take(i as int));
                assert(apps@.take(m as int) =~= apps@);
            }
            i = i + 1;
        }
        assert(probes@.take(n as int) =~= probes@);
        out
    }
}

/// Why a configuration is rejected.
pub enum ConfigError {
    NoProbes,
    EmptyName,
    EmptyUrl { probe: String },
    InvalidInterval { probe: String },
    NoChecks { probe: String },
    InvalidRegex { probe: String, reason: String },
}

/// At least one check is configured.
pub open spec fn has_check(c: Checks) -> bool {
    c.expected_status is Some || c.expected_body_contains is Some || c.expected_body_regex is Some
        || c.expected_header is Some
}

/// The body regex, when configured, compiles.
pub open spec fn regex_ok(c: Checks) -> bool {
    match c.expected_body_regex {
        Some(p) => regex_parse_error(p@) is None,
        None => true,
    }
}

/// A probe passes validation.
pub open spec fn probe_ok(p: Probe) -> bool {
    &&& p.name@.len() > 0
    &&& p.url@.len() > 0
    &&& p.interval_seconds > 0
    &&& has_check(p.checks)
    &&& regex_ok(p.checks)
}

/// `e` is the error that validation reports for probe `p`: the first failing check
/// among name, URL, interval, presence of a check and regex.
pub open spec fn describes(e: ConfigError, p: Probe) -> bool {
    match e {
        ConfigError::NoProbes => false,
        ConfigError::EmptyName => p.name@.len() == 0,
        ConfigError::EmptyUrl { probe } => p.name@.len() > 0 && p.url@.len() == 0 && probe@
            == p.name@,
        ConfigError::InvalidInterval { probe } => p.name@.len() > 0 && p.url@.len() > 0
            && p.interval_seconds == 0 && probe@ == p.name@,
        ConfigError::NoChecks { probe } => p.name@.len() > 0 && p.url@.len() > 0
            && p.interval_seconds > 0 && !has_check(p.checks) && probe@ == p.name@,
        ConfigError::InvalidRegex { probe, reason } => p.name@.len() > 0 && p.url@.len() > 0
            && p.interval_seconds > 0 && has_check(p.checks) && probe@ == p.name@ && match p.checks.expected_body_regex {
            Some(pat) => regex_parse_error(pat@) == Some(reason@),
            None => false,
        },
    }
}

/// The outcome of validating a list of probes: `Ok` when there is at least one probe
/// and every probe passes, `NoProbes` when there is none, and otherwise the error
/// of the first probe that fails.
pub open spec fn validation_outcome(probes: Seq<Probe>, r: Result<(), ConfigError>) -> bool {
    match r {
        Ok(()) => probes.len() > 0 && forall|i: int| 0 <= i < probes.len() ==> probe_ok(probes[i]),
        Err(ConfigError::NoProbes) => probes.len() == 0,
        Err(e) => exists|i: int|
            0 <= i < probes.len() && (forall|j: int| 0 <= j < i ==> probe_ok(probes[j])) && !probe_ok(
                probes[i],
            ) && describes(e, probes[i]),
    }
}

/// The error (if any) for one probe.
fn check_probe(p: &Probe) -> (r: Option<ConfigError>)
    ensures
        r is None <==> probe_ok(*p),
        r matches Some(e) ==> describes(e, *p),
{
    if p.name.as_str().is_empty() {
        return Some(ConfigError::EmptyName);
    }
    if p.url.as_str().is_empty() {
        return Some(ConfigError::EmptyUrl { probe: p.name.clone() });
    }
    if p.interval_seconds == 0 {
        return Some(ConfigError::InvalidInterval { probe: p.name.clone() });
    }
    if p.checks.expected_status.is_none() && p.checks.expected_body_contains.is_none()
        && p.checks.expected_body_regex.is_none() && p.checks.expected_header.is_none() {
        return Some(ConfigError::NoChecks { probe: p.name.clone() });
    }
    if let Some(pattern) = &p.checks.expected_body_regex {
        if let Some(reason) = regex_error(pattern.as_str()) {
            return Some(ConfigError::InvalidRegex { probe: p.name.clone(), reason });
        }
    }
    None
}

impl<T> Config<T> {
    /// Check the configuration: there must be at least one probe, and each probe must
    /// have a name, a URL, a positive interval, at least one check and a valid regex.
    pub fn validate(&self) -> (r: Result<(), ConfigError>)
        ensures
            validation_outcome(self.probes@, r),
    {
        let n = self.probes.len();
        if n == 0 {
            return Err(ConfigError::NoProbes);
        }
        let mut i: usize = 0;
        while i < n
            invariant
                n == self.probes@.len(),
                i <= n,
                forall|j: int| 0 <= j < i ==> probe_ok(self.probes@[j]),
            decreases n - i,
        {
            match check_probe(&self.probes[i]) {
                Some(e) => {
                    assert(!(e is NoProbes));
                    return Err(e);
                },
                None => {},
            }
            i = i + 1;
        }
        Ok(())
    }
}

/// The text of a validation error.
pub open spec fn error_message(e: ConfigError) -> Seq<char> {
    match e {
        ConfigError::NoProbes => "Configuration must contain at least one probe"@,
        ConfigError::EmptyName => "Probe name cannot be empty"@,
        ConfigError::EmptyUrl { probe } => "Probe '"@ + probe@ + "' has empty URL"@,
        ConfigError::InvalidInterval { probe } => "Probe '"@ + probe@
            + "' has invalid interval (must be > 0)"@,
        ConfigError::NoChecks { probe } => "Probe '"@ + probe@ + "' has no checks configured"@,
        ConfigError::InvalidRegex { probe, reason } => "Probe '"@ + probe@ + "' has invalid regex: "@
            + reason@,
    }
}

impl ConfigError {
    /// The human-readable text of the error.
    pub fn message(&self) -> (r: String)
        ensures
            r@ == error_message(*self),
    {
        match self {
            ConfigError::NoProbes => String::from_str("Configuration must contain at least one probe"),
            ConfigError::EmptyName => String::from_str("Probe name cannot be empty"),
            ConfigError::EmptyUrl { probe } => String::from_str("Probe '").concat(probe.as_str()).concat(
                "' has empty URL",
            ),
            ConfigError::InvalidInterval { probe } => String::from_str("Probe '").concat(
                probe.as_str(),
            ).concat("' has invalid interval (must be > 0)"),
            ConfigError::NoChecks { probe } => String::from_str("Probe '").concat(
                probe.as_str(),
            ).concat("' has no checks configured"),
            ConfigError::InvalidRegex { probe, reason } => String::from_str("Probe '").concat(
                probe.as_str(),
            ).concat("' has invalid regex: ").concat(reason.as_str()),
        }
    }
}

} // verus!
