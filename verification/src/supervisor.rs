//! Which probe tasks a configuration gives: a WarpScript probe with apps runs one task
//! per app, named after the probe and the app; an agent probe runs one task per app.
use vstd::prelude::*;
use vstd::string::StringExecFns;

use crate::config::{
    agent_app_ids_of, AgentApp, AgentProbe, AgentScaling, ScalingLevel, WarpScriptApp, WarpScriptProbe,
};
use crate::scaling::clone_computed_levels;
use crate::text::clone_opt_string;

verus! {

/// Number of tasks a WarpScript probe runs: one per app, or one when it has no app.
pub open spec fn task_count<T>(p: WarpScriptProbe<T>) -> int {
    if p.apps@.len() == 0 {
        1
    } else {
        p.apps@.len() as int
    }
}

/// Number of tasks the probes run.
#[verifier::opaque]
pub open spec fn total_tasks<T>(probes: Seq<WarpScriptProbe<T>>) -> int
    decreases probes.len(),
{
    if probes.len() == 0 {
        0
    } else {
        total_tasks(probes.drop_last()) + task_count(probes.last())
    }
}

/// `q` is the task of probe `p` for its app `j`: the probe renamed `{name} - {app id}`
/// with that single app.
pub open spec fn app_instance<T>(p: WarpScriptProbe<T>, j: int, q: WarpScriptProbe<T>) -> bool {
    &&& q.name@ == p.name@ + " - "@ + p.apps@[j].id@
    &&& q.apps@ == seq![p.apps@[j]]
    &&& q.warpscript_file == p.warpscript_file
    &&& q.interval_seconds == p.interval_seconds
    &&& q.command_timeout_seconds == p.command_timeout_seconds
    &&& q.delay_after_scale_seconds == p.delay_after_scale_seconds
    &&& q.levels@ == p.levels@
}

/// `out` lists the tasks of `probes` in order: a probe without apps as it is, a probe
/// with apps as one instance per app.
pub open spec fn expansion_of<T>(probes: Seq<WarpScriptProbe<T>>, out: Seq<WarpScriptProbe<T>>) -> bool {
    &&& out.len() == total_tasks(probes)
    &&& forall|i: int|
        #![trigger probes[i]]
        0 <= i < probes.len() ==> tasks_at(probes[i], out, total_tasks(probes.take(i)))
}

fn clone_app(a: &WarpScriptApp) -> (r: WarpScriptApp)
    ensures
        r == *a,
{
    WarpScriptApp { id: a.id.clone(), warp_token: clone_opt_string(&a.warp_token) }
}

fn clone_levels<T: Copy>(levels: &Vec<ScalingLevel<T>>) -> (r: Vec<ScalingLevel<T>>)
    ensures
        r@ == levels@,
{
    let mut out: Vec<ScalingLevel<T>> = Vec::new();
    let n = levels.len();
    let mut i: usize = 0;
    while i < n
        invariant
            n == levels@.len(),
            i <= n,
            out@ == levels@.take(i as int),
        decreases n - i,
    {
        let l = &levels[i];
        out.push(
            ScalingLevel {
                level: l.level,
                scale_up_threshold: l.scale_up_threshold,
                scale_down_threshold: l.scale_down_threshold,
                upscale_command: clone_opt_string(&l.upscale_command),
                downscale_command: clone_opt_string(&l.downscale_command),
            },
        );
        assert(out@ =~= levels@.take(i + 1));
        i = i + 1;
    }
    assert(levels@.take(n as int) =~= levels@);
    out
}

proof fn lemma_total_tasks_step<T>(probes: Seq<WarpScriptProbe<T>>, i: int)
    requires
        0 <= i < probes.len(),
    ensures
        total_tasks(probes.take(i + 1)) == total_tasks(probes.take(i)) + task_count(probes[i]),
{
    reveal(total_tasks);
    assert(probes.take(i + 1).drop_last() =~= probes.take(i));
}

/// `out` holds the tasks of `p` from index `base` on.
#[verifier::opaque]
pub open spec fn tasks_at<T>(p: WarpScriptProbe<T>, out: Seq<WarpScriptProbe<T>>, base: int) -> bool {
    if p.apps@.len() == 0 {
        out[base] == p
    } else {
        forall|j: int| 0 <= j < p.apps@.len() ==> app_instance(p, j, #[trigger] out[base + j])
    }
}

proof fn lemma_tasks_at_prefix<T>(p: WarpScriptProbe<T>, a: Seq<WarpScriptProbe<T>>, b: Seq<WarpScriptProbe<T>>, base: int)
    requires
        tasks_at(p, a, base),
        0 <= base,
        base + task_count(p) <= a.len() <= b.len(),
        forall|k: int| 0 <= k < a.len() ==> b[k] == a[k],
    ensures
        tasks_at(p, b, base),
{
    reveal(tasks_at);
    if p.apps@.len() == 0 {
        assert(b[base] == a[base]);
    } else {
        assert forall|j: int| 0 <= j < p.apps@.len() implies app_instance(p, j, #[trigger] b[base + j]) by {
            assert(b[base + j] == a[base + j]);
        }
    }
}

/// Append the tasks of one probe.
fn push_tasks<T: Copy>(out: &mut Vec<WarpScriptProbe<T>>, p: WarpScriptProbe<T>)
    ensures
        final(out)@.len() == old(out)@.len() + task_count(p),
        forall|k: int| 0 <= k < old(out)@.len() ==> final(out)@[k] == old(out)@[k],
        tasks_at(p, final(out)@, old(out)@.len() as int),
{
    let ghost before = out@;
    let m = p.apps.len();
    reveal(tasks_at);
    if m == 0 {
        out.push(p);
        return;
    }
    let mut j: usize = 0;
    while j < m
        invariant
            m == p.apps@.len(),
            j <= m,
            out@.len() == before.len() + j,
            forall|k: int| 0 <= k < before.len() ==> out@[k] == before[k],
            forall|l: int| 0 <= l < j ==> app_instance(p, l, #[trigger] out@[before.len() + l]),
        decreases m - j,
    {
        let app = &p.apps[j];
        let name = p.name.clone().concat(" - ").concat(app.id.as_str());
        let mut apps: Vec<WarpScriptApp> = Vec::new();
        apps.push(clone_app(app));
        let q = WarpScriptProbe {
            name,
            warpscript_file: p.warpscript_file.clone(),
            interval_seconds: p.interval_seconds,
            command_timeout_seconds: p.command_timeout_seconds,
            delay_after_scale_seconds: p.delay_after_scale_seconds,
            apps,
            levels: clone_levels(&p.levels),
        };
        assert(q.apps@ =~= seq![p.apps@[j as int]]);
        out.push(q);
        j = j + 1;
    }
}

/// The elements of `v` in reverse order, so that `pop` yields them first to last.
fn reversed<T>(v: Vec<T>) -> (r: Vec<T>)
    ensures
        r@.len() == v@.len(),
        forall|k: int| 0 <= k < r@.len() ==> r@[k] == v@[v@.len() - 1 - k],
{
    let ghost input = v@;
    let n = v.len();
    let mut rest = v;
    let mut taken: Vec<T> = Vec::new();
    while rest.len() > 0
        invariant
            taken@.len() + rest@.len() == n,
            rest@ == input.take(rest@.len() as int),
            forall|k: int| 0 <= k < taken@.len() ==> taken@[k] == input[n - 1 - k],
            n == input.len(),
        decreases rest@.len(),
    {
        let p = rest.pop().unwrap();
        assert(rest@ =~= input.take(rest@.len() as int));
        taken.push(p);
    }
    taken
}

/// Expand WarpScript probes into one task per app, named `{probe name} - {app id}`; a
/// probe without apps stays a single task.
pub fn expand_warpscript_probes<T: Copy>(probes: Vec<WarpScriptProbe<T>>) -> (r: Vec<
    WarpScriptProbe<T>,
>)
    ensures
        expansion_of(probes@, r@),
{
    let ghost input = probes@;
    let n = probes.len();
    let mut out: Vec<WarpScriptProbe<T>> = Vec::new();
    let mut taken = reversed(probes);
    let mut i: usize = 0;
    assert(total_tasks(input.take(0)) == 0) by {
        reveal(total_tasks);
    }
    while i < n
        invariant
            n == input.len(),
            i <= n,
            taken@.len() == n - i,
            forall|k: int| 0 <= k < taken@.len() ==> #[trigger] taken@[k] == input[n - 1 - k],
            out@.len() == total_tasks(input.take(i as int)),
            forall|k: int|
                #![trigger input[k]]
                0 <= k < i ==> tasks_at(input[k], out@, total_tasks(input.take(k))),
        decreases n - i,
    {
        proof {
            lemma_total_tasks_step(input, i as int);
            lemma_total_tasks_nonneg(input.take(i as int));
        }
        let p = taken.pop().unwrap();
        assert(p == input[i as int]);
        let ghost before = out@;
        push_tasks(&mut out, p);
        proof {
            assert forall|k: int| #![trigger input[k]] 0 <= k < i implies tasks_at(
                input[k],
                out@,
                total_tasks(input.take(k)),
            ) by {
                lemma_total_tasks_mono(input, k, i as int);
                lemma_total_tasks_nonneg(input.take(k));
                lemma_tasks_at_prefix(input[k], before, out@, total_tasks(input.take(k)));
            }
        }
        i = i + 1;
    }
    assert(input.take(n as int) =~= input);
    out
}

proof fn lemma_total_tasks_mono<T>(probes: Seq<WarpScriptProbe<T>>, k: int, i: int)
    requires
        0 <= k < i <= probes.len(),
    ensures
        total_tasks(probes.take(k)) + task_count(probes[k]) <= total_tasks(probes.take(i)),
    decreases i - k,
{
    lemma_total_tasks_step(probes, i - 1);
    if k < i - 1 {
        lemma_total_tasks_mono(probes, k, i - 1);
    }
}

proof fn lemma_total_tasks_nonneg<T>(probes: Seq<WarpScriptProbe<T>>)
    ensures
        total_tasks(probes) >= 0,
    decreases probes.len(),
{
    reveal(total_tasks);
    if probes.len() > 0 {
        lemma_total_tasks_nonneg(probes.drop_last());
    }
}

/// Number of tasks the agent probes run: one per app.
#[verifier::opaque]
pub open spec fn total_agent_tasks<T>(probes: Seq<AgentProbe<T>>) -> int
    decreases probes.len(),
{
    if probes.len() == 0 {
        0
    } else {
        total_agent_tasks(probes.drop_last()) + probes.last().apps@.len()
    }
}

/// `q` is the task of agent probe `p` for its app `j`: the probe renamed
/// `{name} - {app id}` with that single app, all else unchanged.
pub open spec fn agent_app_instance<T>(p: AgentProbe<T>, j: int, q: AgentProbe<T>) -> bool {
    &&& q.name@ == p.name@ + " - "@ + p.apps@[j].id@
    &&& q.apps@ == seq![p.apps@[j]]
    &&& q.interval_seconds == p.interval_seconds
    &&& q.window_seconds == p.window_seconds
    &&& q.command_timeout_seconds == p.command_timeout_seconds
    &&& q.suppress_command_output == p.suppress_command_output
    &&& q.on_failure_command == p.on_failure_command
    &&& q.failure_retries_before_command == p.failure_retries_before_command
    &&& q.delay_after_onf_command_success_seconds == p.delay_after_onf_command_success_seconds
    &&& q.delay_after_onf_command_failure_seconds == p.delay_after_onf_command_failure_seconds
    &&& q.levels@ == p.levels@
    &&& same_scaling(q.scaling, p.scaling)
}

/// Two scaling settings hold the same commands, thresholds and delays.
pub open spec fn same_scaling<T>(a: AgentScaling<T>, b: AgentScaling<T>) -> bool {
    &&& a.upscale_command == b.upscale_command
    &&& a.downscale_command == b.downscale_command
    &&& a.scale_up_threshold@ == b.scale_up_threshold@
    &&& a.scale_down_threshold@ == b.scale_down_threshold@
    &&& a.delay_after_upscale_then_upscale_seconds == b.delay_after_upscale_then_upscale_seconds
    &&& a.delay_after_upscale_then_downscale_seconds == b.delay_after_upscale_then_downscale_seconds
    &&& a.delay_after_downscale_then_downscale_seconds
        == b.delay_after_downscale_then_downscale_seconds
    &&& a.delay_after_downscale_then_upscale_seconds == b.delay_after_downscale_then_upscale_seconds
}

/// `out` holds the tasks of agent probe `p` from index `base` on, one per app.
#[verifier::opaque]
pub open spec fn agent_tasks_at<T>(p: AgentProbe<T>, out: Seq<AgentProbe<T>>, base: int) -> bool {
    forall|j: int| 0 <= j < p.apps@.len() ==> agent_app_instance(p, j, #[trigger] out[base + j])
}

/// `out` lists the tasks of agent `probes` in order: one instance per app of each probe
/// (a probe without apps runs none).
pub open spec fn agent_expansion_of<T>(probes: Seq<AgentProbe<T>>, out: Seq<AgentProbe<T>>) -> bool {
    &&& out.len() == total_agent_tasks(probes)
    &&& forall|i: int|
        #![trigger probes[i]]
        0 <= i < probes.len() ==> agent_tasks_at(probes[i], out, total_agent_tasks(probes.take(i)))
}

fn clone_thresholds<T: Copy>(v: &Vec<(String, T)>) -> (r: Vec<(String, T)>)
    ensures
        r@ == v@,
{
    let mut out: Vec<(String, T)> = Vec::new();
    let n = v.len();
    let mut i: usize = 0;
    while i < n
        invariant
            n == v@.len(),
            i <= n,
            out@ == v@.take(i as int),
        decreases n - i,
    {
        let t = &v[i];
        out.push((t.0.clone(), t.1));
        assert(out@ =~= v@.take(i + 1));
        i = i + 1;
    }
    assert(v@.take(n as int) =~= v@);
    out
}

fn clone_scaling<T: Copy>(s: &AgentScaling<T>) -> (r: AgentScaling<T>)
    ensures
        same_scaling(r, *s),
{
    AgentScaling {
        upscale_command: s.upscale_command.clone(),
        downscale_command: s.downscale_command.clone(),
        scale_up_threshold: clone_thresholds(&s.scale_up_threshold),
        scale_down_threshold: clone_thresholds(&s.scale_down_threshold),
        delay_after_upscale_then_upscale_seconds: s.delay_after_upscale_then_upscale_seconds,
        delay_after_upscale_then_downscale_seconds: s.delay_after_upscale_then_downscale_seconds,
        delay_after_downscale_then_downscale_seconds: s.delay_after_downscale_then_downscale_seconds,
        delay_after_downscale_then_upscale_seconds: s.delay_after_downscale_then_upscale_seconds,
    }
}

proof fn lemma_total_agent_tasks_step<T>(probes: Seq<AgentProbe<T>>, i: int)
    requires
        0 <= i < probes.len(),
    ensures
        total_agent_tasks(probes.take(i + 1)) == total_agent_tasks(probes.take(i))
            + probes[i].apps@.len(),
{
    reveal(total_agent_tasks);
    assert(probes.take(i + 1).drop_last() =~= probes.take(i));
}

proof fn lemma_total_agent_tasks_mono<T>(probes: Seq<AgentProbe<T>>, k: int, i: int)
    requires
        0 <= k < i <= probes.len(),
    ensures
        total_agent_tasks(probes.take(k)) + probes[k].apps@.len() <= total_agent_tasks(
            probes.take(i),
        ),
    decreases i - k,
{
    lemma_total_agent_tasks_step(probes, i - 1);
    if k < i - 1 {
        lemma_total_agent_tasks_mono(probes, k, i - 1);
    }
}

proof fn lemma_total_agent_tasks_nonneg<T>(probes: Seq<AgentProbe<T>>)
    ensures
        total_agent_tasks(probes) >= 0,
    decreases probes.len(),
{
    reveal(total_agent_tasks);
    if probes.len() > 0 {
        lemma_total_agent_tasks_nonneg(probes.drop_last());
    }
}

/// Append the tasks of one agent probe.
fn push_agent_tasks<T: Copy>(out: &mut Vec<AgentProbe<T>>, p: AgentProbe<T>)
    ensures
        final(out)@.len() == old(out)@.len() + p.apps@.len(),
        forall|k: int| 0 <= k < old(out)@.len() ==> final(out)@[k] == old(out)@[k],
        agent_tasks_at(p, final(out)@, old(out)@.len() as int),
{
    let ghost before = out@;
    let m = p.apps.len();
    reveal(agent_tasks_at);
    let mut j: usize = 0;
    while j < m
        invariant
            m == p.apps@.len(),
            j <= m,
            out@.len() == before.len() + j,
            forall|k: int| 0 <= k < before.len() ==> out@[k] == before[k],
            forall|l: int| 0 <= l < j ==> agent_app_instance(p, l, #[trigger] out@[before.len() + l]),
        decreases m - j,
    {
        let app = &p.apps[j];
        let name = p.name.clone().concat(" - ").concat(app.id.as_str());
        let mut apps: Vec<AgentApp> = Vec::new();
        apps.push(AgentApp { id: app.id.clone() });
        let q = AgentProbe {
            name,
            interval_seconds: p.interval_seconds,
            window_seconds: p.window_seconds,
            command_timeout_seconds: p.command_timeout_seconds,
            suppress_command_output: p.suppress_command_output,
            on_failure_command: clone_opt_string(&p.on_failure_command),
            failure_retries_before_command: p.failure_retries_before_command,
            delay_after_onf_command_success_seconds: p.delay_after_onf_command_success_seconds,
            delay_after_onf_command_failure_seconds: p.delay_after_onf_command_failure_seconds,
            apps,
            levels: clone_computed_levels(&p.levels),
            scaling: clone_scaling(&p.scaling),
        };
        assert(q.apps@ =~= seq![p.apps@[j as int]]);
        out.push(q);
        j = j + 1;
    }
}

/// Expand agent probes into one task per app, named `{probe name} - {app id}`, each with
/// that single app (the samples it scales on are keyed by app id).
pub fn expand_agent_probes<T: Copy>(probes: Vec<AgentProbe<T>>) -> (r: Vec<AgentProbe<T>>)
    ensures
        agent_expansion_of(probes@, r@),
{
    let ghost input = probes@;
    let n = probes.len();
    let mut out: Vec<AgentProbe<T>> = Vec::new();
    let mut taken = reversed(probes);
    let mut i: usize = 0;
    assert(total_agent_tasks(input.take(0)) == 0) by {
        reveal(total_agent_tasks);
    }
    while i < n
        invariant
            n == input.len(),
            i <= n,
            taken@.len() == n - i,
            forall|k: int| 0 <= k < taken@.len() ==> #[trigger] taken@[k] == input[n - 1 - k],
            out@.len() == total_agent_tasks(input.take(i as int)),
            forall|k: int|
                #![trigger input[k]]
                0 <= k < i ==> agent_tasks_at(input[k], out@, total_agent_tasks(input.take(k))),
        decreases n - i,
    {
        proof {
            lemma_total_agent_tasks_step(input, i as int);
            lemma_total_agent_tasks_nonneg(input.take(i as int));
        }
        let p = taken.pop().unwrap();
        assert(p == input[i as int]);
        let ghost before = out@;
        push_agent_tasks(&mut out, p);
        proof {
            assert forall|k: int| #![trigger input[k]] 0 <= k < i implies agent_tasks_at(
                input[k],
                out@,
                total_agent_tasks(input.take(k)),
            ) by {
                lemma_total_agent_tasks_mono(input, k, i as int);
                lemma_total_agent_tasks_nonneg(input.take(k));
                reveal(agent_tasks_at);
                assert forall|j: int| 0 <= j < input[k].apps@.len() implies agent_app_instance(
                    input[k],
                    j,
                    #[trigger] out@[total_agent_tasks(input.take(k)) + j],
                ) by {
                    assert(out@[total_agent_tasks(input.take(k)) + j] == before[total_agent_tasks(
                        input.take(k),
                    ) + j]);
                }
            }
        }
        i = i + 1;
    }
    assert(input.take(n as int) =~= input);
    out
}

/// The app of each task, in order.
pub open spec fn task_app_ids<T>(tasks: Seq<AgentProbe<T>>) -> Seq<Seq<char>> {
    tasks.map_values(|q: AgentProbe<T>| q.apps@[0].id@)
}

proof fn lemma_task_app_ids_prefix<T>(probes: Seq<AgentProbe<T>>, out: Seq<AgentProbe<T>>, n: int)
    requires
        agent_expansion_of(probes, out),
        0 <= n <= probes.len(),
    ensures
        task_app_ids(out.take(total_agent_tasks(probes.take(n)))) == agent_app_ids_of(probes.take(n)),
    decreases n,
{
    if n == 0 {
        assert(total_agent_tasks(probes.take(0)) == 0) by {
            reveal(total_agent_tasks);
        }
        assert(task_app_ids(out.take(0)) =~= Seq::<Seq<char>>::empty());
        assert(agent_app_ids_of(probes.take(0)) =~= Seq::<Seq<char>>::empty());
    } else {
        let m = n - 1;
        lemma_task_app_ids_prefix(probes, out, m);
        let base = total_agent_tasks(probes.take(m));
        let top = total_agent_tasks(probes.take(n));
        lemma_total_agent_tasks_step(probes, m);
        lemma_total_agent_tasks_nonneg(probes.take(m));
        lemma_total_agent_tasks_mono(probes, m, probes.len() as int);
        assert(probes.take(probes.len() as int) =~= probes);
        let p = probes[m];
        assert(agent_tasks_at(p, out, base));
        reveal(agent_tasks_at);
        let ids = p.apps@.map_values(|a: AgentApp| a.id@);
        assert(probes.take(n).drop_last() =~= probes.take(m));
        assert(agent_app_ids_of(probes.take(n)) == agent_app_ids_of(probes.take(m)) + ids);
        assert(task_app_ids(out.take(top)) =~= task_app_ids(out.take(base)) + ids) by {
            assert forall|k: int| 0 <= k < top implies #[trigger] task_app_ids(out.take(top))[k] == (
            task_app_ids(out.take(base)) + ids)[k] by {
                if k >= base {
                    let j = k - base;
                    assert(agent_app_instance(p, j, out[base + j]));
                    assert(out[k].apps@ == seq![p.apps@[j]]);
                }
            }
        }
    }
}

/// Law: the tasks that agent probes expand into serve exactly the declared agent apps, in
/// order, one task per declared app (the list the ingest endpoint admits samples for).
pub proof fn law_agent_tasks_serve_declared_apps<T>(probes: Seq<AgentProbe<T>>, tasks: Seq<AgentProbe<T>>)
    requires
        agent_expansion_of(probes, tasks),
    ensures
        task_app_ids(tasks) == agent_app_ids_of(probes),
{
    lemma_task_app_ids_prefix(probes, tasks, probes.len() as int);
    assert(probes.take(probes.len() as int) =~= probes);
    assert(tasks.take(tasks.len() as int) =~= tasks);
}

} // verus!
