//! Decisions of the web endpoint: secret masking for the configuration UI, Basic-Auth
//! checking, request routing, metrics-ingest admission and asset paths.
use vstd::prelude::*;
use vstd::string::StringExecFns;

use crate::config::{validation_outcome, Config, ConfigError, WarpScriptApp, WarpScriptProbe};
use crate::outside::{base64_decode, base64_standard_decode, utf8_string};
use crate::text::{
    first_index_of, has_prefix, leading_count, opt_view, split_once_char, str_equal, strip_prefix,
    stripped_prefix, trim,
    trim_start_char, trimmed,
};

verus! {

/// Placeholder returned in place of a stored `warp_token` so secrets never leave
/// the server. A PUT that sends this value back is treated as "leave unchanged".
pub const TOKEN_MASK: &'static str = "••••••••";

/// `after` is `before` with every set token replaced by the mask.
pub open spec fn app_masked(before: WarpScriptApp, after: WarpScriptApp) -> bool {
    &&& after.id == before.id
    &&& opt_view(after.warp_token) == if before.warp_token is Some {
        Some(TOKEN_MASK@)
    } else {
        None
    }
}

/// `after` equals `before` except for its apps, which have the same length and ids.
pub open spec fn same_probe_shape<T>(before: WarpScriptProbe<T>, after: WarpScriptProbe<T>) -> bool {
    &&& after.name == before.name
    &&& after.warpscript_file == before.warpscript_file
    &&& after.interval_seconds == before.interval_seconds
    &&& after.command_timeout_seconds == before.command_timeout_seconds
    &&& after.delay_after_scale_seconds == before.delay_after_scale_seconds
    &&& after.levels == before.levels
    &&& after.apps@.len() == before.apps@.len()
    &&& forall|j: int| 0 <= j < before.apps@.len() ==> #[trigger] after.apps@[j].id == before.apps@[j].id
}

/// `after` is `before` with every set `warp_token` masked; nothing else changes.
pub open spec fn mask_relation<T>(before: Config<T>, after: Config<T>) -> bool {
    &&& after.probes == before.probes
    &&& after.warpscript_probes@.len() == before.warpscript_probes@.len()
    &&& forall|i: int|
        0 <= i < before.warpscript_probes@.len() ==> same_probe_shape(
            before.warpscript_probes@[i],
            #[trigger] after.warpscript_probes@[i],
        )
    &&& forall|i: int, j: int|
        0 <= i < before.warpscript_probes@.len() && 0 <= j
            < before.warpscript_probes@[i].apps@.len() ==> app_masked(
            before.warpscript_probes@[i].apps@[j],
            #[trigger] after.warpscript_probes@[i].apps@[j],
        )
}

/// Replace every set `warp_token` with [`TOKEN_MASK`] before sending the config
/// to the browser. Unset tokens stay `None`.
pub fn mask_tokens<T>(config: &mut Config<T>)
    ensures
        mask_relation(*old(config), *final(config)),
{
    let ghost before = *config;
    let n = config.warpscript_probes.len();
    let mut i: usize = 0;
    while i < n
        invariant
            n == before.warpscript_probes@.len(),
            n == config.warpscript_probes@.len(),
            i <= n,
            config.probes == before.probes,
            forall|k: int|
                0 <= k < n ==> same_probe_shape(
                    before.warpscript_probes@[k],
                    #[trigger] config.warpscript_probes@[k],
                ),
            forall|k: int, j: int|
                0 <= k < i && 0 <= j < before.warpscript_probes@[k].apps@.len() ==> app_masked(
                    before.warpscript_probes@[k].apps@[j],
                    #[trigger] config.warpscript_probes@[k].apps@[j],
                ),
            forall|k: int| i <= k < n ==> #[trigger] config.warpscript_probes@[k]
                == before.warpscript_probes@[k],
        decreases n - i,
    {
        let m = config.warpscript_probes[i].apps.len();
        let mut j: usize = 0;
        while j < m
            invariant
                n == before.warpscript_probes@.len(),
                n == config.warpscript_probes@.len(),
                i < n,
                j <= m,
                m == before.warpscript_probes@[i as int].apps@.len(),
                config.probes == before.probes,
                forall|k: int|
                    0 <= k < n ==> same_probe_shape(
                        before.warpscript_probes@[k],
                        #[trigger] config.warpscript_probes@[k],
                    ),
                forall|k: int, l: int|
                    0 <= k < i && 0 <= l < before.warpscript_probes@[k].apps@.len() ==> app_masked(
                        before.warpscript_probes@[k].apps@[l],
                        #[trigger] config.warpscript_probes@[k].apps@[l],
                    ),
                forall|l: int|
                    0 <= l < j ==> app_masked(
                        before.warpscript_probes@[i as int].apps@[l],
                        #[trigger] config.warpscript_probes@[i as int].apps@[l],
                    ),
                forall|l: int|
                    j <= l < m ==> #[trigger] config.warpscript_probes@[i as int].apps@[l]
                        == before.warpscript_probes@[i as int].apps@[l],
                forall|k: int| i < k < n ==> #[trigger] config.warpscript_probes@[k]
                    == before.warpscript_probes@[k],
            decreases m - j,
        {
            if config.warpscript_probes[i].apps[j].warp_token.is_some() {
                config.warpscript_probes[i].apps[j].warp_token = Some(String::from_str(TOKEN_MASK));
            }
            j = j + 1;
        }
        i = i + 1;
    }
}

/// A masked configuration carries no token other than the mask, and keeps every
/// app's id.
pub proof fn law_masked_config_holds_no_secret<T>(c: Config<T>, masked: Config<T>)
    requires
        mask_relation(c, masked),
    ensures
        forall|i: int, j: int|
            0 <= i < masked.warpscript_probes@.len() && 0 <= j
                < masked.warpscript_probes@[i].apps@.len() ==> {
                let a = #[trigger] masked.warpscript_probes@[i].apps@[j];
                &&& a.warp_token is None || opt_view(a.warp_token) == Some(TOKEN_MASK@)
                &&& a.id == c.warpscript_probes@[i].apps@[j].id
            },
{
    assert forall|i: int, j: int|
        0 <= i < masked.warpscript_probes@.len() && 0 <= j
            < masked.warpscript_probes@[i].apps@.len() implies {
            let a = #[trigger] masked.warpscript_probes@[i].apps@[j];
            &&& a.warp_token is None || opt_view(a.warp_token) == Some(TOKEN_MASK@)
            &&& a.id == c.warpscript_probes@[i].apps@[j].id
        } by {
        assert(same_probe_shape(c.warpscript_probes@[i], masked.warpscript_probes@[i]));
        assert(app_masked(c.warpscript_probes@[i].apps@[j], masked.warpscript_probes@[i].apps@[j]));
    }
}

/// The last set token among `apps` for app id `id`.
pub open spec fn token_in_apps(apps: Seq<WarpScriptApp>, id: Seq<char>) -> Option<Seq<char>>
    decreases apps.len(),
{
    if apps.len() == 0 {
        None
    } else if apps.last().id@ == id && apps.last().warp_token is Some {
        Some(apps.last().warp_token->0@)
    } else {
        token_in_apps(apps.drop_last(), id)
    }
}

/// The token stored for (probe name, app id): among the probes with that name, the
/// last one holding a set token for that app, and in it the last such app.
pub open spec fn stored_token<T>(probes: Seq<WarpScriptProbe<T>>, name: Seq<char>, id: Seq<char>) -> Option<
    Seq<char>,
>
    decreases probes.len(),
{
    if probes.len() == 0 {
        None
    } else if probes.last().name@ == name && token_in_apps(probes.last().apps@, id) is Some {
        token_in_apps(probes.last().apps@, id)
    } else {
        stored_token(probes.drop_last(), name, id)
    }
}

/// `after` is `before` with every masked token replaced by the token stored in `old`.
pub open spec fn unmask_relation<T>(before: Config<T>, old: Config<T>, after: Config<T>) -> bool {
    &&& after.probes == before.probes
    &&& after.warpscript_probes@.len() == before.warpscript_probes@.len()
    &&& forall|i: int|
        0 <= i < before.warpscript_probes@.len() ==> same_probe_shape(
            before.warpscript_probes@[i],
            #[trigger] after.warpscript_probes@[i],
        )
    &&& forall|i: int, j: int|
        0 <= i < before.warpscript_probes@.len() && 0 <= j
            < before.warpscript_probes@[i].apps@.len() ==> {
            let b = before.warpscript_probes@[i].apps@[j];
            opt_view((#[trigger] after.warpscript_probes@[i].apps@[j]).warp_token) == if opt_view(
                b.warp_token,
            ) == Some(TOKEN_MASK@) {
                stored_token(old.warpscript_probes@, before.warpscript_probes@[i].name@, b.id@)
            } else {
                opt_view(b.warp_token)
            }
        }
}

fn find_token_in_apps(apps: &Vec<WarpScriptApp>, id: &str) -> (r: Option<String>)
    ensures
        opt_view(r) == token_in_apps(apps@, id@),
{
    let mut k: usize = apps.len();
    assert(apps@.take(k as int) =~= apps@);
    while k > 0
        invariant
            k <= apps@.len(),
            token_in_apps(apps@, id@) == token_in_apps(apps@.take(k as int), id@),
        decreases k,
    {
        let a = &apps[k - 1];
        proof {
            assert(apps@.take(k as int).drop_last() =~= apps@.take(k - 1));
            assert(apps@.take(k as int).last() == apps@[k - 1]);
        }
        if let Some(t) = &a.warp_token {
            if str_equal(a.id.as_str(), id) {
                return Some(t.clone());
            }
        }
        k = k - 1;
    }
    assert(apps@.take(0) =~= Seq::<WarpScriptApp>::empty());
    None
}

fn find_stored_token<T>(probes: &Vec<WarpScriptProbe<T>>, name: &str, id: &str) -> (r: Option<
    String,
>)
    ensures
        opt_view(r) == stored_token(probes@, name@, id@),
{
    let mut k: usize = probes.len();
    assert(probes@.take(k as int) =~= probes@);
    while k > 0
        invariant
            k <= probes@.len(),
            stored_token(probes@, name@, id@) == stored_token(probes@.take(k as int), name@, id@),
        decreases k,
    {
        let p = &probes[k - 1];
        proof {
            assert(probes@.take(k as int).drop_last() =~= probes@.take(k - 1));
            assert(probes@.take(k as int).last() == probes@[k - 1]);
        }
        if str_equal(p.name.as_str(), name) {
            let t = find_token_in_apps(&p.apps, id);
            if t.is_some() {
                return t;
            }
        }
        k = k - 1;
    }
    assert(probes@.take(0) =~= Seq::<WarpScriptProbe<T>>::empty());
    None
}

/// For each `warp_token` still equal to [`TOKEN_MASK`] in the incoming config,
/// restore the real token from the previously `stored` config (matched by probe
/// name + app id). A token set to anything else is taken as a genuine change;
/// an absent token stays absent.
pub fn unmask_tokens<T>(new_config: &mut Config<T>, stored: &Config<T>)
    ensures
        unmask_relation(*old(new_config), *stored, *final(new_config)),
{
    let ghost before = *new_config;
    let n = new_config.warpscript_probes.len();
    let mut i: usize = 0;
    while i < n
        invariant
            n == before.warpscript_probes@.len(),
            n == new_config.warpscript_probes@.len(),
            i <= n,
            new_config.probes == before.probes,
            forall|k: int|
                0 <= k < n ==> same_probe_shape(
                    before.warpscript_probes@[k],
                    #[trigger] new_config.warpscript_probes@[k],
                ),
            forall|k: int, j: int|
                0 <= k < i && 0 <= j < before.warpscript_probes@[k].apps@.len() ==> {
                    let b = before.warpscript_probes@[k].apps@[j];
                    opt_view((#[trigger] new_config.warpscript_probes@[k].apps@[j]).warp_token)
                        == if opt_view(b.warp_token) == Some(TOKEN_MASK@) {
                        stored_token(
                            stored.warpscript_probes@,
                            before.warpscript_probes@[k].name@,
                            b.id@,
                        )
                    } else {
                        opt_view(b.warp_token)
                    }
                },
            forall|k: int| i <= k < n ==> #[trigger] new_config.warpscript_probes@[k]
                == before.warpscript_probes@[k],
        decreases n - i,
    {
        let m = new_config.warpscript_probes[i].apps.len();
        let mut j: usize = 0;
        while j < m
            invariant
                n == before.warpscript_probes@.len(),
                n == new_config.warpscript_probes@.len(),
                i < n,
                j <= m,
                m == before.warpscript_probes@[i as int].apps@.len(),
                new_config.probes == before.probes,
                forall|k: int|
                    0 <= k < n ==> same_probe_shape(
                        before.warpscript_probes@[k],
                        #[trigger] new_config.warpscript_probes@[k],
                    ),
                forall|k: int, l: int|
                    0 <= k < i && 0 <= l < before.warpscript_probes@[k].apps@.len() ==> {
                        let b = before.warpscript_probes@[k].apps@[l];
                        opt_view((#[trigger] new_config.warpscript_probes@[k].apps@[l]).warp_token)
                            == if opt_view(b.warp_token) == Some(TOKEN_MASK@) {
                            stored_token(
                                stored.warpscript_probes@,
                                before.warpscript_probes@[k].name@,
                                b.id@,
                            )
                        } else {
                            opt_view(b.warp_token)
                        }
                    },
                forall|l: int|
                    0 <= l < j ==> {
                        let b = before.warpscript_probes@[i as int].apps@[l];
                        opt_view(
                            (#[trigger] new_config.warpscript_probes@[i as int].apps@[l]).warp_token,
                        ) == if opt_view(b.warp_token) == Some(TOKEN_MASK@) {
                            stored_token(
                                stored.warpscript_probes@,
                                before.warpscript_probes@[i as int].name@,
                                b.id@,
                            )
                        } else {
                            opt_view(b.warp_token)
                        }
                    },
                forall|l: int|
                    j <= l < m ==> #[trigger] new_config.warpscript_probes@[i as int].apps@[l]
                        == before.warpscript_probes@[i as int].apps@[l],
                forall|k: int| i < k < n ==> #[trigger] new_config.warpscript_probes@[k]
                    == before.warpscript_probes@[k],
            decreases m - j,
        {
            let is_masked = match &new_config.warpscript_probes[i].apps[j].warp_token {
                Some(t) => str_equal(t.as_str(), TOKEN_MASK),
                None => false,
            };
            if is_masked {
                let restored = find_stored_token(
                    &stored.warpscript_probes,
                    new_config.warpscript_probes[i].name.as_str(),
                    new_config.warpscript_probes[i].apps[j].id.as_str(),
                );
                new_config.warpscript_probes[i].apps[j].warp_token = restored;
            }
            j = j + 1;
        }
        i = i + 1;
    }
}

/// No two app entries of the configuration share both probe name and app id.
pub open spec fn keys_unique<T>(c: Config<T>) -> bool {
    forall|i1: int, j1: int, i2: int, j2: int|
        #![trigger c.warpscript_probes@[i1].apps@[j1], c.warpscript_probes@[i2].apps@[j2]]
        0 <= i1 < c.warpscript_probes@.len() && 0 <= j1 < c.warpscript_probes@[i1].apps@.len() && 0
            <= i2 < c.warpscript_probes@.len() && 0 <= j2 < c.warpscript_probes@[i2].apps@.len()
            && c.warpscript_probes@[i1].name@ == c.warpscript_probes@[i2].name@
            && c.warpscript_probes@[i1].apps@[j1].id@ == c.warpscript_probes@[i2].apps@[j2].id@
            ==> i1 == i2 && j1 == j2
}

proof fn lemma_token_in_apps_unique(apps: Seq<WarpScriptApp>, j: int)
    requires
        0 <= j < apps.len(),
        forall|k: int| 0 <= k < apps.len() && #[trigger] apps[k].id@ == apps[j].id@ ==> k == j,
    ensures
        token_in_apps(apps, apps[j].id@) == opt_view(apps[j].warp_token),
    decreases apps.len(),
{
    let p = apps.drop_last();
    let last = apps.len() - 1;
    if j < last {
        assert(apps[last].id@ != apps[j].id@);
        assert(p[j] == apps[j]);
        assert forall|k: int| 0 <= k < p.len() && #[trigger] p[k].id@ == p[j].id@ implies k == j by {
            assert(p[k] == apps[k]);
        }
        lemma_token_in_apps_unique(p, j);
    } else {
        assert forall|k: int| 0 <= k < p.len() implies p[k].id@ != apps[j].id@ by {
            assert(p[k] == apps[k]);
            if apps[k].id@ == apps[j].id@ {
                assert(k == j);
            }
        }
        lemma_token_in_apps_absent(p, apps[j].id@);
    }
}

proof fn lemma_token_in_apps_absent(apps: Seq<WarpScriptApp>, id: Seq<char>)
    requires
        forall|k: int| 0 <= k < apps.len() ==> apps[k].id@ != id,
    ensures
        token_in_apps(apps, id) is None,
    decreases apps.len(),
{
    if apps.len() > 0 {
        let p = apps.drop_last();
        assert forall|k: int| 0 <= k < p.len() implies p[k].id@ != id by {
            assert(p[k] == apps[k]);
        }
        lemma_token_in_apps_absent(p, id);
    }
}

proof fn lemma_stored_token_absent<T>(probes: Seq<WarpScriptProbe<T>>, name: Seq<char>, id: Seq<char>)
    requires
        forall|k: int, l: int|
            0 <= k < probes.len() && probes[k].name@ == name && 0 <= l < probes[k].apps@.len()
                ==> #[trigger] probes[k].apps@[l].id@ != id,
    ensures
        stored_token(probes, name, id) is None,
    decreases probes.len(),
{
    if probes.len() > 0 {
        let last = probes.last();
        if last.name@ == name {
            assert forall|l: int| 0 <= l < last.apps@.len() implies last.apps@[l].id@ != id by {
                assert(probes[probes.len() - 1] == last);
            }
            lemma_token_in_apps_absent(last.apps@, id);
        }
        let p = probes.drop_last();
        assert forall|k: int, l: int|
            0 <= k < p.len() && p[k].name@ == name && 0 <= l < p[k].apps@.len() implies #[trigger] p[k].apps@[l].id@
            != id by {
            assert(p[k] == probes[k]);
        }
        lemma_stored_token_absent(p, name, id);
    }
}

proof fn lemma_stored_token_unique<T>(c: Config<T>, probes: Seq<WarpScriptProbe<T>>, i: int, j: int)
    requires
        keys_unique(c),
        probes.len() <= c.warpscript_probes@.len(),
        probes == c.warpscript_probes@.take(probes.len() as int),
        0 <= i < probes.len(),
        0 <= j < probes[i].apps@.len(),
    ensures
        stored_token(probes, probes[i].name@, probes[i].apps@[j].id@) == opt_view(
            probes[i].apps@[j].warp_token,
        ),
    decreases probes.len(),
{
    let ws = c.warpscript_probes@;
    let n = probes.len() - 1;
    let name = probes[i].name@;
    let id = probes[i].apps@[j].id@;
    assert(probes[i] == ws[i]);
    let p = probes.drop_last();
    assert(p =~= ws.take(n));
    if i == n {
        assert forall|k: int| 0 <= k < probes[i].apps@.len() && #[trigger] probes[i].apps@[k].id@
            == probes[i].apps@[j].id@ implies k == j by {
            assert(ws[i].apps@[k] == probes[i].apps@[k]);
            assert(ws[i].apps@[j] == probes[i].apps@[j]);
        }
        lemma_token_in_apps_unique(probes[i].apps@, j);
        assert forall|k: int, l: int|
            0 <= k < p.len() && p[k].name@ == name && 0 <= l < p[k].apps@.len() implies #[trigger] p[k].apps@[l].id@
            != id by {
            assert(p[k] == ws[k]);
            if p[k].apps@[l].id@ == id {
                assert(ws[k].apps@[l] == p[k].apps@[l]);
                assert(ws[i].apps@[j] == probes[i].apps@[j]);
            }
        }
        lemma_stored_token_absent(p, name, id);
    } else {
        let last = probes.last();
        assert(last == ws[n]);
        if last.name@ == name {
            assert forall|k: int| 0 <= k < last.apps@.len() implies last.apps@[k].id@ != id by {
                if last.apps@[k].id@ == id {
                    assert(ws[n].apps@[k] == last.apps@[k]);
                    assert(ws[i].apps@[j] == probes[i].apps@[j]);
                }
            }
            lemma_token_in_apps_absent(last.apps@, id);
        }
        assert(p[i] == probes[i]);
        lemma_stored_token_unique(c, p, i, j);
    }
}

/// Masking a configuration and then unmasking it against the same stored configuration
/// gives back every token it started with, provided no two app entries share probe name and
/// app id.
pub proof fn law_unmask_restores_masked_tokens<T>(c: Config<T>, masked: Config<T>, restored: Config<T>)
    requires
        keys_unique(c),
        mask_relation(c, masked),
        unmask_relation(masked, c, restored),
    ensures
        restored.probes == c.probes,
        restored.warpscript_probes@.len() == c.warpscript_probes@.len(),
        forall|i: int, j: int|
            0 <= i < c.warpscript_probes@.len() && 0 <= j < c.warpscript_probes@[i].apps@.len()
                ==> (#[trigger] restored.warpscript_probes@[i].apps@[j]).id
                == c.warpscript_probes@[i].apps@[j].id && opt_view(
                restored.warpscript_probes@[i].apps@[j].warp_token,
            ) == opt_view(c.warpscript_probes@[i].apps@[j].warp_token),
{
    let ws = c.warpscript_probes@;
    assert forall|i: int, j: int|
        0 <= i < ws.len() && 0 <= j < ws[i].apps@.len() implies (#[trigger] restored.warpscript_probes@[
        i].apps@[j]).id == ws[i].apps@[j].id && opt_view(
        restored.warpscript_probes@[i].apps@[j].warp_token,
    ) == opt_view(ws[i].apps@[j].warp_token) by {
        assert(same_probe_shape(ws[i], masked.warpscript_probes@[i]));
        assert(same_probe_shape(masked.warpscript_probes@[i], restored.warpscript_probes@[i]));
        assert(app_masked(ws[i].apps@[j], masked.warpscript_probes@[i].apps@[j]));
        if ws[i].apps@[j].warp_token is Some {
            assert(ws =~= ws.take(ws.len() as int));
            lemma_stored_token_unique(c, ws, i, j);
        }
    }
}

/// Basic-Auth credentials for the config UI.
pub struct UiAuth {
    user: String,
    password: String,
}

impl UiAuth {
    pub closed spec fn user_view(&self) -> Seq<char> {
        self.user@
    }

    pub closed spec fn password_view(&self) -> Seq<char> {
        self.password@
    }

    /// Build credentials from the values of `CONFIG_UI_USER` / `CONFIG_UI_PASSWORD`.
    /// Returns `None` (UI disabled) when either value is missing or empty.
    pub fn from_env(user: Option<String>, password: Option<String>) -> (r: Option<UiAuth>)
        ensures
            r is Some <==> (user matches Some(u) && u@.len() > 0) && (password matches Some(p)
                && p@.len() > 0),
            r matches Some(a) ==> Some(a.user_view()) == opt_view(user) && Some(a.password_view())
                == opt_view(password),
    {
        match (user, password) {
            (Some(u), Some(p)) => {
                if u.as_str().is_empty() || p.as_str().is_empty() {
                    None
                } else {
                    Some(UiAuth { user: u, password: p })
                }
            },
            _ => None,
        }
    }
}

/// The credentials carried by an `Authorization` header value, when it is
/// `Basic <base64>` whose decoding is UTF-8 text containing a colon.
pub open spec fn basic_credentials(header: Seq<char>) -> Option<(Seq<char>, Seq<char>)> {
    match stripped_prefix(header, "Basic "@) {
        None => None,
        Some(b64) => match base64_standard_decode(trimmed(b64)) {
            None => None,
            Some(bytes) => if !vstd::utf8::valid_utf8(bytes) {
                None
            } else {
                let s = vstd::utf8::decode_utf8(bytes);
                match first_index_of(s, ':') {
                    None => None,
                    Some(i) => Some((s.take(i), s.skip(i + 1))),
                }
            },
        },
    }
}

/// The header carries exactly the configured user and password.
pub open spec fn authorized(header: Option<Seq<char>>, auth: UiAuth) -> bool {
    match header {
        None => false,
        Some(h) => match basic_credentials(h) {
            None => false,
            Some((u, p)) => u == auth.user_view() && p == auth.password_view(),
        },
    }
}

/// Validate the `Authorization: Basic ...` header value against the configured credentials.
pub fn is_authorized(authorization: Option<&str>, auth: &UiAuth) -> (r: bool)
    ensures
        r == authorized(
            match authorization {
                Some(h) => Some(h@),
                None => None,
            },
            *auth,
        ),
{
    let value = match authorization {
        Some(v) => v,
        None => return false,
    };
    let b64 = match strip_prefix(value, "Basic ") {
        Some(b) => b,
        None => return false,
    };
    let decoded = match base64_decode(trim(b64)) {
        Some(d) => d,
        None => return false,
    };
    let text = match utf8_string(decoded) {
        Some(t) => t,
        None => return false,
    };
    match split_once_char(text.as_str(), ':') {
        Some((user, password)) => str_equal(user, auth.user.as_str()) && str_equal(
            password,
            auth.password.as_str(),
        ),
        None => false,
    }
}

/// HTTP methods the router distinguishes.
pub enum HttpMethod {
    Get,
    Post,
    Put,
    Other,
}

/// Where a request goes.
pub enum Route {
    /// `/healthz`: always answered, without authentication.
    Liveness,
    /// `POST /api/metrics/{app_id}` from a local agent.
    IngestMetrics { app_id: String },
    /// UI disabled and path `/`: the legacy health text.
    LegacyRoot,
    NotFound,
    Unauthorized,
    GetConfig,
    PutConfig,
    /// Any other GET: an embedded UI asset.
    Asset,
    MethodNotAllowed,
}

/// The route for a request, with `path` and the header value as views.
pub open spec fn route_for(
    method: HttpMethod,
    path: Seq<char>,
    auth: Option<UiAuth>,
    authorization: Option<Seq<char>>,
) -> Route {
    if path == "/healthz"@ {
        Route::Liveness
    } else if method is Post && stripped_prefix(path, "/api/metrics/"@) is Some {
        Route::IngestMetrics { app_id: arbitrary() }
    } else {
        match auth {
            None => if path == "/"@ {
                Route::LegacyRoot
            } else {
                Route::NotFound
            },
            Some(a) => if !authorized(authorization, a) {
                Route::Unauthorized
            } else if method is Get && path == "/api/config"@ {
                Route::GetConfig
            } else if method is Put && path == "/api/config"@ {
                Route::PutConfig
            } else if method is Get {
                Route::Asset
            } else {
                Route::MethodNotAllowed
            },
        }
    }
}

/// Same variant, ignoring the app id of an ingest route.
pub open spec fn same_route(a: Route, b: Route) -> bool {
    match (a, b) {
        (Route::IngestMetrics { .. }, Route::IngestMetrics { .. }) => true,
        _ => a == b,
    }
}

/// Law: with the UI enabled and the request authorized, a GET of any path other than the
/// liveness path and the configuration API (the root included) is served as a UI asset.
pub proof fn law_authorized_get_serves_assets(
    path: Seq<char>,
    a: UiAuth,
    authorization: Option<Seq<char>>,
    r: Route,
)
    requires
        authorized(authorization, a),
        path != "/healthz"@,
        path != "/api/config"@,
        same_route(r, route_for(HttpMethod::Get, path, Some(a), authorization)),
    ensures
        r == Route::Asset,
{
}

/// Law: the liveness path is answered whatever the method and credentials; with the UI
/// enabled, any other request that is not a metrics push and lacks valid credentials is
/// refused as unauthorized.
pub proof fn law_credentials_guard_the_ui(
    method: HttpMethod,
    path: Seq<char>,
    auth: Option<UiAuth>,
    authorization: Option<Seq<char>>,
    r: Route,
)
    requires
        same_route(r, route_for(method, path, auth, authorization)),
    ensures
        path == "/healthz"@ ==> r is Liveness,
        path != "/healthz"@ && !(method is Post && has_prefix(path, "/api/metrics/"@)) && auth is Some
            && !authorized(authorization, auth->0) ==> r is Unauthorized,
{
}

/// Law: the legacy root text is answered only when the UI is disabled, and then for every
/// request of the root path and no other.
pub proof fn law_legacy_root_only_without_ui(
    method: HttpMethod,
    path: Seq<char>,
    auth: Option<UiAuth>,
    authorization: Option<Seq<char>>,
    r: Route,
)
    requires
        same_route(r, route_for(method, path, auth, authorization)),
    ensures
        r is LegacyRoot ==> auth is None && path == "/"@,
        auth is None && path == "/"@ ==> r is LegacyRoot,
{
    if path == "/"@ {
        reveal_strlit("/");
        reveal_strlit("/healthz");
        reveal_strlit("/api/metrics/");
        assert(path != "/healthz"@);
        assert(stripped_prefix(path, "/api/metrics/"@) is None);
    }
}

/// Route a request: liveness first, then metrics ingestion, then (when the UI is
/// enabled and the request authorized) the configuration API and UI assets.
pub fn route_request(
    method: HttpMethod,
    path: &str,
    auth: Option<&UiAuth>,
    authorization: Option<&str>,
) -> (r: Route)
    ensures
        same_route(
            r,
            route_for(
                method,
                path@,
                match auth {
                    Some(a) => Some(*a),
                    None => None,
                },
                match authorization {
                    Some(h) => Some(h@),
                    None => None,
                },
            ),
        ),
        r matches Route::IngestMetrics { app_id } ==> stripped_prefix(path@, "/api/metrics/"@) == Some(
            app_id@,
        ),
{
    if str_equal(path, "/healthz") {
        return Route::Liveness;
    }
    if let HttpMethod::Post = method {
        if let Some(id) = strip_prefix(path, "/api/metrics/") {
            return Route::IngestMetrics { app_id: String::from_str(id) };
        }
    }
    let a = match auth {
        Some(a) => a,
        None => {
            return if str_equal(path, "/") {
                Route::LegacyRoot
            } else {
                Route::NotFound
            };
        },
    };
    if !is_authorized(authorization, a) {
        return Route::Unauthorized;
    }
    let is_config = str_equal(path, "/api/config");
    match method {
        HttpMethod::Get => if is_config {
            Route::GetConfig
        } else {
            Route::Asset
        },
        HttpMethod::Put => if is_config {
            Route::PutConfig
        } else {
            Route::MethodNotAllowed
        },
        _ => Route::MethodNotAllowed,
    }
}

/// Admission of a metrics sample pushed by an agent.
pub enum IngestCheck {
    /// The shared secret is required and was not given.
    Unauthorized,
    /// No agent probe is declared for this app id.
    UnknownApp,
    Accepted,
}

/// Decide whether a sample for `app_id` is accepted: the `X-Agent-Token` must equal the
/// expected token when one is configured, and the app must have an agent probe.
pub fn check_ingest(
    expected_token: Option<&str>,
    provided_token: Option<&str>,
    declared_apps: &Vec<String>,
    app_id: &str,
) -> (r: IngestCheck)
    ensures
        ({
            let token_ok = match expected_token {
                None => true,
                Some(e) => provided_token matches Some(p) && p@ == e@,
            };
            let declared = exists|i: int|
                0 <= i < declared_apps@.len() && #[trigger] declared_apps@[i]@ == app_id@;
            if !token_ok {
                r is Unauthorized
            } else if !declared {
                r is UnknownApp
            } else {
                r is Accepted
            }
        }),
{
    if let Some(expected) = expected_token {
        let ok = match provided_token {
            Some(p) => str_equal(p, expected),
            None => false,
        };
        if !ok {
            return IngestCheck::Unauthorized;
        }
    }
    let n = declared_apps.len();
    let mut i: usize = 0;
    while i < n
        invariant
            n == declared_apps@.len(),
            i <= n,
            forall|k: int| 0 <= k < i ==> declared_apps@[k]@ != app_id@,
            match expected_token {
                None => true,
                Some(e) => provided_token matches Some(p) && p@ == e@,
            },
        decreases n - i,
    {
        if str_equal(declared_apps[i].as_str(), app_id) {
            assert(declared_apps@[i as int]@ == app_id@);
            return IngestCheck::Accepted;
        }
        i = i + 1;
    }
    IngestCheck::UnknownApp
}

/// The embedded asset for a request path: `/` serves `index.html`, any other path
/// drops its leading slashes.
pub fn asset_path(path: &str) -> (r: String)
    ensures
        r@ == if path@ == "/"@ {
            "index.html"@
        } else {
            path@.skip(leading_count(path@, '/') as int)
        },
{
    if str_equal(path, "/") {
        String::from_str("index.html")
    } else {
        String::from_str(trim_start_char(path, '/'))
    }
}

/// Resolve an incoming configuration against the stored one: restore masked tokens
/// from `stored` (when there is one), then validate.
pub fn prepare_config_update<T>(incoming: Config<T>, stored: Option<&Config<T>>) -> (r: Result<
    Config<T>,
    ConfigError,
>)
    ensures
        validation_outcome(
            incoming.probes@,
            match r {
                Ok(_) => Ok(()),
                Err(e) => Err(e),
            },
        ),
        r matches Ok(c) ==> match stored {
            Some(s) => unmask_relation(incoming, *s, c),
            None => c == incoming,
        },
{
    let mut c = incoming;
    if let Some(s) = stored {
        unmask_tokens(&mut c, s);
    }
    match c.validate() {
        Ok(()) => Ok(c),
        Err(e) => Err(e),
    }
}

} // verus!
