//! Values the program derives from its environment and arguments: the Redis URL,
//! the Warp token of a probe, WarpScript substitution, the agent's identity and
//! ingest URL, the web bind address, and command and metric-gathering checks.
use vstd::prelude::*;
use vstd::string::StringExecFns;

use crate::config::WarpScriptApp;
use crate::outside::{percent_encode_non_alphanumeric, percent_encoded_bytes};
use crate::text::{decimal, decimal_string, opt_view, replace_all, replaced, trailing_count, trim, trim_end_char, trimmed};

verus! {

/// The Redis URL: `REDIS_URL` when set; otherwise, when `REDIS_HOST` is set,
/// `redis://:{percent-encoded password}@{host}:{port}` (or `redis://{host}:{port}`
/// without a password), the port defaulting to 6379.
pub open spec fn redis_url_for(
    url: Option<Seq<char>>,
    host: Option<Seq<char>>,
    port: Option<Seq<char>>,
    password: Option<Seq<char>>,
) -> Option<Seq<char>> {
    match url {
        Some(u) => Some(u),
        None => match host {
            None => None,
            Some(h) => {
                let p = match port {
                    Some(p) => p,
                    None => "6379"@,
                };
                match password {
                    Some(pw) => Some(
                        "redis://:"@ + percent_encoded_bytes(vstd::utf8::encode_utf8(pw)) + "@"@ + h
                            + ":"@ + p,
                    ),
                    None => Some("redis://"@ + h + ":"@ + p),
                }
            },
        },
    }
}

/// Build the Redis URL from the values of `REDIS_URL`, `REDIS_HOST`, `REDIS_PORT` and
/// `REDIS_PASSWORD`.
pub fn redis_url(
    url: Option<String>,
    host: Option<String>,
    port: Option<String>,
    password: Option<String>,
) -> (r: Option<String>)
    ensures
        opt_view(r) == redis_url_for(opt_view(url), opt_view(host), opt_view(port), opt_view(password)),
{
    if let Some(u) = url {
        return Some(u);
    }
    let h = match host {
        Some(h) => h,
        None => return None,
    };
    let p = match port {
        Some(p) => p,
        None => String::from_str("6379"),
    };
    match password {
        Some(pw) => {
            let encoded = percent_encode_non_alphanumeric(pw.as_str());
            Some(
                String::from_str("redis://:").concat(encoded.as_str()).concat("@").concat(
                    h.as_str(),
                ).concat(":").concat(p.as_str()),
            )
        },
        None => Some(
            String::from_str("redis://").concat(h.as_str()).concat(":").concat(p.as_str()),
        ),
    }
}

/// The Warp token of a probe: its app's own token when set and non-empty, otherwise the
/// `WARP_TOKEN` value when set and non-empty.
pub open spec fn warp_token_for(app_token: Option<Seq<char>>, env_token: Option<Seq<char>>) -> Option<
    Seq<char>,
> {
    match app_token {
        Some(t) if t.len() > 0 => Some(t),
        _ => match env_token {
            Some(t) if t.len() > 0 => Some(t),
            _ => None,
        },
    }
}

/// Resolve the Warp token for a probe's (first) app against the `WARP_TOKEN` value.
pub fn resolve_warp_token(app: Option<&WarpScriptApp>, env_token: Option<String>) -> (r: Option<
    String,
>)
    ensures
        opt_view(r) == warp_token_for(
            match app {
                Some(a) => opt_view(a.warp_token),
                None => None,
            },
            opt_view(env_token),
        ),
{
    if let Some(a) = app {
        if let Some(t) = &a.warp_token {
            if !t.as_str().is_empty() {
                return Some(t.clone());
            }
        }
    }
    match env_token {
        Some(t) => if t.as_str().is_empty() {
            None
        } else {
            Some(t)
        },
        None => None,
    }
}

/// A WarpScript with `${WARP_TOKEN}` and then (when an app is given) `${APP_ID}` substituted.
pub open spec fn script_text(script: Seq<char>, token: Seq<char>, app_id: Option<Seq<char>>) -> Seq<
    char,
> {
    let s = replaced(script, "${WARP_TOKEN}"@, token);
    match app_id {
        Some(id) => replaced(s, "${APP_ID}"@, id),
        None => s,
    }
}

/// Substitute the placeholders that stay stable for a probe's lifetime.
pub fn substitute_script(script: &str, token: &str, app_id: Option<&str>) -> (r: String)
    ensures
        r@ == script_text(
            script@,
            token@,
            match app_id {
                Some(id) => Some(id@),
                None => None,
            },
        ),
{
    proof {
        reveal_strlit("${WARP_TOKEN}");
        reveal_strlit("${APP_ID}");
    }
    let s = replace_all(script, "${WARP_TOKEN}", token);
    match app_id {
        Some(id) => replace_all(s.as_str(), "${APP_ID}", id),
        None => s,
    }
}

/// The agent's instance id: the `HOSTNAME` value when set and non-empty, else `unknown`.
pub fn instance_hostname(hostname: Option<String>) -> (r: String)
    ensures
        r@ == match hostname {
            Some(h) if h@.len() > 0 => h@,
            _ => "unknown"@,
        },
{
    match hostname {
        Some(h) => if h.as_str().is_empty() {
            String::from_str("unknown")
        } else {
            h
        },
        None => String::from_str("unknown"),
    }
}

/// The agent's ingest URL: the endpoint without trailing slashes, `/`, the app id.
pub fn ingest_url(endpoint: &str, app_id: &str) -> (r: String)
    ensures
        r@ == endpoint@.take(endpoint@.len() - trailing_count(endpoint@, '/')) + "/"@ + app_id@,
{
    String::from_str(trim_end_char(endpoint, '/')).concat("/").concat(app_id)
}

/// The address the web server binds: `{host}:{port}`.
pub fn bind_address(host: &str, port: u16) -> (r: String)
    ensures
        r@ == host@ + ":"@ + decimal(port as nat),
{
    let p = decimal_string(port as u64);
    String::from_str(host).concat(":").concat(p.as_str())
}

/// A command that is empty or only whitespace is refused before anything is spawned.
pub fn command_is_blank(command: &str) -> (r: bool)
    ensures
        r == (trimmed(command@).len() == 0),
{
    trim(command).is_empty()
}

/// `parts` joined with `sep` between consecutive parts.
pub open spec fn joined(parts: Seq<Seq<char>>, sep: Seq<char>) -> Seq<char>
    decreases parts.len(),
{
    if parts.len() == 0 {
        Seq::empty()
    } else if parts.len() == 1 {
        parts[0]
    } else {
        joined(parts.drop_last(), sep) + sep + parts.last()
    }
}

/// Outcome of gathering a probe's metrics from the per-metric errors: no error means
/// the values stand; otherwise the failure reason is the errors joined by `; `.
pub fn gather_failure_reason(errors: &Vec<String>) -> (r: Option<String>)
    ensures
        r is None <==> errors@.len() == 0,
        r matches Some(s) ==> s@ == joined(errors@.map_values(|e: String| e@), "; "@),
{
    let n = errors.len();
    if n == 0 {
        return None;
    }
    let ghost parts = errors@.map_values(|e: String| e@);
    let mut out = errors[0].clone();
    let mut i: usize = 1;
    assert(parts.take(1).drop_last() =~= Seq::<Seq<char>>::empty());
    while i < n
        invariant
            n == errors@.len(),
            1 <= i <= n,
            parts == errors@.map_values(|e: String| e@),
            out@ == joined(parts.take(i as int), "; "@),
        decreases n - i,
    {
        out = out.concat("; ").concat(errors[i].as_str());
        assert(parts.take(i + 1).drop_last() =~= parts.take(i as int));
        i = i + 1;
    }
    assert(parts.take(n as int) =~= parts);
    Some(out)
}

} // verus!
