//! Run settings: reading the environment's values, choosing the Datagouv MCP
//! endpoint and the Gemini model, and the checks made before a run starts.

use crate::agentic::errors::AgentError;
use crate::text::{
    ascii_lowercase, ascii_lowercase_chars, chars_of, contains, contains_chars, decimal,
    decimal_chars, eq_lit, push_all, push_lit, string_of, trim, trim_chars,
};
use crate::types::{backend_label, QueueBackendKind};
use vstd::prelude::*;

verus! {

/// The Gemini model used when none is configured.
pub const DEFAULT_GEMINI_MODEL: &'static str = "gemini-2.5-flash";

/// The Gemini model to fall back on when none is configured for that purpose.
pub const DEFAULT_GEMINI_FALLBACK_MODEL: &'static str = "gemini-1.5-flash";

/// The optional view of an optional string.
pub open spec fn opt_view(o: Option<String>) -> Option<Seq<char>> {
    match o {
        Some(s) => Some(s@),
        None => None,
    }
}

/// A setting as the pipeline uses it: trimmed, and absent when blank.
pub open spec fn trimmed_setting(raw: Option<Seq<char>>) -> Option<Seq<char>> {
    match raw {
        Some(v) => if trim(v).len() == 0 {
            None
        } else {
            Some(trim(v))
        },
        None => None,
    }
}

/// Trims a raw setting and drops it when blank.
pub fn setting_value(raw: Option<String>) -> (r: Option<String>)
    ensures
        opt_view(r) == trimmed_setting(opt_view(raw)),
{
    match raw {
        Some(v) => {
            let t = trim_chars(chars_of(v.as_str()).as_slice());
            if t.len() == 0 {
                None
            } else {
                Some(string_of(t.as_slice()))
            }
        },
        None => None,
    }
}

/// A value left as it is unless it is blank, as the optional API key is sent.
pub fn nonblank(value: Option<&str>) -> (r: Option<&str>)
    ensures
        r == match value {
            Some(v) => if trim(v@).len() == 0 {
                None
            } else {
                Some(v)
            },
            None => None,
        },
{
    match value {
        Some(v) => {
            if trim_chars(chars_of(v).as_slice()).len() == 0 {
                None
            } else {
                Some(v)
            }
        },
        None => None,
    }
}

/// The value of a setting left as it is unless blank, else `default`.
pub fn nonblank_or(raw: Option<String>, default: &str) -> (r: String)
    ensures
        r@ == match raw {
            Some(v) => if trim(v@).len() == 0 {
                default@
            } else {
                v@
            },
            None => default@,
        },
{
    match raw {
        Some(v) => {
            if trim_chars(chars_of(v.as_str()).as_slice()).len() == 0 {
                string_of(chars_of(default).as_slice())
            } else {
                v
            }
        },
        None => string_of(chars_of(default).as_slice()),
    }
}

/// The flag that forces the configured (remote) MCP endpoint: `1`, `true` or
/// `yes` in any ASCII case.
pub open spec fn is_force_flag(value: Option<Seq<char>>) -> bool {
    match value {
        Some(v) => {
            let l = ascii_lowercase(v);
            l == "1"@ || l == "true"@ || l == "yes"@
        },
        None => false,
    }
}

/// Reads the force-remote flag from its (trimmed) setting.
pub fn force_remote_flag(value: Option<String>) -> (r: bool)
    ensures
        r == is_force_flag(opt_view(value)),
{
    match value {
        Some(v) => {
            let l = ascii_lowercase_chars(chars_of(v.as_str()).as_slice());
            eq_lit(l.as_slice(), "1") || eq_lit(l.as_slice(), "true") || eq_lit(l.as_slice(), "yes")
        },
        None => false,
    }
}

/// An endpoint on this machine: its URL names the loopback address or
/// `localhost` right after the scheme.
pub open spec fn is_local_endpoint(endpoint: Seq<char>) -> bool {
    contains(endpoint, "://127.0.0.1"@) || contains(endpoint, "://localhost"@) || contains(endpoint, "://[::1]"@)
}

/// Whether `endpoint` points at an MCP server on this machine.
pub fn is_local_datagouv_endpoint(endpoint: &str) -> (b: bool)
    ensures
        b == is_local_endpoint(endpoint@),
{
    let e = chars_of(endpoint);
    contains_chars(e.as_slice(), chars_of("://127.0.0.1").as_slice())
        || contains_chars(e.as_slice(), chars_of("://localhost").as_slice())
        || contains_chars(e.as_slice(), chars_of("://[::1]").as_slice())
}

/// The MCP endpoint to use: the configured one when forced; otherwise a local
/// server that answers wins, unless the configured endpoint is itself local;
/// with no local server, the configured one.
pub open spec fn chosen_endpoint(configured: Option<Seq<char>>, local: Option<Seq<char>>, force_remote: bool) -> Option<
    Seq<char>,
> {
    if force_remote {
        configured
    } else {
        match local {
            Some(l) => match configured {
                Some(c) => if is_local_endpoint(c) {
                    Some(c)
                } else {
                    Some(l)
                },
                None => Some(l),
            },
            None => configured,
        }
    }
}

/// Chooses the Datagouv MCP endpoint from the configured one and the local
/// server found running, if any.
pub fn select_datagouv_mcp_endpoint(
    configured_endpoint: Option<String>,
    local_endpoint: Option<String>,
    force_remote: bool,
) -> (r: Option<String>)
    ensures
        opt_view(r) == chosen_endpoint(opt_view(configured_endpoint), opt_view(local_endpoint), force_remote),
{
    if force_remote {
        return configured_endpoint;
    }
    match local_endpoint {
        Some(local) => match configured_endpoint {
            Some(configured) => {
                if is_local_datagouv_endpoint(configured.as_str()) {
                    Some(configured)
                } else {
                    Some(local)
                }
            },
            None => Some(local),
        },
        None => configured_endpoint,
    }
}

/// The value of a run of decimal digits.
pub open spec fn digits_value(s: Seq<char>) -> int
    decreases s.len(),
{
    if s.len() == 0 {
        0
    } else {
        digits_value(s.drop_last()) * 10 + (s.last() as int - '0' as int)
    }
}

/// Every character is an ASCII digit.
pub open spec fn all_digits(s: Seq<char>) -> bool {
    forall|i: int| 0 <= i < s.len() ==> '0' <= #[trigger] s[i] && s[i] <= '9'
}

/// What `str::parse` gives for an unsigned integer type whose largest value is
/// `max`: an optional `+`, then at least one digit and nothing else, of value
/// at most `max`.
pub open spec fn parsed_unsigned(s: Seq<char>, max: int) -> Option<int> {
    let d = if s.len() > 0 && s[0] == '+' {
        s.drop_first()
    } else {
        s
    };
    if d.len() > 0 && all_digits(d) && digits_value(d) <= max {
        Some(digits_value(d))
    } else {
        None
    }
}

proof fn lemma_digits_value_nonneg(s: Seq<char>)
    requires
        all_digits(s),
    ensures
        digits_value(s) >= 0,
    decreases s.len(),
{
    if s.len() > 0 {
        assert(all_digits(s.drop_last())) by {
            assert forall|i: int| 0 <= i < s.drop_last().len() implies '0' <= #[trigger] s.drop_last()[i]
                && s.drop_last()[i] <= '9' by {
                assert(s.drop_last()[i] == s[i]);
            }
        }
        lemma_digits_value_nonneg(s.drop_last());
    }
}

/// Parses an unsigned decimal number no greater than `max`, as `str::parse`
/// does for the unsigned integer types.
pub fn parse_unsigned(s: &str, max: u64) -> (r: Option<u64>)
    ensures
        match parsed_unsigned(s@, max as int) {
            Some(v) => r matches Some(n) && n as int == v,
            None => r is None,
        },
{
    let v = chars_of(s);
    let start: usize = if v.len() > 0 && v[0] == '+' { 1 } else { 0 };
    let ghost d = if s@.len() > 0 && s@[0] == '+' { s@.drop_first() } else { s@ };
    assert(d =~= v@.skip(start as int));
    if start >= v.len() {
        return None;
    }
    let mut acc: u128 = 0;
    let mut i: usize = start;
    while i < v.len()
        invariant
            start <= i <= v.len(),
            v@ == s@,
            d == (if s@.len() > 0 && s@[0] == '+' { s@.drop_first() } else { s@ }),
            d =~= v@.skip(start as int),
            all_digits(v@.subrange(start as int, i as int)),
            digits_value(v@.subrange(start as int, i as int)) >= 0,
            acc as int == if digits_value(v@.subrange(start as int, i as int)) > max {
                max + 1
            } else {
                digits_value(v@.subrange(start as int, i as int))
            },
        decreases v.len() - i,
    {
        let c = v[i];
        let ghost prefix = v@.subrange(start as int, i as int);
        let ghost next = v@.subrange(start as int, i + 1);
        assert(next.drop_last() =~= prefix);
        if c < '0' || c > '9' {
            assert(d[i - start] == c);
            assert(!all_digits(d));
            return None;
        }
        assert(all_digits(next)) by {
            assert forall|j: int| 0 <= j < next.len() implies '0' <= #[trigger] next[j] && next[j] <= '9' by {
                if j < prefix.len() {
                    assert(next[j] == prefix[j]);
                }
            }
        }
        let digit: u128 = ((c as u32) - ('0' as u32)) as u128;
        if acc > max as u128 {
            acc = (max as u128) + 1;
        } else {
            acc = acc * 10 + digit;
            if acc > max as u128 {
                acc = (max as u128) + 1;
            }
        }
        i += 1;
    }
    assert(v@.subrange(start as int, v.len() as int) =~= d);
    if acc > max as u128 {
        None
    } else {
        Some(acc as u64)
    }
}

/// A whole-number setting: its parsed value, or `default` when unset or not a
/// number.
pub fn number_setting(raw: Option<String>, default: u64) -> (r: u64)
    ensures
        r == match raw {
            Some(v) => match parsed_unsigned(v@, u64::MAX as int) {
                Some(n) => n as u64,
                None => default,
            },
            None => default,
        },
{
    match raw {
        Some(v) => match parse_unsigned(v.as_str(), u64::MAX) {
            Some(n) => n,
            None => default,
        },
        None => default,
    }
}

/// The host of a local MCP server: the trimmed setting, else the loopback address.
pub fn local_mcp_host(raw: Option<String>) -> (r: String)
    ensures
        r@ == match trimmed_setting(opt_view(raw)) {
            Some(h) => h,
            None => "127.0.0.1"@,
        },
{
    match setting_value(raw) {
        Some(h) => h,
        None => string_of(chars_of("127.0.0.1").as_slice()),
    }
}

/// The port of a local MCP server: the trimmed setting read as a port number,
/// else 8000.
pub fn local_mcp_port(raw: Option<String>) -> (r: u16)
    ensures
        r == match raw {
            Some(v) => match parsed_unsigned(trim(v@), 65535) {
                Some(n) => n as u16,
                None => 8000u16,
            },
            None => 8000u16,
        },
{
    match raw {
        Some(v) => {
            let t = string_of(trim_chars(chars_of(v.as_str()).as_slice()).as_slice());
            assert(t@ == trim(v@));
            match parse_unsigned(t.as_str(), 65535) {
                Some(n) => {
                    assert(n <= 65535);
                    n as u16
                },
                None => 8000,
            }
        },
        None => 8000,
    }
}

/// The URL of a local MCP server.
pub fn local_mcp_endpoint(host: &str, port: u16) -> (r: String)
    ensures
        r@ == "http://"@ + host@ + ":"@ + decimal(port as nat) + "/mcp"@,
{
    let mut m = chars_of("http://");
    push_all(&mut m, chars_of(host).as_slice());
    push_lit(&mut m, ":");
    push_all(&mut m, decimal_chars(port as u64).as_slice());
    push_lit(&mut m, "/mcp");
    string_of(m.as_slice())
}

/// The MCP tool to call: the trimmed setting, else `search_datasets`.
pub fn mcp_tool_setting(raw: Option<String>) -> (r: String)
    ensures
        r@ == match trimmed_setting(opt_view(raw)) {
            Some(t) => t,
            None => "search_datasets"@,
        },
{
    match setting_value(raw) {
        Some(t) => t,
        None => string_of(chars_of("search_datasets").as_slice()),
    }
}

/// The fallback model is forced by `true` or `1`, in any ASCII case, around
/// blanks.
pub open spec fn forces_fallback(flag: Option<Seq<char>>) -> bool {
    match flag {
        Some(f) => {
            let l = ascii_lowercase(trim(f));
            trim(f).len() > 0 && (l == "true"@ || l == "1"@)
        },
        None => false,
    }
}

/// The Gemini model to run: the default when no primary is configured; the
/// fallback when it is forced and configured; else the primary, trimmed.
pub open spec fn gemini_model(primary: Seq<char>, fallback: Seq<char>, forced: Option<Seq<char>>) -> Seq<char> {
    if trim(primary).len() == 0 {
        DEFAULT_GEMINI_MODEL@
    } else if forces_fallback(forced) && trim(fallback).len() > 0 {
        trim(fallback)
    } else {
        trim(primary)
    }
}

/// Chooses the name of the Gemini model to run.
pub fn pick_gemini_model(primary: &str, fallback: &str, forced_fallback: Option<String>) -> (r: String)
    ensures
        r@ == gemini_model(primary@, fallback@, opt_view(forced_fallback)),
{
    let p = trim_chars(chars_of(primary).as_slice());
    let f = trim_chars(chars_of(fallback).as_slice());
    if p.len() == 0 {
        return string_of(chars_of(DEFAULT_GEMINI_MODEL).as_slice());
    }
    let forced = match forced_fallback {
        Some(flag) => {
            let t = trim_chars(chars_of(flag.as_str()).as_slice());
            let l = ascii_lowercase_chars(t.as_slice());
            t.len() > 0 && (eq_lit(l.as_slice(), "true") || eq_lit(l.as_slice(), "1"))
        },
        None => false,
    };
    if forced && f.len() > 0 {
        string_of(f.as_slice())
    } else {
        string_of(p.as_slice())
    }
}

/// The checks made before a run: the Gmail CLI must be found, and OAuth
/// client credentials must come from the environment (both parts) or from the
/// CLI's client secret file.
pub fn check_runtime_access(
    cli_command: &str,
    cli_found: bool,
    has_client_id: bool,
    has_client_secret: bool,
    has_client_secret_file: bool,
) -> (r: Result<(), AgentError>)
    ensures
        !cli_found ==> (r matches Err(AgentError::Context(m)) && m@ == "Missing Google Workspace CLI command `"@
            + cli_command@ + "`. Install `gws` or set GWS_BIN or GMAIL_CLI_COMMAND to a valid command."@),
        cli_found && (!has_client_id || !has_client_secret) && !has_client_secret_file ==> (r matches Err(
            AgentError::Context(m),
        ) && m@
            == "OAuth client config not found. Set GOOGLE_WORKSPACE_CLI_CLIENT_ID and GOOGLE_WORKSPACE_CLI_CLIENT_SECRET, or write them in ~/.config/gws/client_secret.json."@),
        cli_found && ((has_client_id && has_client_secret) || has_client_secret_file) ==> r is Ok,
{
    if !cli_found {
        let mut m = chars_of("Missing Google Workspace CLI command `");
        push_all(&mut m, chars_of(cli_command).as_slice());
        push_lit(&mut m, "`. Install `gws` or set GWS_BIN or GMAIL_CLI_COMMAND to a valid command.");
        return Err(AgentError::Context(string_of(m.as_slice())));
    }
    if (!has_client_id || !has_client_secret) && !has_client_secret_file {
        return Err(
            AgentError::Context(
                string_of(
                    chars_of(
                        "OAuth client config not found. Set GOOGLE_WORKSPACE_CLI_CLIENT_ID and GOOGLE_WORKSPACE_CLI_CLIENT_SECRET, or write them in ~/.config/gws/client_secret.json.",
                    ).as_slice(),
                ),
            ),
        );
    }
    Ok(())
}

/// The Gemini API key must be set before the specialists are built.
pub fn check_gemini_key(present: bool) -> (r: Result<(), AgentError>)
    ensures
        present ==> r is Ok,
        !present ==> (r matches Err(AgentError::Context(m)) && m@
            == "GEMINI_API_KEY is required to run the Rig specialists"@),
{
    if present {
        Ok(())
    } else {
        Err(AgentError::Context(string_of(chars_of("GEMINI_API_KEY is required to run the Rig specialists").as_slice())))
    }
}

/// The mission's objective, naming the queue backend.
pub fn mission_objective(kind: QueueBackendKind) -> (r: String)
    ensures
        r@ == "Read recent Gmail messages, find the ones related to MarianneAI, extract sender intent, and queue valid tasks to "@
            + backend_label(kind) + "."@,
{
    let mut m = chars_of(
        "Read recent Gmail messages, find the ones related to MarianneAI, extract sender intent, and queue valid tasks to ",
    );
    push_all(&mut m, chars_of(kind.label().as_str()).as_slice());
    push_lit(&mut m, ".");
    string_of(m.as_slice())
}

/// The MCP endpoint used is always one of those offered: forcing keeps the
/// configured one, a configured endpoint on this machine is never overridden,
/// and otherwise a running local server wins.
pub proof fn endpoint_choice_laws(configured: Option<Seq<char>>, local: Option<Seq<char>>, force_remote: bool)
    ensures
        chosen_endpoint(configured, local, force_remote) == configured || chosen_endpoint(
            configured,
            local,
            force_remote,
        ) == local,
        force_remote ==> chosen_endpoint(configured, local, force_remote) == configured,
        (configured matches Some(c) && is_local_endpoint(c)) ==> chosen_endpoint(
            configured,
            local,
            force_remote,
        ) == configured,
        !force_remote && local is Some && !(configured matches Some(c) && is_local_endpoint(c))
            ==> chosen_endpoint(configured, local, force_remote) == local,
{
}

} // verus!
