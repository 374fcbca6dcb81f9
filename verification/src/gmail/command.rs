//! Making sense of what the `gws` command printed: failure summaries, empty
//! output and the JSON it returns.

use crate::gmail::GmailError;
use crate::text::{chars_of, contains, contains_chars, join, join_chars, push_all, push_lit, string_of, trim, trim_chars, views};
use crate::json::{error_entry, json_valid, read_error_entry};
use crate::trusted::{json_document, parse_json, parse_json_tree, string_from_utf8};
use crate::types::string_views;
use crate::agentic::search::str_views;
use vstd::prelude::*;
use vstd::utf8::{decode_utf8, valid_utf8};

verus! {

/// The login command that grants the Gmail scopes the pipeline needs,
/// reading and sending included.
pub const GMAIL_SCOPE_FIX: &'static str = "gws auth login --scopes https://www.googleapis.com/auth/gmail.modify,https://www.googleapis.com/auth/gmail.send";

/// The command line as a user would type it: the program and its arguments,
/// separated by single spaces.
pub open spec fn rendered_command(program: Seq<char>, base_args: Seq<Seq<char>>, args: Seq<Seq<char>>) -> Seq<char> {
    join(seq![program] + base_args + args, " "@)
}

/// The `error.message` text of the JSON document a failed run printed, if
/// it printed one with such a string.
pub open spec fn stdout_error_message(stdout: Seq<char>) -> Option<Seq<char>> {
    match json_document(stdout) {
        Some(doc) => match error_entry(doc) {
            Some(Some(m)) => Some(m),
            _ => None,
        },
        None => None,
    }
}

/// The message for a failed `gws` run: a scope hint when the output says the
/// credentials lack Gmail scopes, else the API's `error.message`, else stderr,
/// else stdout, else a note that nothing was printed.
pub open spec fn failure_summary(command: Seq<char>, stdout: Seq<char>, stderr: Seq<char>) -> Seq<char> {
    if contains(stdout, "ACCESS_TOKEN_SCOPE_INSUFFICIENT"@) || contains(stdout, "insufficient authentication scopes"@) {
        command + " failed because the active gws credentials do not include Gmail scopes. Re-run `"@
            + GMAIL_SCOPE_FIX@ + "`."@
    } else {
        match stdout_error_message(stdout) {
            Some(message) => command + " failed: "@ + message,
            _ => if stderr.len() > 0 {
                command + " failed: "@ + stderr
            } else if stdout.len() > 0 {
                command + " failed: "@ + stdout
            } else {
                command + " failed with no diagnostic output"@
            },
        }
    }
}

fn rendered_command_chars(program: &str, base_args: &[String], args: &[&str]) -> (r: Vec<char>)
    ensures
        r@ == rendered_command(program@, string_views(base_args@), str_views(args@)),
{
    let mut parts: Vec<Vec<char>> = Vec::new();
    parts.push(chars_of(program));
    let mut i: usize = 0;
    while i < base_args.len()
        invariant
            i <= base_args.len(),
            views(parts@) == seq![program@] + string_views(base_args@).take(i as int),
        decreases base_args.len() - i,
    {
        let ghost before = views(parts@);
        let next = chars_of(base_args[i].as_str());
        assert(next@ == string_views(base_args@)[i as int]);
        parts.push(next);
        assert(views(parts@) =~= before.push(next@));
        assert(string_views(base_args@).take(i + 1) =~= string_views(base_args@).take(i as int).push(next@));
        i += 1;
    }
    let ghost head = views(parts@);
    assert(head =~= seq![program@] + string_views(base_args@));
    let mut j: usize = 0;
    while j < args.len()
        invariant
            j <= args.len(),
            views(parts@) == head + str_views(args@).take(j as int),
        decreases args.len() - j,
    {
        let ghost before = views(parts@);
        let next = chars_of(args[j]);
        assert(next@ == str_views(args@)[j as int]);
        parts.push(next);
        assert(views(parts@) =~= before.push(next@));
        assert(str_views(args@).take(j + 1) =~= str_views(args@).take(j as int).push(next@));
        j += 1;
    }
    assert(views(parts@) =~= seq![program@] + string_views(base_args@) + str_views(args@));
    join_chars(parts.as_slice(), chars_of(" ").as_slice())
}

fn with_suffix(mut v: Vec<char>, tail: &[char]) -> (r: Vec<char>)
    ensures
        r@ == v@ + tail@,
{
    push_all(&mut v, tail);
    v
}

/// Describes a failed `gws` run for the user; `stdout` and `stderr` are the
/// trimmed outputs.
pub fn summarize_failure(program: &str, base_args: &[String], args: &[&str], stdout: &str, stderr: &str) -> (r: String)
    ensures
        r@ == failure_summary(
            rendered_command(program@, string_views(base_args@), str_views(args@)),
            stdout@,
            stderr@,
        ),
{
    let command = rendered_command_chars(program, base_args, args);
    let out = chars_of(stdout);
    let err = chars_of(stderr);
    if contains_chars(out.as_slice(), chars_of("ACCESS_TOKEN_SCOPE_INSUFFICIENT").as_slice())
        || contains_chars(out.as_slice(), chars_of("insufficient authentication scopes").as_slice())
    {
        let mut m = command;
        push_lit(&mut m, " failed because the active gws credentials do not include Gmail scopes. Re-run `");
        push_lit(&mut m, GMAIL_SCOPE_FIX);
        push_lit(&mut m, "`.");
        return string_of(m.as_slice());
    }
    let api_message = match parse_json_tree(stdout) {
        Some(doc) => match read_error_entry(&doc) {
            Some(Some(m)) => Some(m),
            _ => None,
        },
        None => None,
    };
    if let Some(message) = api_message {
        let mut m = command;
        push_lit(&mut m, " failed: ");
        let m = with_suffix(m, chars_of(message.as_str()).as_slice());
        return string_of(m.as_slice());
    }
    let mut m = command;
    if err.len() > 0 {
        push_lit(&mut m, " failed: ");
        let m = with_suffix(m, err.as_slice());
        string_of(m.as_slice())
    } else if out.len() > 0 {
        push_lit(&mut m, " failed: ");
        let m = with_suffix(m, out.as_slice());
        string_of(m.as_slice())
    } else {
        push_lit(&mut m, " failed with no diagnostic output");
        string_of(m.as_slice())
    }
}

/// The error for a `gws` command that could not be started: a hint to
/// install the CLI when the program was not found, else the system's message.
pub fn spawn_failure(program: &str, not_found: bool, message: String) -> (r: GmailError)
    ensures
        r matches GmailError::Spawn(m) && m@ == if not_found {
            "`"@ + program@ + "` command not found. Install Google Workspace CLI and retry."@
        } else {
            message@
        },
{
    if not_found {
        let mut m = chars_of("`");
        push_all(&mut m, chars_of(program).as_slice());
        push_lit(&mut m, "` command not found. Install Google Workspace CLI and retry.");
        GmailError::Spawn(string_of(m.as_slice()))
    } else {
        GmailError::Spawn(message)
    }
}

/// The JSON text printed by a finished `gws` run, trimmed and checked to be
/// JSON, or the error it amounts to: its outputs must be UTF-8; a failed run
/// is summarised from the trimmed outputs; a successful one must print JSON.
pub fn command_json(
    program: &str,
    base_args: &[String],
    args: &[&str],
    success: bool,
    stdout: Vec<u8>,
    stderr: Vec<u8>,
) -> (r: Result<String, GmailError>)
    ensures
        !valid_utf8(stdout@) || !valid_utf8(stderr@) ==> (r matches Err(GmailError::StdoutUtf8(_))),
        ({
            let out = trim(decode_utf8(stdout@));
            let err = trim(decode_utf8(stderr@));
            let command = rendered_command(program@, string_views(base_args@), str_views(args@));
            valid_utf8(stdout@) && valid_utf8(stderr@) ==> {
                &&& !success ==> (r matches Err(GmailError::CommandFailed(m))
                    && m@ == failure_summary(command, out, err))
                &&& success && out.len() == 0 ==> (r matches Err(GmailError::EmptyOutput))
                &&& success && out.len() > 0 && json_valid(out) ==> (r matches Ok(t) && t@ == out)
                &&& success && out.len() > 0 && !json_valid(out) ==> (r matches Err(GmailError::InvalidJson(_)))
            }
        }),
        r matches Ok(t) ==> valid_utf8(stdout@) && t@ == trim(decode_utf8(stdout@)) && json_valid(t@),
{
    let out_text = match string_from_utf8(stdout) {
        Ok(s) => s,
        Err(m) => return Err(GmailError::StdoutUtf8(m)),
    };
    let err_text = match string_from_utf8(stderr) {
        Ok(s) => s,
        Err(m) => return Err(GmailError::StdoutUtf8(m)),
    };
    let out_chars = trim_chars(chars_of(out_text.as_str()).as_slice());
    let out = string_of(out_chars.as_slice());
    let err = string_of(trim_chars(chars_of(err_text.as_str()).as_slice()).as_slice());
    if !success {
        return Err(GmailError::CommandFailed(summarize_failure(program, base_args, args, out.as_str(), err.as_str())));
    }
    if out_chars.len() == 0 {
        return Err(GmailError::EmptyOutput);
    }
    match parse_json(out.as_str()) {
        Ok(_) => Ok(out),
        Err(m) => Err(GmailError::InvalidJson(m)),
    }
}

} // verus!
