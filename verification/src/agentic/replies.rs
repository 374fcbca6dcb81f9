//! Reply text: subjects, previews, fallback messages and the checks that tell a
//! usable generated answer from an error-like one.

use crate::text::{
    ascii_lowercase, ascii_lowercase_chars, spec_ascii_lower, chars_of, contains, contains_chars, eq_lit, starts_with,
    starts_with_chars, string_of, trim, trim_chars, find, find_chars, occurs_at, lemma_find_first,
    lead_from, trail_from, trim_start, lemma_lead_from_bounds, lemma_trail_from_bounds, spec_is_whitespace,
};
use vstd::prelude::*;
use vstd::string::StrSliceExecFns;
use vstd::string::StringExecFns;

verus! {

/// `s` cut to its first `limit` characters, with a marker when something was cut.
pub open spec fn truncated(s: Seq<char>, limit: nat) -> Seq<char> {
    if s.len() > limit {
        s.take(limit as int) + "\n[truncated]"@
    } else {
        s
    }
}

/// Keeps the first `limit` characters of `input` and marks the cut.
pub fn truncate_text(input: &str, limit: usize) -> (r: String)
    ensures
        r@ == truncated(input@, limit as nat),
{
    let v = chars_of(input);
    if v.len() > limit {
        let mut head: Vec<char> = Vec::new();
        let mut k: usize = 0;
        while k < limit
            invariant
                k <= limit < v.len(),
                head@ == v@.take(k as int),
            decreases limit - k,
        {
            head.push(v[k]);
            k += 1;
            assert(head@ =~= v@.take(k as int));
        }
        let mut out = string_of(head.as_slice());
        out.append("\n[truncated]");
        out
    } else {
        String::from_str(input)
    }
}

/// Short preview used in audit traces.
pub fn preview_text(input: &str, limit: usize) -> (r: String)
    ensures
        r@ == truncated(input@, limit as nat),
{
    truncate_text(input, limit)
}

/// Subject of a reply to a message whose subject is `base`.
pub open spec fn reply_subject(base: Seq<char>) -> Seq<char> {
    if starts_with(ascii_lowercase(base), "re:"@) {
        base
    } else {
        "Re: "@ + base
    }
}

/// Adds `Re: ` unless the subject already starts with it, in any ASCII case.
pub fn reply_subject_of(base: &str) -> (r: String)
    ensures
        r@ == reply_subject(base@),
{
    let lowered = ascii_lowercase_chars(chars_of(base).as_slice());
    let prefix = chars_of("re:");
    if starts_with_chars(lowered.as_slice(), prefix.as_slice()) {
        String::from_str(base)
    } else {
        let mut out = String::from_str("Re: ");
        out.append(base);
        out
    }
}

/// Subject used for the answer to a message, `(no subject)` standing in for a missing one.
pub fn build_reply_subject(subject: Option<&str>) -> (r: String)
    ensures
        r@ == reply_subject(
            match subject {
                Some(s) => s@,
                None => "(no subject)"@,
            },
        ),
{
    match subject {
        Some(s) => reply_subject_of(s),
        None => reply_subject_of("(no subject)"),
    }
}

/// `lit` occurs in `v`.
pub fn contains_lit(v: &[char], lit: &str) -> (b: bool)
    ensures
        b == contains(v@, lit@),
{
    let l = chars_of(lit);
    contains_chars(v, l.as_slice())
}

/// A reply that only reports that no dataset matched.
pub open spec fn is_empty_result(answer: Seq<char>) -> bool {
    let n = ascii_lowercase(trim(answer));
    contains(n, "no datasets found for query:"@) || contains(n, "no results for"@) || contains(
        n,
        "no matching dataset"@,
    ) || n == "no output returned by datagouv mcp tool."@
}

pub fn is_empty_datagouv_result(answer: &str) -> (b: bool)
    ensures
        b == is_empty_result(answer@),
{
    let t = trim_chars(chars_of(answer).as_slice());
    let n = ascii_lowercase_chars(t.as_slice());
    contains_lit(n.as_slice(), "no datasets found for query:") || contains_lit(
        n.as_slice(),
        "no results for",
    ) || contains_lit(n.as_slice(), "no matching dataset") || eq_lit(
        n.as_slice(),
        "no output returned by datagouv mcp tool.",
    )
}

/// A reply that reads as an error report rather than an answer.
pub open spec fn is_error_like(message: Seq<char>) -> bool {
    let n = ascii_lowercase(trim(message));
    n.len() == 0 || n == "error"@ || contains(n, "error:"@) || contains(n, "exception"@)
        || contains(n, "traceback"@) || contains(n, "request failed"@) || contains(
        n,
        "failed to"@,
    ) || contains(n, "service unavailable"@) || contains(n, "couldn't"@) || contains(
        n,
        "could not"@,
    ) || contains(n, "forbidden"@) || contains(n, "not found"@) || contains(n, "invalid"@)
        || contains(n, "timeout"@) || n == "null"@ || n == "undefined"@ || contains(
        n,
        "mcp returned an error"@,
    )
}

pub fn is_error_like_reply(message: &str) -> (b: bool)
    ensures
        b == is_error_like(message@),
{
    let t = trim_chars(chars_of(message).as_slice());
    let n = ascii_lowercase_chars(t.as_slice());
    let s = n.as_slice();
    if n.len() == 0 {
        return true;
    }
    eq_lit(s, "error") || contains_lit(s, "error:") || contains_lit(s, "exception")
        || contains_lit(s, "traceback") || contains_lit(s, "request failed") || contains_lit(
        s,
        "failed to",
    ) || contains_lit(s, "service unavailable") || contains_lit(s, "couldn't")
        || contains_lit(s, "could not") || contains_lit(s, "forbidden") || contains_lit(
        s,
        "not found",
    ) || contains_lit(s, "invalid") || contains_lit(s, "timeout") || eq_lit(s, "null")
        || eq_lit(s, "undefined") || contains_lit(s, "mcp returned an error")
}

/// Status line used when no reason is given.
pub open spec fn default_fallback_reason() -> Seq<char> {
    "Our automated answer pipeline is temporarily unavailable. Please retry in a few minutes."@
}

/// The temporary reply sent when no usable answer could be produced.
pub open spec fn fallback_message(reason: Seq<char>, source: Seq<char>) -> Seq<char> {
    "Hi there,\n\nThanks for reaching out about MarianneAI. Great timing \u{2014} we are currently making "@
        + source + " do a friendly obstacle course.\n\n"@ + source
        + " returned an unusual response, so the automatic pipeline is taking a short coffee break.\nCurrent status: "@
        + reason
        + "\n\nPlease try again in a few minutes, and we will respond properly.\n\nIf this is urgent, resend with subject [urgent] and we will keep the ticket open.\n\nKind regards,\nMarianneAI Support"@
}

/// Friendly holding reply naming the failing `source` and the `reason`.
pub fn build_funny_fallback_message(reason: Option<&str>, source: &str) -> (r: String)
    ensures
        r@ == fallback_message(
            match reason {
                Some(x) => x@,
                None => default_fallback_reason(),
            },
            source@,
        ),
{
    let reason = match reason {
        Some(x) => x,
        None => "Our automated answer pipeline is temporarily unavailable. Please retry in a few minutes.",
    };
    let mut out = String::from_str(
        "Hi there,\n\nThanks for reaching out about MarianneAI. Great timing \u{2014} we are currently making ",
    );
    out.append(source);
    out.append(" do a friendly obstacle course.\n\n");
    out.append(source);
    out.append(
        " returned an unusual response, so the automatic pipeline is taking a short coffee break.\nCurrent status: ",
    );
    out.append(reason);
    out.append(
        "\n\nPlease try again in a few minutes, and we will respond properly.\n\nIf this is urgent, resend with subject [urgent] and we will keep the ticket open.\n\nKind regards,\nMarianneAI Support",
    );
    out
}

/// Scans `t` from `i` with the given nesting depth and string state, and returns
/// one past the `}` that closes the outermost object, when there is one.
pub open spec fn object_end(t: Seq<char>, i: int, depth: int, in_string: bool, escaped: bool) -> Option<int>
    decreases t.len() - i,
{
    if i < 0 || i >= t.len() {
        None
    } else {
        let c = t[i];
        if escaped {
            object_end(t, i + 1, depth, in_string, false)
        } else if c == '\\' && in_string {
            object_end(t, i + 1, depth, in_string, true)
        } else if c == '"' {
            object_end(t, i + 1, depth, !in_string, false)
        } else if c == '{' && !in_string {
            object_end(t, i + 1, depth + 1, in_string, false)
        } else if c == '}' && !in_string {
            if depth - 1 == 0 {
                Some(i + 1)
            } else {
                object_end(t, i + 1, depth - 1, in_string, false)
            }
        } else {
            object_end(t, i + 1, depth, in_string, false)
        }
    }
}

/// The first balanced `{...}` object of `s`, honouring quoted strings and escapes.
pub open spec fn first_json_object(s: Seq<char>) -> Option<Seq<char>> {
    match find(s, "{"@) {
        None => None,
        Some(start) => match object_end(s, start, 0, false, false) {
            Some(end) => Some(s.subrange(start, end)),
            None => None,
        },
    }
}

proof fn lemma_object_end_bounds(t: Seq<char>, i: int, depth: int, in_string: bool, escaped: bool)
    ensures
        object_end(t, i, depth, in_string, escaped) matches Some(e) ==> i < e <= t.len(),
    decreases t.len() - i,
{
    if i < 0 || i >= t.len() {
    } else {
        let c = t[i];
        if escaped {
            lemma_object_end_bounds(t, i + 1, depth, in_string, false);
        } else if c == '\\' && in_string {
            lemma_object_end_bounds(t, i + 1, depth, in_string, true);
        } else if c == '"' {
            lemma_object_end_bounds(t, i + 1, depth, !in_string, false);
        } else if c == '{' && !in_string {
            lemma_object_end_bounds(t, i + 1, depth + 1, in_string, false);
        } else if c == '}' && !in_string {
            if depth - 1 != 0 {
                lemma_object_end_bounds(t, i + 1, depth - 1, in_string, false);
            }
        } else {
            lemma_object_end_bounds(t, i + 1, depth, in_string, false);
        }
    }
}

/// Finds where the object opened at `start` closes.
fn object_end_from(v: &[char], start: usize) -> (r: Option<usize>)
    requires
        start < v.len(),
        v@[start as int] == '{',
    ensures
        r is Some <==> object_end(v@, start as int, 0, false, false) is Some,
        r matches Some(e) ==> object_end(v@, start as int, 0, false, false) == Some(e as int),
{
    let mut depth: usize = 0;
    let mut in_string = false;
    let mut escaped = false;
    let mut i: usize = start;
    while i < v.len()
        invariant
            start < v.len(),
            v@[start as int] == '{',
            start <= i <= v.len(),
            depth <= i - start,
            (i == start && depth == 0 && !in_string && !escaped) || (i > start && depth >= 1),
            object_end(v@, start as int, 0, false, false) == object_end(
                v@,
                i as int,
                depth as int,
                in_string,
                escaped,
            ),
        decreases v.len() - i,
    {
        let c = v[i];
        if escaped {
            escaped = false;
        } else if c == '\\' && in_string {
            escaped = true;
        } else if c == '"' {
            in_string = !in_string;
        } else if c == '{' && !in_string {
            depth += 1;
        } else if c == '}' && !in_string {
            if depth == 1 {
                return Some(i + 1);
            }
            depth -= 1;
        }
        i += 1;
    }
    None
}

/// The first JSON-looking object embedded in `input`, such as the payload of a
/// model reply wrapped in prose.
pub fn extract_json_object(input: &str) -> (r: Option<&str>)
    ensures
        r is Some <==> first_json_object(input@) is Some,
        r matches Some(o) ==> o@ == first_json_object(input@)->0,
{
    let v = chars_of(input);
    let brace = chars_of("{");
    let start = match find_chars(v.as_slice(), brace.as_slice()) {
        Some(start) => start,
        None => return None,
    };
    proof {
        reveal_strlit("{");
        assert(brace@[0] == '{');
        assert(occurs_at(v@, brace@, start as int));
        assert(v@.subrange(start as int, start + 1)[0] == v@[start as int]);
    }
    assert(first_json_object(input@) == (match object_end(v@, start as int, 0, false, false) {
        Some(end) => Some(v@.subrange(start as int, end)),
        None => None,
    }));
    match object_end_from(v.as_slice(), start) {
        Some(end) => {
            proof {
                lemma_object_end_bounds(v@, start as int, 0, false, false);
            }
            Some(input.substring_char(start, end))
        },
        None => None,
    }
}

/// The text of a specialist's reply that is read as JSON: its first object,
/// or the whole reply, trimmed.
pub open spec fn structured_candidate(response: Seq<char>) -> Seq<char> {
    trim(
        match first_json_object(response) {
            Some(o) => o,
            None => response,
        },
    )
}

/// Picks the part of a specialist's reply to read as JSON.
pub fn structured_json_candidate(response: &str) -> (r: String)
    ensures
        r@ == structured_candidate(response@),
{
    let picked = match extract_json_object(response) {
        Some(o) => o,
        None => response,
    };
    string_of(trim_chars(chars_of(picked).as_slice()).as_slice())
}

/// Replying to a reply keeps its subject: the `Re: ` marker is never doubled.
pub proof fn reply_subject_is_stable(base: Seq<char>)
    ensures
        reply_subject(reply_subject(base)) == reply_subject(base),
{
    reveal_strlit("Re: ");
    reveal_strlit("re:");
    if !starts_with(ascii_lowercase(base), "re:"@) {
        let r = "Re: "@ + base;
        assert(ascii_lowercase(r).take(3) =~= "re:"@) by {
            assert(ascii_lowercase(r)[0] == spec_ascii_lower('R'));
            assert(('R' as u32) + 32 == ('r' as u32));
        }
    }
}

proof fn lemma_object_end_closes(t: Seq<char>, i: int, depth: int, in_string: bool, escaped: bool)
    ensures
        object_end(t, i, depth, in_string, escaped) matches Some(e) ==> 0 < e <= t.len() && t[e - 1] == '}',
    decreases t.len() - i,
{
    if 0 <= i < t.len() {
        let c = t[i];
        if escaped {
            lemma_object_end_closes(t, i + 1, depth, in_string, false);
        } else if c == '\\' && in_string {
            lemma_object_end_closes(t, i + 1, depth, in_string, true);
        } else if c == '"' {
            lemma_object_end_closes(t, i + 1, depth, !in_string, false);
        } else if c == '{' && !in_string {
            lemma_object_end_closes(t, i + 1, depth + 1, in_string, false);
        } else if c == '}' && !in_string {
            if depth - 1 != 0 {
                lemma_object_end_closes(t, i + 1, depth - 1, in_string, false);
            }
        } else {
            lemma_object_end_closes(t, i + 1, depth, in_string, false);
        }
    }
}

/// The object picked out of a reply opens with `{` and closes with `}`.
pub proof fn extracted_object_is_braced(s: Seq<char>)
    ensures
        first_json_object(s) matches Some(o) ==> o.len() >= 2 && o[0] == '{' && o[o.len() - 1] == '}',
{
    reveal_strlit("{");
    lemma_find_first(s, "{"@);
    if let Some(start) = find(s, "{"@) {
        assert(s.subrange(start, start + 1)[0] == s[start]);
        lemma_object_end_bounds(s, start, 0, false, false);
        lemma_object_end_closes(s, start, 0, false, false);
        lemma_object_end_bounds(s, start + 1, 1, false, false);
    }
}

/// A phrase that starts and ends with a non-blank and holds no upper-case
/// ASCII letter is still found once the text around it is trimmed and
/// lower-cased.
proof fn lemma_phrase_survives(a: Seq<char>, p: Seq<char>, b: Seq<char>)
    requires
        p.len() > 0,
        !spec_is_whitespace(p[0]),
        !spec_is_whitespace(p[p.len() - 1]),
        forall|k: int| 0 <= k < p.len() ==> !('A' <= #[trigger] p[k] && p[k] <= 'Z'),
    ensures
        contains(ascii_lowercase(trim(a + p + b)), p),
{
    let m = a + p + b;
    let start = a.len() as int;
    assert(m[start] == p[0]);
    assert(m[start + p.len() - 1] == p[p.len() - 1]);
    lemma_lead_from_bounds(m, 0);
    let l = lead_from(m, 0);
    assert(l <= start);
    let st = trim_start(m);
    assert(st.len() == m.len() - l);
    lemma_trail_from_bounds(st, st.len() as int);
    let t_end = trail_from(st, st.len() as int);
    assert(st[start - l + p.len() - 1] == m[start + p.len() - 1]);
    assert(t_end >= start - l + p.len());
    let t = trim(m);
    assert(t == st.take(t_end));
    let n = ascii_lowercase(t);
    let i = start - l;
    assert(n.subrange(i, i + p.len()) =~= p) by {
        assert forall|k: int| 0 <= k < p.len() implies #[trigger] n.subrange(i, i + p.len())[k] == p[k] by {
            assert(t[i + k] == st[i + k]);
            assert(st[i + k] == m[start + k]);
            assert(m[start + k] == p[k]);
            assert(n[i + k] == spec_ascii_lower(t[i + k]));
        }
    }
    assert(occurs_at(n, p, i));
}

/// A reply that mentions a failure phrase anywhere reads as an error, never
/// as an answer, whatever surrounds the phrase: `error:`, `exception`,
/// `traceback`, `request failed`, `failed to`, `service unavailable`,
/// `couldn't`, `could not`, `forbidden`, `not found`, `invalid`, `timeout`
/// and `mcp returned an error`. So does a blank reply.
pub proof fn failure_replies_read_as_errors(a: Seq<char>, b: Seq<char>)
    ensures
        is_error_like(a + "error:"@ + b),
        is_error_like(a + "exception"@ + b),
        is_error_like(a + "traceback"@ + b),
        is_error_like(a + "request failed"@ + b),
        is_error_like(a + "failed to"@ + b),
        is_error_like(a + "service unavailable"@ + b),
        is_error_like(a + "couldn't"@ + b),
        is_error_like(a + "could not"@ + b),
        is_error_like(a + "forbidden"@ + b),
        is_error_like(a + "not found"@ + b),
        is_error_like(a + "invalid"@ + b),
        is_error_like(a + "timeout"@ + b),
        is_error_like(a + "mcp returned an error"@ + b),
        trim(a).len() == 0 ==> is_error_like(a),
{
    reveal_strlit("error:");
    reveal_strlit("exception");
    reveal_strlit("traceback");
    reveal_strlit("request failed");
    reveal_strlit("failed to");
    reveal_strlit("service unavailable");
    reveal_strlit("couldn't");
    reveal_strlit("could not");
    reveal_strlit("forbidden");
    reveal_strlit("not found");
    reveal_strlit("invalid");
    reveal_strlit("timeout");
    reveal_strlit("mcp returned an error");
    lemma_phrase_survives(a, "error:"@, b);
    lemma_phrase_survives(a, "exception"@, b);
    lemma_phrase_survives(a, "traceback"@, b);
    lemma_phrase_survives(a, "request failed"@, b);
    lemma_phrase_survives(a, "failed to"@, b);
    lemma_phrase_survives(a, "service unavailable"@, b);
    lemma_phrase_survives(a, "couldn't"@, b);
    lemma_phrase_survives(a, "could not"@, b);
    lemma_phrase_survives(a, "forbidden"@, b);
    lemma_phrase_survives(a, "not found"@, b);
    lemma_phrase_survives(a, "invalid"@, b);
    lemma_phrase_survives(a, "timeout"@, b);
    lemma_phrase_survives(a, "mcp returned an error"@, b);
}

} // verus!
