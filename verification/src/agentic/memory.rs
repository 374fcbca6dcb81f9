//! The Datagouv query memory: a markdown log of queries that found data, from
//! which later searches borrow their terms.

use crate::agentic::search::{
    compose_query_keywords, first_n, or_else, query_keywords, sanitize_query_text, sanitized_query,
    str_views,
};
use crate::agentic::responders::DatagouvQueryCandidate;
use crate::text::{
    chars_of, contains, contains_chars, find, find_chars, occurs_at, starts_with, starts_with_chars,
    string_of, trim, trim_chars, views,
};
use crate::clock::{now_micros, EARLIEST_MICROS, LATEST_MICROS};
use crate::trusted::{rfc3339_at, rfc3339_text};
use crate::types::{EmailClassification, EmailIntent, GmailMessage};
use vstd::prelude::*;
use vstd::string::StringExecFns;

verus! {

/// `s` with every `|` written as ` - `.
pub open spec fn bars_to_dashes(s: Seq<char>) -> Seq<char>
    decreases s.len(),
{
    if s.len() == 0 {
        Seq::empty()
    } else {
        bars_to_dashes(s.drop_last()) + if s.last() == '|' {
            seq![' ', '-', ' ']
        } else {
            seq![s.last()]
        }
    }
}

/// A field value fit for a memory line: cleaned like a query, without field
/// separators, trimmed.
pub open spec fn memory_field(s: Seq<char>) -> Seq<char> {
    trim(bars_to_dashes(sanitized_query(s)))
}

/// Cleans a value for a memory line.
pub fn sanitize_for_memory(input: &str) -> (r: String)
    ensures
        r@ == memory_field(input@),
{
    let cleaned = sanitize_query_text(input);
    let v = chars_of(cleaned.as_str());
    let mut out: Vec<char> = Vec::new();
    let mut k: usize = 0;
    while k < v.len()
        invariant
            k <= v.len(),
            out@ == bars_to_dashes(v@.take(k as int)),
        decreases v.len() - k,
    {
        assert(v@.take(k + 1).drop_last() =~= v@.take(k as int));
        let ghost before = out@;
        if v[k] == '|' {
            out.push(' ');
            out.push('-');
            out.push(' ');
        } else {
            out.push(v[k]);
        }
        assert(out@ =~= before + if v@[k as int] == '|' {
            seq![' ', '-', ' ']
        } else {
            seq![v@[k as int]]
        });
        k += 1;
    }
    assert(v@.take(v.len() as int) =~= v@);
    let t = trim_chars(out.as_slice());
    string_of(t.as_slice())
}

/// The terms remembered for a query: its keywords, or `public data`.
pub open spec fn memory_terms_of(query: Seq<char>) -> Seq<char> {
    or_else(query_keywords(seq![query]), "public data"@)
}

/// Extracts the terms worth remembering from a successful query.
pub fn extract_memory_terms(query: &str) -> (r: String)
    ensures
        r@ == memory_terms_of(query@),
{
    let mut parts: Vec<&str> = Vec::new();
    parts.push(query);
    assert(str_views(parts@) =~= seq![query@]);
    let normalized = compose_query_keywords(parts.as_slice());
    if normalized.as_str().unicode_len() == 0 {
        String::from_str("public data")
    } else {
        normalized
    }
}

/// The memory line for a query that found data.
pub open spec fn memory_line(
    timestamp: Seq<char>,
    m: GmailMessage,
    c: EmailClassification,
    i: EmailIntent,
    chosen: DatagouvQueryCandidate,
    response: Seq<char>,
) -> Seq<char> {
    "- ["@ + timestamp + "] source="@ + chosen.source@ + " | subject="@ + memory_field(
        match m.subject {
            Some(s) => s@,
            None => "General MarianneAI inquiry"@,
        },
    ) + " | category="@ + memory_field(c.category@) + " | terms="@ + memory_field(
        memory_terms_of(chosen.query@),
    ) + " | query="@ + memory_field(chosen.query@) + " | intent="@ + memory_field(i.task_title@)
        + " | response="@ + memory_field(response)
}

/// Writes the memory line with the given timestamp.
pub fn build_datagouv_memory_entry_at(
    timestamp: &str,
    message: &GmailMessage,
    classification: &EmailClassification,
    intent: &EmailIntent,
    chosen: &DatagouvQueryCandidate,
    response: &str,
) -> (r: String)
    ensures
        r@ == memory_line(timestamp@, *message, *classification, *intent, *chosen, response@),
{
    let subject = match &message.subject {
        Some(s) => sanitize_for_memory(s.as_str()),
        None => sanitize_for_memory("General MarianneAI inquiry"),
    };
    let category = sanitize_for_memory(classification.category.as_str());
    let terms = sanitize_for_memory(extract_memory_terms(chosen.query.as_str()).as_str());
    let query = sanitize_for_memory(chosen.query.as_str());
    let response_excerpt = sanitize_for_memory(response);
    let task_hint = sanitize_for_memory(intent.task_title.as_str());
    let mut line = String::from_str("- [");
    line.append(timestamp);
    line.append("] source=");
    line.append(chosen.source);
    line.append(" | subject=");
    line.append(subject.as_str());
    line.append(" | category=");
    line.append(category.as_str());
    line.append(" | terms=");
    line.append(terms.as_str());
    line.append(" | query=");
    line.append(query.as_str());
    line.append(" | intent=");
    line.append(task_hint.as_str());
    line.append(" | response=");
    line.append(response_excerpt.as_str());
    line
}

/// Writes the memory line, stamped with the RFC 3339 rendering of the
/// clock's reading.
pub fn build_datagouv_memory_entry(
    message: &GmailMessage,
    classification: &EmailClassification,
    intent: &EmailIntent,
    chosen: &DatagouvQueryCandidate,
    response: &str,
) -> (r: String)
    ensures
        exists|m: i64|
            EARLIEST_MICROS <= m <= LATEST_MICROS && r@ == memory_line(
                #[trigger] rfc3339_text(m),
                *message,
                *classification,
                *intent,
                *chosen,
                response@,
            ),
{
    let now = now_micros();
    let timestamp = match rfc3339_at(now) {
        Some(t) => t,
        None => String::new(),
    };
    build_datagouv_memory_entry_at(timestamp.as_str(), message, classification, intent, chosen, response)
}

/// The terms recorded on a memory line, if it is one.
pub open spec fn memory_line_terms(line: Seq<char>) -> Option<Seq<char>> {
    if !starts_with(line, "- ["@) || !contains(line, "terms="@) {
        None
    } else {
        let rest = line.skip(find(line, "terms="@)->0 + "terms="@.len());
        let part = match find(rest, " | "@) {
            Some(j) => rest.take(j),
            None => rest,
        };
        if trim(part).len() == 0 {
            None
        } else {
            Some(trim(part))
        }
    }
}

pub fn skip_from(v: &[char], n: usize) -> (r: Vec<char>)
    requires
        n <= v.len(),
    ensures
        r@ == v@.skip(n as int),
{
    let mut r: Vec<char> = Vec::new();
    let mut k: usize = n;
    while k < v.len()
        invariant
            n <= k <= v.len(),
            r@ == v@.subrange(n as int, k as int),
        decreases v.len() - k,
    {
        r.push(v[k]);
        k += 1;
    }
    r
}

fn take_upto(v: &[char], n: usize) -> (r: Vec<char>)
    requires
        n <= v.len(),
    ensures
        r@ == v@.take(n as int),
{
    let mut r: Vec<char> = Vec::new();
    let mut k: usize = 0;
    while k < n
        invariant
            k <= n <= v.len(),
            r@ == v@.take(k as int),
        decreases n - k,
    {
        r.push(v[k]);
        k += 1;
        assert(r@ =~= v@.take(k as int));
    }
    r
}

/// Reads the remembered terms from a memory line.
pub fn parse_memory_terms(line: &str) -> (r: Option<String>)
    ensures
        r is Some <==> memory_line_terms(line@) is Some,
        r matches Some(t) ==> t@ == memory_line_terms(line@)->0,
{
    let v = chars_of(line);
    let head = chars_of("- [");
    let marker = chars_of("terms=");
    if !starts_with_chars(v.as_slice(), head.as_slice()) || !contains_chars(v.as_slice(), marker.as_slice()) {
        return None;
    }
    let at = match find_chars(v.as_slice(), marker.as_slice()) {
        Some(at) => at,
        None => {
            proof {
                reveal(find);
            }
            return None;
        },
    };
    let n = v.len();
    assert(occurs_at(v@, marker@, at as int));
    let start = at + marker.len();
    let rest = skip_from(v.as_slice(), start);
    let sep = chars_of(" | ");
    let part = match find_chars(rest.as_slice(), sep.as_slice()) {
        Some(j) => {
            assert(occurs_at(rest@, sep@, j as int));
            take_upto(rest.as_slice(), j)
        },
        None => rest,
    };
    let t = trim_chars(part.as_slice());
    if t.len() == 0 {
        None
    } else {
        Some(string_of(t.as_slice()))
    }
}

/// Left fold of line splitting: the finished lines and the line in progress.
pub open spec fn lines_scan(s: Seq<char>) -> (Seq<Seq<char>>, Seq<char>)
    decreases s.len(),
{
    if s.len() == 0 {
        (Seq::empty(), Seq::empty())
    } else {
        let (done, cur) = lines_scan(s.drop_last());
        if s.last() == '\n' {
            (done.push(without_cr(cur)), Seq::empty())
        } else {
            (done, cur.push(s.last()))
        }
    }
}

/// A line without the `\r` of a `\r\n` ending.
pub open spec fn without_cr(l: Seq<char>) -> Seq<char> {
    if l.len() > 0 && l.last() == '\r' {
        l.drop_last()
    } else {
        l
    }
}

/// `str::lines`: the text cut at each `\n`, a `\r` before it dropped, with no
/// empty line after a final `\n`.
pub open spec fn text_lines(s: Seq<char>) -> Seq<Seq<char>> {
    let (done, cur) = lines_scan(s);
    if cur.len() > 0 {
        done.push(cur)
    } else {
        done
    }
}

/// The terms of the memory lines among `ls`, in order.
pub open spec fn remembered_terms(ls: Seq<Seq<char>>) -> Seq<Seq<char>>
    decreases ls.len(),
{
    if ls.len() == 0 {
        Seq::empty()
    } else {
        match memory_line_terms(ls.last()) {
            Some(t) => remembered_terms(ls.drop_last()).push(t),
            None => remembered_terms(ls.drop_last()),
        }
    }
}

/// The hints a memory file offers: the terms of its first six memory lines.
pub open spec fn memory_hints_of(content: Seq<char>) -> Seq<Seq<char>> {
    first_n(remembered_terms(text_lines(content)), 6)
}

pub fn lines_of(v: &[char]) -> (r: Vec<Vec<char>>)
    ensures
        views(r@) == text_lines(v@),
{
    let mut done: Vec<Vec<char>> = Vec::new();
    let mut cur: Vec<char> = Vec::new();
    let mut k: usize = 0;
    while k < v.len()
        invariant
            k <= v.len(),
            (views(done@), cur@) == lines_scan(v@.take(k as int)),
        decreases v.len() - k,
    {
        assert(v@.take(k + 1).drop_last() =~= v@.take(k as int));
        if v[k] == '\n' {
            let mut line = cur;
            if line.len() > 0 && line[line.len() - 1] == '\r' {
                line.pop();
            }
            let ghost before = views(done@);
            done.push(line);
            assert(views(done@) =~= before.push(line@));
            cur = Vec::new();
        } else {
            cur.push(v[k]);
        }
        k += 1;
    }
    assert(v@.take(v.len() as int) =~= v@);
    if cur.len() > 0 {
        let ghost before = views(done@);
        done.push(cur);
        assert(views(done@) =~= before.push(cur@));
    }
    done
}

/// The hints offered by the content of a memory file.
pub fn memory_hints(content: &str) -> (r: Vec<String>)
    ensures
        r@.map_values(|s: String| s@) == memory_hints_of(content@),
{
    let ls = lines_of(chars_of(content).as_slice());
    let mut hints: Vec<String> = Vec::new();
    let mut k: usize = 0;
    while k < ls.len()
        invariant
            k <= ls.len(),
            hints@.map_values(|s: String| s@) == remembered_terms(views(ls@).take(k as int)),
        decreases ls.len() - k,
    {
        assert(views(ls@).take(k + 1).drop_last() =~= views(ls@).take(k as int));
        let line = string_of(ls[k].as_slice());
        match parse_memory_terms(line.as_str()) {
            Some(t) => {
                let ghost before = hints@.map_values(|s: String| s@);
                hints.push(t);
                assert(hints@.map_values(|s: String| s@) =~= before.push(t@));
            },
            None => {},
        }
        k += 1;
    }
    assert(views(ls@).take(ls.len() as int) =~= views(ls@));
    let ghost all = hints@.map_values(|s: String| s@);
    hints.truncate(6);
    assert(hints@.map_values(|s: String| s@) =~= first_n(all, 6));
    hints
}

/// The memory file to use: the configured path unless it is blank.
pub fn memory_path(path: Option<&str>) -> (r: Option<&str>)
    ensures
        r == match path {
            Some(p) => if trim(p@).len() > 0 {
                Some(p)
            } else {
                None
            },
            None => None,
        },
{
    match path {
        Some(p) => {
            let t = trim_chars(chars_of(p).as_slice());
            if t.len() > 0 {
                Some(p)
            } else {
                None
            }
        },
        None => None,
    }
}

/// The title written at the top of a new memory file.
pub open spec fn memory_title() -> Seq<char> {
    "# Datagouv Query Memory\n\n"@
}

/// What to append to a memory file holding `existing` to record `entry`: the
/// title first when the file holds nothing but whitespace.
pub fn memory_file_addition(existing: &str, entry: &str) -> (r: String)
    ensures
        r@ == if trim(existing@).len() == 0 {
            memory_title() + entry@ + "\n"@
        } else {
            entry@ + "\n"@
        },
{
    let t = trim_chars(chars_of(existing).as_slice());
    let mut out = if t.len() == 0 {
        String::from_str("# Datagouv Query Memory\n\n")
    } else {
        String::new()
    };
    out.append(entry);
    out.append("\n");
    out
}

} // verus!
