//! Gmail handling that does not touch the network: reading messages out of the
//! API's message tree, decoding bodies, composing replies, and making sense of
//! the `gws` command's output.

use crate::text::{
    chars_of, contains, contains_chars, copy_chars, find, find_chars, join, join_chars, push_all,
    push_lit, string_of, trim, trim_chars, views,
};
use crate::clock::{now_micros, EARLIEST_MICROS, LATEST_MICROS};
use crate::trusted::{base64_url_encode, base64_url_nopad, rfc2822_at, rfc2822_text};
use crate::agentic::replies::{reply_subject, reply_subject_of};
use crate::types::GmailMessage;
use vstd::prelude::*;
use vstd::string::StringExecFns;
use vstd::utf8::encode_utf8;

pub mod body;
pub mod command;

verus! {

/// Thin wrapper around the `gws` Gmail commands.
#[derive(Clone, Copy, Debug)]
pub struct GmailClient;

impl Default for GmailClient {
    fn default() -> (r: Self) {
        GmailClient
    }
}

/// Errors of the Gmail stage.
#[derive(Debug)]
pub enum GmailError {
    /// The Gmail CLI could not be started; carries the system's message.
    Spawn(String),
    /// The CLI wrote invalid UTF-8 on stdout; carries the decoder's message.
    StdoutUtf8(String),
    /// The CLI's output is not JSON; carries the parser's message.
    InvalidJson(String),
    /// The JSON does not have the expected shape; carries the parser's message.
    DeserializeResponse(String),
    /// The CLI printed nothing.
    EmptyOutput,
    /// The CLI failed; carries a summary of the failure.
    CommandFailed(String),
    /// A message body is not valid URL-safe base64; carries the decoder's message.
    Base64(String),
}

/// How a Gmail error reads to the user.
pub open spec fn gmail_error_text(e: GmailError) -> Seq<char> {
    match e {
        GmailError::Spawn(m) => "failed to spawn Gmail CLI command: "@ + m@,
        GmailError::StdoutUtf8(_) => "gws returned invalid UTF-8 on stdout"@,
        GmailError::InvalidJson(m) => "gws did not return valid JSON: "@ + m@,
        GmailError::DeserializeResponse(m) => "failed to deserialize Gmail response: "@ + m@,
        GmailError::EmptyOutput => "gws returned no JSON output"@,
        GmailError::CommandFailed(m) => m@,
        GmailError::Base64(m) => "failed to decode Gmail message body: "@ + m@,
    }
}

/// `head` followed by `tail`.
pub fn concat(head: &str, tail: &str) -> (r: String)
    ensures
        r@ == head@ + tail@,
{
    let mut s = String::from_str(head);
    s.append(tail);
    s
}

impl GmailError {
    /// The error as the user reads it.
    pub fn message(&self) -> (r: String)
        ensures
            r@ == gmail_error_text(*self),
    {
        match self {
            GmailError::Spawn(m) => concat("failed to spawn Gmail CLI command: ", m.as_str()),
            GmailError::StdoutUtf8(_) => String::from_str("gws returned invalid UTF-8 on stdout"),
            GmailError::InvalidJson(m) => concat("gws did not return valid JSON: ", m.as_str()),
            GmailError::DeserializeResponse(m) => concat("failed to deserialize Gmail response: ", m.as_str()),
            GmailError::EmptyOutput => String::from_str("gws returned no JSON output"),
            GmailError::CommandFailed(m) => m.clone(),
            GmailError::Base64(m) => concat("failed to decode Gmail message body: ", m.as_str()),
        }
    }
}

/// Number of messages actually requested: `max_results` clamped to `1..=25`.
pub fn safe_max_results(max_results: u32) -> (r: u32)
    ensures
        r == if max_results < 1 {
            1
        } else if max_results > 25 {
            25
        } else {
            max_results
        },
{
    if max_results < 1 {
        1
    } else if max_results > 25 {
        25
    } else {
        max_results
    }
}

/// The CLI command to run: `GWS_BIN` if set, else `GMAIL_CLI_COMMAND`, else `gws`.
pub fn cli_command_from(gws_bin: Option<String>, gmail_cli_command: Option<String>) -> (r: String)
    ensures
        r@ == match (gws_bin, gmail_cli_command) {
            (Some(a), _) => a@,
            (None, Some(b)) => b@,
            (None, None) => "gws"@,
        },
{
    match gws_bin {
        Some(a) => a,
        None => match gmail_cli_command {
            Some(b) => b,
            None => String::from_str("gws"),
        },
    }
}

/// The characters of `s` before the first `c`, or all of `s`.
pub open spec fn before_first(s: Seq<char>, c: char) -> Seq<char> {
    match find(s, seq![c]) {
        Some(i) => s.take(i),
        None => s,
    }
}

/// The address a `From` header names: the text inside the first `<...>` when
/// there is one, else the whole header; it must contain `@` and no space.
pub open spec fn email_address_in(header: Seq<char>) -> Option<Seq<char>> {
    let value = trim(header);
    if value.len() == 0 {
        None
    } else {
        let candidate = match find(value, seq!['<']) {
            Some(i) => trim(before_first(value.skip(i + 1), '>')),
            None => value,
        };
        if contains(candidate, seq!['@']) && !contains(candidate, seq![' ']) {
            Some(candidate)
        } else {
            None
        }
    }
}

fn skip_chars(v: &[char], n: usize) -> (r: Vec<char>)
    requires
        n <= v.len(),
    ensures
        r@ == v@.skip(n as int),
{
    let mut r: Vec<char> = Vec::new();
    let mut k: usize = n;
    while k < v.len()
        invariant
            n <= k <= v.len(),
            r@ == v@.subrange(n as int, k as int),
        decreases v.len() - k,
    {
        r.push(v[k]);
        k += 1;
    }
    r
}

fn take_chars(v: &[char], n: usize) -> (r: Vec<char>)
    requires
        n <= v.len(),
    ensures
        r@ == v@.take(n as int),
{
    let mut r: Vec<char> = Vec::new();
    let mut k: usize = 0;
    while k < n
        invariant
            k <= n <= v.len(),
            r@ == v@.take(k as int),
        decreases n - k,
    {
        r.push(v[k]);
        k += 1;
        assert(r@ =~= v@.take(k as int));
    }
    r
}

/// The text before the first `c` in `v`, or all of it.
fn before_first_chars(v: &[char], c: char) -> (r: Vec<char>)
    ensures
        r@ == before_first(v@, c),
{
    let needle = vec![c];
    assert(needle@ =~= seq![c]);
    match find_chars(v, needle.as_slice()) {
        Some(j) => take_chars(v, j),
        None => copy_chars(v),
    }
}

/// The address candidate of a trimmed, non-empty header value.
fn address_candidate(value: &[char]) -> (r: Vec<char>)
    ensures
        r@ == match find(value@, seq!['<']) {
            Some(i) => trim(before_first(value@.skip(i + 1), '>')),
            None => value@,
        },
{
    let lt = vec!['<'];
    assert(lt@ =~= seq!['<']);
    assert(lt@.len() == 1);
    match find_chars(value, lt.as_slice()) {
        Some(i) => {
            assert(crate::text::occurs_at(value@, seq!['<'], i as int));
            let n = value.len();
            assert(i + 1 <= n);
            let after = skip_chars(value, i + 1);
            let head = before_first_chars(after.as_slice(), '>');
            trim_chars(head.as_slice())
        },
        None => copy_chars(value),
    }
}

/// Extracts the address from a `From` header.
pub fn parse_email_address(header: Option<&str>) -> (r: Option<String>)
    ensures
        r is Some <==> (header matches Some(h) && email_address_in(h@) is Some),
        r matches Some(a) ==> header matches Some(h) && a@ == email_address_in(h@)->0,
{
    let h = match header {
        Some(h) => h,
        None => return None,
    };
    let value = trim_chars(chars_of(h).as_slice());
    if value.len() == 0 {
        return None;
    }
    let candidate = address_candidate(value.as_slice());
    let at = vec!['@'];
    let space = vec![' '];
    assert(at@ =~= seq!['@']);
    assert(space@ =~= seq![' ']);
    if contains_chars(candidate.as_slice(), at.as_slice()) && !contains_chars(
        candidate.as_slice(),
        space.as_slice(),
    ) {
        Some(string_of(candidate.as_slice()))
    } else {
        None
    }
}

impl GmailClient {
    /// Try to infer a reply address from the `From` header.
    pub fn infer_reply_recipient(&self, message: &GmailMessage) -> (r: Option<String>)
        ensures
            r is Some <==> (message.from matches Some(h) && email_address_in(h@) is Some),
            r matches Some(a) ==> message.from matches Some(h) && a@ == email_address_in(h@)->0,
    {
        match &message.from {
            Some(h) => parse_email_address(Some(h.as_str())),
            None => parse_email_address(None),
        }
    }
}

/// How a body character is sent in a 7-bit message: printable ASCII and
/// line breaks, tabs and spaces are kept, a no-break space becomes a space,
/// anything else becomes `?`.
pub open spec fn ascii_body_char(c: char) -> char {
    if ('!' <= c && c <= '~') || c == '\n' || c == '\r' || c == '\t' || c == ' ' {
        c
    } else if c == '\u{a0}' {
        ' '
    } else {
        '?'
    }
}

pub open spec fn ascii_body(s: Seq<char>) -> Seq<char> {
    s.map_values(|c: char| ascii_body_char(c))
}

/// Reduces a reply body to the characters a 7-bit message can carry.
pub fn sanitize_ascii_body(body: &str) -> (r: String)
    ensures
        r@ == ascii_body(body@),
{
    let v = chars_of(body);
    let mut out: Vec<char> = Vec::new();
    let mut k: usize = 0;
    while k < v.len()
        invariant
            k <= v.len(),
            out@ == ascii_body(v@.take(k as int)),
        decreases v.len() - k,
    {
        let c = v[k];
        let d = if ('!' <= c && c <= '~') || c == '\n' || c == '\r' || c == '\t' || c == ' ' {
            c
        } else if c == '\u{a0}' {
            ' '
        } else {
            '?'
        };
        out.push(d);
        k += 1;
        assert(out@ =~= ascii_body(v@.take(k as int)));
    }
    assert(v@.take(v.len() as int) =~= v@);
    string_of(out.as_slice())
}

/// The header lines of a reply.
pub open spec fn reply_headers(
    to: Seq<char>,
    subject: Seq<char>,
    thread_id: Option<Seq<char>>,
    from: Option<Seq<char>>,
    date: Seq<char>,
) -> Seq<Seq<char>> {
    let base = seq![
        "MIME-Version: 1.0"@,
        "Content-Type: text/plain; charset=\"UTF-8\""@,
        "Content-Transfer-Encoding: 7bit"@,
        "To: "@ + to,
        "Subject: "@ + reply_subject(subject),
        "Date: "@ + date,
        "X-Mailer: email-interface"@,
    ];
    let with_from = match from {
        Some(f) => if trim(f).len() > 0 {
            base.push("From: "@ + f)
        } else {
            base
        },
        None => base,
    };
    match thread_id {
        Some(t) => with_from.push("References: "@ + t),
        None => with_from,
    }
}

/// The raw RFC 2822 reply sent through the Gmail API.
pub open spec fn raw_reply(
    to: Seq<char>,
    subject: Seq<char>,
    body: Seq<char>,
    thread_id: Option<Seq<char>>,
    from: Option<Seq<char>>,
    date: Seq<char>,
) -> Seq<char> {
    join(reply_headers(to, subject, thread_id, from, date), "\r\n"@) + "\r\n\r\n"@ + ascii_body(body)
        + "\n"@
}

/// The view of an optional string slice.
pub open spec fn opt_view(o: Option<&str>) -> Option<Seq<char>> {
    match o {
        Some(s) => Some(s@),
        None => None,
    }
}

fn line(prefix: &str, value: &str) -> (r: Vec<char>)
    ensures
        r@ == prefix@ + value@,
{
    let mut v = chars_of(prefix);
    push_all(&mut v, chars_of(value).as_slice());
    v
}

/// Composes the raw reply with the given `Date` header value.
pub fn compose_raw_message_at(
    to: &str,
    subject: &str,
    body: &str,
    thread_id: Option<&str>,
    from: Option<&str>,
    date: &str,
) -> (r: String)
    ensures
        r@ == raw_reply(to@, subject@, body@, opt_view(thread_id), opt_view(from), date@),
{
    let subject_line = reply_subject_of(subject);
    let mut headers: Vec<Vec<char>> = Vec::new();
    headers.push(chars_of("MIME-Version: 1.0"));
    headers.push(chars_of("Content-Type: text/plain; charset=\"UTF-8\""));
    headers.push(chars_of("Content-Transfer-Encoding: 7bit"));
    headers.push(line("To: ", to));
    headers.push(line("Subject: ", subject_line.as_str()));
    headers.push(line("Date: ", date));
    headers.push(chars_of("X-Mailer: email-interface"));
    let ghost base = views(headers@);
    if let Some(f) = from {
        let t = trim_chars(chars_of(f).as_slice());
        if t.len() > 0 {
            headers.push(line("From: ", f));
            assert(views(headers@) =~= base.push("From: "@ + f@));
        }
    }
    let ghost with_from = views(headers@);
    if let Some(t) = thread_id {
        headers.push(line("References: ", t));
        assert(views(headers@) =~= with_from.push("References: "@ + t@));
    }
    assert(base =~= seq![
        "MIME-Version: 1.0"@,
        "Content-Type: text/plain; charset=\"UTF-8\""@,
        "Content-Transfer-Encoding: 7bit"@,
        "To: "@ + to@,
        "Subject: "@ + reply_subject(subject@),
        "Date: "@ + date@,
        "X-Mailer: email-interface"@,
    ]);
    let sep = chars_of("\r\n");
    let mut message = join_chars(headers.as_slice(), sep.as_slice());
    push_lit(&mut message, "\r\n\r\n");
    let safe_body = sanitize_ascii_body(body);
    push_all(&mut message, chars_of(safe_body.as_str()).as_slice());
    push_lit(&mut message, "\n");
    string_of(message.as_slice())
}

/// Composes the raw reply, dated now: the `Date` header is the RFC 2822
/// rendering of the clock's reading.
pub fn compose_raw_message(
    to: &str,
    subject: &str,
    body: &str,
    thread_id: Option<&str>,
    from: Option<&str>,
) -> (r: String)
    ensures
        exists|m: i64|
            EARLIEST_MICROS <= m <= LATEST_MICROS && r@ == raw_reply(
                to@,
                subject@,
                body@,
                opt_view(thread_id),
                opt_view(from),
                #[trigger] rfc2822_text(m),
            ),
{
    let now = now_micros();
    let date = match rfc2822_at(now) {
        Some(d) => d,
        None => String::new(),
    };
    compose_raw_message_at(to, subject, body, thread_id, from, date.as_str())
}

/// The `raw` field of a send request: the composed message, URL-safe base64
/// encoded without padding.
pub fn encode_raw_message(raw_message: &str) -> (r: String)
    ensures
        r@ == base64_url_nopad(encode_utf8(raw_message@)),
{
    base64_url_encode(raw_message.as_bytes())
}

/// Result from the Gmail send API, mapped to concise fields for the responder stage.
#[derive(Clone, Debug)]
pub struct SentMessage {
    /// Gmail-assigned id of the sent message.
    pub message_id: Option<String>,
    /// Gmail thread id after send.
    pub thread_id: Option<String>,
    /// Labels returned by the API.
    pub label_ids: Vec<String>,
}

impl SentMessage {
    /// Maps the fields of a send response; missing labels become an empty list.
    pub fn from_response(id: Option<String>, thread_id: Option<String>, label_ids: Option<Vec<String>>) -> (r: Self)
        ensures
            r.message_id == id,
            r.thread_id == thread_id,
            r.label_ids@ == match label_ids {
                Some(l) => l@,
                None => Seq::<String>::empty(),
            },
    {
        SentMessage {
            message_id: id,
            thread_id,
            label_ids: match label_ids {
                Some(l) => l,
                None => Vec::new(),
            },
        }
    }
}

/// Reply bodies are 7-bit clean: the sanitized body has one ASCII character
/// for each character of the body it comes from.
pub proof fn ascii_body_is_seven_bit(s: Seq<char>)
    ensures
        ascii_body(s).len() == s.len(),
        forall|i: int| 0 <= i < s.len() ==> (#[trigger] ascii_body(s)[i] as u32) < 128,
{
}

/// Sanitizing keeps every character a 7-bit message can show as it is: the
/// printable ASCII characters (codes 33 to 126), the space, tab, line feed
/// and carriage return. A no-break space becomes a space; anything else
/// becomes `?`.
pub proof fn printable_text_is_kept(s: Seq<char>)
    ensures
        forall|i: int|
            0 <= i < s.len() && 33 <= (s[i] as int) <= 126 ==> #[trigger] ascii_body(s)[i] == s[i],
        forall|i: int|
            0 <= i < s.len() && (s[i] == ' ' || s[i] == '\t' || s[i] == '\n' || s[i] == '\r')
                ==> #[trigger] ascii_body(s)[i] == s[i],
        forall|i: int| 0 <= i < s.len() && (s[i] as int) == 160 ==> #[trigger] ascii_body(s)[i] == ' ',
        forall|i: int|
            0 <= i < s.len() && (s[i] as int) >= 127 && (s[i] as int) != 160 ==> #[trigger] ascii_body(s)[i]
                == '?',
{
    assert forall|i: int| 0 <= i < s.len() implies {
        &&& #[trigger] ascii_body(s)[i] == ascii_body_char(s[i])
        &&& ('!' <= s[i] && s[i] <= '~') <==> (33 <= (s[i] as int) <= 126)
        &&& (s[i] == '\u{a0}') <==> ((s[i] as int) == 160)
        &&& (s[i] == ' ' || s[i] == '\t' || s[i] == '\n' || s[i] == '\r') ==> (s[i] as int) < 127
    } by {}
}

} // verus!
