//! Reading a message out of the Gmail API's part tree: header lookup and body
//! decoding.

use crate::gmail::GmailError;
use crate::text::{
    ascii_lowercase, ascii_lowercase_chars, chars_of, eq_chars, eq_lit, lead_from,
    lemma_lead_from_bounds, lemma_trail_from_bounds, lemma_trim_shape, spec_is_whitespace, string_of,
    trail_from, trim, trim_chars, trim_start,
};
use crate::trusted::{base64_url_decode, base64_url_decoded, from_utf8_lossy, utf8_lossy};
use crate::types::GmailMessage;
use vstd::prelude::*;
use vstd::utf8::encode_utf8;

verus! {

/// `s` with every `c` removed.
pub open spec fn without_char(s: Seq<char>, c: char) -> Seq<char>
    decreases s.len(),
{
    if s.len() == 0 {
        s
    } else if s.last() == c {
        without_char(s.drop_last(), c)
    } else {
        without_char(s.drop_last(), c).push(s.last())
    }
}

/// The bytes handed to the base64 decoder for a body segment: the trimmed
/// text without line breaks, padded with `=` to a multiple of four bytes.
pub open spec fn padded_body(data: Seq<char>) -> Seq<u8> {
    let b = encode_utf8(without_char(trim(data), '\n'));
    b + Seq::new(((4 - b.len() % 4) % 4) as nat, |i: int| 61u8)
}

/// The text of a body segment, or `None` where it is not URL-safe base64.
pub open spec fn decoded_body(data: Seq<char>) -> Option<Seq<char>> {
    match base64_url_decoded(padded_body(data)) {
        Some(bytes) => Some(utf8_lossy(bytes)),
        None => None,
    }
}

/// Decodes a Gmail body segment: URL-safe base64, possibly broken over lines
/// and without padding; invalid UTF-8 is replaced, not rejected.
pub fn decode_gmail_body(data: &str) -> (r: Result<String, GmailError>)
    ensures
        r is Ok <==> decoded_body(data@) is Some,
        r matches Ok(s) ==> s@ == decoded_body(data@)->0,
        r matches Err(e) ==> e is Base64,
{
    let t = trim_chars(chars_of(data).as_slice());
    let mut kept: Vec<char> = Vec::new();
    let mut i: usize = 0;
    while i < t.len()
        invariant
            i <= t.len(),
            kept@ == without_char(t@.take(i as int), '\n'),
        decreases t.len() - i,
    {
        assert(t@.take(i + 1).drop_last() == t@.take(i as int));
        if t[i] != '\n' {
            kept.push(t[i]);
        }
        i += 1;
    }
    assert(t@.take(t.len() as int) == t@);
    let normalized = string_of(kept.as_slice());
    let bytes = normalized.as_str().as_bytes();
    let n = bytes.len();
    let padding = (4 - n % 4) % 4;
    let mut input: Vec<u8> = Vec::new();
    let mut j: usize = 0;
    while j < n
        invariant
            j <= n,
            n == bytes@.len(),
            input@ == bytes@.take(j as int),
        decreases n - j,
    {
        input.push(bytes[j]);
        j += 1;
        assert(input@ == bytes@.take(j as int));
    }
    assert(bytes@.take(n as int) == bytes@);
    let mut k: usize = 0;
    while k < padding
        invariant
            k <= padding,
            padding < 4,
            input@ == bytes@ + Seq::new(k as nat, |x: int| 61u8),
        decreases padding - k,
    {
        input.push(61u8);
        k += 1;
        assert(input@ =~= bytes@ + Seq::new(k as nat, |x: int| 61u8));
    }
    match base64_url_decode(input.as_slice()) {
        Ok(decoded) => Ok(from_utf8_lossy(decoded.as_slice())),
        Err(message) => Err(GmailError::Base64(message)),
    }
}

/// Every character of `s` is blank.
pub open spec fn all_blank(s: Seq<char>) -> bool {
    forall|i: int| 0 <= i < s.len() ==> spec_is_whitespace(#[trigger] s[i])
}

proof fn lemma_without_char_append(a: Seq<char>, b: Seq<char>, c: char)
    ensures
        without_char(a + b, c) == without_char(a, c) + without_char(b, c),
    decreases b.len(),
{
    if b.len() == 0 {
        assert(a + b =~= a);
        assert(without_char(a, c) + without_char(b, c) =~= without_char(a, c));
    } else {
        lemma_without_char_append(a, b.drop_last(), c);
        assert((a + b).drop_last() =~= a + b.drop_last());
        assert((a + b).last() == b.last());
        if b.last() != c {
            assert((without_char(a, c) + without_char(b.drop_last(), c)).push(b.last()) =~= without_char(a, c)
                + without_char(b.drop_last(), c).push(b.last()));
        }
    }
}

proof fn lemma_without_char_blank(s: Seq<char>, c: char)
    requires
        all_blank(s),
    ensures
        all_blank(without_char(s, c)),
    decreases s.len(),
{
    if s.len() > 0 {
        let p = s.drop_last();
        assert(all_blank(p)) by {
            assert forall|i: int| 0 <= i < p.len() implies spec_is_whitespace(#[trigger] p[i]) by {
                assert(p[i] == s[i]);
            }
        }
        lemma_without_char_blank(p, c);
        let w = without_char(p, c);
        assert(spec_is_whitespace(s[s.len() - 1]));
        assert forall|i: int| 0 <= i < w.push(s.last()).len() implies spec_is_whitespace(
            #[trigger] w.push(s.last())[i],
        ) by {
            if i < w.len() {
                assert(w.push(s.last())[i] == w[i]);
            }
        }
    }
}

proof fn lemma_without_char_ends(m: Seq<char>, c: char)
    requires
        m.len() > 0,
        m[0] != c,
        m[m.len() - 1] != c,
    ensures
        without_char(m, c).len() > 0,
        without_char(m, c)[0] == m[0],
        without_char(m, c)[without_char(m, c).len() - 1] == m[m.len() - 1],
    decreases m.len(),
{
    let p = m.drop_last();
    if m.len() == 1 {
        assert(p =~= Seq::<char>::empty());
        assert(without_char(p, c) == p);
    } else {
        lemma_without_char_starts(p, c);
        assert(without_char(p, c).push(m.last())[0] == without_char(p, c)[0]);
    }
}

proof fn lemma_without_char_starts(m: Seq<char>, c: char)
    requires
        m.len() > 0,
        m[0] != c,
    ensures
        without_char(m, c).len() > 0,
        without_char(m, c)[0] == m[0],
    decreases m.len(),
{
    let p = m.drop_last();
    if m.len() == 1 {
        assert(p =~= Seq::<char>::empty());
        assert(without_char(p, c) == p);
    } else {
        assert(p[0] == m[0]);
        lemma_without_char_starts(p, c);
        if m.last() != c {
            assert(without_char(p, c).push(m.last())[0] == without_char(p, c)[0]);
        }
    }
}

proof fn lemma_without_char_twice(s: Seq<char>, c: char)
    ensures
        without_char(without_char(s, c), c) == without_char(s, c),
    decreases s.len(),
{
    if s.len() > 0 {
        lemma_without_char_twice(s.drop_last(), c);
        let w = without_char(s.drop_last(), c);
        if s.last() != c {
            assert(w.push(s.last()).drop_last() =~= w);
        }
    }
}

/// A text made of a blank run, a middle that starts and ends with non-blank
/// characters (or is empty), and a blank run, trims to its middle.
proof fn lemma_trim_of_framed(a: Seq<char>, m: Seq<char>, b: Seq<char>)
    requires
        all_blank(a),
        all_blank(b),
        m.len() > 0 ==> !spec_is_whitespace(m[0]) && !spec_is_whitespace(m[m.len() - 1]),
    ensures
        trim(a + m + b) == m,
{
    let x = a + m + b;
    lemma_lead_from_bounds(x, 0);
    let l = lead_from(x, 0);
    if m.len() > 0 {
        assert(x[a.len() as int] == m[0]);
        if l > a.len() {
            assert(spec_is_whitespace(x[a.len() as int]));
        }
        if l < a.len() {
            assert(x[l] == a[l]);
        }
        assert(l == a.len());
        let st = trim_start(x);
        assert(st =~= m + b);
        lemma_trail_from_bounds(st, st.len() as int);
        let t = trail_from(st, st.len() as int);
        assert(st[m.len() - 1] == m[m.len() - 1]);
        if t < m.len() {
            assert(spec_is_whitespace(st[m.len() - 1]));
        }
        if t > m.len() {
            assert(st[t - 1] == b[t - 1 - m.len()]);
        }
        assert(st.take(m.len() as int) =~= m);
    } else {
        if l < x.len() {
            if l < a.len() {
                assert(x[l] == a[l]);
            } else {
                assert(x[l] == b[l - a.len()]);
            }
        }
        assert(trim_start(x).len() == 0);
        lemma_trail_from_bounds(trim_start(x), 0);
    }
}

/// Removing line breaks commutes with trimming, line breaks being blank.
proof fn lemma_trim_without_line_breaks(s: Seq<char>)
    ensures
        trim(without_char(s, '\n')) == without_char(trim(s), '\n'),
{
    lemma_trim_shape(s);
    lemma_lead_from_bounds(s, 0);
    let l = lead_from(s, 0);
    let m = trim(s);
    let a = s.take(l);
    let b = s.skip(l + m.len());
    let st = trim_start(s);
    lemma_trail_from_bounds(st, st.len() as int);
    assert(m =~= s.subrange(l, l + m.len()));
    assert(s =~= a + m + b);
    assert(all_blank(a));
    assert(all_blank(b)) by {
        assert forall|i: int| 0 <= i < b.len() implies spec_is_whitespace(#[trigger] b[i]) by {
            assert(b[i] == st[m.len() + i]);
        }
    }
    lemma_without_char_append(a + m, b, '\n');
    lemma_without_char_append(a, m, '\n');
    lemma_without_char_blank(a, '\n');
    lemma_without_char_blank(b, '\n');
    let wm = without_char(m, '\n');
    if m.len() > 0 {
        lemma_without_char_ends(m, '\n');
    } else {
        assert(wm == m);
    }
    lemma_trim_of_framed(without_char(a, '\n'), wm, without_char(b, '\n'));
}

/// Line breaks in a body segment do not change what it decodes to: a
/// segment broken over lines reads as the same segment on one line.
pub proof fn line_breaks_do_not_matter(data: Seq<char>)
    ensures
        decoded_body(without_char(data, '\n')) == decoded_body(data),
{
    lemma_trim_without_line_breaks(data);
    lemma_without_char_twice(trim(data), '\n');
}

/// One header of a message part.
#[derive(Clone, Debug)]
pub struct MessageHeader {
    pub name: String,
    pub value: String,
}

/// The body of a message part; `data` is URL-safe base64.
#[derive(Clone, Debug)]
pub struct MessageBody {
    pub data: Option<String>,
}

/// A node of the Gmail message tree.
#[derive(Debug)]
pub struct MessagePart {
    pub mime_type: Option<String>,
    pub headers: Option<Vec<MessageHeader>>,
    pub parts: Option<Vec<MessagePart>>,
    pub body: Option<MessageBody>,
}

/// A part with nothing in it.
pub open spec fn empty_part() -> MessagePart {
    MessagePart { mime_type: None, headers: None, parts: None, body: None }
}

impl Default for MessagePart {
    fn default() -> (r: Self)
        ensures
            r == empty_part(),
    {
        MessagePart { mime_type: None, headers: None, parts: None, body: None }
    }
}

/// The views of an optional string.
pub open spec fn opt_string_view(o: Option<String>) -> Option<Seq<char>> {
    match o {
        Some(s) => Some(s@),
        None => None,
    }
}

/// The value of the first header from index `i` on whose name equals `name`
/// up to ASCII case.
pub open spec fn header_from(hs: Seq<MessageHeader>, name: Seq<char>, i: int) -> Option<Seq<char>>
    decreases hs.len() - i,
{
    if i < 0 || i >= hs.len() {
        None
    } else if ascii_lowercase(hs[i].name@) == ascii_lowercase(name) {
        Some(hs[i].value@)
    } else {
        header_from(hs, name, i + 1)
    }
}

/// The value of a part's first header named `name`, ignoring ASCII case.
pub open spec fn part_header(p: MessagePart, name: Seq<char>) -> Option<Seq<char>> {
    match p.headers {
        Some(hs) => header_from(hs@, name, 0),
        None => None,
    }
}

impl MessagePart {
    /// The value of the first header named `name`, compared without regard to
    /// ASCII case.
    pub fn header_value(&self, name: &str) -> (r: Option<String>)
        ensures
            opt_string_view(r) == part_header(*self, name@),
    {
        match &self.headers {
            None => None,
            Some(hs) => {
                let wanted = ascii_lowercase_chars(chars_of(name).as_slice());
                let mut i: usize = 0;
                while i < hs.len()
                    invariant
                        i <= hs.len(),
                        self.headers == Some(*hs),
                        wanted@ == ascii_lowercase(name@),
                        header_from(hs@, name@, 0) == header_from(hs@, name@, i as int),
                    decreases hs.len() - i,
                {
                    let have = ascii_lowercase_chars(chars_of(hs[i].name.as_str()).as_slice());
                    if eq_chars(have.as_slice(), wanted.as_slice()) {
                        return Some(hs[i].value.clone());
                    }
                    i += 1;
                }
                None
            },
        }
    }
}

/// The bodies found so far: plain text, then HTML.
pub type Bodies = (Option<Seq<char>>, Option<Seq<char>>);

/// The encoded body of a part, if it has one.
pub open spec fn body_data(p: MessagePart) -> Option<Seq<char>> {
    match p.body {
        Some(b) => opt_string_view(b.data),
        None => None,
    }
}

/// A part's MIME type is `m`.
pub open spec fn mime_is(p: MessagePart, m: Seq<char>) -> bool {
    p.mime_type matches Some(t) && t@ == m
}

/// The bodies after looking at one part alone: its body is decoded, and kept
/// as the plain or HTML body if it is the first of its type; `None` where the
/// body does not decode.
pub open spec fn visit_part(st: Bodies, p: MessagePart) -> Option<Bodies> {
    match body_data(p) {
        None => Some(st),
        Some(d) => match decoded_body(d) {
            None => None,
            Some(text) => Some(
                if mime_is(p, "text/plain"@) && st.0 is None {
                    (Some(text), st.1)
                } else if mime_is(p, "text/html"@) && st.1 is None {
                    (st.0, Some(text))
                } else {
                    st
                },
            ),
        },
    }
}

/// The bodies after a depth-first walk of `p`, the part before its children,
/// the children in order; `None` where any body on the way does not decode.
pub open spec fn collected(st: Bodies, p: MessagePart) -> Option<Bodies>
    decreases p,
{
    match visit_part(st, p) {
        None => None,
        Some(s1) => match p.parts {
            Some(children) => collected_all(s1, children@),
            None => Some(s1),
        },
    }
}

/// The bodies after walking each of `ps` in turn.
pub open spec fn collected_all(st: Bodies, ps: Seq<MessagePart>) -> Option<Bodies>
    decreases ps,
{
    if ps.len() == 0 {
        Some(st)
    } else {
        match collected_all(st, ps.drop_last()) {
            None => None,
            Some(s) => collected(s, ps.last()),
        }
    }
}

proof fn lemma_failure_persists(st: Bodies, ps: Seq<MessagePart>, k: int)
    requires
        0 <= k <= ps.len(),
        collected_all(st, ps.take(k)) is None,
    ensures
        collected_all(st, ps) is None,
    decreases ps.len() - k,
{
    if k < ps.len() {
        assert(ps.take(k + 1).drop_last() == ps.take(k));
        lemma_failure_persists(st, ps, k + 1);
    } else {
        assert(ps.take(k) == ps);
    }
}

/// Collects the first plain-text and first HTML body of a message tree.
#[derive(Debug)]
pub struct BodyCollector {
    pub plain_text: Option<String>,
    pub html: Option<String>,
}

impl Default for BodyCollector {
    fn default() -> (r: Self)
        ensures
            r.plain_text is None,
            r.html is None,
    {
        BodyCollector { plain_text: None, html: None }
    }
}

impl BodyCollector {
    /// The bodies held.
    pub open spec fn bodies(&self) -> Bodies {
        (opt_string_view(self.plain_text), opt_string_view(self.html))
    }

    /// Walks `part` depth first and keeps the first body of each type; fails
    /// on the first body that does not decode.
    pub fn collect(&mut self, part: &MessagePart) -> (r: Result<(), GmailError>)
        ensures
            r is Ok <==> collected(old(self).bodies(), *part) is Some,
            r is Ok ==> final(self).bodies() == collected(old(self).bodies(), *part)->0,
            r matches Err(e) ==> e is Base64,
        decreases part,
    {
        if let Some(body) = &part.body {
            if let Some(data) = &body.data {
                let decoded = match decode_gmail_body(data.as_str()) {
                    Ok(d) => d,
                    Err(e) => return Err(e),
                };
                let is_plain = match &part.mime_type {
                    Some(m) => eq_lit(chars_of(m.as_str()).as_slice(), "text/plain"),
                    None => false,
                };
                let is_html = match &part.mime_type {
                    Some(m) => eq_lit(chars_of(m.as_str()).as_slice(), "text/html"),
                    None => false,
                };
                if is_plain && self.plain_text.is_none() {
                    self.plain_text = Some(decoded);
                } else if is_html && self.html.is_none() {
                    self.html = Some(decoded);
                }
            }
        }
        let ghost s1 = self.bodies();
        assert(visit_part(old(self).bodies(), *part) == Some(s1));
        if let Some(children) = &part.parts {
            let mut i: usize = 0;
            while i < children.len()
                invariant
                    i <= children.len(),
                    part.parts == Some(*children),
                    visit_part(old(self).bodies(), *part) == Some(s1),
                    collected_all(s1, children@.take(i as int)) == Some(self.bodies()),
                decreases children.len() - i,
            {
                assert(children@.take(i + 1).drop_last() == children@.take(i as int));
                match self.collect(&children[i]) {
                    Ok(()) => {},
                    Err(e) => {
                        proof {
                            lemma_failure_persists(s1, children@, i + 1);
                        }
                        return Err(e);
                    },
                }
                i += 1;
            }
            assert(children@.take(children.len() as int) == children@);
        }
        Ok(())
    }
}

/// A message as the API's `get` call returns it.
#[derive(Debug)]
pub struct RawMessage {
    pub id: String,
    pub thread_id: String,
    pub snippet: Option<String>,
    pub label_ids: Option<Vec<String>>,
    pub payload: Option<MessagePart>,
}

/// The payload of a raw message, or an empty part.
pub open spec fn payload_of(raw: RawMessage) -> MessagePart {
    match raw.payload {
        Some(p) => p,
        None => empty_part(),
    }
}

/// The message read out of `raw`: its headers, its first plain and HTML
/// bodies, and its ids, snippet and labels.
pub open spec fn message_of(raw: RawMessage, m: GmailMessage) -> bool {
    let p = payload_of(raw);
    let b = collected((None, None), p)->0;
    &&& m.message_id == raw.id
    &&& m.thread_id == raw.thread_id
    &&& opt_string_view(m.from) == part_header(p, "From"@)
    &&& opt_string_view(m.to) == part_header(p, "To"@)
    &&& opt_string_view(m.subject) == part_header(p, "Subject"@)
    &&& opt_string_view(m.date) == part_header(p, "Date"@)
    &&& m.snippet == raw.snippet
    &&& opt_string_view(m.plain_text_body) == b.0
    &&& opt_string_view(m.html_body) == b.1
    &&& m.label_ids@ == match raw.label_ids {
        Some(l) => l@,
        None => Seq::<String>::empty(),
    }
}

impl RawMessage {
    /// Reads the message; fails where a body does not decode.
    pub fn into_message(self) -> (r: Result<GmailMessage, GmailError>)
        ensures
            r is Ok <==> collected((None, None), payload_of(self)) is Some,
            r matches Ok(m) ==> message_of(self, m),
            r matches Err(e) ==> e is Base64,
    {
        let ghost raw = self;
        let payload = match self.payload {
            Some(p) => p,
            None => MessagePart::default(),
        };
        let from = payload.header_value("From");
        let to = payload.header_value("To");
        let subject = payload.header_value("Subject");
        let date = payload.header_value("Date");
        let mut collector = BodyCollector::default();
        match collector.collect(&payload) {
            Ok(()) => {},
            Err(e) => return Err(e),
        }
        Ok(GmailMessage {
            message_id: self.id,
            thread_id: self.thread_id,
            from,
            to,
            subject,
            date,
            snippet: self.snippet,
            plain_text_body: collector.plain_text,
            html_body: collector.html,
            label_ids: match self.label_ids {
                Some(l) => l,
                None => Vec::new(),
            },
        })
    }
}

} // verus!
