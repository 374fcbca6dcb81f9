//! JSON documents as plain trees, and the lookups the library makes in them.

use crate::text::{chars_of, eq_chars, push_all, push_lit, string_of};
use crate::trusted::json_document;
use vstd::prelude::*;

verus! {

/// A JSON value as serde_json reads it. A number keeps the text serde_json
/// writes for it; an object keeps its members in the order serde_json holds
/// them.
#[derive(Debug, PartialEq, Eq)]
pub enum Json {
    Null,
    Bool(bool),
    Number(String),
    Str(String),
    Array(Vec<Json>),
    Object(Vec<(String, Json)>),
}

/// Whether serde_json reads `text` as a JSON document.
pub open spec fn json_valid(text: Seq<char>) -> bool {
    json_document(text) is Some
}

/// The value of the first of `members` named `key`.
pub open spec fn member_of(members: Seq<(String, Json)>, key: Seq<char>) -> Option<Json>
    decreases members.len(),
{
    if members.len() == 0 {
        None
    } else if members[0].0@ == key {
        Some(members[0].1)
    } else {
        member_of(members.drop_first(), key)
    }
}

/// The value under `key` when `j` is an object with such a member; `None` for
/// any other value, as `Value::get` with a string index answers.
pub open spec fn json_get(j: Json, key: Seq<char>) -> Option<Json> {
    match j {
        Json::Object(members) => member_of(members@, key),
        _ => None,
    }
}

/// `json_get` on a value that may be missing.
pub open spec fn then_get(j: Option<Json>, key: Seq<char>) -> Option<Json> {
    match j {
        Some(v) => json_get(v, key),
        None => None,
    }
}

/// The first item when `j` is a non-empty array.
pub open spec fn then_first(j: Option<Json>) -> Option<Json> {
    match j {
        Some(Json::Array(items)) => if items@.len() > 0 {
            Some(items@[0])
        } else {
            None
        },
        _ => None,
    }
}

/// The text when `j` is a string, as `Value::as_str` answers.
pub open spec fn then_text(j: Option<Json>) -> Option<Seq<char>> {
    match j {
        Some(Json::Str(s)) => Some(s@),
        _ => None,
    }
}

/// The string at `result.content[0].text`, where a tool call's reply holds
/// its answer.
pub open spec fn content_text(doc: Json) -> Option<Seq<char>> {
    then_text(then_get(then_first(then_get(json_get(doc, "result"@), "content"@)), "text"@))
}

/// The `error` member of a reply: `None` where there is none, else the text
/// of its `message` where that is a string.
pub open spec fn error_entry(doc: Json) -> Option<Option<Seq<char>>> {
    match json_get(doc, "error"@) {
        None => None,
        Some(e) => Some(then_text(json_get(e, "message"@))),
    }
}

/// Looks up the member `key` of an object.
pub fn get_member<'a>(j: &'a Json, key: &str) -> (r: Option<&'a Json>)
    ensures
        r is Some <==> json_get(*j, key@) is Some,
        r matches Some(v) ==> json_get(*j, key@) == Some(*v),
{
    match j {
        Json::Object(members) => {
            let k = chars_of(key);
            let mut i: usize = 0;
            assert(members@.skip(0) =~= members@);
            while i < members.len()
                invariant
                    i <= members.len(),
                    k@ == key@,
                    json_get(*j, key@) == member_of(members@, key@),
                    member_of(members@, key@) == member_of(members@.skip(i as int), key@),
                decreases members.len() - i,
            {
                assert(members@.skip(i as int).drop_first() =~= members@.skip(i + 1));
                assert(members@.skip(i as int)[0] == members@[i as int]);
                let name = chars_of(members[i].0.as_str());
                if eq_chars(name.as_slice(), k.as_slice()) {
                    assert(member_of(members@.skip(i as int), key@) == Some(members@[i as int].1));
                    return Some(&members[i].1);
                }
                i += 1;
            }
            assert(members@.skip(i as int) =~= Seq::<(String, Json)>::empty());
            None
        },
        _ => None,
    }
}

impl Json {
    /// The member `key` of an object, as `Value::get` with a string index
    /// answers.
    pub fn get(&self, key: &str) -> (r: Option<&Json>)
        ensures
            r is Some <==> json_get(*self, key@) is Some,
            r matches Some(v) ==> json_get(*self, key@) == Some(*v),
    {
        get_member(self, key)
    }
}

fn opt_member<'a>(j: Option<&'a Json>, key: &str) -> (r: Option<&'a Json>)
    ensures
        r is Some <==> then_get(opt_val(j), key@) is Some,
        r matches Some(v) ==> then_get(opt_val(j), key@) == Some(*v),
{
    match j {
        Some(v) => get_member(v, key),
        None => None,
    }
}

/// A borrowed optional value, as a value.
pub open spec fn opt_val(j: Option<&Json>) -> Option<Json> {
    match j {
        Some(v) => Some(*v),
        None => None,
    }
}

fn opt_first<'a>(j: Option<&'a Json>) -> (r: Option<&'a Json>)
    ensures
        r is Some <==> then_first(opt_val(j)) is Some,
        r matches Some(v) ==> then_first(opt_val(j)) == Some(*v),
{
    match j {
        Some(Json::Array(items)) => if items.len() > 0 {
            Some(&items[0])
        } else {
            None
        },
        _ => None,
    }
}

fn opt_text(j: Option<&Json>) -> (r: Option<String>)
    ensures
        r is Some <==> then_text(opt_val(j)) is Some,
        r matches Some(t) ==> then_text(opt_val(j)) == Some(t@),
{
    match j {
        Some(Json::Str(s)) => Some(string_of(chars_of(s.as_str()).as_slice())),
        _ => None,
    }
}

/// Reads `result.content[0].text` out of a reply.
pub fn read_content_text(doc: &Json) -> (r: Option<String>)
    ensures
        r is Some <==> content_text(*doc) is Some,
        r matches Some(t) ==> content_text(*doc) == Some(t@),
{
    let result = get_member(doc, "result");
    let content = opt_member(result, "content");
    let first = opt_first(content);
    let text = opt_member(first, "text");
    opt_text(text)
}

/// Reads the `error` member of a reply and the text of its `message`.
pub fn read_error_entry(doc: &Json) -> (r: Option<Option<String>>)
    ensures
        r is Some <==> error_entry(*doc) is Some,
        r matches Some(m) ==> error_entry(*doc) == Some(
            match m {
                Some(s) => Some(s@),
                None => None::<Seq<char>>,
            },
        ),
{
    match get_member(doc, "error") {
        None => None,
        Some(e) => Some(opt_text(get_member(e, "message"))),
    }
}

/// The lower-case hexadecimal digit for `d` (below 16).
pub open spec fn hex_digit(d: u32) -> char {
    if d < 10 {
        (48 + d) as char
    } else {
        (87 + d) as char
    }
}

/// What serde_json writes for `c` inside a string literal: a backslash before
/// a quote or a backslash, the short escapes for backspace, tab, line feed,
/// form feed and carriage return, `\u00XX` for the other control
/// characters, and any other character as it is.
pub open spec fn escaped_char(c: char) -> Seq<char> {
    let n = c as u32;
    if c == '"' || c == '\\' {
        seq!['\\', c]
    } else if n == 8 {
        seq!['\\', 'b']
    } else if n == 9 {
        seq!['\\', 't']
    } else if n == 10 {
        seq!['\\', 'n']
    } else if n == 12 {
        seq!['\\', 'f']
    } else if n == 13 {
        seq!['\\', 'r']
    } else if n < 32 {
        seq!['\\', 'u', '0', '0', hex_digit(n / 16), hex_digit(n % 16)]
    } else {
        seq![c]
    }
}

/// The characters of `s`, each escaped as serde_json escapes it.
pub open spec fn escaped(s: Seq<char>) -> Seq<char>
    decreases s.len(),
{
    if s.len() == 0 {
        Seq::empty()
    } else {
        escaped(s.drop_last()) + escaped_char(s.last())
    }
}

/// The JSON string literal serde_json writes for the text `s`.
pub open spec fn json_quoted(s: Seq<char>) -> Seq<char> {
    seq!['"'] + escaped(s) + seq!['"']
}

fn hex_digit_of(d: u32) -> (c: char)
    requires
        d < 16,
    ensures
        c == hex_digit(d),
{
    let b: u8 = if d < 10 {
        48 + d as u8
    } else {
        87 + d as u8
    };
    b as char
}

fn push_escaped(out: &mut Vec<char>, c: char)
    ensures
        final(out)@ == old(out)@ + escaped_char(c),
{
    let n = c as u32;
    if c == '"' || c == '\\' {
        out.push('\\');
        out.push(c);
    } else if n == 8 {
        out.push('\\');
        out.push('b');
    } else if n == 9 {
        out.push('\\');
        out.push('t');
    } else if n == 10 {
        out.push('\\');
        out.push('n');
    } else if n == 12 {
        out.push('\\');
        out.push('f');
    } else if n == 13 {
        out.push('\\');
        out.push('r');
    } else if n < 32 {
        out.push('\\');
        out.push('u');
        out.push('0');
        out.push('0');
        out.push(hex_digit_of(n / 16));
        out.push(hex_digit_of(n % 16));
    } else {
        out.push(c);
    }
    assert(final(out)@ =~= old(out)@ + escaped_char(c));
}

/// Appends the JSON string literal for `s`, as serde_json writes it.
pub fn push_json_quoted(out: &mut Vec<char>, s: &str)
    ensures
        final(out)@ == old(out)@ + json_quoted(s@),
{
    let v = chars_of(s);
    let ghost start = out@;
    out.push('"');
    let mut i: usize = 0;
    while i < v.len()
        invariant
            i <= v.len(),
            v@ == s@,
            out@ == start + seq!['"'] + escaped(v@.take(i as int)),
        decreases v.len() - i,
    {
        assert(v@.take(i + 1).drop_last() =~= v@.take(i as int));
        push_escaped(out, v[i]);
        i += 1;
        assert(out@ =~= start + seq!['"'] + escaped(v@.take(i as int)));
    }
    assert(v@.take(v.len() as int) =~= v@);
    out.push('"');
    assert(out@ =~= start + json_quoted(s@));
}

} // verus!
