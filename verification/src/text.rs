//! Character-level text primitives shared by the pipeline.

use crate::trusted::{debug_quoted, debug_str, push_char};
use vstd::prelude::*;
use vstd::string::StringExecFns;

verus! {

/// `char::is_ascii_alphanumeric`.
pub open spec fn spec_is_ascii_alnum(c: char) -> bool {
    ('0' <= c && c <= '9') || ('a' <= c && c <= 'z') || ('A' <= c && c <= 'Z')
}

pub fn is_ascii_alnum(c: char) -> (b: bool)
    ensures
        b == spec_is_ascii_alnum(c),
{
    ('0' <= c && c <= '9') || ('a' <= c && c <= 'z') || ('A' <= c && c <= 'Z')
}

/// Lower-cases an ASCII letter and keeps every other character.
pub open spec fn spec_ascii_lower(c: char) -> char {
    if 'A' <= c && c <= 'Z' {
        ((c as u32) + 32) as char
    } else {
        c
    }
}

pub fn ascii_lower(c: char) -> (r: char)
    ensures
        r == spec_ascii_lower(c),
{
    if 'A' <= c && c <= 'Z' {
        let x: u32 = c as u32;
        let b: u8 = x as u8;
        let r: char = (b + 32) as char;
        r
    } else {
        c
    }
}

/// The characters of a string slice, in order.
pub fn chars_of(s: &str) -> (v: Vec<char>)
    ensures
        v@ == s@,
{
    let mut v: Vec<char> = Vec::new();
    for c in it: s.chars()
        invariant
            v@ == it.seq().take(it.index() as int),
    {
        v.push(c);
    }
    v
}

/// Builds a string from its characters.
pub fn string_of(v: &[char]) -> (s: String)
    ensures
        s@ == v@,
{
    let mut s = String::new();
    let mut i: usize = 0;
    while i < v.len()
        invariant
            i <= v.len(),
            s@ == v@.take(i as int),
        decreases v.len() - i,
    {
        push_char(&mut s, v[i]);
        i += 1;
        assert(s@ == v@.take(i as int));
    }
    assert(v@.take(v.len() as int) == v@);
    s
}


/// `char::is_whitespace`: the Unicode `White_Space` property.
pub open spec fn spec_is_whitespace(c: char) -> bool {
    ('\t' <= c && c <= '\r') || c == ' ' || c == '\u{85}' || c == '\u{a0}' || c == '\u{1680}'
        || ('\u{2000}' <= c && c <= '\u{200a}') || c == '\u{2028}' || c == '\u{2029}'
        || c == '\u{202f}' || c == '\u{205f}' || c == '\u{3000}'
}

pub fn is_whitespace(c: char) -> (b: bool)
    ensures
        b == spec_is_whitespace(c),
{
    ('\t' <= c && c <= '\r') || c == ' ' || c == '\u{85}' || c == '\u{a0}' || c == '\u{1680}'
        || ('\u{2000}' <= c && c <= '\u{200a}') || c == '\u{2028}' || c == '\u{2029}'
        || c == '\u{202f}' || c == '\u{205f}' || c == '\u{3000}'
}

/// Index of the first non-whitespace character at or after `i`.
pub open spec fn lead_from(s: Seq<char>, i: int) -> int
    decreases s.len() - i,
{
    if 0 <= i < s.len() && spec_is_whitespace(s[i]) {
        lead_from(s, i + 1)
    } else {
        i
    }
}

/// One past the last non-whitespace character at or before `j - 1`.
pub open spec fn trail_from(s: Seq<char>, j: int) -> int
    decreases j,
{
    if 0 < j <= s.len() && spec_is_whitespace(s[j - 1]) {
        trail_from(s, j - 1)
    } else {
        j
    }
}

/// `str::trim_start`.
pub open spec fn trim_start(s: Seq<char>) -> Seq<char> {
    s.skip(lead_from(s, 0))
}

/// `str::trim_end`.
pub open spec fn trim_end(s: Seq<char>) -> Seq<char> {
    s.take(trail_from(s, s.len() as int))
}

/// `str::trim`.
pub open spec fn trim(s: Seq<char>) -> Seq<char> {
    trim_end(trim_start(s))
}

pub proof fn lemma_lead_from_bounds(s: Seq<char>, i: int)
    requires
        0 <= i <= s.len(),
    ensures
        i <= lead_from(s, i) <= s.len(),
        lead_from(s, i) < s.len() ==> !spec_is_whitespace(s[lead_from(s, i)]),
        forall|k: int| i <= k < lead_from(s, i) ==> spec_is_whitespace(#[trigger] s[k]),
    decreases s.len() - i,
{
    if i < s.len() && spec_is_whitespace(s[i]) {
        lemma_lead_from_bounds(s, i + 1);
    }
}

pub proof fn lemma_trail_from_bounds(s: Seq<char>, j: int)
    requires
        0 <= j <= s.len(),
    ensures
        0 <= trail_from(s, j) <= j,
        trail_from(s, j) > 0 ==> !spec_is_whitespace(s[trail_from(s, j) - 1]),
        forall|k: int| trail_from(s, j) <= k < j ==> spec_is_whitespace(#[trigger] s[k]),
    decreases j,
{
    if 0 < j && spec_is_whitespace(s[j - 1]) {
        lemma_trail_from_bounds(s, j - 1);
    }
}

/// `trim(s)` is `s` from its first to its last non-blank character.
pub proof fn lemma_trim_shape(s: Seq<char>)
    ensures
        ({
            let l = lead_from(s, 0);
            let t = trim(s);
            &&& 0 <= l <= s.len()
            &&& t.len() <= s.len() - l
            &&& forall|k: int| 0 <= k < t.len() ==> #[trigger] t[k] == s[l + k]
            &&& t.len() > 0 ==> !spec_is_whitespace(t[0]) && !spec_is_whitespace(t[t.len() - 1])
        }),
{
    lemma_lead_from_bounds(s, 0);
    let l = lead_from(s, 0);
    let st = trim_start(s);
    lemma_trail_from_bounds(st, st.len() as int);
    let t = trim(s);
    if t.len() > 0 {
        assert(t[0] == st[0]);
        assert(st[0] == s[l]);
    }
}

pub fn trim_start_chars(v: &[char]) -> (r: Vec<char>)
    ensures
        r@ == trim_start(v@),
{
    let mut i: usize = 0;
    while i < v.len() && is_whitespace(v[i])
        invariant
            i <= v.len(),
            lead_from(v@, 0) == lead_from(v@, i as int),
        decreases v.len() - i,
    {
        i += 1;
    }
    let mut r: Vec<char> = Vec::new();
    let mut k: usize = i;
    while k < v.len()
        invariant
            i <= k <= v.len(),
            r@ == v@.subrange(i as int, k as int),
        decreases v.len() - k,
    {
        r.push(v[k]);
        k += 1;
    }
    r
}

pub fn trim_end_chars(v: &[char]) -> (r: Vec<char>)
    ensures
        r@ == trim_end(v@),
{
    let mut j: usize = v.len();
    while j > 0 && is_whitespace(v[j - 1])
        invariant
            j <= v.len(),
            trail_from(v@, v@.len() as int) == trail_from(v@, j as int),
        decreases j,
    {
        j -= 1;
    }
    let mut r: Vec<char> = Vec::new();
    let mut k: usize = 0;
    while k < j
        invariant
            k <= j <= v.len(),
            r@ == v@.take(k as int),
        decreases j - k,
    {
        r.push(v[k]);
        k += 1;
    }
    r
}

pub fn trim_chars(v: &[char]) -> (r: Vec<char>)
    ensures
        r@ == trim(v@),
{
    let t = trim_start_chars(v);
    trim_end_chars(t.as_slice())
}

/// `str::to_ascii_lowercase`.
pub open spec fn ascii_lowercase(s: Seq<char>) -> Seq<char> {
    s.map_values(|c: char| spec_ascii_lower(c))
}

pub fn ascii_lowercase_chars(v: &[char]) -> (r: Vec<char>)
    ensures
        r@ == ascii_lowercase(v@),
{
    let mut r: Vec<char> = Vec::new();
    let mut k: usize = 0;
    while k < v.len()
        invariant
            k <= v.len(),
            r@ == ascii_lowercase(v@.take(k as int)),
        decreases v.len() - k,
    {
        r.push(ascii_lower(v[k]));
        k += 1;
        assert(r@ =~= ascii_lowercase(v@.take(k as int)));
    }
    assert(v@.take(v.len() as int) =~= v@);
    r
}

/// `str::starts_with` for a string pattern.
pub open spec fn starts_with(s: Seq<char>, p: Seq<char>) -> bool {
    p.len() <= s.len() && s.take(p.len() as int) == p
}

/// `needle` occurs in `hay` at position `i`.
pub open spec fn occurs_at(hay: Seq<char>, needle: Seq<char>, i: int) -> bool {
    0 <= i && i + needle.len() <= hay.len() && hay.subrange(i, i + needle.len()) == needle
}

/// `str::contains` for a string pattern.
pub open spec fn contains(hay: Seq<char>, needle: Seq<char>) -> bool {
    exists|i: int| occurs_at(hay, needle, i)
}

/// `str::find` for a string pattern: the first position where `needle` occurs.
#[verifier::opaque]
pub open spec fn find(hay: Seq<char>, needle: Seq<char>) -> Option<int> {
    if contains(hay, needle) {
        Some(choose|i: int| occurs_at(hay, needle, i) && forall|j: int| 0 <= j < i ==> !occurs_at(hay, needle, j))
    } else {
        None
    }
}

proof fn lemma_min_occurrence(hay: Seq<char>, needle: Seq<char>, w: int)
    requires
        occurs_at(hay, needle, w),
    ensures
        exists|m: int| occurs_at(hay, needle, m) && forall|j: int| 0 <= j < m ==> !occurs_at(hay, needle, j),
    decreases w,
{
    if exists|j: int| 0 <= j < w && occurs_at(hay, needle, j) {
        let j = choose|j: int| 0 <= j < w && occurs_at(hay, needle, j);
        lemma_min_occurrence(hay, needle, j);
    } else {
        assert(occurs_at(hay, needle, w) && forall|j: int| 0 <= j < w ==> !occurs_at(hay, needle, j));
    }
}

/// Where `needle` occurs, `find` gives its first occurrence.
pub proof fn lemma_find_first(hay: Seq<char>, needle: Seq<char>)
    ensures
        find(hay, needle) is Some <==> contains(hay, needle),
        find(hay, needle) matches Some(i) ==> occurs_at(hay, needle, i) && forall|j: int|
            0 <= j < i ==> !occurs_at(hay, needle, j),
{
    reveal(find);
    if contains(hay, needle) {
        let w = choose|i: int| occurs_at(hay, needle, i);
        lemma_min_occurrence(hay, needle, w);
    }
}

pub fn matches_at(hay: &[char], needle: &[char], i: usize) -> (b: bool)
    ensures
        b == occurs_at(hay@, needle@, i as int),
{
    if i > hay.len() || needle.len() > hay.len() - i {
        return false;
    }
    let mut k: usize = 0;
    while k < needle.len()
        invariant
            i + needle.len() <= hay.len(),
            k <= needle.len(),
            forall|m: int| 0 <= m < k ==> hay@[i + m] == needle@[m],
        decreases needle.len() - k,
    {
        if hay[i + k] != needle[k] {
            assert(hay@.subrange(i as int, i + needle.len())[k as int] != needle@[k as int]);
            return false;
        }
        k += 1;
    }
    assert(hay@.subrange(i as int, i + needle.len()) =~= needle@);
    true
}

pub fn starts_with_chars(s: &[char], p: &[char]) -> (b: bool)
    ensures
        b == starts_with(s@, p@),
{
    let b = matches_at(s, p, 0);
    assert(s@.subrange(0, p@.len() as int) == s@.take(p@.len() as int));
    b
}

pub fn find_chars(hay: &[char], needle: &[char]) -> (r: Option<usize>)
    ensures
        r is Some <==> find(hay@, needle@) is Some,
        r matches Some(i) ==> find(hay@, needle@) == Some(i as int),
        r matches Some(i) ==> occurs_at(hay@, needle@, i as int),
{
    reveal(find);
    let mut i: usize = 0;
    loop
        invariant
            i <= hay.len(),
            forall|j: int| 0 <= j < i ==> !occurs_at(hay@, needle@, j),
        ensures
            forall|j: int| 0 <= j <= hay.len() ==> !occurs_at(hay@, needle@, j),
        decreases hay.len() - i,
    {
        if matches_at(hay, needle, i) {
            proof {
                reveal(find);
                let w = choose|w: int|
                    occurs_at(hay@, needle@, w) && forall|j: int| 0 <= j < w ==> !occurs_at(hay@, needle@, j);
                assert(occurs_at(hay@, needle@, w));
                if w > i {
                    assert(!occurs_at(hay@, needle@, i as int));
                }
                assert(w == i);
            }
            return Some(i);
        }
        if i == hay.len() {
            break;
        }
        i += 1;
    }
    assert forall|j: int| !occurs_at(hay@, needle@, j) by {
        if 0 <= j <= hay.len() {
        }
    }
    None
}

pub fn contains_chars(hay: &[char], needle: &[char]) -> (b: bool)
    ensures
        b == contains(hay@, needle@),
{
    reveal(find);
    find_chars(hay, needle).is_some()
}

/// The characters of `v` equal those of the literal `lit`.
pub fn eq_lit(v: &[char], lit: &str) -> (b: bool)
    ensures
        b == (v@ == lit@),
{
    let l = chars_of(lit);
    if l.len() != v.len() {
        return false;
    }
    let mut k: usize = 0;
    while k < v.len()
        invariant
            l@ == lit@,
            l.len() == v.len(),
            k <= v.len(),
            forall|m: int| 0 <= m < k ==> v@[m] == l@[m],
        decreases v.len() - k,
    {
        if v[k] != l[k] {
            return false;
        }
        k += 1;
    }
    assert(v@ =~= l@);
    true
}

/// Appends the characters of `lit` to `v`.
pub fn push_lit(v: &mut Vec<char>, lit: &str)
    ensures
        final(v)@ == old(v)@ + lit@,
{
    let l = chars_of(lit);
    push_all(v, l.as_slice());
}

/// Appends the characters of `w` to `v`.
pub fn push_all(v: &mut Vec<char>, w: &[char])
    ensures
        final(v)@ == old(v)@ + w@,
{
    let ghost start = v@;
    let mut k: usize = 0;
    while k < w.len()
        invariant
            k <= w.len(),
            v@ == start + w@.take(k as int),
        decreases w.len() - k,
    {
        v.push(w[k]);
        k += 1;
        assert(v@ =~= start + w@.take(k as int));
    }
    assert(w@.take(w.len() as int) =~= w@);
}

/// The views of a sequence of character vectors.
pub open spec fn views(ws: Seq<Vec<char>>) -> Seq<Seq<char>> {
    ws.map_values(|w: Vec<char>| w@)
}

/// Left fold of whitespace splitting: the completed words and the word in progress.
pub open spec fn words_scan(s: Seq<char>) -> (Seq<Seq<char>>, Seq<char>)
    decreases s.len(),
{
    if s.len() == 0 {
        (Seq::empty(), Seq::empty())
    } else {
        let (done, cur) = words_scan(s.drop_last());
        let c = s.last();
        if spec_is_whitespace(c) {
            if cur.len() > 0 {
                (done.push(cur), Seq::empty())
            } else {
                (done, Seq::empty())
            }
        } else {
            (done, cur.push(c))
        }
    }
}

/// `str::split_whitespace`: the maximal runs of non-whitespace characters.
pub open spec fn words(s: Seq<char>) -> Seq<Seq<char>> {
    let (done, cur) = words_scan(s);
    if cur.len() > 0 {
        done.push(cur)
    } else {
        done
    }
}

pub fn words_of(v: &[char]) -> (r: Vec<Vec<char>>)
    ensures
        views(r@) == words(v@),
{
    let mut done: Vec<Vec<char>> = Vec::new();
    let mut cur: Vec<char> = Vec::new();
    let mut k: usize = 0;
    while k < v.len()
        invariant
            k <= v.len(),
            (views(done@), cur@) == words_scan(v@.take(k as int)),
        decreases v.len() - k,
    {
        let c = v[k];
        assert(v@.take(k + 1).drop_last() =~= v@.take(k as int));
        if is_whitespace(c) {
            if cur.len() > 0 {
                let w = cur;
                cur = Vec::new();
                let ghost before = done@;
                done.push(w);
                assert(views(done@) =~= views(before).push(w@));
            }
        } else {
            cur.push(c);
        }
        k += 1;
    }
    assert(v@.take(v.len() as int) =~= v@);
    if cur.len() > 0 {
        let ghost before = done@;
        done.push(cur);
        assert(views(done@) =~= views(before).push(cur@));
    }
    done
}

/// Joins `list` with `sep` between consecutive elements.
pub open spec fn join(list: Seq<Seq<char>>, sep: Seq<char>) -> Seq<char>
    decreases list.len(),
{
    if list.len() == 0 {
        Seq::empty()
    } else if list.len() == 1 {
        list[0]
    } else {
        join(list.drop_last(), sep) + sep + list.last()
    }
}

pub fn join_chars(list: &[Vec<char>], sep: &[char]) -> (r: Vec<char>)
    ensures
        r@ == join(views(list@), sep@),
{
    let mut r: Vec<char> = Vec::new();
    let mut k: usize = 0;
    while k < list.len()
        invariant
            k <= list.len(),
            r@ == join(views(list@.take(k as int)), sep@),
        decreases list.len() - k,
    {
        assert(views(list@.take(k + 1)).drop_last() =~= views(list@.take(k as int)));
        if k > 0 {
            push_all(&mut r, sep);
        }
        push_all(&mut r, list[k].as_slice());
        k += 1;
        assert(views(list@.take(k as int)).last() == list@[k - 1]@);
    }
    assert(list@.take(list.len() as int) =~= list@);
    r
}

/// Element-wise equality of two character slices.
pub fn eq_chars(a: &[char], b: &[char]) -> (r: bool)
    ensures
        r == (a@ == b@),
{
    if a.len() != b.len() {
        return false;
    }
    let mut k: usize = 0;
    while k < a.len()
        invariant
            a.len() == b.len(),
            k <= a.len(),
            forall|m: int| 0 <= m < k ==> a@[m] == b@[m],
        decreases a.len() - k,
    {
        if a[k] != b[k] {
            return false;
        }
        k += 1;
    }
    assert(a@ =~= b@);
    true
}

/// Whether `w` is one of the words of `list`.
pub fn contains_word(list: &[Vec<char>], w: &[char]) -> (r: bool)
    ensures
        r == views(list@).contains(w@),
{
    let mut k: usize = 0;
    while k < list.len()
        invariant
            k <= list.len(),
            forall|m: int| 0 <= m < k ==> list@[m]@ != w@,
        decreases list.len() - k,
    {
        if eq_chars(list[k].as_slice(), w) {
            assert(views(list@)[k as int] == w@);
            return true;
        }
        k += 1;
    }
    assert forall|m: int| 0 <= m < views(list@).len() implies views(list@)[m] != w@ by {
        assert(views(list@)[m] == list@[m]@);
    }
    false
}

/// A fresh copy of a character slice.
pub fn copy_chars(v: &[char]) -> (r: Vec<char>)
    ensures
        r@ == v@,
{
    let mut r: Vec<char> = Vec::new();
    let mut k: usize = 0;
    while k < v.len()
        invariant
            k <= v.len(),
            r@ == v@.take(k as int),
        decreases v.len() - k,
    {
        r.push(v[k]);
        k += 1;
        assert(r@ =~= v@.take(k as int));
    }
    assert(v@.take(v.len() as int) =~= v@);
    r
}

/// Decimal digit for `d < 10`.
pub open spec fn digit_char(d: nat) -> char {
    if d == 0 { '0' }
    else if d == 1 { '1' }
    else if d == 2 { '2' }
    else if d == 3 { '3' }
    else if d == 4 { '4' }
    else if d == 5 { '5' }
    else if d == 6 { '6' }
    else if d == 7 { '7' }
    else if d == 8 { '8' }
    else { '9' }
}

/// Decimal representation of `n` without leading zeros, as `Display` prints integers.
pub open spec fn decimal(n: nat) -> Seq<char>
    decreases n,
{
    if n < 10 {
        seq![digit_char(n)]
    } else {
        decimal(n / 10).push(digit_char(n % 10))
    }
}

fn digit_of(d: u64) -> (c: char)
    requires
        d < 10,
    ensures
        c == digit_char(d as nat),
{
    if d == 0 { '0' }
    else if d == 1 { '1' }
    else if d == 2 { '2' }
    else if d == 3 { '3' }
    else if d == 4 { '4' }
    else if d == 5 { '5' }
    else if d == 6 { '6' }
    else if d == 7 { '7' }
    else if d == 8 { '8' }
    else { '9' }
}

/// Decimal digits of `n`.
pub fn decimal_chars(n: u64) -> (r: Vec<char>)
    ensures
        r@ == decimal(n as nat),
    decreases n,
{
    if n < 10 {
        let mut r: Vec<char> = Vec::new();
        r.push(digit_of(n));
        assert(r@ =~= seq![digit_char(n as nat)]);
        r
    } else {
        let mut r = decimal_chars(n / 10);
        r.push(digit_of(n % 10));
        r
    }
}

/// `n.to_string()` for an unsigned integer.
pub fn decimal_string(n: u64) -> (r: String)
    ensures
        r@ == decimal(n as nat),
{
    let v = decimal_chars(n);
    string_of(v.as_slice())
}

/// `{:?}` of an optional string: `Some("...")` or `None`.
pub open spec fn debug_opt(o: Option<String>) -> Seq<char> {
    match o {
        Some(s) => "Some("@ + debug_str(s@) + ")"@,
        None => "None"@,
    }
}

pub fn debug_opt_string(o: &Option<String>) -> (r: String)
    ensures
        r@ == debug_opt(*o),
{
    match o {
        Some(s) => {
            let mut r = String::from_str("Some(");
            r.append(debug_quoted(s.as_str()).as_str());
            r.append(")");
            r
        },
        None => String::from_str("None"),
    }
}

/// `{:?}` of a list of strings: `["a", "b"]`.
pub open spec fn debug_list(v: Seq<String>) -> Seq<char> {
    "["@ + join(v.map_values(|s: String| debug_str(s@)), ", "@) + "]"@
}

pub fn debug_string_list(v: &Vec<String>) -> (r: String)
    ensures
        r@ == debug_list(v@),
{
    let mut items: Vec<Vec<char>> = Vec::new();
    let mut k: usize = 0;
    while k < v.len()
        invariant
            k <= v.len(),
            views(items@) == v@.take(k as int).map_values(|s: String| debug_str(s@)),
        decreases v.len() - k,
    {
        let d = debug_quoted(v[k].as_str());
        let ghost before = views(items@);
        items.push(chars_of(d.as_str()));
        assert(views(items@) =~= before.push(debug_str(v@[k as int]@)));
        k += 1;
        assert(v@.take(k as int).map_values(|s: String| debug_str(s@)) =~= before.push(
            debug_str(v@[k - 1]@),
        ));
    }
    assert(v@.take(v.len() as int) =~= v@);
    let sep = chars_of(", ");
    let mut out = chars_of("[");
    let joined = join_chars(items.as_slice(), sep.as_slice());
    push_all(&mut out, joined.as_slice());
    push_lit(&mut out, "]");
    string_of(out.as_slice())
}

/// `{}` of a boolean.
pub open spec fn bool_text(b: bool) -> Seq<char> {
    if b {
        "true"@
    } else {
        "false"@
    }
}

pub fn bool_string(b: bool) -> (r: String)
    ensures
        r@ == bool_text(b),
{
    if b {
        String::from_str("true")
    } else {
        String::from_str("false")
    }
}

} // verus!
