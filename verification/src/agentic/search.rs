//! Search-query normalization for the open-data lookups: character filtering,
//! accent folding, reply-prefix stripping and keyword extraction.

use crate::text::{
    ascii_lowercase, ascii_lowercase_chars, chars_of, eq_lit, is_ascii_alnum, is_whitespace, join,
    join_chars, lemma_lead_from_bounds, spec_is_ascii_alnum, spec_is_whitespace, starts_with,
    starts_with_chars, string_of, trim, trim_chars, trim_start, trim_start_chars, views, words,
    words_of,
};
use crate::trusted::{to_lowercase, unicode_lowercase};
use crate::text::{contains_word, copy_chars, decimal, decimal_string};
use crate::types::{string_views, EmailClassification, EmailIntent, GmailMessage, ProjectProfile, TaskAssessment};
use vstd::string::StringExecFns;
use vstd::prelude::*;
use vstd::utf8::encode_utf8;

verus! {

/// The first `n` elements of `s`, or all of them when there are fewer.
pub open spec fn first_n<A>(s: Seq<A>, n: nat) -> Seq<A> {
    if s.len() <= n {
        s
    } else {
        s.take(n as int)
    }
}

/// How a character fares in a search query: kept when it is an ASCII letter or
/// digit, whitespace, or one of `-_/.:+&`; line breaks and everything else become spaces.
pub open spec fn query_char(c: char) -> char {
    if c == '\n' || c == '\r' {
        ' '
    } else if spec_is_ascii_alnum(c) || spec_is_whitespace(c) || c == '-' || c == '_' || c == '/'
        || c == '.' || c == ':' || c == '+' || c == '&' {
        c
    } else {
        ' '
    }
}

pub fn query_char_of(c: char) -> (r: char)
    ensures
        r == query_char(c),
{
    if c == '\n' || c == '\r' {
        ' '
    } else if is_ascii_alnum(c) || is_whitespace(c) || c == '-' || c == '_' || c == '/' || c == '.'
        || c == ':' || c == '+' || c == '&' {
        c
    } else {
        ' '
    }
}

/// Politeness and function words dropped from search queries.
pub open spec fn is_filler_word(w: Seq<char>) -> bool {
    w == "i"@ || w == "me"@ || w == "you"@ || w == "the"@ || w == "a"@ || w == "an"@ || w == "and"@
        || w == "or"@ || w == "of"@ || w == "to"@ || w == "for"@ || w == "with"@ || w == "in"@
        || w == "on"@ || w == "at"@ || w == "that"@ || w == "this"@ || w == "from"@ || w
        == "about"@ || w == "please"@ || w == "could"@ || w == "would"@ || w == "should"@ || w
        == "thank"@ || w == "thanks"@ || w == "kindly"@ || w == "cordially"@ || w == "bonjour"@
        || w == "merci"@
}

pub fn is_filler(w: &[char]) -> (b: bool)
    ensures
        b == is_filler_word(w@),
{
    eq_lit(w, "i") || eq_lit(w, "me") || eq_lit(w, "you") || eq_lit(w, "the") || eq_lit(w, "a")
        || eq_lit(w, "an") || eq_lit(w, "and") || eq_lit(w, "or") || eq_lit(w, "of") || eq_lit(
        w,
        "to",
    ) || eq_lit(w, "for") || eq_lit(w, "with") || eq_lit(w, "in") || eq_lit(w, "on") || eq_lit(
        w,
        "at",
    ) || eq_lit(w, "that") || eq_lit(w, "this") || eq_lit(w, "from") || eq_lit(w, "about")
        || eq_lit(w, "please") || eq_lit(w, "could") || eq_lit(w, "would") || eq_lit(w, "should")
        || eq_lit(w, "thank") || eq_lit(w, "thanks") || eq_lit(w, "kindly") || eq_lit(
        w,
        "cordially",
    ) || eq_lit(w, "bonjour") || eq_lit(w, "merci")
}

/// `ws` without its filler words, in order.
pub open spec fn drop_fillers(ws: Seq<Seq<char>>) -> Seq<Seq<char>>
    decreases ws.len(),
{
    if ws.len() == 0 {
        ws
    } else if is_filler_word(ws.last()) {
        drop_fillers(ws.drop_last())
    } else {
        drop_fillers(ws.drop_last()).push(ws.last())
    }
}

/// A search query cleaned of punctuation and filler words: at most 32 words
/// separated by single spaces.
pub open spec fn sanitized_query(s: Seq<char>) -> Seq<char> {
    join(first_n(drop_fillers(words(s.map_values(|c: char| query_char(c)))), 32), " "@)
}

pub fn sanitize_query_text(input: &str) -> (r: String)
    ensures
        r@ == sanitized_query(input@),
{
    let v = chars_of(input);
    let mut mapped: Vec<char> = Vec::new();
    let mut k: usize = 0;
    while k < v.len()
        invariant
            k <= v.len(),
            mapped@ == v@.take(k as int).map_values(|c: char| query_char(c)),
        decreases v.len() - k,
    {
        mapped.push(query_char_of(v[k]));
        k += 1;
        assert(mapped@ =~= v@.take(k as int).map_values(|c: char| query_char(c)));
    }
    assert(v@.take(v.len() as int) =~= v@);
    let ws = words_of(mapped.as_slice());
    let mut kept: Vec<Vec<char>> = Vec::new();
    let mut j: usize = 0;
    while j < ws.len()
        invariant
            j <= ws.len(),
            views(kept@) == first_n(drop_fillers(views(ws@).take(j as int)), 32),
        decreases ws.len() - j,
    {
        let ghost before = views(ws@).take(j as int);
        assert(views(ws@).take(j + 1).drop_last() =~= before);
        assert(views(ws@).take(j + 1).last() == ws@[j as int]@);
        if !is_filler(ws[j].as_slice()) && kept.len() < 32 {
            let ghost kv = views(kept@);
            kept.push(copy_chars(ws[j].as_slice()));
            assert(views(kept@) =~= kv.push(ws@[j as int]@));
        }
        j += 1;
    }
    assert(views(ws@).take(ws.len() as int) =~= views(ws@));
    let sep = chars_of(" ");
    let joined = join_chars(kept.as_slice(), sep.as_slice());
    string_of(joined.as_slice())
}

/// ASCII spelling of one character: accented Latin letters lose their accent,
/// ligatures and `ß` are spelled out, everything else is kept.
pub open spec fn fold_accent(c: char) -> Seq<char> {
    if c == 'à' || c == 'á' || c == 'â' || c == 'ã' || c == 'ä' || c == 'å' || c == 'æ' || c == 'ā' {
        seq!['a']
    } else if c == 'À' || c == 'Á' || c == 'Â' || c == 'Ã' || c == 'Ä' || c == 'Å' {
        seq!['A']
    } else if c == 'è' || c == 'é' || c == 'ê' || c == 'ë' || c == 'ē' || c == 'ė' || c == 'ę' {
        seq!['e']
    } else if c == 'È' || c == 'É' || c == 'Ê' || c == 'Ë' || c == 'Ē' || c == 'Ė' || c == 'Ę' {
        seq!['E']
    } else if c == 'ì' || c == 'í' || c == 'î' || c == 'ï' || c == 'ī' || c == 'į' || c == 'ı' {
        seq!['i']
    } else if c == 'Ì' || c == 'Í' || c == 'Î' || c == 'Ï' || c == 'Ī' || c == 'Į' {
        seq!['I']
    } else if c == 'ò' || c == 'ó' || c == 'ô' || c == 'õ' || c == 'ö' || c == 'ø' {
        seq!['o']
    } else if c == 'Ò' || c == 'Ó' || c == 'Ô' || c == 'Õ' || c == 'Ö' || c == 'Ø' {
        seq!['O']
    } else if c == 'ù' || c == 'ú' || c == 'û' || c == 'ü' || c == 'ū' {
        seq!['u']
    } else if c == 'Ù' || c == 'Ú' || c == 'Û' || c == 'Ü' || c == 'Ū' {
        seq!['U']
    } else if c == 'ç' {
        seq!['c']
    } else if c == 'Ç' {
        seq!['C']
    } else if c == 'œ' {
        seq!['o', 'e']
    } else if c == 'Œ' {
        seq!['O', 'E']
    } else if c == 'ß' {
        seq!['s', 's']
    } else if c == 'ÿ' {
        seq!['y']
    } else if c == 'Ÿ' {
        seq!['Y']
    } else {
        seq![c]
    }
}

/// `s` with every character replaced by its ASCII spelling.
pub open spec fn fold_accents(s: Seq<char>) -> Seq<char>
    decreases s.len(),
{
    if s.len() == 0 {
        Seq::empty()
    } else {
        fold_accents(s.drop_last()) + fold_accent(s.last())
    }
}

/// Appends the ASCII spelling of `c`.
pub fn push_folded(out: &mut Vec<char>, c: char)
    ensures
        final(out)@ == old(out)@ + fold_accent(c),
{
    let ghost start = out@;
    if c == 'à' || c == 'á' || c == 'â' || c == 'ã' || c == 'ä' || c == 'å' || c == 'æ' || c == 'ā' {
        out.push('a');
    } else if c == 'À' || c == 'Á' || c == 'Â' || c == 'Ã' || c == 'Ä' || c == 'Å' {
        out.push('A');
    } else if c == 'è' || c == 'é' || c == 'ê' || c == 'ë' || c == 'ē' || c == 'ė' || c == 'ę' {
        out.push('e');
    } else if c == 'È' || c == 'É' || c == 'Ê' || c == 'Ë' || c == 'Ē' || c == 'Ė' || c == 'Ę' {
        out.push('E');
    } else if c == 'ì' || c == 'í' || c == 'î' || c == 'ï' || c == 'ī' || c == 'į' || c == 'ı' {
        out.push('i');
    } else if c == 'Ì' || c == 'Í' || c == 'Î' || c == 'Ï' || c == 'Ī' || c == 'Į' {
        out.push('I');
    } else if c == 'ò' || c == 'ó' || c == 'ô' || c == 'õ' || c == 'ö' || c == 'ø' {
        out.push('o');
    } else if c == 'Ò' || c == 'Ó' || c == 'Ô' || c == 'Õ' || c == 'Ö' || c == 'Ø' {
        out.push('O');
    } else if c == 'ù' || c == 'ú' || c == 'û' || c == 'ü' || c == 'ū' {
        out.push('u');
    } else if c == 'Ù' || c == 'Ú' || c == 'Û' || c == 'Ü' || c == 'Ū' {
        out.push('U');
    } else if c == 'ç' {
        out.push('c');
    } else if c == 'Ç' {
        out.push('C');
    } else if c == 'œ' {
        out.push('o');
        out.push('e');
    } else if c == 'Œ' {
        out.push('O');
        out.push('E');
    } else if c == 'ß' {
        out.push('s');
        out.push('s');
    } else if c == 'ÿ' {
        out.push('y');
    } else if c == 'Ÿ' {
        out.push('Y');
    } else {
        out.push(c);
    }
    assert(out@ =~= start + fold_accent(c));
}

/// Accent folding followed by query cleaning.
pub open spec fn transliterated(s: Seq<char>) -> Seq<char> {
    sanitized_query(fold_accents(s))
}

pub fn transliterate_accents(input: &str) -> (r: String)
    ensures
        r@ == transliterated(input@),
{
    let v = chars_of(input);
    let mut out: Vec<char> = Vec::new();
    let mut k: usize = 0;
    while k < v.len()
        invariant
            k <= v.len(),
            out@ == fold_accents(v@.take(k as int)),
        decreases v.len() - k,
    {
        assert(v@.take(k + 1).drop_last() =~= v@.take(k as int));
        push_folded(&mut out, v[k]);
        k += 1;
    }
    assert(v@.take(v.len() as int) =~= v@);
    let folded = string_of(out.as_slice());
    sanitize_query_text(folded.as_str())
}

/// Text prepared for a search query: accents folded, then cleaned twice.
pub open spec fn normalized_search(s: Seq<char>) -> Seq<char> {
    sanitized_query(transliterated(s))
}

pub fn normalize_search_text(input: &str) -> (r: String)
    ensures
        r@ == normalized_search(input@),
{
    let t = transliterate_accents(input);
    sanitize_query_text(t.as_str())
}

/// Reply and forward markers stripped from the front of subjects.
pub open spec fn subject_prefixes() -> Seq<Seq<char>> {
    seq![
        seq!['r', 'e', ':'],
        seq!['f', 'w', ':'],
        seq!['f', 'w', 'd', ':'],
        seq!['a', 'w', ':'],
        seq!['t', 'r', ':'],
        seq!['s', 'v', ':'],
        seq!['r', 'e', 'f', ':'],
        seq!['m', 'a', 'r', 'i', 'a', 'n', 'n', 'e', 'a', 'i', ':'],
    ]
}

/// The first marker, in list order from `k` on, that `lowered` starts with.
pub open spec fn first_prefix_from(lowered: Seq<char>, k: int) -> Option<Seq<char>>
    decreases 8 - k,
{
    if k < 0 || k >= 8 {
        None
    } else if starts_with(lowered, subject_prefixes()[k]) {
        Some(subject_prefixes()[k])
    } else {
        first_prefix_from(lowered, k + 1)
    }
}

pub proof fn lemma_first_prefix_len(lowered: Seq<char>, k: int)
    ensures
        first_prefix_from(lowered, k) matches Some(p) ==> 3 <= p.len() <= lowered.len()
            && starts_with(lowered, p),
    decreases 8 - k,
{
    if 0 <= k < 8 && !starts_with(lowered, subject_prefixes()[k]) {
        lemma_first_prefix_len(lowered, k + 1);
    }
}

/// Repeatedly removes a leading marker, in any ASCII case, and the whitespace after it.
pub open spec fn strip_subject_prefixes(s: Seq<char>) -> Seq<char>
    decreases s.len(),
{
    match first_prefix_from(ascii_lowercase(s), 0) {
        None => s,
        Some(p) => {
            proof {
                lemma_first_prefix_len(ascii_lowercase(s), 0);
                lemma_lead_from_bounds(s.skip(p.len() as int), 0);
            }
            strip_subject_prefixes(trim_start(s.skip(p.len() as int)))
        },
    }
}

/// Line breaks become spaces.
pub open spec fn line_break_to_space(c: char) -> char {
    if c == '\n' || c == '\r' {
        ' '
    } else {
        c
    }
}

/// A subject without reply/forward markers, with its words separated by single spaces.
pub open spec fn normalized_subject(subject: Seq<char>) -> Seq<char> {
    join(
        words(trim(strip_subject_prefixes(trim(subject))).map_values(|c: char| line_break_to_space(c))),
        " "@,
    )
}

fn subject_prefix_list() -> (r: Vec<Vec<char>>)
    ensures
        views(r@) == subject_prefixes(),
        r@.len() == 8,
{
    let mut r: Vec<Vec<char>> = Vec::new();
    r.push(vec!['r', 'e', ':']);
    r.push(vec!['f', 'w', ':']);
    r.push(vec!['f', 'w', 'd', ':']);
    r.push(vec!['a', 'w', ':']);
    r.push(vec!['t', 'r', ':']);
    r.push(vec!['s', 'v', ':']);
    r.push(vec!['r', 'e', 'f', ':']);
    r.push(vec!['m', 'a', 'r', 'i', 'a', 'n', 'n', 'e', 'a', 'i', ':']);
    assert(views(r@) =~= subject_prefixes());
    r
}

fn first_prefix(lowered: &[char], prefixes: &Vec<Vec<char>>) -> (r: Option<usize>)
    requires
        views(prefixes@) == subject_prefixes(),
        prefixes@.len() == 8,
    ensures
        r is Some <==> first_prefix_from(lowered@, 0) is Some,
        r matches Some(k) ==> k < 8 && first_prefix_from(lowered@, 0) == Some(prefixes@[k as int]@),
{
    let mut k: usize = 0;
    while k < prefixes.len()
        invariant
            views(prefixes@) == subject_prefixes(),
            prefixes@.len() == 8,
            k <= 8,
            first_prefix_from(lowered@, 0) == first_prefix_from(lowered@, k as int),
        decreases 8 - k,
    {
        assert(prefixes@[k as int]@ == subject_prefixes()[k as int]);
        if starts_with_chars(lowered, prefixes[k].as_slice()) {
            return Some(k);
        }
        k += 1;
    }
    None
}

/// Strips reply and forward markers (`Re:`, `Fwd:`, `MarianneAI:` ...) from a subject.
pub fn normalize_subject_query(subject: &str) -> (r: String)
    ensures
        r@ == normalized_subject(subject@),
{
    let prefixes = subject_prefix_list();
    let mut cleaned = trim_chars(chars_of(subject).as_slice());
    loop
        invariant
            views(prefixes@) == subject_prefixes(),
            prefixes@.len() == 8,
            strip_subject_prefixes(trim(subject@)) == strip_subject_prefixes(cleaned@),
        ensures
            strip_subject_prefixes(trim(subject@)) == cleaned@,
        decreases cleaned@.len(),
    {
        let lowered = ascii_lowercase_chars(cleaned.as_slice());
        match first_prefix(lowered.as_slice(), &prefixes) {
            None => {
                break;
            },
            Some(k) => {
                let n = prefixes[k].len();
                proof {
                    lemma_first_prefix_len(lowered@, 0);
                }
                let mut rest: Vec<char> = Vec::new();
                let mut m: usize = n;
                while m < cleaned.len()
                    invariant
                        n <= m <= cleaned.len(),
                        rest@ == cleaned@.subrange(n as int, m as int),
                    decreases cleaned.len() - m,
                {
                    rest.push(cleaned[m]);
                    m += 1;
                }
                let next = trim_start_chars(rest.as_slice());
                proof {
                    lemma_lead_from_bounds(rest@, 0);
                }
                cleaned = next;
            },
        }
    }
    let trimmed = trim_chars(cleaned.as_slice());
    let mut spaced: Vec<char> = Vec::new();
    let mut k: usize = 0;
    while k < trimmed.len()
        invariant
            k <= trimmed.len(),
            spaced@ == trimmed@.take(k as int).map_values(|c: char| line_break_to_space(c)),
        decreases trimmed.len() - k,
    {
        let c = trimmed[k];
        spaced.push(if c == '\n' || c == '\r' { ' ' } else { c });
        k += 1;
        assert(spaced@ =~= trimmed@.take(k as int).map_values(|c: char| line_break_to_space(c)));
    }
    assert(trimmed@.take(trimmed.len() as int) =~= trimmed@);
    let ws = words_of(spaced.as_slice());
    let sep = chars_of(" ");
    let joined = join_chars(ws.as_slice(), sep.as_slice());
    string_of(joined.as_slice())
}

/// Short words that carry no search value.
pub open spec fn is_stop_word(w: Seq<char>) -> bool {
    w == "and"@ || w == "or"@ || w == "the"@ || w == "a"@ || w == "an"@ || w == "of"@ || w == "to"@
        || w == "for"@ || w == "with"@ || w == "in"@ || w == "on"@ || w == "at"@ || w == "that"@
        || w == "this"@ || w == "from"@ || w == "about"@ || w == "it"@ || w == "its"@ || w
        == "i"@ || w == "me"@ || w == "we"@ || w == "you"@ || w == "they"@ || w == "them"@ || w
        == "his"@ || w == "her"@ || w == "hers"@ || w == "is"@ || w == "are"@ || w == "was"@ || w
        == "were"@ || w == "be"@ || w == "not"@ || w == "no"@ || w == "as"@ || w == "if"@ || w
        == "how"@ || w == "why"@ || w == "when"@ || w == "where"@ || w == "who"@ || w
        == "which"@
}

pub fn is_stop(w: &[char]) -> (b: bool)
    ensures
        b == is_stop_word(w@),
{
    eq_lit(w, "and") || eq_lit(w, "or") || eq_lit(w, "the") || eq_lit(w, "a") || eq_lit(w, "an")
        || eq_lit(w, "of") || eq_lit(w, "to") || eq_lit(w, "for") || eq_lit(w, "with") || eq_lit(
        w,
        "in",
    ) || eq_lit(w, "on") || eq_lit(w, "at") || eq_lit(w, "that") || eq_lit(w, "this") || eq_lit(
        w,
        "from",
    ) || eq_lit(w, "about") || eq_lit(w, "it") || eq_lit(w, "its") || eq_lit(w, "i") || eq_lit(
        w,
        "me",
    ) || eq_lit(w, "we") || eq_lit(w, "you") || eq_lit(w, "they") || eq_lit(w, "them")
        || eq_lit(w, "his") || eq_lit(w, "her") || eq_lit(w, "hers") || eq_lit(w, "is") || eq_lit(
        w,
        "are",
    ) || eq_lit(w, "was") || eq_lit(w, "were") || eq_lit(w, "be") || eq_lit(w, "not") || eq_lit(
        w,
        "no",
    ) || eq_lit(w, "as") || eq_lit(w, "if") || eq_lit(w, "how") || eq_lit(w, "why") || eq_lit(
        w,
        "when",
    ) || eq_lit(w, "where") || eq_lit(w, "who") || eq_lit(w, "which")
}

/// The lower-cased words of each part, part after part.
pub open spec fn part_tokens(parts: Seq<Seq<char>>) -> Seq<Seq<char>>
    decreases parts.len(),
{
    if parts.len() == 0 {
        Seq::empty()
    } else {
        part_tokens(parts.drop_last()) + words(parts.last()).map_values(
            |w: Seq<char>| unicode_lowercase(w),
        )
    }
}

/// A token worth keeping: not a stop word and longer than two bytes in UTF-8.
pub open spec fn is_keyword(w: Seq<char>) -> bool {
    !is_stop_word(w) && encode_utf8(w).len() > 2
}

/// The keywords among `ws`, in order.
pub open spec fn keep_keywords(ws: Seq<Seq<char>>) -> Seq<Seq<char>>
    decreases ws.len(),
{
    if ws.len() == 0 {
        ws
    } else if is_keyword(ws.last()) {
        keep_keywords(ws.drop_last()).push(ws.last())
    } else {
        keep_keywords(ws.drop_last())
    }
}

/// `ws` with later repetitions removed, first occurrences kept in order.
pub open spec fn dedup<A>(ws: Seq<A>) -> Seq<A>
    decreases ws.len(),
{
    if ws.len() == 0 {
        ws
    } else if dedup(ws.drop_last()).contains(ws.last()) {
        dedup(ws.drop_last())
    } else {
        dedup(ws.drop_last()).push(ws.last())
    }
}

/// Up to twenty distinct lower-case keywords drawn from `parts`, space separated.
pub open spec fn query_keywords(parts: Seq<Seq<char>>) -> Seq<char> {
    join(first_n(dedup(keep_keywords(part_tokens(parts))), 20), " "@)
}

/// The views of a slice of string slices.
pub open spec fn str_views(parts: Seq<&str>) -> Seq<Seq<char>> {
    parts.map_values(|p: &str| p@)
}

fn lowercase_words(part: &str) -> (r: Vec<Vec<char>>)
    ensures
        views(r@) == words(part@).map_values(|w: Seq<char>| unicode_lowercase(w)),
{
    let ws = words_of(chars_of(part).as_slice());
    let mut out: Vec<Vec<char>> = Vec::new();
    let mut k: usize = 0;
    while k < ws.len()
        invariant
            k <= ws.len(),
            views(out@) == views(ws@).take(k as int).map_values(|w: Seq<char>| unicode_lowercase(w)),
        decreases ws.len() - k,
    {
        let word = string_of(ws[k].as_slice());
        let lower = to_lowercase(word.as_str());
        let ghost before = views(out@);
        out.push(chars_of(lower.as_str()));
        assert(views(out@) =~= before.push(unicode_lowercase(ws@[k as int]@)));
        k += 1;
        assert(views(ws@).take(k as int).map_values(|w: Seq<char>| unicode_lowercase(w)) =~= before.push(
            unicode_lowercase(ws@[k - 1]@),
        ));
    }
    assert(views(ws@).take(ws.len() as int) =~= views(ws@));
    out
}

/// Distinct lower-case keywords from the given texts, at most twenty, joined by spaces.
pub fn compose_query_keywords(parts: &[&str]) -> (r: String)
    ensures
        r@ == query_keywords(str_views(parts@)),
{
    let mut tokens: Vec<Vec<char>> = Vec::new();
    let mut k: usize = 0;
    while k < parts.len()
        invariant
            k <= parts.len(),
            views(tokens@) == part_tokens(str_views(parts@).take(k as int)),
        decreases parts.len() - k,
    {
        assert(str_views(parts@).take(k + 1).drop_last() =~= str_views(parts@).take(k as int));
        let lw = lowercase_words(parts[k]);
        let ghost before = views(tokens@);
        let mut m: usize = 0;
        while m < lw.len()
            invariant
                m <= lw.len(),
                views(tokens@) == before + views(lw@).take(m as int),
            decreases lw.len() - m,
        {
            let ghost tv = views(tokens@);
            tokens.push(copy_chars(lw[m].as_slice()));
            assert(views(tokens@) =~= tv.push(lw@[m as int]@));
            assert(views(lw@).take(m + 1) =~= views(lw@).take(m as int).push(lw@[m as int]@));
            m += 1;
            assert(views(tokens@) =~= before + views(lw@).take(m as int));
        }
        assert(views(lw@).take(lw.len() as int) =~= views(lw@));
        k += 1;
    }
    assert(str_views(parts@).take(parts.len() as int) =~= str_views(parts@));
    let mut kept: Vec<Vec<char>> = Vec::new();
    let mut j: usize = 0;
    while j < tokens.len()
        invariant
            j <= tokens.len(),
            views(kept@) == first_n(dedup(keep_keywords(views(tokens@).take(j as int))), 20),
        decreases tokens.len() - j,
    {
        let ghost prev = views(tokens@).take(j as int);
        let ghost t = tokens@[j as int]@;
        assert(views(tokens@).take(j + 1) =~= prev.push(t));
        assert(prev.push(t).drop_last() =~= prev);
        let ghost d = dedup(keep_keywords(prev));
        let word = string_of(tokens[j].as_slice());
        let bytes = word.as_str().as_bytes().len();
        assert(views(kept@).len() == kept@.len());
        if !is_stop(tokens[j].as_slice()) && bytes > 2 {
            assert(keep_keywords(prev.push(t)) == keep_keywords(prev).push(t));
            assert(keep_keywords(prev).push(t).drop_last() =~= keep_keywords(prev));
            assert(keep_keywords(prev).push(t).last() == t);
            if kept.len() < 20 {
                assert(d.len() < 20);
                assert(views(kept@) == d);
                if !contains_word(kept.as_slice(), tokens[j].as_slice()) {
                    let ghost kv = views(kept@);
                    kept.push(copy_chars(tokens[j].as_slice()));
                    assert(views(kept@) =~= kv.push(t));
                    assert(dedup(keep_keywords(prev.push(t))) == d.push(t));
                } else {
                    assert(dedup(keep_keywords(prev.push(t))) == d);
                }
            } else {
                assert(d.len() >= 20);
                assert(d.push(t).take(20) =~= d.take(20));
            }
        } else {
            assert(keep_keywords(prev.push(t)) == keep_keywords(prev));
        }
        j += 1;
    }
    assert(views(tokens@).take(tokens.len() as int) =~= views(tokens@));
    let sep = chars_of(" ");
    let joined = join_chars(kept.as_slice(), sep.as_slice());
    string_of(joined.as_slice())
}

/// Normalized entity names that keep some text, in order.
pub open spec fn entity_terms(es: Seq<Seq<char>>) -> Seq<Seq<char>>
    decreases es.len(),
{
    if es.len() == 0 {
        Seq::empty()
    } else {
        let t = normalized_search(es.last());
        if trim(t).len() > 0 {
            entity_terms(es.drop_last()).push(t)
        } else {
            entity_terms(es.drop_last())
        }
    }
}

fn entity_terms_of(es: &Vec<String>) -> (r: Vec<Vec<char>>)
    ensures
        views(r@) == entity_terms(string_views(es@)),
{
    let mut r: Vec<Vec<char>> = Vec::new();
    let mut k: usize = 0;
    while k < es.len()
        invariant
            k <= es.len(),
            views(r@) == entity_terms(string_views(es@).take(k as int)),
        decreases es.len() - k,
    {
        assert(string_views(es@).take(k + 1).drop_last() =~= string_views(es@).take(k as int));
        let t = normalize_search_text(es[k].as_str());
        let tc = chars_of(t.as_str());
        let trimmed = trim_chars(tc.as_slice());
        if trimmed.len() > 0 {
            let ghost before = views(r@);
            r.push(tc);
            assert(views(r@) =~= before.push(normalized_search(es@[k as int]@)));
        }
        k += 1;
    }
    assert(string_views(es@).take(es.len() as int) =~= string_views(es@));
    r
}

/// The subject used for searches, with the default when there is none.
pub open spec fn subject_or(m: GmailMessage, default: Seq<char>) -> Seq<char> {
    match m.subject {
        Some(s) => s@,
        None => default,
    }
}

fn subject_text<'a>(m: &'a GmailMessage, default: &'a str) -> (r: &'a str)
    ensures
        r@ == subject_or(*m, default@),
{
    match &m.subject {
        Some(s) => s.as_str(),
        None => default,
    }
}

/// `a` unless it is empty, then `b`.
pub open spec fn or_else(a: Seq<char>, b: Seq<char>) -> Seq<char> {
    if a.len() == 0 {
        b
    } else {
        a
    }
}

fn or_else_string(a: String, b: &str) -> (r: String)
    ensures
        r@ == or_else(a@, b@),
{
    if a.as_str().unicode_len() == 0 {
        String::from_str(b)
    } else {
        a
    }
}

fn keywords_of(parts: Vec<&str>) -> (r: String)
    ensures
        r@ == query_keywords(str_views(parts@)),
{
    compose_query_keywords(parts.as_slice())
}

/// The main structured search query for an email.
pub open spec fn structured_query(
    p: ProjectProfile,
    m: GmailMessage,
    c: EmailClassification,
    i: EmailIntent,
    a: TaskAssessment,
) -> Seq<char> {
    let subject = normalized_search(normalized_subject(subject_or(m, "General MarianneAI inquiry"@)));
    let project_name = normalized_search(p.name@);
    let category = normalized_search(c.category@);
    let outcome = or_else(normalized_search(i.requested_outcome@), "search french public data by theme"@);
    let summary = or_else(normalized_search(i.intent_summary@), normalized_search(i.task_description@));
    let context = or_else(summary, "civic data analysis"@);
    let entities = or_else(join(entity_terms(string_views(i.key_entities@)), ", "@), "public data"@);
    let source = normalized_search(p.website@);
    let keywords = query_keywords(seq![subject, category, outcome, context, entities]);
    "Professional public-data search for MarianneAI | project: "@ + project_name + " | keywords: "@
        + keywords + " | focus: "@ + subject + " | source: "@ + source + " | clarity="@ + decimal(
        a.clarity_score as nat,
    )
}

/// Builds the main structured search query for an email.
pub fn build_datagouv_query(
    profile: &ProjectProfile,
    message: &GmailMessage,
    classification: &EmailClassification,
    intent: &EmailIntent,
    assessment: &TaskAssessment,
) -> (r: String)
    ensures
        r@ == structured_query(*profile, *message, *classification, *intent, *assessment),
{
    let raw_subject = normalize_subject_query(subject_text(message, "General MarianneAI inquiry"));
    let subject = normalize_search_text(raw_subject.as_str());
    let project_name = normalize_search_text(profile.name.as_str());
    let category = normalize_search_text(classification.category.as_str());
    let outcome = or_else_string(
        normalize_search_text(intent.requested_outcome.as_str()),
        "search french public data by theme",
    );
    let summary = normalize_search_text(intent.intent_summary.as_str());
    let summary = if summary.as_str().unicode_len() == 0 {
        normalize_search_text(intent.task_description.as_str())
    } else {
        summary
    };
    let context = or_else_string(summary, "civic data analysis");
    let terms = entity_terms_of(&intent.key_entities);
    let sep = chars_of(", ");
    let joined = string_of(join_chars(terms.as_slice(), sep.as_slice()).as_slice());
    let entities = or_else_string(joined, "public data");
    let source = normalize_search_text(profile.website.as_str());
    let mut parts: Vec<&str> = Vec::new();
    parts.push(subject.as_str());
    parts.push(category.as_str());
    parts.push(outcome.as_str());
    parts.push(context.as_str());
    parts.push(entities.as_str());
    assert(str_views(parts@) =~= seq![subject@, category@, outcome@, context@, entities@]);
    let keywords = keywords_of(parts);
    let mut q = String::from_str("Professional public-data search for MarianneAI | project: ");
    q.append(project_name.as_str());
    q.append(" | keywords: ");
    q.append(keywords.as_str());
    q.append(" | focus: ");
    q.append(subject.as_str());
    q.append(" | source: ");
    q.append(source.as_str());
    q.append(" | clarity=");
    q.append(decimal_string(assessment.clarity_score as u64).as_str());
    q
}

/// The focused search query: subject, category, outcome, title and description terms.
pub open spec fn focus_query(
    p: ProjectProfile,
    m: GmailMessage,
    c: EmailClassification,
    i: EmailIntent,
    a: TaskAssessment,
) -> Seq<char> {
    let subject = normalized_subject(subject_or(m, "General MarianneAI inquiry"@));
    let project_name = normalized_search(p.name@);
    let key_terms = query_keywords(
        seq![
            subject,
            normalized_search(c.category@),
            normalized_search(i.requested_outcome@),
            normalized_search(i.task_title@),
            normalized_search(i.task_description@),
        ],
    );
    let confidence = if a.clarity_score > 0 {
        "clarity="@ + decimal(a.clarity_score as nat)
    } else {
        "clarity=unknown"@
    };
    if key_terms.len() == 0 {
        "French public data | project: "@ + project_name + " | "@ + confidence
    } else {
        "French public data | project: "@ + project_name + " | terms: "@ + key_terms + " | "@
            + confidence
    }
}

/// Builds the focused search query.
pub fn build_datagouv_focus_query(
    profile: &ProjectProfile,
    message: &GmailMessage,
    classification: &EmailClassification,
    intent: &EmailIntent,
    assessment: &TaskAssessment,
) -> (r: String)
    ensures
        r@ == focus_query(*profile, *message, *classification, *intent, *assessment),
{
    let subject = normalize_subject_query(subject_text(message, "General MarianneAI inquiry"));
    let project_name = normalize_search_text(profile.name.as_str());
    let category = normalize_search_text(classification.category.as_str());
    let outcome = normalize_search_text(intent.requested_outcome.as_str());
    let title = normalize_search_text(intent.task_title.as_str());
    let context = normalize_search_text(intent.task_description.as_str());
    let mut parts: Vec<&str> = Vec::new();
    parts.push(subject.as_str());
    parts.push(category.as_str());
    parts.push(outcome.as_str());
    parts.push(title.as_str());
    parts.push(context.as_str());
    assert(str_views(parts@) =~= seq![subject@, category@, outcome@, title@, context@]);
    let key_terms = keywords_of(parts);
    let confidence = if assessment.clarity_score > 0 {
        let mut c = String::from_str("clarity=");
        c.append(decimal_string(assessment.clarity_score as u64).as_str());
        c
    } else {
        String::from_str("clarity=unknown")
    };
    let mut q = String::from_str("French public data | project: ");
    q.append(project_name.as_str());
    if key_terms.as_str().unicode_len() == 0 {
        q.append(" | ");
    } else {
        q.append(" | terms: ");
        q.append(key_terms.as_str());
        q.append(" | ");
    }
    q.append(confidence.as_str());
    q
}

/// The keywords of each entity, one entity after another.
pub open spec fn entity_keywords(es: Seq<Seq<char>>) -> Seq<Seq<char>> {
    es.map_values(|e: Seq<char>| query_keywords(seq![normalized_search(e)]))
}

/// The shortest search query: subject and entity keywords only.
pub open spec fn keyword_only_query(m: GmailMessage, i: EmailIntent) -> Seq<char> {
    let subject = normalized_search(normalized_subject(subject_or(m, "French public data"@)));
    let entities = join(entity_keywords(string_views(i.key_entities@)), " "@);
    let keywords = query_keywords(seq![subject, entities]);
    if keywords.len() == 0 {
        "French public data"@
    } else {
        "French public data | keywords: "@ + keywords
    }
}

/// Builds the shortest, keyword-only search query.
pub fn build_datagouv_keyword_only_query(message: &GmailMessage, intent: &EmailIntent) -> (r: String)
    ensures
        r@ == keyword_only_query(*message, *intent),
{
    let raw_subject = normalize_subject_query(subject_text(message, "French public data"));
    let subject = normalize_search_text(raw_subject.as_str());
    let es = &intent.key_entities;
    let mut items: Vec<Vec<char>> = Vec::new();
    let mut k: usize = 0;
    while k < es.len()
        invariant
            k <= es.len(),
            views(items@) == entity_keywords(string_views(es@).take(k as int)),
        decreases es.len() - k,
    {
        let n = normalize_search_text(es[k].as_str());
        let mut one: Vec<&str> = Vec::new();
        one.push(n.as_str());
        assert(str_views(one@) =~= seq![n@]);
        let kw = keywords_of(one);
        let ghost before = views(items@);
        items.push(chars_of(kw.as_str()));
        assert(views(items@) =~= before.push(query_keywords(seq![normalized_search(es@[k as int]@)])));
        k += 1;
        assert(entity_keywords(string_views(es@).take(k as int)) =~= before.push(
            query_keywords(seq![normalized_search(es@[k - 1]@)]),
        ));
    }
    assert(string_views(es@).take(es.len() as int) =~= string_views(es@));
    let sep = chars_of(" ");
    let entities = string_of(join_chars(items.as_slice(), sep.as_slice()).as_slice());
    let mut parts: Vec<&str> = Vec::new();
    parts.push(subject.as_str());
    parts.push(entities.as_str());
    assert(str_views(parts@) =~= seq![subject@, entities@]);
    let keywords = keywords_of(parts);
    if keywords.as_str().unicode_len() == 0 {
        String::from_str("French public data")
    } else {
        let mut q = String::from_str("French public data | keywords: ");
        q.append(keywords.as_str());
        q
    }
}

/// The broader fallback query: subject or title, entities and the project's mission.
pub open spec fn fallback_query(p: ProjectProfile, m: GmailMessage, i: EmailIntent) -> Seq<char> {
    let subject = normalized_search(normalized_subject(subject_or(m, "General MarianneAI inquiry"@)));
    let entities = join(entity_terms(string_views(i.key_entities@)), ", "@);
    let about = normalized_search(p.about@);
    let project = normalized_search(p.name@);
    let task_focus = or_else(subject, normalized_search(i.task_title@));
    let compact = query_keywords(seq![task_focus, entities, about]);
    if compact.len() == 0 {
        "French public data datasets | project: "@ + project
    } else {
        "French public data datasets | "@ + compact + " | project: "@ + project
    }
}

/// Builds the broader fallback query.
pub fn build_datagouv_fallback_query(profile: &ProjectProfile, message: &GmailMessage, intent: &EmailIntent) -> (r: String)
    ensures
        r@ == fallback_query(*profile, *message, *intent),
{
    let raw_subject = normalize_subject_query(subject_text(message, "General MarianneAI inquiry"));
    let subject = normalize_search_text(raw_subject.as_str());
    let terms = entity_terms_of(&intent.key_entities);
    let sep = chars_of(", ");
    let entities = string_of(join_chars(terms.as_slice(), sep.as_slice()).as_slice());
    let about = normalize_search_text(profile.about.as_str());
    let project = normalize_search_text(profile.name.as_str());
    let task_focus = if subject.as_str().unicode_len() == 0 {
        normalize_search_text(intent.task_title.as_str())
    } else {
        subject
    };
    let mut parts: Vec<&str> = Vec::new();
    parts.push(task_focus.as_str());
    parts.push(entities.as_str());
    parts.push(about.as_str());
    assert(str_views(parts@) =~= seq![task_focus@, entities@, about@]);
    let compact = keywords_of(parts);
    let mut q = String::from_str("French public data datasets | ");
    if compact.as_str().unicode_len() == 0 {
        q = String::from_str("French public data datasets | project: ");
    } else {
        q.append(compact.as_str());
        q.append(" | project: ");
    }
    q.append(project.as_str());
    q
}

proof fn lemma_drop_fillers_clean(ws: Seq<Seq<char>>)
    ensures
        forall|k: int| 0 <= k < drop_fillers(ws).len() ==> !is_filler_word(#[trigger] drop_fillers(ws)[k]),
    decreases ws.len(),
{
    if ws.len() > 0 {
        lemma_drop_fillers_clean(ws.drop_last());
        let d = drop_fillers(ws.drop_last());
        if !is_filler_word(ws.last()) {
            assert forall|k: int| 0 <= k < d.push(ws.last()).len() implies !is_filler_word(
                #[trigger] d.push(ws.last())[k],
            ) by {
                if k < d.len() {
                    assert(d.push(ws.last())[k] == d[k]);
                }
            }
        }
    }
}

/// Search queries carry no filler words: a cleaned query is at most 32 kept
/// words joined by single spaces, none of them a politeness or function word.
pub proof fn sanitized_query_has_no_fillers(s: Seq<char>)
    ensures
        exists|ws: Seq<Seq<char>>|
            {
                &&& sanitized_query(s) == join(ws, " "@)
                &&& ws.len() <= 32
                &&& forall|k: int| 0 <= k < ws.len() ==> !is_filler_word(#[trigger] ws[k])
            },
{
    let d = drop_fillers(words(s.map_values(|c: char| query_char(c))));
    lemma_drop_fillers_clean(words(s.map_values(|c: char| query_char(c))));
    let ws = first_n(d, 32);
    assert forall|k: int| 0 <= k < ws.len() implies !is_filler_word(#[trigger] ws[k]) by {
        assert(ws[k] == d[k]);
    }
    assert(sanitized_query(s) == join(ws, " "@));
}

} // verus!
