//! What query normalization guarantees: subjects lose every reply marker and
//! normalizing twice changes nothing, and
//! the queries tried against the open-data service are distinct, the primary
//! structured query first.

use crate::agentic::responders::{candidate_queries, distinct_queries, query_plan};
use crate::agentic::search::{
    fold_accent, fold_accents, query_char,
    first_n, first_prefix_from, lemma_first_prefix_len, line_break_to_space, normalized_subject,
    strip_subject_prefixes, structured_query, subject_prefixes,
};
use crate::text::{
    ascii_lowercase, join, lead_from, lemma_lead_from_bounds, lemma_trail_from_bounds,
    lemma_trim_shape, spec_ascii_lower, spec_is_ascii_alnum, spec_is_whitespace, starts_with, trail_from, trim, trim_start,
    words, words_scan,
};
use crate::types::{EmailClassification, EmailIntent, GmailMessage, ProjectProfile, TaskAssessment};
use vstd::prelude::*;

verus! {

/// `s` starts with none of the reply and forward markers, in any ASCII case.
pub open spec fn marker_free(s: Seq<char>) -> bool {
    forall|k: int| 0 <= k < 8 ==> !starts_with(ascii_lowercase(s), #[trigger] subject_prefixes()[k])
}

/// No blank at the start of `s`.
pub open spec fn no_leading_blank(s: Seq<char>) -> bool {
    s.len() > 0 ==> !spec_is_whitespace(s[0])
}

proof fn lemma_no_prefix_from(l: Seq<char>, k: int)
    requires
        0 <= k <= 8,
        first_prefix_from(l, k) is None,
    ensures
        forall|j: int| k <= j < 8 ==> !starts_with(l, #[trigger] subject_prefixes()[j]),
    decreases 8 - k,
{
    if k < 8 {
        lemma_no_prefix_from(l, k + 1);
    }
}

proof fn lemma_trim_start_no_leading_blank(s: Seq<char>)
    ensures
        no_leading_blank(trim_start(s)),
{
    lemma_lead_from_bounds(s, 0);
}

/// Stripping leaves no marker at the front, and no blank there either when
/// there was none to begin with.
proof fn lemma_stripped(s: Seq<char>)
    ensures
        marker_free(strip_subject_prefixes(s)),
        no_leading_blank(s) ==> no_leading_blank(strip_subject_prefixes(s)),
    decreases s.len(),
{
    match first_prefix_from(ascii_lowercase(s), 0) {
        None => {
            lemma_no_prefix_from(ascii_lowercase(s), 0);
        },
        Some(p) => {
            lemma_first_prefix_len(ascii_lowercase(s), 0);
            let rest = trim_start(s.skip(p.len() as int));
            lemma_lead_from_bounds(s.skip(p.len() as int), 0);
            lemma_trim_start_no_leading_blank(s.skip(p.len() as int));
            lemma_stripped(rest);
        },
    }
}

/// The index of the first blank at or after `i`, or the length.
pub open spec fn first_blank_from(z: Seq<char>, i: int) -> int
    decreases z.len() - i,
{
    if i < 0 || i >= z.len() {
        z.len() as int
    } else if spec_is_whitespace(z[i]) {
        i
    } else {
        first_blank_from(z, i + 1)
    }
}

proof fn lemma_first_blank_bounds(z: Seq<char>, i: int)
    requires
        0 <= i <= z.len(),
    ensures
        i <= first_blank_from(z, i) <= z.len(),
        forall|j: int| i <= j < first_blank_from(z, i) ==> !spec_is_whitespace(#[trigger] z[j]),
        first_blank_from(z, i) < z.len() ==> spec_is_whitespace(z[first_blank_from(z, i)]),
    decreases z.len() - i,
{
    if i < z.len() && !spec_is_whitespace(z[i]) {
        lemma_first_blank_bounds(z, i + 1);
    }
}

proof fn lemma_scan_word(z: Seq<char>, k: int)
    requires
        0 <= k <= z.len(),
        forall|j: int| 0 <= j < k ==> !spec_is_whitespace(#[trigger] z[j]),
    ensures
        words_scan(z.take(k)) == (Seq::<Seq<char>>::empty(), z.take(k)),
    decreases k,
{
    if k > 0 {
        lemma_scan_word(z, k - 1);
        assert(z.take(k).drop_last() =~= z.take(k - 1));
        assert(z.take(k - 1).push(z[k - 1]) =~= z.take(k));
    }
}

proof fn lemma_scan_after_word(z: Seq<char>, m: int, k: int)
    requires
        0 < m < k <= z.len(),
        forall|j: int| 0 <= j < m ==> !spec_is_whitespace(#[trigger] z[j]),
        spec_is_whitespace(z[m]),
    ensures
        words_scan(z.take(k)).0.len() >= 1,
        words_scan(z.take(k)).0[0] == z.take(m),
    decreases k,
{
    assert(z.take(k).drop_last() =~= z.take(k - 1));
    if k == m + 1 {
        lemma_scan_word(z, m);
    } else {
        lemma_scan_after_word(z, m, k - 1);
    }
}

/// The first word of a text that starts with no blank is the text up to its
/// first blank.
proof fn lemma_first_word(z: Seq<char>)
    requires
        z.len() > 0,
        !spec_is_whitespace(z[0]),
    ensures
        words(z).len() >= 1,
        words(z)[0] == z.take(first_blank_from(z, 0)),
        first_blank_from(z, 0) >= 1,
{
    lemma_first_blank_bounds(z, 0);
    let m = first_blank_from(z, 0);
    if m == z.len() {
        lemma_scan_word(z, m);
        assert(z.take(m) =~= z);
        assert(Seq::<Seq<char>>::empty().push(z)[0] == z);
    } else {
        assert(m != 0);
        lemma_scan_after_word(z, m, z.len() as int);
        assert(z.take(z.len() as int) =~= z);
        let (done, cur) = words_scan(z);
        if cur.len() > 0 {
            assert(done.push(cur)[0] == done[0]);
        }
    }
}

/// Joining words with spaces starts with the first word, followed by a space
/// when more words follow.
proof fn lemma_join_head(ws: Seq<Seq<char>>)
    requires
        ws.len() >= 1,
    ensures
        join(ws, " "@).len() >= ws[0].len(),
        join(ws, " "@).take(ws[0].len() as int) == ws[0],
        ws.len() == 1 ==> join(ws, " "@) == ws[0],
        ws.len() >= 2 ==> join(ws, " "@).len() > ws[0].len() && join(ws, " "@)[ws[0].len() as int] == ' ',
    decreases ws.len(),
{
    reveal_strlit(" ");
    if ws.len() == 1 {
        assert(ws[0].take(ws[0].len() as int) =~= ws[0]);
    } else {
        let p = ws.drop_last();
        lemma_join_head(p);
        let a = join(p, " "@);
        let r = a + " "@ + ws.last();
        assert(p[0] == ws[0]);
        assert(r.take(ws[0].len() as int) =~= a.take(ws[0].len() as int));
        if ws.len() == 2 {
            assert(a == ws[0]);
            assert(r[ws[0].len() as int] == ' ');
        } else {
            assert(r[ws[0].len() as int] == a[ws[0].len() as int]);
        }
    }
}

/// A reply subject as normalized for search never starts with a reply or
/// forward marker (`re:`, `fw:`, `fwd:`, `aw:`, `tr:`, `sv:`, `ref:` or
/// `marianneai:`), in any ASCII case.
pub proof fn normalized_subject_has_no_marker(subject: Seq<char>)
    ensures
        marker_free(normalized_subject(subject)),
{
    let t = trim(subject);
    lemma_trim_shape(subject);
    let y = strip_subject_prefixes(t);
    lemma_stripped(t);
    let ty = trim(y);
    lemma_trim_shape(y);
    let z = ty.map_values(|c: char| line_break_to_space(c));
    let n = normalized_subject(subject);
    assert(n == join(words(z), " "@));
    assert forall|k: int| 0 <= k < 8 implies !starts_with(ascii_lowercase(n), #[trigger] subject_prefixes()[k]) by {
        let p = subject_prefixes()[k];
        if starts_with(ascii_lowercase(n), p) {
            assert(p.len() >= 3);
            assert(forall|i: int| 0 <= i < p.len() ==> !spec_is_whitespace(#[trigger] p[i]));
            // Every character of `n` under the marker is a character of the marker, so no blank.
            assert forall|i: int| 0 <= i < p.len() implies !spec_is_whitespace(#[trigger] n[i]) by {
                assert(ascii_lowercase(n).take(p.len() as int)[i] == ascii_lowercase(n)[i]);
                assert(ascii_lowercase(n)[i] == spec_ascii_lower(n[i]));
            }
            assert(z.len() > 0) by {
                if z.len() == 0 {
                    assert(words(z) =~= Seq::<Seq<char>>::empty());
                }
            }
            assert(ty.len() == z.len());
            assert(!spec_is_whitespace(ty[0]));
            assert(z[0] == line_break_to_space(ty[0]));
            lemma_first_word(z);
            let ws = words(z);
            lemma_join_head(ws);
            let m = first_blank_from(z, 0);
            lemma_first_blank_bounds(z, 0);
            assert(ws[0].len() == m);
            if m < p.len() {
                if ws.len() >= 2 {
                    assert(n[m] == ' ');
                } else {
                    assert(n == ws[0]);
                }
            }
            // The marker's characters are those of the trimmed stripped subject.
            assert(lead_from(y, 0) == 0);
            assert forall|i: int| 0 <= i < p.len() implies #[trigger] ascii_lowercase(y)[i] == p[i] by {
                assert(n[i] == ws[0][i]);
                assert(ws[0][i] == z[i]);
                assert(z[i] == line_break_to_space(ty[i]));
                assert(ty[i] == y[i]);
                assert(ascii_lowercase(n).take(p.len() as int)[i] == p[i]);
            }
            assert(ascii_lowercase(y).take(p.len() as int) =~= p);
            assert(!starts_with(ascii_lowercase(y), subject_prefixes()[k]));
        }
    }
}

/// The queries to try, as pairs of label and query, are distinct and usable:
/// none is blank and no two are equal up to ASCII case.
pub open spec fn tried_once(qs: Seq<(Seq<char>, Seq<char>)>) -> bool {
    &&& forall|k: int| 0 <= k < qs.len() ==> trim(#[trigger] qs[k].1).len() > 0
    &&& forall|j: int, k: int|
        0 <= j < k < qs.len() ==> ascii_lowercase(#[trigger] qs[j].1) != ascii_lowercase(#[trigger] qs[k].1)
}

proof fn lemma_distinct_queries(cs: Seq<(Seq<char>, Seq<char>)>)
    ensures
        tried_once(distinct_queries(cs)),
    decreases cs.len(),
{
    if cs.len() > 0 {
        lemma_distinct_queries(cs.drop_last());
        let prev = distinct_queries(cs.drop_last());
        let q = cs.last().1;
        let lowered = prev.map_values(|x: (Seq<char>, Seq<char>)| ascii_lowercase(x.1));
        if !(trim(q).len() == 0 || lowered.contains(ascii_lowercase(q))) {
            let next = prev.push(cs.last());
            assert forall|j: int, k: int| 0 <= j < k < next.len() implies ascii_lowercase(
                #[trigger] next[j].1,
            ) != ascii_lowercase(#[trigger] next[k].1) by {
                if k == prev.len() {
                    assert(lowered[j] == ascii_lowercase(prev[j].1));
                    assert(next[j] == prev[j]);
                } else {
                    assert(next[j] == prev[j]);
                    assert(next[k] == prev[k]);
                }
            }
            assert forall|k: int| 0 <= k < next.len() implies trim(#[trigger] next[k].1).len() > 0 by {
                if k < prev.len() {
                    assert(next[k] == prev[k]);
                }
            }
        }
    }
}

/// The Datagouv responder tries each query once: at most eight queries, none
/// blank, no two equal up to ASCII case.
pub proof fn query_plan_tries_each_query_once(
    p: ProjectProfile,
    m: GmailMessage,
    c: EmailClassification,
    i: EmailIntent,
    a: TaskAssessment,
    memory: Seq<Seq<char>>,
)
    ensures
        query_plan(p, m, c, i, a, memory).len() <= 8,
        tried_once(query_plan(p, m, c, i, a, memory)),
{
    let cs = candidate_queries(p, m, c, i, a, memory);
    lemma_distinct_queries(cs);
    let d = distinct_queries(cs);
    let plan = first_n(d, 8);
    assert forall|j: int, k: int| 0 <= j < k < plan.len() implies ascii_lowercase(#[trigger] plan[j].1)
        != ascii_lowercase(#[trigger] plan[k].1) by {
        assert(plan[j] == d[j]);
        assert(plan[k] == d[k]);
    }
    assert forall|k: int| 0 <= k < plan.len() implies trim(#[trigger] plan[k].1).len() > 0 by {
        assert(plan[k] == d[k]);
    }
}


/// A text whose first character is not blank trims to a non-empty text.
proof fn lemma_trim_keeps_first(s: Seq<char>)
    requires
        s.len() > 0,
        !spec_is_whitespace(s[0]),
    ensures
        trim(s).len() > 0,
{
    lemma_lead_from_bounds(s, 0);
    assert(lead_from(s, 0) == 0);
    assert(trim_start(s) =~= s);
    lemma_trail_from_bounds(s, s.len() as int);
}

proof fn lemma_distinct_keeps_first(cs: Seq<(Seq<char>, Seq<char>)>)
    requires
        cs.len() >= 1,
        trim(cs[0].1).len() > 0,
    ensures
        distinct_queries(cs).len() >= 1,
        distinct_queries(cs)[0] == cs[0],
    decreases cs.len(),
{
    if cs.len() == 1 {
        let none = Seq::<(Seq<char>, Seq<char>)>::empty();
        assert(cs.drop_last() =~= none);
        assert(distinct_queries(none) == none);
        let lowered = none.map_values(|x: (Seq<char>, Seq<char>)| ascii_lowercase(x.1));
        assert(!lowered.contains(ascii_lowercase(cs[0].1)));
        assert(none.push(cs.last())[0] == cs[0]);
    } else {
        assert(cs.drop_last()[0] == cs[0]);
        lemma_distinct_keeps_first(cs.drop_last());
        let prev = distinct_queries(cs.drop_last());
        assert(prev.push(cs.last())[0] == prev[0]);
    }
}

/// The primary structured query is always the first one tried.
pub proof fn primary_query_comes_first(
    p: ProjectProfile,
    m: GmailMessage,
    c: EmailClassification,
    i: EmailIntent,
    a: TaskAssessment,
    memory: Seq<Seq<char>>,
)
    ensures
        query_plan(p, m, c, i, a, memory).len() >= 1,
        query_plan(p, m, c, i, a, memory)[0] == ("primary_structured_query"@, structured_query(p, m, c, i, a)),
{
    let q = structured_query(p, m, c, i, a);
    reveal_strlit("Professional public-data search for MarianneAI | project: ");
    assert(q[0] == 'P');
    lemma_trim_keeps_first(q);
    let cs = candidate_queries(p, m, c, i, a, memory);
    assert(cs[0] == ("primary_structured_query"@, q));
    lemma_distinct_keeps_first(cs);
    let d = distinct_queries(cs);
    assert(first_n(d, 8)[0] == d[0]);
}

/// Every word is non-empty and holds no blank.
pub open spec fn clean_words(ws: Seq<Seq<char>>) -> bool {
    forall|i: int| 0 <= i < ws.len() ==> (#[trigger] ws[i]).len() > 0 && no_blank(ws[i])
}

/// `w` holds no blank.
pub open spec fn no_blank(w: Seq<char>) -> bool {
    forall|j: int| 0 <= j < w.len() ==> !spec_is_whitespace(#[trigger] w[j])
}

proof fn lemma_scan_clean(s: Seq<char>)
    ensures
        clean_words(words_scan(s).0),
        no_blank(words_scan(s).1),
    decreases s.len(),
{
    if s.len() > 0 {
        lemma_scan_clean(s.drop_last());
        let (done, cur) = words_scan(s.drop_last());
        let c = s.last();
        if spec_is_whitespace(c) {
            if cur.len() > 0 {
                assert forall|i: int| 0 <= i < done.push(cur).len() implies (#[trigger] done.push(cur)[i]).len() > 0
                    && no_blank(done.push(cur)[i]) by {
                    if i < done.len() {
                        assert(done.push(cur)[i] == done[i]);
                    }
                }
            }
        } else {
            assert forall|j: int| 0 <= j < cur.push(c).len() implies !spec_is_whitespace(#[trigger] cur.push(c)[j]) by {
                if j < cur.len() {
                    assert(cur.push(c)[j] == cur[j]);
                }
            }
        }
    }
}

proof fn lemma_words_clean(s: Seq<char>)
    ensures
        clean_words(words(s)),
{
    lemma_scan_clean(s);
    let (done, cur) = words_scan(s);
    if cur.len() > 0 {
        assert forall|i: int| 0 <= i < done.push(cur).len() implies (#[trigger] done.push(cur)[i]).len() > 0
            && no_blank(done.push(cur)[i]) by {
            if i < done.len() {
                assert(done.push(cur)[i] == done[i]);
            }
        }
    }
}

/// Scanning on through a run of non-blanks extends the word in progress.
proof fn lemma_scan_append_word(a: Seq<char>, w: Seq<char>)
    requires
        no_blank(w),
    ensures
        words_scan(a + w) == (words_scan(a).0, words_scan(a).1 + w),
    decreases w.len(),
{
    if w.len() == 0 {
        assert(a + w =~= a);
        assert(words_scan(a).1 + w =~= words_scan(a).1);
    } else {
        let v = w.drop_last();
        lemma_scan_append_word(a, v);
        assert((a + w).drop_last() =~= a + v);
        assert((a + w).last() == w.last());
        assert(words_scan(a).1 + v + seq![w.last()] =~= words_scan(a).1 + w);
        assert((words_scan(a).1 + v).push(w.last()) =~= words_scan(a).1 + w);
    }
}

/// Scanning words joined by single spaces finds them again.
proof fn lemma_scan_join(ws: Seq<Seq<char>>)
    requires
        ws.len() >= 1,
        clean_words(ws),
    ensures
        words_scan(join(ws, " "@)) == (ws.drop_last(), ws.last()),
    decreases ws.len(),
{
    reveal_strlit(" ");
    let e = Seq::<char>::empty();
    assert(ws[0].len() > 0 && no_blank(ws[0]));
    if ws.len() == 1 {
        lemma_scan_append_word(e, ws[0]);
        assert(e + ws[0] =~= ws[0]);
        assert(words_scan(e) == (Seq::<Seq<char>>::empty(), e));
        assert(ws.drop_last() =~= Seq::<Seq<char>>::empty());
    } else {
        let p = ws.drop_last();
        assert forall|i: int| 0 <= i < p.len() implies (#[trigger] p[i]).len() > 0 && no_blank(p[i]) by {
            assert(p[i] == ws[i]);
        }
        lemma_scan_join(p);
        let a = join(p, " "@);
        let b = a + " "@;
        assert(b.drop_last() =~= a);
        assert(b.last() == ' ');
        assert(p.last().len() > 0);
        assert(p.drop_last().push(p.last()) =~= p);
        assert(words_scan(b) == (p, e));
        assert(ws.last().len() > 0 && no_blank(ws.last()));
        lemma_scan_append_word(b, ws.last());
        assert(e + ws.last() =~= ws.last());
    }
}

/// Splitting words joined by single spaces gives the words back.
proof fn lemma_words_of_join(ws: Seq<Seq<char>>)
    requires
        clean_words(ws),
    ensures
        words(join(ws, " "@)) == ws,
{
    if ws.len() == 0 {
        assert(words_scan(Seq::<char>::empty()) == (Seq::<Seq<char>>::empty(), Seq::<char>::empty()));
    } else {
        lemma_scan_join(ws);
        assert(ws.last().len() > 0);
        assert(ws.drop_last().push(ws.last()) =~= ws);
    }
}

/// Words joined by single spaces hold no blank but those spaces, and start
/// and end with a non-blank.
proof fn lemma_join_shape(ws: Seq<Seq<char>>)
    requires
        clean_words(ws),
    ensures
        forall|k: int| 0 <= k < join(ws, " "@).len() ==> #[trigger] join(ws, " "@)[k] == ' '
            || !spec_is_whitespace(join(ws, " "@)[k]),
        join(ws, " "@).len() > 0 ==> !spec_is_whitespace(join(ws, " "@)[0])
            && !spec_is_whitespace(join(ws, " "@).last()),
    decreases ws.len(),
{
    reveal_strlit(" ");
    if ws.len() == 1 {
        assert(ws[0].len() > 0 && no_blank(ws[0]));
    } else if ws.len() > 1 {
        let p = ws.drop_last();
        assert forall|i: int| 0 <= i < p.len() implies (#[trigger] p[i]).len() > 0 && no_blank(p[i]) by {
            assert(p[i] == ws[i]);
        }
        lemma_join_shape(p);
        let a = join(p, " "@);
        let l = ws.last();
        assert(l.len() > 0 && no_blank(l));
        let r = a + " "@ + l;
        assert(r == join(ws, " "@));
        assert forall|k: int| 0 <= k < r.len() implies #[trigger] r[k] == ' ' || !spec_is_whitespace(r[k]) by {
            if k < a.len() {
                assert(r[k] == a[k]);
            } else if k > a.len() {
                assert(r[k] == l[k - a.len() - 1]);
            }
        }
        lemma_join_head(ws);
        assert(p[0] == ws[0]);
        assert(ws[0].len() > 0 && no_blank(ws[0]));
        assert(r.take(ws[0].len() as int)[0] == r[0]);
        assert(r.last() == l.last());
    }
}

proof fn lemma_marker_free_no_prefix(l: Seq<char>, k: int)
    requires
        0 <= k <= 8,
        forall|j: int| k <= j < 8 ==> !starts_with(l, #[trigger] subject_prefixes()[j]),
    ensures
        first_prefix_from(l, k) is None,
    decreases 8 - k,
{
    if k < 8 {
        lemma_marker_free_no_prefix(l, k + 1);
    }
}

/// Normalizing a subject twice gives what normalizing it once gave: the
/// normalized subject is its own words joined by single spaces, and carries
/// no reply or forward marker.
pub proof fn normalizing_subject_is_idempotent(subject: Seq<char>)
    ensures
        normalized_subject(normalized_subject(subject)) == normalized_subject(subject),
        join(words(normalized_subject(subject)), " "@) == normalized_subject(subject),
        marker_free(normalized_subject(subject)),
{
    let n = normalized_subject(subject);
    let t = trim(subject);
    let y = strip_subject_prefixes(t);
    let z = trim(y).map_values(|c: char| line_break_to_space(c));
    let ws = words(z);
    assert(n == join(ws, " "@));
    lemma_words_clean(z);
    lemma_words_of_join(ws);
    lemma_join_shape(ws);
    normalized_subject_has_no_marker(subject);
    // `n` is already trimmed.
    if n.len() > 0 {
        assert(lead_from(n, 0) == 0);
        assert(trim_start(n) =~= n);
        assert(trail_from(n, n.len() as int) == n.len());
        assert(trim(n) =~= n);
    } else {
        assert(trim(n) =~= n);
    }
    // It starts with no marker, so nothing is stripped.
    assert forall|j: int| 0 <= j < 8 implies !starts_with(ascii_lowercase(n), #[trigger] subject_prefixes()[j]) by {
    }
    lemma_marker_free_no_prefix(ascii_lowercase(n), 0);
    assert(strip_subject_prefixes(n) == n);
    // It holds no line break.
    assert(n.map_values(|c: char| line_break_to_space(c)) =~= n);
}

/// The accented letters of French, in both cases, with the ligatures `œ`,
/// `Œ` and `æ`.
pub open spec fn french_letter(c: char) -> bool {
    c == 'à' || c == 'â' || c == 'ä' || c == 'æ' || c == 'ç' || c == 'é' || c == 'è' || c == 'ê'
        || c == 'ë' || c == 'î' || c == 'ï' || c == 'ô' || c == 'ö' || c == 'œ' || c == 'ù' || c == 'û'
        || c == 'ü' || c == 'ÿ' || c == 'À' || c == 'Â' || c == 'Ä' || c == 'Ç' || c == 'É' || c == 'È'
        || c == 'Ê' || c == 'Ë' || c == 'Î' || c == 'Ï' || c == 'Ô' || c == 'Ö' || c == 'Œ' || c == 'Ù'
        || c == 'Û' || c == 'Ü' || c == 'Ÿ'
}

/// Folding spells each French accented letter with the letter it is built
/// on, in the same case (`œ` as `oe`), and leaves ASCII alone.
pub proof fn accents_fold_to_their_base_letter(c: char)
    ensures
        (c == 'à' || c == 'â' || c == 'ä' || c == 'æ') ==> fold_accent(c) == seq!['a'],
        (c == 'À' || c == 'Â' || c == 'Ä') ==> fold_accent(c) == seq!['A'],
        (c == 'é' || c == 'è' || c == 'ê' || c == 'ë') ==> fold_accent(c) == seq!['e'],
        (c == 'É' || c == 'È' || c == 'Ê' || c == 'Ë') ==> fold_accent(c) == seq!['E'],
        (c == 'î' || c == 'ï') ==> fold_accent(c) == seq!['i'],
        (c == 'Î' || c == 'Ï') ==> fold_accent(c) == seq!['I'],
        (c == 'ô' || c == 'ö') ==> fold_accent(c) == seq!['o'],
        (c == 'Ô' || c == 'Ö') ==> fold_accent(c) == seq!['O'],
        (c == 'ù' || c == 'û' || c == 'ü') ==> fold_accent(c) == seq!['u'],
        (c == 'Ù' || c == 'Û' || c == 'Ü') ==> fold_accent(c) == seq!['U'],
        c == 'ç' ==> fold_accent(c) == seq!['c'],
        c == 'Ç' ==> fold_accent(c) == seq!['C'],
        c == 'ÿ' ==> fold_accent(c) == seq!['y'],
        c == 'Ÿ' ==> fold_accent(c) == seq!['Y'],
        c == 'œ' ==> fold_accent(c) == seq!['o', 'e'],
        c == 'Œ' ==> fold_accent(c) == seq!['O', 'E'],
        (c as int) < 128 ==> fold_accent(c) == seq![c],
{
}

/// Whether every character of `s` is an ASCII letter or digit.
pub open spec fn all_ascii_alnum(s: Seq<char>) -> bool {
    forall|j: int| 0 <= j < s.len() ==> spec_is_ascii_alnum(#[trigger] s[j])
}

/// A word of French made of ASCII letters, digits and accented letters folds
/// to ASCII letters and digits only, so query cleaning leaves it whole: no
/// accented letter turns into a gap.
pub proof fn french_words_fold_to_whole_ascii_words(s: Seq<char>)
    requires
        forall|i: int| 0 <= i < s.len() ==> spec_is_ascii_alnum(#[trigger] s[i]) || french_letter(s[i]),
    ensures
        all_ascii_alnum(fold_accents(s)),
        fold_accents(s).map_values(|c: char| query_char(c)) == fold_accents(s),
    decreases s.len(),
{
    if s.len() > 0 {
        let p = s.drop_last();
        assert forall|i: int| 0 <= i < p.len() implies spec_is_ascii_alnum(#[trigger] p[i]) || french_letter(p[i]) by {
            assert(p[i] == s[i]);
        }
        french_words_fold_to_whole_ascii_words(p);
        let c = s.last();
        assert(spec_is_ascii_alnum(c) || french_letter(c));
        let f = fold_accent(c);
        assert(all_ascii_alnum(f));
        let r = fold_accents(p) + f;
        assert(r == fold_accents(s));
        assert forall|j: int| 0 <= j < r.len() implies spec_is_ascii_alnum(#[trigger] r[j]) by {
            if j < fold_accents(p).len() {
                assert(r[j] == fold_accents(p)[j]);
            } else {
                assert(r[j] == f[j - fold_accents(p).len()]);
            }
        }
    }
    let r = fold_accents(s);
    assert(r.map_values(|c: char| query_char(c)) =~= r);
}

} // verus!
