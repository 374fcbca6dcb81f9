//! What the query memory gives back: a memory line written for a query that
//! found data is read back with that query's terms.

use crate::agentic::memory::{
    bars_to_dashes, lines_scan, memory_field, memory_line, memory_line_terms, memory_terms_of,
    memory_title, remembered_terms, text_lines, without_cr,
};
use crate::agentic::responders::DatagouvQueryCandidate;
use crate::types::{EmailClassification, EmailIntent, GmailMessage};
use crate::agentic::search::{drop_fillers, first_n, query_char, sanitized_query};
use crate::text::{
    contains, find, join, lead_from, lemma_trim_shape, occurs_at, spec_is_whitespace, starts_with,
    trail_from, trim, words, words_scan,
};
use vstd::prelude::*;

verus! {

/// A character that never appears in a memory field: the separators of a
/// memory line and line breaks.
pub open spec fn field_char(c: char) -> bool {
    c != '=' && c != '|' && c != '\n' && c != '\r'
}

/// Every character of `s` may appear in a memory field.
pub open spec fn all_field_chars(s: Seq<char>) -> bool {
    forall|i: int| 0 <= i < s.len() ==> field_char(#[trigger] s[i])
}

/// Every text of `ws` is made of field characters.
pub open spec fn all_field_texts(ws: Seq<Seq<char>>) -> bool {
    forall|i: int| 0 <= i < ws.len() ==> all_field_chars(#[trigger] ws[i])
}

proof fn lemma_words_scan_chars(s: Seq<char>)
    requires
        all_field_chars(s),
    ensures
        all_field_texts(words_scan(s).0),
        all_field_chars(words_scan(s).1),
    decreases s.len(),
{
    if s.len() > 0 {
        let p = s.drop_last();
        assert(all_field_chars(p)) by {
            assert forall|i: int| 0 <= i < p.len() implies field_char(#[trigger] p[i]) by {
                assert(p[i] == s[i]);
            }
        }
        lemma_words_scan_chars(p);
        let (done, cur) = words_scan(p);
        assert(field_char(s[s.len() - 1]));
        if !spec_is_whitespace(s.last()) {
            assert(all_field_chars(cur.push(s.last()))) by {
                assert forall|i: int| 0 <= i < cur.push(s.last()).len() implies field_char(
                    #[trigger] cur.push(s.last())[i],
                ) by {
                    if i < cur.len() {
                        assert(cur.push(s.last())[i] == cur[i]);
                    }
                }
            }
        } else if cur.len() > 0 {
            assert(all_field_texts(done.push(cur))) by {
                assert forall|i: int| 0 <= i < done.push(cur).len() implies all_field_chars(
                    #[trigger] done.push(cur)[i],
                ) by {
                    if i < done.len() {
                        assert(done.push(cur)[i] == done[i]);
                    }
                }
            }
        }
    }
}

proof fn lemma_words_chars(s: Seq<char>)
    requires
        all_field_chars(s),
    ensures
        all_field_texts(words(s)),
{
    lemma_words_scan_chars(s);
    let (done, cur) = words_scan(s);
    if cur.len() > 0 {
        assert forall|i: int| 0 <= i < done.push(cur).len() implies all_field_chars(
            #[trigger] done.push(cur)[i],
        ) by {
            if i < done.len() {
                assert(done.push(cur)[i] == done[i]);
            }
        }
    }
}

proof fn lemma_drop_fillers_chars(ws: Seq<Seq<char>>)
    requires
        all_field_texts(ws),
    ensures
        all_field_texts(drop_fillers(ws)),
    decreases ws.len(),
{
    if ws.len() > 0 {
        let p = ws.drop_last();
        assert(all_field_texts(p)) by {
            assert forall|i: int| 0 <= i < p.len() implies all_field_chars(#[trigger] p[i]) by {
                assert(p[i] == ws[i]);
            }
        }
        lemma_drop_fillers_chars(p);
        let d = drop_fillers(p);
        assert(all_field_chars(ws[ws.len() - 1]));
        assert forall|i: int| 0 <= i < d.push(ws.last()).len() implies all_field_chars(
            #[trigger] d.push(ws.last())[i],
        ) by {
            if i < d.len() {
                assert(d.push(ws.last())[i] == d[i]);
            }
        }
    }
}

proof fn lemma_join_chars(ws: Seq<Seq<char>>)
    requires
        all_field_texts(ws),
    ensures
        all_field_chars(join(ws, " "@)),
    decreases ws.len(),
{
    reveal_strlit(" ");
    if ws.len() == 1 {
        assert(all_field_chars(ws[0]));
    } else if ws.len() > 1 {
        let p = ws.drop_last();
        assert(all_field_texts(p)) by {
            assert forall|i: int| 0 <= i < p.len() implies all_field_chars(#[trigger] p[i]) by {
                assert(p[i] == ws[i]);
            }
        }
        lemma_join_chars(p);
        let a = join(p, " "@);
        let l = ws[ws.len() - 1];
        assert(all_field_chars(l));
        let r = a + " "@ + l;
        assert forall|i: int| 0 <= i < r.len() implies field_char(#[trigger] r[i]) by {
            if i < a.len() {
                assert(r[i] == a[i]);
            } else if i == a.len() {
                assert(r[i] == ' ');
            } else {
                assert(r[i] == l[i - a.len() - 1]);
            }
        }
    }
}

proof fn lemma_bars_to_dashes_chars(s: Seq<char>)
    requires
        all_field_chars(s),
    ensures
        all_field_chars(bars_to_dashes(s)),
    decreases s.len(),
{
    if s.len() > 0 {
        let p = s.drop_last();
        assert(all_field_chars(p)) by {
            assert forall|i: int| 0 <= i < p.len() implies field_char(#[trigger] p[i]) by {
                assert(p[i] == s[i]);
            }
        }
        lemma_bars_to_dashes_chars(p);
        let a = bars_to_dashes(p);
        assert(field_char(s[s.len() - 1]));
        let tail = if s.last() == '|' {
            seq![' ', '-', ' ']
        } else {
            seq![s.last()]
        };
        let r = a + tail;
        assert forall|i: int| 0 <= i < r.len() implies field_char(#[trigger] r[i]) by {
            if i < a.len() {
                assert(r[i] == a[i]);
            } else {
                assert(r[i] == tail[i - a.len()]);
            }
        }
    }
}

proof fn lemma_trim_chars(s: Seq<char>)
    requires
        all_field_chars(s),
    ensures
        all_field_chars(trim(s)),
{
    lemma_trim_shape(s);
    let l = lead_from(s, 0);
    let t = trim(s);
    assert forall|k: int| 0 <= k < t.len() implies field_char(#[trigger] t[k]) by {
        assert(t[k] == s[l + k]);
    }
}

/// A text with no blank at either end is its own trim.
proof fn lemma_trim_of_trimmed(s: Seq<char>)
    requires
        s.len() > 0 ==> !spec_is_whitespace(s[0]) && !spec_is_whitespace(s[s.len() - 1]),
    ensures
        trim(s) == s,
{
    if s.len() > 0 {
        assert(lead_from(s, 0) == 0);
        assert(s.skip(0) =~= s);
        assert(trail_from(s, s.len() as int) == s.len());
        assert(s.take(s.len() as int) =~= s);
    } else {
        assert(lead_from(s, 0) == 0);
        assert(s.skip(0) =~= s);
    }
}

/// A memory field holds no separator and no line break, and has no blank at
/// either end.
pub proof fn lemma_memory_field_shape(x: Seq<char>)
    ensures
        all_field_chars(memory_field(x)),
        trim(memory_field(x)) == memory_field(x),
        memory_field(x).len() > 0 ==> !spec_is_whitespace(memory_field(x)[memory_field(x).len() - 1]),
{
    let mapped = x.map_values(|c: char| query_char(c));
    assert(all_field_chars(mapped)) by {
        assert forall|i: int| 0 <= i < mapped.len() implies field_char(#[trigger] mapped[i]) by {
            assert(mapped[i] == query_char(x[i]));
        }
    }
    lemma_words_chars(mapped);
    let ws = words(mapped);
    lemma_drop_fillers_chars(ws);
    let d = drop_fillers(ws);
    let f = first_n(d, 32);
    assert(all_field_texts(f)) by {
        assert forall|i: int| 0 <= i < f.len() implies all_field_chars(#[trigger] f[i]) by {
            assert(f[i] == d[i]);
        }
    }
    lemma_join_chars(f);
    assert(sanitized_query(x) == join(f, " "@));
    lemma_bars_to_dashes_chars(sanitized_query(x));
    lemma_trim_chars(bars_to_dashes(sanitized_query(x)));
    lemma_trim_shape(bars_to_dashes(sanitized_query(x)));
    lemma_trim_of_trimmed(memory_field(x));
}

proof fn lemma_occurs_elems(h: Seq<char>, n: Seq<char>, i: int)
    requires
        occurs_at(h, n, i),
    ensures
        forall|k: int| 0 <= k < n.len() ==> #[trigger] h[i + k] == n[k],
{
    assert forall|k: int| 0 <= k < n.len() implies #[trigger] h[i + k] == n[k] by {
        assert(h.subrange(i, i + n.len())[k] == h[i + k]);
    }
}

/// `n` does not occur in a text that lacks one of its characters.
proof fn lemma_absent_char(s: Seq<char>, n: Seq<char>, k0: int)
    requires
        0 <= k0 < n.len(),
        forall|i: int| 0 <= i < s.len() ==> #[trigger] s[i] != n[k0],
    ensures
        !contains(s, n),
{
    assert forall|j: int| !occurs_at(s, n, j) by {
        if occurs_at(s, n, j) {
            lemma_occurs_elems(s, n, j);
            assert(s[j + k0] == n[k0]);
        }
    }
}

/// `n` does not occur in `a + b` when it occurs in neither and no occurrence
/// can straddle the seam: the last character of `a` is not among the first
/// characters of `n`, or the first of `b` not among its last ones.
proof fn lemma_no_straddle(a: Seq<char>, b: Seq<char>, n: Seq<char>)
    requires
        n.len() > 0,
        !contains(a, n),
        !contains(b, n),
        (a.len() > 0 && forall|k: int| 0 <= k < n.len() - 1 ==> n[k] != a[a.len() - 1]) || (b.len()
            > 0 && forall|k: int| 1 <= k < n.len() ==> n[k] != b[0]),
    ensures
        !contains(a + b, n),
{
    let h = a + b;
    assert forall|j: int| !occurs_at(h, n, j) by {
        if occurs_at(h, n, j) {
            lemma_occurs_elems(h, n, j);
            if j + n.len() <= a.len() {
                assert(h.subrange(j, j + n.len()) =~= a.subrange(j, j + n.len()));
                assert(occurs_at(a, n, j));
            } else if j >= a.len() {
                assert(h.subrange(j, j + n.len()) =~= b.subrange(j - a.len(), j - a.len() + n.len()));
                assert(occurs_at(b, n, j - a.len()));
            } else if a.len() > 0 && forall|k: int| 0 <= k < n.len() - 1 ==> n[k] != a[a.len() - 1] {
                let k = a.len() - 1 - j;
                assert(h[j + k] == a[a.len() - 1]);
            } else {
                let k = a.len() - j;
                assert(h[j + k] == b[0]);
            }
        }
    }
}

/// The first occurrence of `n` in `a + r` is where `r` starts, when `r` starts
/// with `n`, `a` holds none, and none straddles the seam.
proof fn lemma_first_at(a: Seq<char>, r: Seq<char>, n: Seq<char>)
    requires
        n.len() > 0,
        !contains(a, n),
        starts_with(r, n),
        a.len() == 0 || forall|k: int| 0 <= k < n.len() - 1 ==> n[k] != a[a.len() - 1],
    ensures
        find(a + r, n) == Some(a.len() as int),
{
    reveal(find);
    let h = a + r;
    assert(h.subrange(a.len() as int, (a.len() + n.len()) as int) =~= r.take(n.len() as int));
    assert(occurs_at(h, n, a.len() as int));
    assert forall|j: int| 0 <= j < a.len() implies !occurs_at(h, n, j) by {
        if occurs_at(h, n, j) {
            lemma_occurs_elems(h, n, j);
            if j + n.len() <= a.len() {
                assert(h.subrange(j, j + n.len()) =~= a.subrange(j, j + n.len()));
                assert(occurs_at(a, n, j));
            } else {
                let k = a.len() - 1 - j;
                assert(h[j + k] == a[a.len() - 1]);
            }
        }
    }
    let i = choose|i: int| occurs_at(h, n, i) && forall|j: int| 0 <= j < i ==> !occurs_at(h, n, j);
    assert(occurs_at(h, n, a.len() as int) && forall|j: int| 0 <= j < a.len() ==> !occurs_at(h, n, j));
    if i < a.len() {
        assert(!occurs_at(h, n, i));
    } else if i > a.len() {
        assert(!occurs_at(h, n, a.len() as int));
    }
}

/// No line break in `s`.
pub open spec fn no_newline(s: Seq<char>) -> bool {
    forall|k: int| 0 <= k < s.len() ==> #[trigger] s[k] != '\n'
}

proof fn lemma_no_newline_join(a: Seq<char>, b: Seq<char>)
    requires
        no_newline(a),
        no_newline(b),
    ensures
        no_newline(a + b),
{
    assert forall|k: int| 0 <= k < (a + b).len() implies #[trigger] (a + b)[k] != '\n' by {
        if k < a.len() {
            assert((a + b)[k] == a[k]);
        } else {
            assert((a + b)[k] == b[k - a.len()]);
        }
    }
}

proof fn lemma_lines_of_line(x: Seq<char>)
    requires
        no_newline(x),
    ensures
        lines_scan(x) == (Seq::<Seq<char>>::empty(), x),
    decreases x.len(),
{
    if x.len() > 0 {
        lemma_lines_of_line(x.drop_last());
        assert(x.drop_last().push(x.last()) =~= x);
    }
}

proof fn lemma_lines_of_ended_line(x: Seq<char>)
    requires
        no_newline(x),
    ensures
        lines_scan(x + "\n"@) == (seq![without_cr(x)], Seq::<char>::empty()),
        text_lines(x + "\n"@) == seq![without_cr(x)],
{
    reveal_strlit("\n");
    lemma_lines_of_line(x);
    assert((x + "\n"@).drop_last() =~= x);
    assert(Seq::<Seq<char>>::empty().push(without_cr(x)) =~= seq![without_cr(x)]);
}

/// Line splitting goes line by line: after a text that ends a line, what
/// follows splits on its own.
proof fn lemma_lines_scan_append(a: Seq<char>, b: Seq<char>)
    requires
        lines_scan(a).1.len() == 0,
    ensures
        lines_scan(a + b) == (lines_scan(a).0 + lines_scan(b).0, lines_scan(b).1),
    decreases b.len(),
{
    if b.len() == 0 {
        assert(a + b =~= a);
        assert(lines_scan(a).0 + Seq::<Seq<char>>::empty() =~= lines_scan(a).0);
    } else {
        lemma_lines_scan_append(a, b.drop_last());
        assert((a + b).drop_last() =~= a + b.drop_last());
        assert((a + b).last() == b.last());
        let (da, _ca) = lines_scan(a);
        let (db, cb) = lines_scan(b.drop_last());
        if b.last() == '\n' {
            assert((da + db).push(without_cr(cb)) =~= da + db.push(without_cr(cb)));
        }
    }
}

proof fn lemma_remembered_terms_append(a: Seq<Seq<char>>, b: Seq<Seq<char>>)
    ensures
        remembered_terms(a + b) == remembered_terms(a) + remembered_terms(b),
    decreases b.len(),
{
    if b.len() == 0 {
        assert(a + b =~= a);
        assert(remembered_terms(a) + Seq::<Seq<char>>::empty() =~= remembered_terms(a));
    } else {
        lemma_remembered_terms_append(a, b.drop_last());
        assert((a + b).drop_last() =~= a + b.drop_last());
        assert((a + b).last() == b.last());
        let ra = remembered_terms(a);
        let rb = remembered_terms(b.drop_last());
        if let Some(t) = memory_line_terms(b.last()) {
            assert((ra + rb).push(t) =~= ra + rb.push(t));
        }
    }
}

/// The terms a memory line records are read back from it: the terms field is
/// the first `terms=` of the line, and it ends at the next separator.
proof fn lemma_memory_line_terms(
    timestamp: Seq<char>,
    m: GmailMessage,
    c: EmailClassification,
    i: EmailIntent,
    chosen: DatagouvQueryCandidate,
    response: Seq<char>,
)
    requires
        !contains(timestamp, "terms="@),
        !contains(chosen.source@, "terms="@),
    ensures
        ({
            let terms = memory_field(memory_terms_of(chosen.query@));
            memory_line_terms(memory_line(timestamp, m, c, i, chosen, response)) == if terms.len() > 0 {
                Some(terms)
            } else {
                None::<Seq<char>>
            }
        }),
{
    reveal_strlit("terms=");
    reveal_strlit("- [");
    reveal_strlit("] source=");
    reveal_strlit(" | subject=");
    reveal_strlit(" | category=");
    reveal_strlit(" | terms=");
    reveal_strlit(" | ");
    reveal_strlit(" | query=");
    let n = "terms="@;
    let sep = " | "@;
    let f1 = memory_field(
        match m.subject {
            Some(s) => s@,
            None => "General MarianneAI inquiry"@,
        },
    );
    let f2 = memory_field(c.category@);
    let f3 = memory_field(memory_terms_of(chosen.query@));
    let f4 = memory_field(chosen.query@);
    let f5 = memory_field(i.task_title@);
    let f6 = memory_field(response);
    lemma_memory_field_shape(
        match m.subject {
            Some(s) => s@,
            None => "General MarianneAI inquiry"@,
        },
    );
    lemma_memory_field_shape(c.category@);
    lemma_memory_field_shape(memory_terms_of(chosen.query@));
    let line = memory_line(timestamp, m, c, i, chosen, response);
    let p0 = "- ["@;
    let p1 = p0 + timestamp;
    let p2 = p1 + "] source="@;
    let p3 = p2 + chosen.source@;
    let p4 = p3 + " | subject="@;
    let p5 = p4 + f1;
    let p6 = p5 + " | category="@;
    let p7 = p6 + f2;
    let a = p7 + sep;
    let b = f3 + " | query="@ + f4 + " | intent="@ + f5 + " | response="@ + f6;
    assert(line =~= a + (n + b));

    // No `terms=` before the terms field.
    assert(!contains(p0, n));
    lemma_no_straddle(p0, timestamp, n);
    assert forall|j: int| !occurs_at("] source="@, n, j) by {
        if occurs_at("] source="@, n, j) {
            lemma_occurs_elems("] source="@, n, j);
            assert("] source="@[j] == n[0]);
        }
    }
    lemma_no_straddle(p1, "] source="@, n);
    lemma_no_straddle(p2, chosen.source@, n);
    assert forall|j: int| !occurs_at(" | subject="@, n, j) by {
        if occurs_at(" | subject="@, n, j) {
            lemma_occurs_elems(" | subject="@, n, j);
            assert(" | subject="@[j] == n[0]);
        }
    }
    lemma_no_straddle(p3, " | subject="@, n);
    lemma_absent_char(f1, n, 5);
    lemma_no_straddle(p4, f1, n);
    assert forall|j: int| !occurs_at(" | category="@, n, j) by {
        if occurs_at(" | category="@, n, j) {
            lemma_occurs_elems(" | category="@, n, j);
            assert(" | category="@[j] == n[0]);
            assert(" | category="@[j + 2] == n[2]);
        }
    }
    lemma_no_straddle(p5, " | category="@, n);
    lemma_absent_char(f2, n, 5);
    lemma_no_straddle(p6, f2, n);
    assert(!contains(sep, n));
    lemma_no_straddle(p7, sep, n);
    assert(starts_with(n + b, n)) by {
        assert((n + b).take(n.len() as int) =~= n);
    }
    lemma_first_at(a, n + b, n);
    assert(contains(line, n)) by {
        reveal(find);
    }
    assert(starts_with(line, "- ["@)) by {
        assert(line.take(3) =~= "- ["@);
    }
    let rest = line.skip((a.len() + n.len()) as int);
    assert(rest =~= b);

    // The terms field ends at the next separator.
    lemma_absent_char(f3, sep, 1);
    let r = " | query="@ + f4 + " | intent="@ + f5 + " | response="@ + f6;
    assert(b =~= f3 + r);
    assert(starts_with(r, sep)) by {
        assert(r.take(3) =~= sep);
    }
    lemma_first_at(f3, r, sep);
    assert(b.take(f3.len() as int) =~= f3);
}

proof fn lemma_field_no_newline(f: Seq<char>)
    requires
        all_field_chars(f),
    ensures
        no_newline(f),
{
    assert forall|k: int| 0 <= k < f.len() implies #[trigger] f[k] != '\n' by {
        assert(field_char(f[k]));
    }
}

/// A memory line is one line, and does not end in a carriage return.
proof fn lemma_memory_line_is_a_line(
    timestamp: Seq<char>,
    m: GmailMessage,
    c: EmailClassification,
    i: EmailIntent,
    chosen: DatagouvQueryCandidate,
    response: Seq<char>,
)
    requires
        no_newline(timestamp),
        no_newline(chosen.source@),
    ensures
        no_newline(memory_line(timestamp, m, c, i, chosen, response)),
        without_cr(memory_line(timestamp, m, c, i, chosen, response)) == memory_line(
            timestamp,
            m,
            c,
            i,
            chosen,
            response,
        ),
{
    reveal_strlit("- [");
    reveal_strlit("] source=");
    reveal_strlit(" | subject=");
    reveal_strlit(" | category=");
    reveal_strlit(" | terms=");
    reveal_strlit(" | query=");
    reveal_strlit(" | intent=");
    reveal_strlit(" | response=");
    let subject = match m.subject {
        Some(s) => s@,
        None => "General MarianneAI inquiry"@,
    };
    let f1 = memory_field(subject);
    let f2 = memory_field(c.category@);
    let f3 = memory_field(memory_terms_of(chosen.query@));
    let f4 = memory_field(chosen.query@);
    let f5 = memory_field(i.task_title@);
    let f6 = memory_field(response);
    lemma_memory_field_shape(subject);
    lemma_memory_field_shape(c.category@);
    lemma_memory_field_shape(memory_terms_of(chosen.query@));
    lemma_memory_field_shape(chosen.query@);
    lemma_memory_field_shape(i.task_title@);
    lemma_memory_field_shape(response);
    lemma_field_no_newline(f1);
    lemma_field_no_newline(f2);
    lemma_field_no_newline(f3);
    lemma_field_no_newline(f4);
    lemma_field_no_newline(f5);
    lemma_field_no_newline(f6);
    assert(no_newline("- ["@));
    assert(no_newline("] source="@));
    assert(no_newline(" | subject="@));
    assert(no_newline(" | category="@));
    assert(no_newline(" | terms="@));
    assert(no_newline(" | query="@));
    assert(no_newline(" | intent="@));
    assert(no_newline(" | response="@));
    let q1 = "- ["@ + timestamp;
    lemma_no_newline_join("- ["@, timestamp);
    let q2 = q1 + "] source="@;
    lemma_no_newline_join(q1, "] source="@);
    let q3 = q2 + chosen.source@;
    lemma_no_newline_join(q2, chosen.source@);
    let q4 = q3 + " | subject="@;
    lemma_no_newline_join(q3, " | subject="@);
    let q5 = q4 + f1;
    lemma_no_newline_join(q4, f1);
    let q6 = q5 + " | category="@;
    lemma_no_newline_join(q5, " | category="@);
    let q7 = q6 + f2;
    lemma_no_newline_join(q6, f2);
    let q8 = q7 + " | terms="@;
    lemma_no_newline_join(q7, " | terms="@);
    let q9 = q8 + f3;
    lemma_no_newline_join(q8, f3);
    let q10 = q9 + " | query="@;
    lemma_no_newline_join(q9, " | query="@);
    let q11 = q10 + f4;
    lemma_no_newline_join(q10, f4);
    let q12 = q11 + " | intent="@;
    lemma_no_newline_join(q11, " | intent="@);
    let q13 = q12 + f5;
    lemma_no_newline_join(q12, f5);
    let q14 = q13 + " | response="@;
    lemma_no_newline_join(q13, " | response="@);
    let line = q14 + f6;
    lemma_no_newline_join(q14, f6);
    assert(line =~= memory_line(timestamp, m, c, i, chosen, response));
    if f6.len() > 0 {
        assert(line[line.len() - 1] == f6[f6.len() - 1]);
        assert(field_char(f6[f6.len() - 1]));
    } else {
        assert(line[line.len() - 1] == " | response="@[" | response="@.len() - 1]);
    }
}

/// A query that found data is remembered. When its memory line, as
/// `build_datagouv_memory_entry` writes it, is appended to a memory file as
/// `memory_file_addition` lays it out, the terms read back from the file's
/// lines are those read before, followed by the query's terms when they are
/// not blank. The file is empty or ends with a line break, as this library
/// leaves it; the line's timestamp and source label hold no line break and no
/// `terms=`.
pub proof fn memory_entry_read_back(
    existing: Seq<char>,
    timestamp: Seq<char>,
    m: GmailMessage,
    c: EmailClassification,
    i: EmailIntent,
    chosen: DatagouvQueryCandidate,
    response: Seq<char>,
)
    requires
        existing.len() == 0 || existing[existing.len() - 1] == '\n',
        no_newline(timestamp),
        no_newline(chosen.source@),
        !contains(timestamp, "terms="@),
        !contains(chosen.source@, "terms="@),
    ensures
        ({
            let entry = memory_line(timestamp, m, c, i, chosen, response);
            let added = if trim(existing).len() == 0 {
                memory_title() + entry + "\n"@
            } else {
                entry + "\n"@
            };
            let terms = memory_field(memory_terms_of(chosen.query@));
            remembered_terms(text_lines(existing + added)) == remembered_terms(text_lines(existing))
                + if terms.len() > 0 {
                seq![terms]
            } else {
                Seq::<Seq<char>>::empty()
            }
        }),
{
    reveal_strlit("\n");
    reveal_strlit("# Datagouv Query Memory");
    reveal_strlit("# Datagouv Query Memory\n\n");
    reveal_strlit("- [");
    let entry = memory_line(timestamp, m, c, i, chosen, response);
    let terms = memory_field(memory_terms_of(chosen.query@));
    let found = if terms.len() > 0 {
        seq![terms]
    } else {
        Seq::<Seq<char>>::empty()
    };
    lemma_memory_line_is_a_line(timestamp, m, c, i, chosen, response);
    lemma_memory_line_terms(timestamp, m, c, i, chosen, response);

    // The entry's own line.
    lemma_lines_of_ended_line(entry);
    let entry_lines = seq![entry];
    let no_lines = Seq::<Seq<char>>::empty();
    assert(remembered_terms(no_lines) == no_lines);
    assert(remembered_terms(entry_lines) =~= found) by {
        assert(entry_lines.drop_last() =~= no_lines);
        assert(entry_lines.last() == entry);
        assert(no_lines.push(terms) =~= seq![terms]);
    }

    // The title's lines record nothing.
    let head = "# Datagouv Query Memory"@;
    assert(no_newline(head));
    lemma_lines_of_ended_line(head);
    assert(without_cr(head) == head);
    lemma_lines_of_ended_line(Seq::<char>::empty());
    assert(Seq::<char>::empty() + "\n"@ =~= "\n"@);
    lemma_lines_scan_append(head + "\n"@, "\n"@);
    let title = memory_title();
    assert(title =~= (head + "\n"@) + "\n"@);
    let title_lines = seq![head, Seq::<char>::empty()];
    assert(lines_scan(title).0 =~= title_lines);
    assert(memory_line_terms(head) is None) by {
        assert(head.take(3)[0] == '#');
    }
    assert(memory_line_terms(Seq::<char>::empty()) is None);
    assert(remembered_terms(seq![head]) == no_lines) by {
        assert(seq![head].drop_last() =~= no_lines);
        assert(seq![head].last() == head);
    }
    assert(remembered_terms(title_lines) =~= no_lines) by {
        assert(title_lines.drop_last() =~= seq![head]);
        assert(title_lines.last() == Seq::<char>::empty());
    }

    // The existing lines come first.
    let added = if trim(existing).len() == 0 {
        title + entry + "\n"@
    } else {
        entry + "\n"@
    };
    let added_lines = if trim(existing).len() == 0 {
        title_lines + entry_lines
    } else {
        entry_lines
    };
    if trim(existing).len() == 0 {
        lemma_lines_scan_append(title, entry + "\n"@);
        assert(title + entry + "\n"@ =~= title + (entry + "\n"@));
        lemma_remembered_terms_append(title_lines, entry_lines);
        assert(Seq::<Seq<char>>::empty() + found =~= found);
    }
    assert(lines_scan(added) == (added_lines, Seq::<char>::empty()));
    assert(remembered_terms(added_lines) == found);
    if existing.len() > 0 {
        assert(lines_scan(existing).1.len() == 0);
    } else {
        assert(lines_scan(existing).1.len() == 0);
    }
    lemma_lines_scan_append(existing, added);
    assert(text_lines(existing + added) == lines_scan(existing).0 + added_lines);
    assert(text_lines(existing) == lines_scan(existing).0);
    lemma_remembered_terms_append(lines_scan(existing).0, added_lines);
}

} // verus!
