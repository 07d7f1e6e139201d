//! Which sessions a query shows.
use crate::model::{Session, SessionView, sessions_view};
use crate::text::{contains_seq, is_blank, lower_of, str_contains, str_trim, to_lower};
use vstd::prelude::*;

verus! {

/// The texts of a session that a query is tested against, in order: name,
/// host, user, the identity file if any, then each tag.
pub open spec fn searchable_fields(s: SessionView) -> Seq<Seq<char>> {
    let id = match s.identity_file {
        Some(p) => seq![p],
        None => Seq::empty(),
    };
    seq![s.name, s.host, s.user] + id + s.tags
}

/// Some text among `fields` holds `needle`.
pub open spec fn any_contains(fields: Seq<Seq<char>>, needle: Seq<char>) -> bool {
    exists|i: int| 0 <= i < fields.len() && contains_seq(#[trigger] fields[i], needle)
}

/// The lower-cased fields of a session.
pub open spec fn folded_fields(s: SessionView) -> Seq<Seq<char>> {
    searchable_fields(s).map_values(|f: Seq<char>| lower_of(f))
}

/// A session matches a lower-cased needle when one of its lower-cased fields holds it.
pub open spec fn session_matches_spec(s: SessionView, needle: Seq<char>) -> bool {
    any_contains(folded_fields(s), needle)
}

/// The positions below `n` whose session matches, in increasing order.
pub open spec fn matching_upto(ss: Seq<SessionView>, needle: Seq<char>, n: int) -> Seq<usize>
    decreases n,
{
    if n <= 0 {
        Seq::empty()
    } else {
        let r = matching_upto(ss, needle, n - 1);
        if session_matches_spec(ss[n - 1], needle) {
            r.push((n - 1) as usize)
        } else {
            r
        }
    }
}

/// `0, 1, ..., n - 1`.
pub open spec fn all_indices(n: nat) -> Seq<usize> {
    Seq::new(n, |i: int| i as usize)
}

/// The visible positions for a query: all of them for a blank query, else those
/// whose session holds the lower-cased query in a lower-cased field.
pub open spec fn filter_spec(ss: Seq<SessionView>, q: Seq<char>) -> Seq<usize> {
    if is_blank(q) {
        all_indices(ss.len())
    } else {
        matching_upto(ss, lower_of(q), ss.len() as int)
    }
}

/// The sessions at the given positions.
pub open spec fn pick(ss: Seq<SessionView>, idx: Seq<usize>) -> Seq<SessionView> {
    idx.map_values(|i: usize| ss[i as int])
}

/// Whether one of `folded` (texts already lower-cased) holds `needle`; stops at
/// the first that does.
pub fn fields_match(folded: &Vec<String>, needle: &str) -> (r: bool)
    ensures
        r == any_contains(folded@.map_values(|f: String| f@), needle@),
{
    let ghost fs = folded@.map_values(|f: String| f@);
    let mut i: usize = 0;
    while i < folded.len()
        invariant
            i <= folded.len(),
            fs == folded@.map_values(|f: String| f@),
            forall|k: int| 0 <= k < i ==> !contains_seq(#[trigger] fs[k], needle@),
        decreases folded.len() - i,
    {
        if str_contains(folded[i].as_str(), needle) {
            assert(contains_seq(fs[i as int], needle@));
            return true;
        }
        i += 1;
    }
    false
}

fn push_folded(out: &mut Vec<String>, s: &String)
    ensures
        final(out)@.map_values(|f: String| f@) == old(out)@.map_values(|f: String| f@).push(
            lower_of(s@),
        ),
{
    out.push(to_lower(s.as_str()));
    assert(final(out)@.map_values(|f: String| f@) =~= old(out)@.map_values(|f: String| f@).push(
        lower_of(s@),
    ));
}

/// Whether `session` matches the lower-cased `needle`.
pub fn session_matches(session: &Session, needle: &str) -> (r: bool)
    ensures
        r == session_matches_spec(session@, needle@),
{
    let ghost sv = session@;
    let mut folded: Vec<String> = Vec::new();
    push_folded(&mut folded, &session.name);
    push_folded(&mut folded, &session.host);
    push_folded(&mut folded, &session.user);
    if let Some(identity) = &session.identity_file {
        push_folded(&mut folded, identity);
    }
    let ghost base = folded@.map_values(|f: String| f@);
    let mut j: usize = 0;
    while j < session.tags.len()
        invariant
            j <= session.tags.len(),
            sv == session@,
            folded@.map_values(|f: String| f@) =~= base + sv.tags.subrange(0, j as int).map_values(
                |f: Seq<char>| lower_of(f),
            ),
        decreases session.tags.len() - j,
    {
        push_folded(&mut folded, &session.tags[j]);
        proof {
            assert(sv.tags[j as int] == session.tags@[j as int]@);
            assert(sv.tags.subrange(0, j + 1).map_values(|f: Seq<char>| lower_of(f))
                =~= sv.tags.subrange(0, j as int).map_values(|f: Seq<char>| lower_of(f)).push(
                lower_of(sv.tags[j as int]),
            ));
        }
        j += 1;
    }
    proof {
        assert(sv.tags.subrange(0, j as int) =~= sv.tags);
        assert(folded@.map_values(|f: String| f@) =~= folded_fields(sv));
    }
    fields_match(&folded, needle)
}

/// The positions of the sessions that `filter` shows, in catalog order. A blank
/// query shows all; otherwise the match ignores case.
pub fn filter_sessions(sessions: &[Session], filter: &str) -> (r: Vec<usize>)
    ensures
        r@ == filter_spec(sessions_view(sessions@), filter@),
{
    let ghost ss = sessions_view(sessions@);
    let trimmed = str_trim(filter);
    proof {
        crate::text::lemma_trim_empty_iff_blank(filter@);
    }
    let mut r: Vec<usize> = Vec::new();
    if trimmed.is_empty() {
        let mut i: usize = 0;
        while i < sessions.len()
            invariant
                i <= sessions.len(),
                r@ =~= all_indices(i as nat),
            decreases sessions.len() - i,
        {
            r.push(i);
            i += 1;
        }
        return r;
    }
    let needle = to_lower(filter);
    let mut i: usize = 0;
    while i < sessions.len()
        invariant
            i <= sessions.len(),
            ss == sessions_view(sessions@),
            needle@ == lower_of(filter@),
            r@ == matching_upto(ss, needle@, i as int),
        decreases sessions.len() - i,
    {
        let m = session_matches(&sessions[i], needle.as_str());
        if m {
            r.push(i);
        }
        i += 1;
    }
    r
}

proof fn lemma_matching_upto_props(ss: Seq<SessionView>, needle: Seq<char>, n: int)
    requires
        0 <= n <= ss.len() <= usize::MAX,
    ensures
        forall|i: int, j: int|
            0 <= i < j < matching_upto(ss, needle, n).len() ==> matching_upto(ss, needle, n)[i]
                < matching_upto(ss, needle, n)[j],
        forall|i: int|
            0 <= i < matching_upto(ss, needle, n).len() ==> matching_upto(ss, needle, n)[i] < n
                && session_matches_spec(ss[matching_upto(ss, needle, n)[i] as int], needle),
        matching_upto(ss, needle, n).len() <= n,
    decreases n,
{
    if n > 0 {
        lemma_matching_upto_props(ss, needle, n - 1);
        let r = matching_upto(ss, needle, n - 1);
        if session_matches_spec(ss[n - 1], needle) {
            let last = (n - 1) as usize;
            assert(last as int == n - 1);
            assert(r.push(last)[r.len() as int] == last);
            assert forall|i: int| 0 <= i < r.len() implies r.push(last)[i] == r[i] by {}
        }
    }
}

/// The positions a query shows grow strictly and lie within the catalog.
pub proof fn lemma_filter_ordered(ss: Seq<SessionView>, q: Seq<char>)
    requires
        ss.len() <= usize::MAX,
    ensures
        forall|i: int, j: int|
            0 <= i < j < filter_spec(ss, q).len() ==> filter_spec(ss, q)[i] < filter_spec(ss, q)[j],
        forall|i: int| 0 <= i < filter_spec(ss, q).len() ==> filter_spec(ss, q)[i] < ss.len(),
        filter_spec(ss, q).len() <= ss.len(),
{
    if !is_blank(q) {
        lemma_matching_upto_props(ss, lower_of(q), ss.len() as int);
    }
}

proof fn lemma_all_match(vs: Seq<SessionView>, needle: Seq<char>, n: int)
    requires
        0 <= n <= vs.len() <= usize::MAX,
        forall|k: int| 0 <= k < vs.len() ==> session_matches_spec(#[trigger] vs[k], needle),
    ensures
        matching_upto(vs, needle, n) == all_indices(n as nat),
    decreases n,
{
    if n > 0 {
        lemma_all_match(vs, needle, n - 1);
        assert(matching_upto(vs, needle, n) =~= all_indices(n as nat));
    } else {
        assert(matching_upto(vs, needle, n) =~= all_indices(n as nat));
    }
}

/// Filtering again the sessions that a query shows, with the same query, shows
/// every one of them.
pub proof fn lemma_filter_idempotent(ss: Seq<SessionView>, q: Seq<char>)
    requires
        ss.len() <= usize::MAX,
    ensures
        filter_spec(pick(ss, filter_spec(ss, q)), q) == all_indices(filter_spec(ss, q).len()),
        pick(pick(ss, filter_spec(ss, q)), filter_spec(pick(ss, filter_spec(ss, q)), q)) == pick(
            ss,
            filter_spec(ss, q),
        ),
{
    let r = filter_spec(ss, q);
    let v = pick(ss, r);
    if !is_blank(q) {
        lemma_matching_upto_props(ss, lower_of(q), ss.len() as int);
        assert(v.len() <= usize::MAX);
        assert forall|k: int| 0 <= k < v.len() implies session_matches_spec(
            #[trigger] v[k],
            lower_of(q),
        ) by {
            assert(v[k] == ss[r[k] as int]);
        }
        lemma_all_match(v, lower_of(q), v.len() as int);
    }
    assert(v.len() <= usize::MAX);
    assert forall|i: int| 0 <= i < v.len() implies pick(v, all_indices(v.len()))[i] == v[i] by {
        assert(all_indices(v.len())[i] as int == i);
    }
    assert(pick(v, all_indices(v.len())) =~= v);
}

} // verus!
