//! Live suggestions for the identity-file field: where to look, and which
//! entries of that directory to offer.
use crate::model::strings_view;
use crate::text::{
    last_index_of, rsplit_once_char, sort_texts, starts_with_seq, str_starts_with, str_trim,
    strip_prefix_str, texts_sorted, trim_seq,
};
use vstd::prelude::*;

verus! {

/// `~/rest` with `home` known becomes `home/rest`; anything else is kept.
pub open spec fn expand_tilde_spec(input: Seq<char>, home: Option<Seq<char>>) -> Seq<char> {
    if starts_with_seq(input, seq!['~', '/']) && home is Some {
        home->0 + seq!['/'] + input.subrange(2, input.len() as int)
    } else {
        input
    }
}

/// Expands a leading `~/` to the home directory, when that is known.
pub fn expand_tilde(input: &str, home: Option<&str>) -> (r: String)
    ensures
        r@ == expand_tilde_spec(input@, match home {
            Some(h) => Some(h@),
            None => None,
        }),
{
    let mut tilde = String::new();
    crate::text::push_char(&mut tilde, '~');
    crate::text::push_char(&mut tilde, '/');
    proof {
        assert(tilde@ =~= seq!['~', '/']);
    }
    if let Some(h) = home {
        if let Some(rest) = strip_prefix_str(input, tilde.as_str()) {
            let mut out = h.to_owned();
            crate::text::push_char(&mut out, '/');
            out.append(rest);
            return out;
        }
    }
    input.to_owned()
}

/// Where to look for a typed path: the directory, with a trailing `/`, or
/// empty when the path names none; and the prefix that entry names must have.
pub open spec fn lookup_parts(expanded: Seq<char>) -> (Seq<char>, Seq<char>) {
    if expanded.contains('/') {
        let i = choose|i: int| last_index_of(expanded, '/', i);
        (expanded.subrange(0, i + 1), expanded.subrange(i + 1, expanded.len() as int))
    } else {
        (Seq::empty(), expanded)
    }
}

/// A lookup to perform for the identity field.
pub struct IdentityQuery {
    /// The typed path with `~/` expanded; whether it exists is shown.
    pub expanded: String,
    /// The directory to list, ending in `/`; empty when the path names none.
    pub dir: String,
    /// The prefix that the listed names must start with.
    pub prefix: String,
}

proof fn lemma_last_index_unique(s: Seq<char>, c: char, i: int, j: int)
    requires
        last_index_of(s, c, i),
        last_index_of(s, c, j),
    ensures
        i == j,
{
    if i < j {
        assert(s[j] != c);
    } else if j < i {
        assert(s[i] != c);
    }
}

/// What to look up for the typed identity path; `None` when the field is
/// blank, which clears the lookup state.
pub fn identity_query(input: &str, home: Option<&str>) -> (r: Option<IdentityQuery>)
    ensures
        trim_seq(input@).len() == 0 <==> r is None,
        r matches Some(q) ==> {
            let e = expand_tilde_spec(trim_seq(input@), match home {
                Some(h) => Some(h@),
                None => None,
            });
            &&& q.expanded@ == e
            &&& q.dir@ == lookup_parts(e).0
            &&& q.prefix@ == lookup_parts(e).1
        },
{
    let t = str_trim(input);
    if t.is_empty() {
        return None;
    }
    let expanded = expand_tilde(t, home);
    let (dir, prefix) = match rsplit_once_char(expanded.as_str(), '/') {
        Some((before, after)) => {
            proof {
                let e = expanded@;
                let i = choose|i: int| last_index_of(e, '/', i);
                let j = choose|j: int|
                    last_index_of(e, '/', j) && before@ == e.subrange(0, j) && after@ == e.subrange(
                        j + 1,
                        e.len() as int,
                    );
                lemma_last_index_unique(e, '/', i, j);
                assert(e.subrange(0, i + 1) =~= e.subrange(0, i).push('/'));
            }
            let mut d = before.to_owned();
            crate::text::push_char(&mut d, '/');
            (d, after.to_owned())
        },
        None => (String::new(), expanded.clone()),
    };
    Some(IdentityQuery { expanded, dir, prefix })
}

/// The directory entries offered for a prefix, as full paths.
pub open spec fn offered(dir: Seq<char>, prefix: Seq<char>, names: Seq<Seq<char>>) -> Seq<
    Seq<char>,
> {
    names.filter(|n: Seq<char>| starts_with_seq(n, prefix)).map_values(|n: Seq<char>| dir + n)
}

/// The suggestions for a listed directory: the entries whose name starts with
/// `prefix`, joined to `dir`, sorted.
pub fn identity_suggestions(dir: &str, prefix: &str, names: &Vec<String>) -> (r: Vec<String>)
    ensures
        texts_sorted(strings_view(r@)),
        strings_view(r@).to_multiset() == offered(dir@, prefix@, strings_view(names@)).to_multiset(),
{
    let ghost nv = strings_view(names@);
    let ghost keep = |n: Seq<char>| starts_with_seq(n, prefix@);
    let ghost join = |n: Seq<char>| dir@ + n;
    let mut picked: Vec<String> = Vec::new();
    let mut i: usize = 0;
    while i < names.len()
        invariant
            i <= names.len(),
            nv == strings_view(names@),
            keep == (|n: Seq<char>| starts_with_seq(n, prefix@)),
            join == (|n: Seq<char>| dir@ + n),
            strings_view(picked@) == nv.subrange(0, i as int).filter(keep).map_values(join),
        decreases names.len() - i,
    {
        proof {
            assert(nv.subrange(0, i + 1) =~= nv.subrange(0, i as int).push(nv[i as int]));
            nv.subrange(0, i as int).lemma_filter_push(nv[i as int], keep);
        }
        if str_starts_with(names[i].as_str(), prefix) {
            let mut full = dir.to_owned();
            full.append(names[i].as_str());
            let ghost before = picked@;
            picked.push(full);
            proof {
                assert(strings_view(picked@) =~= strings_view(before).push(join(nv[i as int])));
                assert(nv.subrange(0, i as int).filter(keep).push(nv[i as int]).map_values(join)
                    =~= nv.subrange(0, i as int).filter(keep).map_values(join).push(
                    join(nv[i as int]),
                ));
            }
        }
        i += 1;
    }
    proof {
        assert(nv.subrange(0, i as int) =~= nv);
    }
    sort_texts(&picked)
}

} // verus!
