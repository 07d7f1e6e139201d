//! The saved remote-access target.
use vstd::prelude::*;

verus! {

/// One saved remote-access target. `name` is the key under which the store
/// keeps it; `identity_file` is a path, kept verbatim.
#[derive(Debug, PartialEq, Eq)]
pub struct Session {
    pub name: String,
    pub host: String,
    pub user: String,
    pub port: u16,
    pub identity_file: Option<String>,
    pub tags: Vec<String>,
    pub last_connected_at: Option<i64>,
}

/// What a session holds, as plain sequences.
pub struct SessionView {
    pub name: Seq<char>,
    pub host: Seq<char>,
    pub user: Seq<char>,
    pub port: u16,
    pub identity_file: Option<Seq<char>>,
    pub tags: Seq<Seq<char>>,
    pub last_connected_at: Option<i64>,
}

pub open spec fn opt_string_view(o: Option<String>) -> Option<Seq<char>> {
    match o {
        Some(s) => Some(s@),
        None => None,
    }
}

pub open spec fn strings_view(v: Seq<String>) -> Seq<Seq<char>> {
    v.map_values(|s: String| s@)
}

impl View for Session {
    type V = SessionView;

    open spec fn view(&self) -> SessionView {
        SessionView {
            name: self.name@,
            host: self.host@,
            user: self.user@,
            port: self.port,
            identity_file: opt_string_view(self.identity_file),
            tags: strings_view(self.tags@),
            last_connected_at: self.last_connected_at,
        }
    }
}

/// `user@host`.
pub open spec fn target_of(user: Seq<char>, host: Seq<char>) -> Seq<char> {
    user + seq!['@'] + host
}

impl Session {
    /// The `user@host` form that ssh and scp take.
    pub fn target(&self) -> (r: String)
        ensures
            r@ == target_of(self.user@, self.host@),
    {
        let mut t = self.user.clone();
        crate::text::push_char(&mut t, '@');
        t.append(self.host.as_str());
        t
    }
}

impl Clone for Session {
    fn clone(&self) -> (r: Self)
        ensures
            r@ == self@,
    {
        let identity_file = match &self.identity_file {
            Some(p) => Some(p.clone()),
            None => None,
        };
        let tags = self.tags.clone();
        proof {
            assert(strings_view(tags@) =~= strings_view(self.tags@));
        }
        Session {
            name: self.name.clone(),
            host: self.host.clone(),
            user: self.user.clone(),
            port: self.port,
            identity_file,
            tags,
            last_connected_at: self.last_connected_at,
        }
    }
}


/// The views of a sequence of sessions.
pub open spec fn sessions_view(ss: Seq<Session>) -> Seq<SessionView> {
    ss.map_values(|s: Session| s@)
}


/// Tags as they are kept: each trimmed, the empty ones dropped, order kept.
pub open spec fn clean_tags(tags: Seq<Seq<char>>) -> Seq<Seq<char>> {
    tags.map_values(|t: Seq<char>| crate::text::trim_seq(t)).filter(|t: Seq<char>| t.len() > 0)
}

/// The tags a comma-separated list gives.
pub open spec fn tags_of(s: Seq<char>) -> Seq<Seq<char>> {
    clean_tags(crate::text::split_seq(s, ','))
}

/// Trims each tag and drops the empty ones, keeping the order; duplicates stay.
pub fn normalize_tags(tags: Vec<String>) -> (r: Vec<String>)
    ensures
        strings_view(r@) == clean_tags(strings_view(tags@)),
{
    let ghost tv = strings_view(tags@);
    let ghost trimmed = tv.map_values(|t: Seq<char>| crate::text::trim_seq(t));
    let ghost keep = |t: Seq<char>| t.len() > 0;
    let mut out: Vec<String> = Vec::new();
    let mut i: usize = 0;
    while i < tags.len()
        invariant
            i <= tags.len(),
            tv == strings_view(tags@),
            trimmed == tv.map_values(|t: Seq<char>| crate::text::trim_seq(t)),
            keep == (|t: Seq<char>| t.len() > 0),
            strings_view(out@) == trimmed.subrange(0, i as int).filter(keep),
        decreases tags.len() - i,
    {
        proof {
            assert(trimmed.subrange(0, i + 1) =~= trimmed.subrange(0, i as int).push(
                trimmed[i as int],
            ));
            trimmed.subrange(0, i as int).lemma_filter_push(trimmed[i as int], keep);
        }
        let t = crate::text::str_trim(tags[i].as_str());
        if !t.is_empty() {
            let ghost before = out@;
            out.push(t.to_owned());
            proof {
                assert(strings_view(out@) =~= strings_view(before).push(trimmed[i as int]));
            }
        }
        i += 1;
    }
    proof {
        assert(trimmed.subrange(0, i as int) =~= trimmed);
    }
    out
}

/// Splits a comma-separated list into tags: pieces trimmed, empty ones
/// dropped, order kept, duplicates kept.
pub fn split_tags(input: &str) -> (r: Vec<String>)
    ensures
        strings_view(r@) == tags_of(input@),
{
    normalize_tags(crate::text::split_char(input, ','))
}

} // verus!
