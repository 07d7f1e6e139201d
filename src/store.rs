//! The rules of the session store, on the catalog as a list: names are
//! unique, removal and timestamping go by name, and listing is by name.
use crate::model::{Session, SessionView, sessions_view};
use crate::state::without_name;
use crate::text::{lemma_bytes_lt_asym, str_eq, str_lt, text_lt};
use vstd::prelude::*;

verus! {

/// Why the store refused an operation.
#[derive(Debug, PartialEq, Eq)]
pub enum StoreError {
    /// A session of that name is already kept.
    AlreadyExists(String),
    /// No session of that name is kept.
    NotFound(String),
    /// The store could not be read or written; the text says why.
    Io(String),
}

/// `session '<name>' <what>`.
pub open spec fn quoted_message(name: Seq<char>, what: Seq<char>) -> Seq<char> {
    "session '"@ + name + "' "@ + what
}

impl StoreError {
    /// The message shown for the error.
    pub fn message(&self) -> (r: String)
        ensures
            (match self {
                StoreError::AlreadyExists(n) => r@ == quoted_message(n@, "already exists"@),
                StoreError::NotFound(n) => r@ == quoted_message(n@, "not found"@),
                StoreError::Io(m) => r@ == m@,
            }),
    {
        match self {
            StoreError::AlreadyExists(n) => {
                let mut s = "session '".to_owned();
                s.append(n.as_str());
                s.append("' ");
                s.append("already exists");
                s
            },
            StoreError::NotFound(n) => {
                let mut s = "session '".to_owned();
                s.append(n.as_str());
                s.append("' ");
                s.append("not found");
                s
            },
            StoreError::Io(m) => m.clone(),
        }
    }
}

/// Some kept session is named `name`.
pub open spec fn has_name(ss: Seq<SessionView>, name: Seq<char>) -> bool {
    exists|i: int| 0 <= i < ss.len() && (#[trigger] ss[i]).name == name
}

fn find_name(sessions: &Vec<Session>, name: &str) -> (r: Option<usize>)
    ensures
        (match r {
            Some(i) => crate::state::first_named(sessions_view(sessions@), name@, i as int),
            None => !has_name(sessions_view(sessions@), name@),
        }),
{
    let ghost ss = sessions_view(sessions@);
    let mut i: usize = 0;
    while i < sessions.len()
        invariant
            i <= sessions.len(),
            ss == sessions_view(sessions@),
            forall|k: int| 0 <= k < i ==> ss[k].name != name@,
        decreases sessions.len() - i,
    {
        if str_eq(sessions[i].name.as_str(), name) {
            return Some(i);
        }
        i += 1;
    }
    None
}

/// Adds a session whose name is not kept yet.
pub fn insert_session(sessions: &mut Vec<Session>, session: Session) -> (r: Result<(), StoreError>)
    ensures
        has_name(sessions_view(old(sessions)@), session@.name) ==> r == Err::<(), StoreError>(
            StoreError::AlreadyExists(session.name),
        ) && final(sessions)@ == old(sessions)@,
        !has_name(sessions_view(old(sessions)@), session@.name) ==> r is Ok && sessions_view(
            final(sessions)@,
        ) == sessions_view(old(sessions)@).push(session@),
{
    match find_name(sessions, session.name.as_str()) {
        Some(_) => Err(StoreError::AlreadyExists(session.name)),
        None => {
            let ghost sv = session@;
            sessions.push(session);
            proof {
                assert(sessions_view(sessions@) =~= sessions_view(old(sessions)@).push(sv));
            }
            Ok(())
        },
    }
}

/// Removes every session named `name`; refused when there is none.
pub fn remove_session(sessions: &mut Vec<Session>, name: &str) -> (r: Result<(), StoreError>)
    ensures
        !has_name(sessions_view(old(sessions)@), name@) ==> r is Err && final(sessions)@ == old(
            sessions,
        )@ && r->Err_0 is NotFound && r->Err_0->NotFound_0@ == name@,
        has_name(sessions_view(old(sessions)@), name@) ==> r is Ok && sessions_view(
            final(sessions)@,
        ) == without_name(sessions_view(old(sessions)@), name@),
{
    if find_name(sessions, name).is_none() {
        return Err(StoreError::NotFound(name.to_owned()));
    }
    let ghost old_ss = sessions_view(sessions@);
    let ghost pred = |s: SessionView| s.name != name@;
    let mut kept: Vec<Session> = Vec::new();
    let mut i: usize = 0;
    while i < sessions.len()
        invariant
            i <= sessions.len(),
            old_ss == sessions_view(sessions@),
            pred == (|s: SessionView| s.name != name@),
            sessions_view(kept@) == old_ss.subrange(0, i as int).filter(pred),
        decreases sessions.len() - i,
    {
        proof {
            assert(old_ss.subrange(0, i + 1) =~= old_ss.subrange(0, i as int).push(
                old_ss[i as int],
            ));
            old_ss.subrange(0, i as int).lemma_filter_push(old_ss[i as int], pred);
        }
        if !str_eq(sessions[i].name.as_str(), name) {
            let ghost before = kept@;
            kept.push(sessions[i].clone());
            proof {
                assert(sessions_view(kept@) =~= sessions_view(before).push(old_ss[i as int]));
            }
        }
        i += 1;
    }
    proof {
        assert(old_ss.subrange(0, i as int) =~= old_ss);
    }
    *sessions = kept;
    Ok(())
}

/// Records `timestamp` as the last connection of the first session named
/// `name`; refused when there is none.
pub fn touch_session(sessions: &mut Vec<Session>, name: &str, timestamp: i64) -> (r: Result<
    (),
    StoreError,
>)
    ensures
        !has_name(sessions_view(old(sessions)@), name@) ==> r is Err && final(sessions)@ == old(
            sessions,
        )@ && r->Err_0 is NotFound && r->Err_0->NotFound_0@ == name@,
        has_name(sessions_view(old(sessions)@), name@) ==> r is Ok && exists|i: int|
            crate::state::first_named(sessions_view(old(sessions)@), name@, i) && sessions_view(
                final(sessions)@,
            ) == sessions_view(old(sessions)@).update(
                i,
                SessionView { last_connected_at: Some(timestamp), ..sessions_view(old(sessions)@)[i] },
            ),
{
    match find_name(sessions, name) {
        None => Err(StoreError::NotFound(name.to_owned())),
        Some(i) => {
            let mut s = sessions[i].clone();
            s.last_connected_at = Some(timestamp);
            let ghost sv = s@;
            sessions.set(i, s);
            proof {
                assert(sessions_view(sessions@) =~= sessions_view(old(sessions)@).update(
                    i as int,
                    sv,
                ));
            }
            Ok(())
        },
    }
}

/// Each session's name is at most the next one's.
pub open spec fn sorted_by_name(s: Seq<SessionView>) -> bool {
    forall|i: int| 0 <= i < s.len() - 1 ==> !text_lt(#[trigger] s[i + 1].name, s[i].name)
}

/// The sessions ordered by name; sessions of equal name keep their order.
pub fn sort_by_name(v: &Vec<Session>) -> (r: Vec<Session>)
    ensures
        sorted_by_name(sessions_view(r@)),
        sessions_view(r@).to_multiset() == sessions_view(v@).to_multiset(),
{
    broadcast use vstd::seq_lib::group_to_multiset_ensures;

    let ghost input = sessions_view(v@);
    let mut out: Vec<Session> = Vec::new();
    proof {
        assert(sessions_view(out@) =~= input.subrange(0, 0));
    }
    let mut i: usize = 0;
    while i < v.len()
        invariant
            i <= v.len(),
            input == sessions_view(v@),
            sorted_by_name(sessions_view(out@)),
            sessions_view(out@).to_multiset() == input.subrange(0, i as int).to_multiset(),
        decreases v.len() - i,
    {
        let x = v[i].clone();
        let ghost ov = sessions_view(out@);
        let mut k: usize = 0;
        let mut found = false;
        while k < out.len() && !found
            invariant
                k <= out.len(),
                ov == sessions_view(out@),
                forall|j: int| 0 <= j < k ==> !text_lt(x@.name, #[trigger] ov[j].name),
                found ==> k < ov.len() && text_lt(x@.name, ov[k as int].name),
            decreases out.len() - k + (if found {
                0int
            } else {
                1int
            }),
        {
            if str_lt(x.name.as_str(), out[k].name.as_str()) {
                found = true;
            } else {
                k += 1;
            }
        }
        let ghost xv = x@;
        proof {
            if k < ov.len() {
                lemma_bytes_lt_asym(
                    vstd::utf8::encode_utf8(xv.name),
                    vstd::utf8::encode_utf8(ov[k as int].name),
                );
            }
        }
        out.insert(k, x);
        proof {
            let nv = sessions_view(out@);
            assert(nv =~= ov.insert(k as int, xv));
            assert forall|j: int| 0 <= j < nv.len() - 1 implies !text_lt(
                #[trigger] nv[j + 1].name,
                nv[j].name,
            ) by {
                if j + 1 < k {
                    assert(nv[j] == ov[j] && nv[j + 1] == ov[j + 1]);
                    assert(!text_lt(ov[j + 1].name, ov[j].name));
                } else if j + 1 == k {
                    assert(nv[j] == ov[j] && nv[j + 1] == xv);
                    assert(!text_lt(xv.name, ov[j].name));
                } else if j == k {
                    assert(nv[j] == xv && nv[j + 1] == ov[j]);
                } else {
                    assert(nv[j] == ov[j - 1] && nv[j + 1] == ov[j]);
                    assert(!text_lt(ov[(j - 1) + 1].name, ov[j - 1].name));
                }
            }
            vstd::seq_lib::to_multiset_insert(ov, k as int, xv);
            assert(input.subrange(0, i + 1) =~= input.subrange(0, i as int).push(xv));
            vstd::seq_lib::to_multiset_build(input.subrange(0, i as int), xv);
        }
        i += 1;
    }
    proof {
        assert(input.subrange(0, i as int) =~= input);
    }
    out
}

/// Imported sessions split by whether the catalog already has their name:
/// first the new ones, then the conflicting ones, each in import order.
pub fn split_conflicts(imported: &Vec<Session>, existing: &Vec<Session>) -> (r: (
    Vec<Session>,
    Vec<Session>,
))
    ensures
        sessions_view(r.0@) == sessions_view(imported@).filter(
            |s: SessionView| !has_name(sessions_view(existing@), s.name),
        ),
        sessions_view(r.1@) == sessions_view(imported@).filter(
            |s: SessionView| has_name(sessions_view(existing@), s.name),
        ),
{
    let ghost iv = sessions_view(imported@);
    let ghost ev = sessions_view(existing@);
    let ghost is_new = |s: SessionView| !has_name(ev, s.name);
    let ghost is_taken = |s: SessionView| has_name(ev, s.name);
    let mut fresh: Vec<Session> = Vec::new();
    let mut taken: Vec<Session> = Vec::new();
    let mut i: usize = 0;
    while i < imported.len()
        invariant
            i <= imported.len(),
            iv == sessions_view(imported@),
            ev == sessions_view(existing@),
            is_new == (|s: SessionView| !has_name(ev, s.name)),
            is_taken == (|s: SessionView| has_name(ev, s.name)),
            sessions_view(fresh@) == iv.subrange(0, i as int).filter(is_new),
            sessions_view(taken@) == iv.subrange(0, i as int).filter(is_taken),
        decreases imported.len() - i,
    {
        proof {
            assert(iv.subrange(0, i + 1) =~= iv.subrange(0, i as int).push(iv[i as int]));
            iv.subrange(0, i as int).lemma_filter_push(iv[i as int], is_new);
            iv.subrange(0, i as int).lemma_filter_push(iv[i as int], is_taken);
        }
        let copy = imported[i].clone();
        if find_name(existing, imported[i].name.as_str()).is_some() {
            let ghost before = taken@;
            taken.push(copy);
            proof {
                assert(sessions_view(taken@) =~= sessions_view(before).push(iv[i as int]));
            }
        } else {
            let ghost before = fresh@;
            fresh.push(copy);
            proof {
                assert(sessions_view(fresh@) =~= sessions_view(before).push(iv[i as int]));
            }
        }
        i += 1;
    }
    proof {
        assert(iv.subrange(0, i as int) =~= iv);
    }
    (fresh, taken)
}

/// A session with the given changes: each field given replaces the stored
/// one; tags, when any are given, are cleaned and replace the stored ones.
pub fn apply_update(
    session: Session,
    host: Option<String>,
    user: Option<String>,
    port: Option<u16>,
    identity_file: Option<String>,
    tags: Vec<String>,
) -> (r: Session)
    ensures
        r@.name == session@.name,
        r@.host == (match host {
            Some(h) => h@,
            None => session@.host,
        }),
        r@.user == (match user {
            Some(u) => u@,
            None => session@.user,
        }),
        r@.port == (match port {
            Some(p) => p,
            None => session@.port,
        }),
        r@.identity_file == (match identity_file {
            Some(p) => Some(p@),
            None => session@.identity_file,
        }),
        r@.tags == (if tags@.len() > 0 {
            crate::model::clean_tags(crate::model::strings_view(tags@))
        } else {
            session@.tags
        }),
        r@.last_connected_at == session@.last_connected_at,
{
    let mut s = session;
    if let Some(h) = host {
        s.host = h;
    }
    if let Some(u) = user {
        s.user = u;
    }
    if let Some(p) = port {
        s.port = p;
    }
    if let Some(p) = identity_file {
        s.identity_file = Some(p);
    }
    if tags.len() > 0 {
        s.tags = crate::model::normalize_tags(tags);
    }
    s
}

/// The persistence capability the interaction relies on. Listing is by name.
pub trait SessionStore {
    fn add(&mut self, session: Session) -> Result<(), StoreError>;

    fn list(&self) -> Result<Vec<Session>, StoreError>;

    fn remove(&mut self, name: &str) -> Result<(), StoreError>;

    fn touch_last_connected(&mut self, name: &str, timestamp: i64) -> Result<(), StoreError>;
}

/// A store held in memory, for tests and for callers that persist elsewhere.
pub struct MemoryStore {
    pub sessions: Vec<Session>,
}

impl MemoryStore {
    pub fn new() -> (r: Self)
        ensures
            r.sessions@.len() == 0,
    {
        MemoryStore { sessions: Vec::new() }
    }
}

impl SessionStore for MemoryStore {
    fn add(&mut self, session: Session) -> Result<(), StoreError> {
        insert_session(&mut self.sessions, session)
    }

    fn list(&self) -> Result<Vec<Session>, StoreError> {
        Ok(sort_by_name(&self.sessions))
    }

    fn remove(&mut self, name: &str) -> Result<(), StoreError> {
        remove_session(&mut self.sessions, name)
    }

    fn touch_last_connected(&mut self, name: &str, timestamp: i64) -> Result<(), StoreError> {
        touch_session(&mut self.sessions, name, timestamp)
    }
}

} // verus!
