//! Reading sessions out of ssh client configuration.
use crate::model::{Session, SessionView, sessions_view};
use crate::text::{
    first_index_of, lower_of, parse_u16, parse_unsigned, split_char, split_once_char, split_seq,
    str_eq, str_trim, to_lower, trim_seq,
};
use vstd::prelude::*;

verus! {

/// Where the reading of a configuration stands: the `Host` block being read,
/// with what it has said so far, and the sessions finished before it.
pub struct ImportState {
    pub host: Option<Seq<char>>,
    pub user: Seq<char>,
    pub hostname: Option<Seq<char>>,
    pub port: u16,
    pub identity: Option<Seq<char>>,
    pub sessions: Seq<SessionView>,
}

pub open spec fn import_start() -> ImportState {
    ImportState {
        host: None,
        user: "root"@,
        hostname: None,
        port: 22,
        identity: None,
        sessions: Seq::empty(),
    }
}

/// Ends the block being read: a block with both a name and a `HostName`
/// becomes a session; either way the name is dropped, and once a name was
/// there the `HostName` is dropped too.
pub open spec fn flush(st: ImportState) -> ImportState {
    match st.host {
        None => st,
        Some(name) => match st.hostname {
            None => ImportState { host: None, ..st },
            Some(h) => ImportState {
                host: None,
                hostname: None,
                identity: None,
                sessions: st.sessions.push(
                    SessionView {
                        name,
                        host: h,
                        user: st.user,
                        port: st.port,
                        identity_file: st.identity,
                        tags: Seq::empty(),
                        last_connected_at: None,
                    },
                ),
                ..st
            },
        },
    }
}

/// The keyword and value of a trimmed line that has a space; the keyword is
/// lower-cased and the value trimmed.
pub open spec fn keyword_value(t: Seq<char>) -> (Seq<char>, Seq<char>) {
    let i = choose|i: int| first_index_of(t, ' ', i);
    (lower_of(t.subrange(0, i)), trim_seq(t.subrange(i + 1, t.len() as int)))
}

/// One line: blank lines, comments and lines without a value change nothing;
/// `Host` starts a new block, and `User`, `HostName`, `Port`, `IdentityFile`
/// fill the current one. A port that does not read as one is 22.
pub open spec fn import_line(st: ImportState, line: Seq<char>) -> ImportState {
    let t = trim_seq(line);
    if t.len() == 0 || t[0] == '#' || !t.contains(' ') {
        st
    } else {
        let kw = keyword_value(t).0;
        let value = keyword_value(t).1;
        if kw == "host"@ {
            ImportState {
                host: Some(value),
                user: "root"@,
                port: 22,
                identity: None,
                ..flush(st)
            }
        } else if kw == "user"@ {
            ImportState { user: value, ..st }
        } else if kw == "hostname"@ {
            ImportState { hostname: Some(value), ..st }
        } else if kw == "port"@ {
            ImportState {
                port: match parse_unsigned(value, 0xffff) {
                    Some(p) => p as u16,
                    None => 22,
                },
                ..st
            }
        } else if kw == "identityfile"@ {
            ImportState { identity: Some(value), ..st }
        } else {
            st
        }
    }
}

/// The state after reading the given lines in order.
pub open spec fn import_lines(lines: Seq<Seq<char>>) -> ImportState
    decreases lines.len(),
{
    if lines.len() == 0 {
        import_start()
    } else {
        import_line(import_lines(lines.drop_last()), lines.last())
    }
}

/// The sessions that a configuration text describes.
pub open spec fn imported_sessions(content: Seq<char>) -> Seq<SessionView> {
    flush(import_lines(split_seq(content, '\n'))).sessions
}

struct Reader {
    host: Option<String>,
    user: String,
    hostname: Option<String>,
    port: u16,
    identity: Option<String>,
    sessions: Vec<Session>,
}

spec fn reader_view(r: Reader) -> ImportState {
    ImportState {
        host: crate::model::opt_string_view(r.host),
        user: r.user@,
        hostname: crate::model::opt_string_view(r.hostname),
        port: r.port,
        identity: crate::model::opt_string_view(r.identity),
        sessions: sessions_view(r.sessions@),
    }
}

fn reader_flush(r: &mut Reader)
    ensures
        reader_view(*final(r)) == flush(reader_view(*old(r))),
{
    if let Some(name) = r.host.take() {
        if let Some(host) = r.hostname.take() {
            let session = Session {
                name,
                host,
                user: r.user.clone(),
                port: r.port,
                identity_file: r.identity.take(),
                tags: Vec::new(),
                last_connected_at: None,
            };
            let ghost sv = session@;
            r.sessions.push(session);
            proof {
                assert(sv.tags =~= Seq::<Seq<char>>::empty());
                assert(sessions_view(r.sessions@) =~= sessions_view(old(r).sessions@).push(sv));
            }
        }
    }
}

proof fn lemma_first_index_unique(s: Seq<char>, c: char, i: int, j: int)
    requires
        first_index_of(s, c, i),
        first_index_of(s, c, j),
    ensures
        i == j,
{
    if i < j {
        assert(s[i] != c);
    } else if j < i {
        assert(s[j] != c);
    }
}

fn reader_line(r: &mut Reader, line: &str)
    ensures
        reader_view(*final(r)) == import_line(reader_view(*old(r)), line@),
{
    let t = str_trim(line);
    if t.is_empty() {
        return;
    }
    let mut hash = String::new();
    crate::text::push_char(&mut hash, '#');
    if crate::text::strip_prefix_str(t, hash.as_str()).is_some() {
        proof {
            assert(hash@ =~= seq!['#']);
            assert(t@.subrange(0, 1)[0] == t@[0]);
        }
        return;
    }
    proof {
        assert(hash@ =~= seq!['#']);
        if t@[0] == '#' {
            assert(t@.subrange(0, 1) =~= seq!['#']);
        }
    }
    let (keyword_text, value_text) = match split_once_char(t, ' ') {
        None => {
            return;
        },
        Some(parts) => parts,
    };
    proof {
        let i = choose|i: int| first_index_of(t@, ' ', i);
        let j = choose|j: int|
            first_index_of(t@, ' ', j) && keyword_text@ == t@.subrange(0, j) && value_text@
                == t@.subrange(j + 1, t@.len() as int);
        lemma_first_index_unique(t@, ' ', i, j);
    }
    let keyword = to_lower(keyword_text);
    let value = str_trim(value_text);
    if str_eq(keyword.as_str(), "host") {
        reader_flush(r);
        r.host = Some(value.to_owned());
        r.user = "root".to_owned();
        r.port = 22;
        r.identity = None;
    } else if str_eq(keyword.as_str(), "user") {
        r.user = value.to_owned();
    } else if str_eq(keyword.as_str(), "hostname") {
        r.hostname = Some(value.to_owned());
    } else if str_eq(keyword.as_str(), "port") {
        r.port = match parse_u16(value) {
            Some(p) => p,
            None => 22,
        };
    } else if str_eq(keyword.as_str(), "identityfile") {
        r.identity = Some(value.to_owned());
    }
}

/// Reads the sessions out of ssh client configuration (see `imported_sessions`).
pub fn import_from_ssh_config(content: &str) -> (r: Vec<Session>)
    ensures
        sessions_view(r@) == imported_sessions(content@),
{
    let lines = split_char(content, '\n');
    let ghost lv = crate::model::strings_view(lines@);
    let mut reader = Reader {
        host: None,
        user: "root".to_owned(),
        hostname: None,
        port: 22,
        identity: None,
        sessions: Vec::new(),
    };
    proof {
        assert(sessions_view(reader.sessions@) =~= Seq::<SessionView>::empty());
        assert(reader_view(reader) == import_start());
    }
    let mut i: usize = 0;
    while i < lines.len()
        invariant
            i <= lines.len(),
            lv == crate::model::strings_view(lines@),
            lv == split_seq(content@, '\n'),
            reader_view(reader) == import_lines(lv.subrange(0, i as int)),
        decreases lines.len() - i,
    {
        proof {
            assert(lv.subrange(0, i + 1).drop_last() =~= lv.subrange(0, i as int));
        }
        reader_line(&mut reader, lines[i].as_str());
        i += 1;
    }
    proof {
        assert(lv.subrange(0, i as int) =~= lv);
    }
    reader_flush(&mut reader);
    reader.sessions
}

} // verus!
