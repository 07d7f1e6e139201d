//! The catalog written out as CSV or as ssh client configuration.
use crate::model::{Session, SessionView, strings_view};
use crate::text::{
    contains_seq, decimal_seq, int_text, join, join_seq, replace_char, replace_char_seq,
    str_contains,
};
use vstd::prelude::*;

verus! {

/// A CSV field: quoted, with quotes doubled, when it holds a comma, a quote or
/// a newline; as it is otherwise.
pub open spec fn escape_csv_spec(s: Seq<char>) -> Seq<char> {
    if s.contains(',') || s.contains('"') || s.contains('\n') {
        seq!['"'] + replace_char_seq(s, '"', seq!['"', '"']) + seq!['"']
    } else {
        s
    }
}

proof fn lemma_contains_char(s: Seq<char>, c: char)
    ensures
        contains_seq(s, seq![c]) == s.contains(c),
{
    if s.contains(c) {
        let i = choose|i: int| 0 <= i < s.len() && s[i] == c;
        assert(s.subrange(i, i + 1) =~= seq![c]);
        assert(crate::text::occurs_at(s, seq![c], i));
    }
    if contains_seq(s, seq![c]) {
        let i = choose|i: int| crate::text::occurs_at(s, seq![c], i);
        assert(s.subrange(i, i + 1)[0] == s[i]);
        assert(seq![c][0] == c);
        assert(s[i] == c);
    }
}

/// Escapes one CSV field (see `escape_csv_spec`).
pub fn escape_csv(s: &str) -> (r: String)
    ensures
        r@ == escape_csv_spec(s@),
{
    let mut comma = String::new();
    crate::text::push_char(&mut comma, ',');
    let mut quote = String::new();
    crate::text::push_char(&mut quote, '"');
    let mut newline = String::new();
    crate::text::push_char(&mut newline, '\n');
    proof {
        lemma_contains_char(s@, ',');
        lemma_contains_char(s@, '"');
        lemma_contains_char(s@, '\n');
        assert(comma@ =~= seq![',']);
        assert(quote@ =~= seq!['"']);
        assert(newline@ =~= seq!['\n']);
    }
    if str_contains(s, comma.as_str()) || str_contains(s, quote.as_str()) || str_contains(
        s,
        newline.as_str(),
    ) {
        let mut doubled = quote.clone();
        crate::text::push_char(&mut doubled, '"');
        let mut out = quote.clone();
        let inner = replace_char(s, '"', doubled.as_str());
        out.append(inner.as_str());
        out.append(quote.as_str());
        proof {
            assert(doubled@ =~= seq!['"', '"']);
        }
        out
    } else {
        s.to_owned()
    }
}

/// The identity path as written out; empty when there is none.
pub open spec fn identity_text(s: SessionView) -> Seq<char> {
    match s.identity_file {
        Some(p) => p,
        None => Seq::empty(),
    }
}

/// One CSV record: name, host, user, port, identity file and the tags joined
/// by `;`, each escaped.
pub open spec fn csv_row(s: SessionView) -> Seq<char> {
    escape_csv_spec(s.name) + seq![','] + escape_csv_spec(s.host) + seq![','] + escape_csv_spec(
        s.user,
    ) + seq![','] + decimal_seq(s.port as nat) + seq![','] + escape_csv_spec(identity_text(s))
        + seq![','] + escape_csv_spec(join_seq(s.tags, seq![';'])) + seq!['\n']
}

/// The rows of a sequence of sessions, one after another.
pub open spec fn concat_rows(ss: Seq<SessionView>, row: spec_fn(SessionView) -> Seq<char>) -> Seq<
    char,
>
    decreases ss.len(),
{
    if ss.len() == 0 {
        Seq::empty()
    } else {
        concat_rows(ss.drop_last(), row) + row(ss.last())
    }
}

fn push_str(out: &mut String, s: &str)
    ensures
        final(out)@ == old(out)@ + s@,
{
    out.append(s);
}

fn csv_record(session: &Session) -> (r: String)
    ensures
        r@ == csv_row(session@),
{
    let mut row = escape_csv(session.name.as_str());
    crate::text::push_char(&mut row, ',');
    push_str(&mut row, escape_csv(session.host.as_str()).as_str());
    crate::text::push_char(&mut row, ',');
    push_str(&mut row, escape_csv(session.user.as_str()).as_str());
    crate::text::push_char(&mut row, ',');
    push_str(&mut row, int_text(session.port as i64).as_str());
    crate::text::push_char(&mut row, ',');
    let identity = match &session.identity_file {
        Some(p) => p.clone(),
        None => String::new(),
    };
    push_str(&mut row, escape_csv(identity.as_str()).as_str());
    crate::text::push_char(&mut row, ',');
    let mut semi = String::new();
    crate::text::push_char(&mut semi, ';');
    assert(semi@ =~= seq![';']);
    let tags = join(&session.tags, semi.as_str());
    push_str(&mut row, escape_csv(tags.as_str()).as_str());
    crate::text::push_char(&mut row, '\n');
    proof {
        assert(row@ =~= csv_row(session@));
    }
    row
}

/// The catalog as CSV: a header line, then one record per session.
pub fn export_to_csv(sessions: &[Session]) -> (r: String)
    ensures
        r@ == "name,host,user,port,identity_file,tags\n"@ + concat_rows(
            crate::model::sessions_view(sessions@),
            |s: SessionView| csv_row(s),
        ),
{
    let ghost ss = crate::model::sessions_view(sessions@);
    let ghost head = "name,host,user,port,identity_file,tags\n"@;
    let mut csv = "name,host,user,port,identity_file,tags\n".to_owned();
    let mut i: usize = 0;
    while i < sessions.len()
        invariant
            i <= sessions.len(),
            ss == crate::model::sessions_view(sessions@),
            csv@ == head + concat_rows(ss.subrange(0, i as int), |s: SessionView| csv_row(s)),
        decreases sessions.len() - i,
    {
        proof {
            assert(ss.subrange(0, i + 1).drop_last() =~= ss.subrange(0, i as int));
        }
        let row = csv_record(&sessions[i]);
        push_str(&mut csv, row.as_str());
        proof {
            assert(csv@ =~= head + concat_rows(ss.subrange(0, i + 1), |s: SessionView| csv_row(s)));
        }
        i += 1;
    }
    proof {
        assert(ss.subrange(0, i as int) =~= ss);
    }
    csv
}

/// One `Host` block of ssh client configuration, followed by a blank line.
pub open spec fn ssh_config_block(s: SessionView) -> Seq<char> {
    "Host "@ + s.name + seq!['\n'] + "    HostName "@ + s.host + seq!['\n'] + "    User "@ + s.user
        + seq!['\n'] + "    Port "@ + decimal_seq(s.port as nat) + seq!['\n'] + (match s.identity_file {
        Some(p) => "    IdentityFile "@ + p + seq!['\n'],
        None => Seq::empty(),
    }) + (if s.tags.len() > 0 {
        "    # Tags: "@ + join_seq(s.tags, ", "@) + seq!['\n']
    } else {
        Seq::empty()
    }) + seq!['\n']
}

fn ssh_config_entry(session: &Session) -> (r: String)
    ensures
        r@ == ssh_config_block(session@),
{
    let mut b = "Host ".to_owned();
    push_str(&mut b, session.name.as_str());
    crate::text::push_char(&mut b, '\n');
    push_str(&mut b, "    HostName ");
    push_str(&mut b, session.host.as_str());
    crate::text::push_char(&mut b, '\n');
    push_str(&mut b, "    User ");
    push_str(&mut b, session.user.as_str());
    crate::text::push_char(&mut b, '\n');
    push_str(&mut b, "    Port ");
    push_str(&mut b, int_text(session.port as i64).as_str());
    crate::text::push_char(&mut b, '\n');
    let ghost upto_port = b@;
    if let Some(identity) = &session.identity_file {
        push_str(&mut b, "    IdentityFile ");
        push_str(&mut b, identity.as_str());
        crate::text::push_char(&mut b, '\n');
    }
    let ghost upto_identity = b@;
    if session.tags.len() > 0 {
        push_str(&mut b, "    # Tags: ");
        push_str(&mut b, join(&session.tags, ", ").as_str());
        crate::text::push_char(&mut b, '\n');
    }
    crate::text::push_char(&mut b, '\n');
    proof {
        assert(b@ =~= ssh_config_block(session@));
    }
    b
}

/// The catalog as ssh client configuration: a comment line and a blank line,
/// then one `Host` block per session.
pub fn export_to_ssh_config(sessions: &[Session]) -> (r: String)
    ensures
        r@ == "# Generated by ssher\n\n"@ + concat_rows(
            crate::model::sessions_view(sessions@),
            |s: SessionView| ssh_config_block(s),
        ),
{
    let ghost ss = crate::model::sessions_view(sessions@);
    let ghost head = "# Generated by ssher\n\n"@;
    let mut config = "# Generated by ssher\n\n".to_owned();
    let mut i: usize = 0;
    while i < sessions.len()
        invariant
            i <= sessions.len(),
            ss == crate::model::sessions_view(sessions@),
            config@ == head + concat_rows(
                ss.subrange(0, i as int),
                |s: SessionView| ssh_config_block(s),
            ),
        decreases sessions.len() - i,
    {
        proof {
            assert(ss.subrange(0, i + 1).drop_last() =~= ss.subrange(0, i as int));
        }
        let block = ssh_config_entry(&sessions[i]);
        push_str(&mut config, block.as_str());
        proof {
            assert(config@ =~= head + concat_rows(
                ss.subrange(0, i + 1),
                |s: SessionView| ssh_config_block(s),
            ));
        }
        i += 1;
    }
    proof {
        assert(ss.subrange(0, i as int) =~= ss);
    }
    config
}

} // verus!
