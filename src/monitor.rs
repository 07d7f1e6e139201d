//! Which running processes are live connections to a host, read from a
//! process listing of `pid command...` lines.
use crate::text::{
    contains_seq, first_index_of, parse_u32, parse_unsigned, split_char, split_once_char,
    split_seq, str_contains, str_trim, trim_seq,
};
use vstd::prelude::*;

verus! {

/// One process of a snapshot.
pub struct ProcessInfo {
    pub pid: u32,
    pub command: String,
}

/// A command line that mentions `host` and one of `ssh`, `scp`, `sftp`.
pub open spec fn is_connection_to(command: Seq<char>, host: Seq<char>) -> bool {
    contains_seq(command, host) && (contains_seq(command, "ssh"@) || contains_seq(command, "scp"@)
        || contains_seq(command, "sftp"@))
}

/// Whether `command` is a live connection to `host`.
pub fn is_connection_command(command: &str, host: &str) -> (r: bool)
    ensures
        r == is_connection_to(command@, host@),
{
    str_contains(command, host) && (str_contains(command, "ssh") || str_contains(command, "scp")
        || str_contains(command, "sftp"))
}

/// The pids, in snapshot order, of the processes that are connections to `host`.
pub open spec fn connection_pids_of(snapshot: Seq<(u32, Seq<char>)>, host: Seq<char>) -> Seq<u32>
    decreases snapshot.len(),
{
    if snapshot.len() == 0 {
        Seq::empty()
    } else {
        let rest = connection_pids_of(snapshot.drop_last(), host);
        if is_connection_to(snapshot.last().1, host) {
            rest.push(snapshot.last().0)
        } else {
            rest
        }
    }
}

pub open spec fn snapshot_view(s: Seq<ProcessInfo>) -> Seq<(u32, Seq<char>)> {
    s.map_values(|p: ProcessInfo| (p.pid, p.command@))
}

/// Picks out of a snapshot the processes connected to `host`.
pub fn active_pids(snapshot: &Vec<ProcessInfo>, host: &str) -> (r: Vec<u32>)
    ensures
        r@ == connection_pids_of(snapshot_view(snapshot@), host@),
{
    let ghost sv = snapshot_view(snapshot@);
    let mut r: Vec<u32> = Vec::new();
    let mut i: usize = 0;
    while i < snapshot.len()
        invariant
            i <= snapshot.len(),
            sv == snapshot_view(snapshot@),
            r@ == connection_pids_of(sv.subrange(0, i as int), host@),
        decreases snapshot.len() - i,
    {
        proof {
            assert(sv.subrange(0, i + 1).drop_last() =~= sv.subrange(0, i as int));
        }
        if is_connection_command(snapshot[i].command.as_str(), host) {
            r.push(snapshot[i].pid);
        }
        i += 1;
    }
    proof {
        assert(sv.subrange(0, i as int) =~= sv);
    }
    r
}

/// A listing line: once trimmed, a pid, one space, and a non-empty command.
pub open spec fn process_line(line: Seq<char>) -> Option<(u32, Seq<char>)> {
    let t = trim_seq(line);
    if t.contains(' ') {
        let i = choose|i: int| first_index_of(t, ' ', i);
        let command = t.subrange(i + 1, t.len() as int);
        match parse_unsigned(t.subrange(0, i), 0xffff_ffff) {
            Some(pid) => if command.len() > 0 {
                Some((pid as u32, command))
            } else {
                None
            },
            None => None,
        }
    } else {
        None
    }
}

/// The processes that the lines describe, in order; other lines are skipped.
pub open spec fn processes_of(lines: Seq<Seq<char>>) -> Seq<(u32, Seq<char>)>
    decreases lines.len(),
{
    if lines.len() == 0 {
        Seq::empty()
    } else {
        let rest = processes_of(lines.drop_last());
        match process_line(lines.last()) {
            Some(p) => rest.push(p),
            None => rest,
        }
    }
}

proof fn lemma_first_index_unique(s: Seq<char>, c: char, i: int, j: int)
    requires
        first_index_of(s, c, i),
        first_index_of(s, c, j),
    ensures
        i == j,
{
    if i < j {
        assert(s[i] != c);
    } else if j < i {
        assert(s[j] != c);
    }
}

/// Reads one listing line.
pub fn parse_process_line(line: &str) -> (r: Option<ProcessInfo>)
    ensures
        (match r {
            Some(p) => process_line(line@) == Some((p.pid, p.command@)),
            None => process_line(line@) is None,
        }),
{
    let t = str_trim(line);
    match split_once_char(t, ' ') {
        None => None,
        Some((pid_text, command)) => {
            proof {
                let i = choose|i: int| first_index_of(t@, ' ', i);
                let j = choose|j: int|
                    first_index_of(t@, ' ', j) && pid_text@ == t@.subrange(0, j) && command@
                        == t@.subrange(j + 1, t@.len() as int);
                lemma_first_index_unique(t@, ' ', i, j);
            }
            if command.is_empty() {
                return None;
            }
            match parse_u32(pid_text) {
                Some(pid) => Some(ProcessInfo { pid, command: command.to_owned() }),
                None => None,
            }
        },
    }
}

/// Reads a whole listing, one process per line.
pub fn parse_process_listing(text: &str) -> (r: Vec<ProcessInfo>)
    ensures
        snapshot_view(r@) == processes_of(split_seq(text@, '\n')),
{
    let lines = split_char(text, '\n');
    let ghost lv = crate::model::strings_view(lines@);
    let mut r: Vec<ProcessInfo> = Vec::new();
    let mut i: usize = 0;
    while i < lines.len()
        invariant
            i <= lines.len(),
            lv == crate::model::strings_view(lines@),
            lv == split_seq(text@, '\n'),
            snapshot_view(r@) == processes_of(lv.subrange(0, i as int)),
        decreases lines.len() - i,
    {
        proof {
            assert(lv.subrange(0, i + 1).drop_last() =~= lv.subrange(0, i as int));
        }
        let parsed = parse_process_line(lines[i].as_str());
        if let Some(p) = parsed {
            let ghost before = r@;
            r.push(p);
            proof {
                assert(snapshot_view(r@) =~= snapshot_view(before).push(
                    process_line(lv[i as int])->0,
                ));
            }
        }
        i += 1;
    }
    proof {
        assert(lv.subrange(0, i as int) =~= lv);
    }
    r
}

/// The pids of the live connections to `host` that a process listing shows.
pub fn connection_pids(listing: &str, host: &str) -> (r: Vec<u32>)
    ensures
        r@ == connection_pids_of(processes_of(split_seq(listing@, '\n')), host@),
{
    let snapshot = parse_process_listing(listing);
    active_pids(&snapshot, host)
}

} // verus!
