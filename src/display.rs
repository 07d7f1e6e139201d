//! The texts the interface shows: help per mode, form lines, and how long ago
//! a session was last used.
use crate::forms::{AddField, AddSessionForm, ScpField, ScpForm, add_field_pos, scp_field_pos};
use crate::model::{Session, strings_view, target_of};
use crate::state::InputMode;
use crate::text::{int_text, int_text_seq, push_char};
use vstd::prelude::*;

verus! {

/// Width of the label column in form lines.
pub const FIELD_LABEL_WIDTH: usize = 10;

/// The key help for a mode.
pub fn mode_help_text(mode: InputMode) -> (r: &'static str)
    ensures
        mode == InputMode::Normal ==> r@
            == "j/k move | gg top | G bottom | Ctrl-d/u page | / search | o/O add | s scp | m monitor | dd delete | Enter connect | q quit"@,
        mode == InputMode::Search ==> r@ == "Type to filter | Enter/Esc to exit | Up/Down move"@,
        mode == InputMode::ConfirmDelete ==> r@ == "Type name | Enter confirm | Esc cancel"@,
        mode == InputMode::AddSession ==> r@
            == "Up/Down move | Tab/Enter next | Shift-Tab prev | Esc cancel"@,
        mode == InputMode::Scp ==> r@ == "Tab/Enter next | Space toggle | Esc cancel"@,
{
    match mode {
        InputMode::Normal => "j/k move | gg top | G bottom | Ctrl-d/u page | / search | o/O add | s scp | m monitor | dd delete | Enter connect | q quit",
        InputMode::Search => "Type to filter | Enter/Esc to exit | Up/Down move",
        InputMode::ConfirmDelete => "Type name | Enter confirm | Esc cancel",
        InputMode::AddSession => "Up/Down move | Tab/Enter next | Shift-Tab prev | Esc cancel",
        InputMode::Scp => "Tab/Enter next | Space toggle | Esc cancel",
    }
}

/// `s` followed by spaces up to `width` characters; a longer `s` is kept whole.
pub open spec fn pad_right(s: Seq<char>, width: nat) -> Seq<char> {
    if s.len() >= width {
        s
    } else {
        s + Seq::new((width - s.len()) as nat, |i: int| ' ')
    }
}

/// A form line: a `>` marker on the active field, the padded label, the value.
pub open spec fn field_line_spec(label: Seq<char>, value: Seq<char>, active: bool) -> Seq<char> {
    seq![if active { '>' } else { ' ' }, ' '] + pad_right(label, FIELD_LABEL_WIDTH as nat) + seq![' ']
        + value
}

/// Renders one form line (see `field_line_spec`).
pub fn field_line(label: &str, value: &str, active: bool) -> (r: String)
    ensures
        r@ == field_line_spec(label@, value@, active),
{
    let mut line = String::new();
    push_char(&mut line, if active { '>' } else { ' ' });
    push_char(&mut line, ' ');
    line.append(label);
    let ghost head = line@;
    let n = label.unicode_len();
    let mut k: usize = n;
    while k < FIELD_LABEL_WIDTH
        invariant
            n <= k <= FIELD_LABEL_WIDTH || (k == n && n >= FIELD_LABEL_WIDTH),
            n == label@.len(),
            line@ == head + Seq::new((k - n) as nat, |i: int| ' '),
        decreases FIELD_LABEL_WIDTH - k,
    {
        push_char(&mut line, ' ');
        proof {
            assert(line@ =~= head + Seq::new((k + 1 - n) as nat, |i: int| ' '));
        }
        k += 1;
    }
    push_char(&mut line, ' ');
    line.append(value);
    proof {
        assert(line@ =~= field_line_spec(label@, value@, active));
    }
    line
}

/// The row of a field in the add-session form.
pub fn add_field_index(field: AddField) -> (r: usize)
    ensures
        r == add_field_pos(field),
{
    match field {
        AddField::Name => 0,
        AddField::Host => 1,
        AddField::User => 2,
        AddField::Port => 3,
        AddField::Identity => 4,
        AddField::Tags => 5,
    }
}

/// The row of a field in the scp form, below the session line.
pub fn scp_field_index(field: ScpField) -> (r: usize)
    ensures
        r == scp_field_pos(field) + 1,
{
    match field {
        ScpField::Direction => 1,
        ScpField::Local => 2,
        ScpField::Remote => 3,
        ScpField::Recursive => 4,
    }
}

fn push_line(lines: &mut Vec<String>, line: String)
    ensures
        strings_view(final(lines)@) == strings_view(old(lines)@).push(line@),
{
    let ghost l = line@;
    lines.push(line);
    assert(strings_view(final(lines)@) =~= strings_view(old(lines)@).push(l));
}

/// The lines of the add-session form: the six fields, whether the identity
/// file exists, and up to three suggestions.
pub fn build_add_form_lines(form: &AddSessionForm) -> (r: Vec<String>)
    ensures
        strings_view(r@).len() >= 7,
        strings_view(r@)[0] == field_line_spec("Name"@, form@.name, form@.field == AddField::Name),
        strings_view(r@)[1] == field_line_spec("Host"@, form@.host, form@.field == AddField::Host),
        strings_view(r@)[2] == field_line_spec("User"@, form@.user, form@.field == AddField::User),
        strings_view(r@)[3] == field_line_spec("Port"@, form@.port, form@.field == AddField::Port),
        strings_view(r@)[4] == field_line_spec(
            "Identity"@,
            form@.identity_file,
            form@.field == AddField::Identity,
        ),
        strings_view(r@)[5] == field_line_spec("Tags"@, form@.tags, form@.field == AddField::Tags),
        strings_view(r@)[6] == "  Identity exists: "@ + match form@.identity_exists {
            Some(true) => "yes"@,
            Some(false) => "missing"@,
            None => "-"@,
        },
        form@.identity_suggestions.len() == 0 ==> strings_view(r@).len() == 7,
        form@.identity_suggestions.len() > 0 ==> strings_view(r@).subrange(7, strings_view(r@).len() as int)
            == seq!["  Suggestions:"@] + form@.identity_suggestions.take(
            if form@.identity_suggestions.len() < 3 { form@.identity_suggestions.len() as int } else { 3 },
        ).map_values(|s: Seq<char>| "    "@ + s),
{
    let mut lines: Vec<String> = Vec::new();
    push_line(&mut lines, field_line("Name", form.name.as_str(), form.field == AddField::Name));
    push_line(&mut lines, field_line("Host", form.host.as_str(), form.field == AddField::Host));
    push_line(&mut lines, field_line("User", form.user.as_str(), form.field == AddField::User));
    push_line(&mut lines, field_line("Port", form.port.as_str(), form.field == AddField::Port));
    push_line(
        &mut lines,
        field_line("Identity", form.identity_file.as_str(), form.field == AddField::Identity),
    );
    push_line(&mut lines, field_line("Tags", form.tags.as_str(), form.field == AddField::Tags));
    let status = match form.identity_exists {
        Some(true) => "yes",
        Some(false) => "missing",
        None => "-",
    };
    let mut exists_line = "  Identity exists: ".to_owned();
    exists_line.append(status);
    push_line(&mut lines, exists_line);
    let ghost base = strings_view(lines@);
    let ghost sugg = form@.identity_suggestions;
    if form.identity_suggestions.len() > 0 {
        push_line(&mut lines, "  Suggestions:".to_owned());
        let count: usize = if form.identity_suggestions.len() < 3 {
            form.identity_suggestions.len()
        } else {
            3
        };
        let mut i: usize = 0;
        while i < count
            invariant
                i <= count,
                count <= form.identity_suggestions.len(),
                sugg == form@.identity_suggestions,
                base.len() == 7,
                strings_view(lines@).len() == 8 + i,
                strings_view(lines@).subrange(0, 7) == base,
                strings_view(lines@).subrange(7, 8 + i as int) == seq!["  Suggestions:"@]
                    + sugg.take(i as int).map_values(|s: Seq<char>| "    "@ + s),
            decreases count - i,
        {
            let mut line = "    ".to_owned();
            line.append(form.identity_suggestions[i].as_str());
            let ghost before = strings_view(lines@);
            push_line(&mut lines, line);
            proof {
                let now = strings_view(lines@);
                assert(now.subrange(0, 7) =~= before.subrange(0, 7));
                assert(sugg[i as int] == form.identity_suggestions@[i as int]@);
                assert(sugg.take(i + 1).map_values(|s: Seq<char>| "    "@ + s) =~= sugg.take(
                    i as int,
                ).map_values(|s: Seq<char>| "    "@ + s).push("    "@ + sugg[i as int]));
                assert(now.subrange(7, 8 + i + 1) =~= before.subrange(7, 8 + i as int).push(
                    "    "@ + sugg[i as int],
                ));
            }
            i += 1;
        }
        proof {
            let now = strings_view(lines@);
            assert(now.subrange(7, now.len() as int) =~= now.subrange(7, 8 + i as int));
            assert(now[0] == now.subrange(0, 7)[0]);
            assert(now[1] == now.subrange(0, 7)[1]);
            assert(now[2] == now.subrange(0, 7)[2]);
            assert(now[3] == now.subrange(0, 7)[3]);
            assert(now[4] == now.subrange(0, 7)[4]);
            assert(now[5] == now.subrange(0, 7)[5]);
            assert(now[6] == now.subrange(0, 7)[6]);
        }
    }
    lines
}

/// The lines of the scp form: the session, the four fields, and a hint.
pub fn build_scp_form_lines(form: &ScpForm) -> (r: Vec<String>)
    ensures
        strings_view(r@) == seq![
            "Session: "@ + form@.session.name + " ("@ + target_of(form@.session.user, form@.session.host) + ")"@,
            field_line_spec(
                "Direction"@,
                if form@.direction == crate::forms::ScpDirection::To {
                    "to (local -> remote)"@
                } else {
                    "from (remote -> local)"@
                },
                form@.field == ScpField::Direction,
            ),
            field_line_spec("Local"@, form@.local_path, form@.field == ScpField::Local),
            field_line_spec("Remote"@, form@.remote_path, form@.field == ScpField::Remote),
            field_line_spec(
                "Recursive"@,
                if form@.recursive { "yes"@ } else { "no"@ },
                form@.field == ScpField::Recursive,
            ),
            "  Space toggles Direction/Recursive"@,
        ],
{
    let mut lines: Vec<String> = Vec::new();
    let mut head = "Session: ".to_owned();
    head.append(form.session.name.as_str());
    head.append(" (");
    let target = form.session.target();
    head.append(target.as_str());
    head.append(")");
    push_line(&mut lines, head);
    push_line(
        &mut lines,
        field_line("Direction", form.direction.label(), form.field == ScpField::Direction),
    );
    push_line(&mut lines, field_line("Local", form.local_path.as_str(), form.field == ScpField::Local));
    push_line(
        &mut lines,
        field_line("Remote", form.remote_path.as_str(), form.field == ScpField::Remote),
    );
    let recursive_value = if form.recursive { "yes" } else { "no" };
    push_line(
        &mut lines,
        field_line("Recursive", recursive_value, form.field == ScpField::Recursive),
    );
    push_line(&mut lines, "  Space toggles Direction/Recursive".to_owned());
    proof {
        assert(strings_view(lines@) =~= seq![
            "Session: "@ + form@.session.name + " ("@ + target_of(form@.session.user, form@.session.host) + ")"@,
            field_line_spec(
                "Direction"@,
                if form@.direction == crate::forms::ScpDirection::To {
                    "to (local -> remote)"@
                } else {
                    "from (remote -> local)"@
                },
                form@.field == ScpField::Direction,
            ),
            field_line_spec("Local"@, form@.local_path, form@.field == ScpField::Local),
            field_line_spec("Remote"@, form@.remote_path, form@.field == ScpField::Remote),
            field_line_spec(
                "Recursive"@,
                if form@.recursive { "yes"@ } else { "no"@ },
                form@.field == ScpField::Recursive,
            ),
            "  Space toggles Direction/Recursive"@,
        ]);
    }
    lines
}

/// `a - b`, held within the range of `i64`.
pub open spec fn saturating_diff(a: i64, b: i64) -> int {
    let d = a - b;
    if d > i64::MAX {
        i64::MAX as int
    } else if d < i64::MIN {
        i64::MIN as int
    } else {
        d
    }
}

/// How long ago, in the largest whole unit: seconds under a minute, minutes
/// under an hour, hours under a day, else days.
pub open spec fn ago_text(delta: int) -> Seq<char> {
    if delta < 60 {
        int_text_seq(delta) + "s ago"@
    } else if delta < 3600 {
        int_text_seq(delta / 60) + "m ago"@
    } else if delta < 86400 {
        int_text_seq(delta / 3600) + "h ago"@
    } else {
        int_text_seq(delta / 86400) + "d ago"@
    }
}

/// When a session was last connected to, relative to `now` (seconds since
/// the epoch); `-` when never.
pub fn format_last_connected(timestamp: Option<i64>, now: i64) -> (r: String)
    ensures
        r@ == match timestamp {
            None => "-"@,
            Some(t) => ago_text(saturating_diff(now, t)),
        },
{
    let t = match timestamp {
        None => {
            return "-".to_owned();
        },
        Some(t) => t,
    };
    let wide: i128 = now as i128 - t as i128;
    let delta: i64 = if wide > i64::MAX as i128 {
        i64::MAX
    } else if wide < i64::MIN as i128 {
        i64::MIN
    } else {
        wide as i64
    };
    let (amount, unit) = if delta < 60 {
        (delta, "s ago")
    } else if delta < 3600 {
        (delta / 60, "m ago")
    } else if delta < 86400 {
        (delta / 3600, "h ago")
    } else {
        (delta / 86400, "d ago")
    };
    let mut text = int_text(amount);
    text.append(unit);
    text
}

/// The connection command's arguments for a session: `-i <identity>` if it has
/// one, then `-p <port>` and `user@host`.
pub open spec fn ssh_args_spec(s: crate::model::SessionView) -> Seq<Seq<char>> {
    let i = match s.identity_file {
        Some(p) => seq![seq!['-', 'i'], p],
        None => Seq::empty(),
    };
    i + seq![seq!['-', 'p'], crate::text::decimal_seq(s.port as nat), target_of(s.user, s.host)]
}

/// Builds the connection command's arguments (see `ssh_args_spec`).
pub fn ssh_args(session: &Session) -> (r: Vec<String>)
    ensures
        strings_view(r@) == ssh_args_spec(session@),
{
    let mut args: Vec<String> = Vec::new();
    if let Some(identity) = &session.identity_file {
        let mut flag = String::new();
        push_char(&mut flag, '-');
        push_char(&mut flag, 'i');
        assert(flag@ =~= seq!['-', 'i']);
        push_line(&mut args, flag);
        push_line(&mut args, identity.clone());
    }
    let mut flag = String::new();
    push_char(&mut flag, '-');
    push_char(&mut flag, 'p');
    assert(flag@ =~= seq!['-', 'p']);
    push_line(&mut args, flag);
    let port = int_text(session.port as i64);
    assert(port@ == crate::text::decimal_seq(session@.port as nat));
    push_line(&mut args, port);
    push_line(&mut args, session.target());
    proof {
        assert(strings_view(args@) =~= ssh_args_spec(session@));
    }
    args
}

} // verus!
