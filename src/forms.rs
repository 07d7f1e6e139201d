//! The two inline forms: adding a session, and copying files with scp.
use crate::model::{Session, SessionView};
use crate::text::{pop_char, push_char};
use vstd::prelude::*;

verus! {

/// The fields of the add-session form, in their cycle order.
#[derive(Clone, Copy, Debug, PartialEq, Eq, Structural)]
pub enum AddField {
    Name,
    Host,
    User,
    Port,
    Identity,
    Tags,
}

/// Position of a field in the add-session cycle.
pub open spec fn add_field_pos(f: AddField) -> nat {
    match f {
        AddField::Name => 0,
        AddField::Host => 1,
        AddField::User => 2,
        AddField::Port => 3,
        AddField::Identity => 4,
        AddField::Tags => 5,
    }
}

/// The field after `f` in the cycle.
pub open spec fn add_field_after(f: AddField) -> AddField {
    match f {
        AddField::Name => AddField::Host,
        AddField::Host => AddField::User,
        AddField::User => AddField::Port,
        AddField::Port => AddField::Identity,
        AddField::Identity => AddField::Tags,
        AddField::Tags => AddField::Name,
    }
}

/// The field before `f` in the cycle.
pub open spec fn add_field_before(f: AddField) -> AddField {
    match f {
        AddField::Name => AddField::Tags,
        AddField::Host => AddField::Name,
        AddField::User => AddField::Host,
        AddField::Port => AddField::User,
        AddField::Identity => AddField::Port,
        AddField::Tags => AddField::Identity,
    }
}

/// Moving forward or back steps one position around the cycle of six fields,
/// so that `Tags` is followed by `Name` and `Name` preceded by `Tags`; the two
/// moves undo each other.
pub proof fn lemma_add_field_cycle(f: AddField)
    ensures
        add_field_pos(add_field_after(f)) == (add_field_pos(f) + 1) % 6,
        add_field_pos(add_field_before(f)) == (add_field_pos(f) + 5) % 6,
        add_field_before(add_field_after(f)) == f,
        add_field_after(add_field_before(f)) == f,
{
}

impl AddField {
    /// The following field; after `Tags` comes `Name` again.
    pub fn next(self) -> (r: Self)
        ensures
            r == add_field_after(self),
    {
        match self {
            AddField::Name => AddField::Host,
            AddField::Host => AddField::User,
            AddField::User => AddField::Port,
            AddField::Port => AddField::Identity,
            AddField::Identity => AddField::Tags,
            AddField::Tags => AddField::Name,
        }
    }

    /// The preceding field; before `Name` comes `Tags`.
    pub fn prev(self) -> (r: Self)
        ensures
            r == add_field_before(self),
    {
        match self {
            AddField::Name => AddField::Tags,
            AddField::Host => AddField::Name,
            AddField::User => AddField::Host,
            AddField::Port => AddField::User,
            AddField::Identity => AddField::Port,
            AddField::Tags => AddField::Identity,
        }
    }
}

/// The contents of an add-session form.
pub struct AddFormView {
    pub name: Seq<char>,
    pub host: Seq<char>,
    pub user: Seq<char>,
    pub port: Seq<char>,
    pub identity_file: Seq<char>,
    pub tags: Seq<char>,
    pub field: AddField,
    pub identity_exists: Option<bool>,
    pub identity_suggestions: Seq<Seq<char>>,
}

impl AddFormView {
    pub open spec fn with_field(self, field: AddField) -> AddFormView {
        AddFormView { field, ..self }
    }

    /// The buffer under the cursor.
    pub open spec fn active(self) -> Seq<char> {
        match self.field {
            AddField::Name => self.name,
            AddField::Host => self.host,
            AddField::User => self.user,
            AddField::Port => self.port,
            AddField::Identity => self.identity_file,
            AddField::Tags => self.tags,
        }
    }

    /// The same form with the buffer under the cursor replaced by `v`.
    pub open spec fn with_active(self, v: Seq<char>) -> AddFormView {
        match self.field {
            AddField::Name => AddFormView { name: v, ..self },
            AddField::Host => AddFormView { host: v, ..self },
            AddField::User => AddFormView { user: v, ..self },
            AddField::Port => AddFormView { port: v, ..self },
            AddField::Identity => AddFormView { identity_file: v, ..self },
            AddField::Tags => AddFormView { tags: v, ..self },
        }
    }
}

/// A new add-session form: empty but for the user, if one is known, and port `22`.
pub open spec fn fresh_add_form(default_user: Option<Seq<char>>) -> AddFormView {
    AddFormView {
        name: Seq::empty(),
        host: Seq::empty(),
        user: match default_user {
            Some(u) => u,
            None => Seq::empty(),
        },
        port: seq!['2', '2'],
        identity_file: Seq::empty(),
        tags: Seq::empty(),
        field: AddField::Name,
        identity_exists: None,
        identity_suggestions: Seq::empty(),
    }
}

/// Edit buffers of the add-session form. `identity_exists` and
/// `identity_suggestions` hold the last lookup of the identity path.
pub struct AddSessionForm {
    pub name: String,
    pub host: String,
    pub user: String,
    pub port: String,
    pub identity_file: String,
    pub tags: String,
    pub field: AddField,
    pub identity_exists: Option<bool>,
    pub identity_suggestions: Vec<String>,
}

impl View for AddSessionForm {
    type V = AddFormView;

    open spec fn view(&self) -> AddFormView {
        AddFormView {
            name: self.name@,
            host: self.host@,
            user: self.user@,
            port: self.port@,
            identity_file: self.identity_file@,
            tags: self.tags@,
            field: self.field,
            identity_exists: self.identity_exists,
            identity_suggestions: crate::model::strings_view(self.identity_suggestions@),
        }
    }
}

impl AddSessionForm {
    /// An empty form on `Name`, with port `22` and the given user filled in.
    pub fn new(default_user: Option<String>) -> (r: Self)
        ensures
            r@ == fresh_add_form(crate::model::opt_string_view(default_user)),
    {
        let user = match default_user {
            Some(u) => u,
            None => String::new(),
        };
        let mut port = String::new();
        push_char(&mut port, '2');
        push_char(&mut port, '2');
        let r = AddSessionForm {
            name: String::new(),
            host: String::new(),
            user,
            port,
            identity_file: String::new(),
            tags: String::new(),
            field: AddField::Name,
            identity_exists: None,
            identity_suggestions: Vec::new(),
        };
        proof {
            assert(r@.port =~= seq!['2', '2']);
            assert(r@.identity_suggestions =~= Seq::<Seq<char>>::empty());
            assert(r@.name =~= Seq::<char>::empty());
            assert(r@ =~= fresh_add_form(crate::model::opt_string_view(default_user)));
        }
        r
    }

    pub fn field(&self) -> (r: AddField)
        ensures
            r == self@.field,
    {
        self.field
    }

    pub fn next_field(&mut self)
        ensures
            final(self)@ == old(self)@.with_field(add_field_after(old(self)@.field)),
    {
        self.field = self.field.next();
    }

    pub fn prev_field(&mut self)
        ensures
            final(self)@ == old(self)@.with_field(add_field_before(old(self)@.field)),
    {
        self.field = self.field.prev();
    }

    /// The buffer under the cursor.
    pub fn active_value(&self) -> (r: &str)
        ensures
            r@ == self@.active(),
    {
        match self.field {
            AddField::Name => self.name.as_str(),
            AddField::Host => self.host.as_str(),
            AddField::User => self.user.as_str(),
            AddField::Port => self.port.as_str(),
            AddField::Identity => self.identity_file.as_str(),
            AddField::Tags => self.tags.as_str(),
        }
    }

    /// Types `ch` at the end of the buffer under the cursor.
    pub fn push_active(&mut self, ch: char)
        ensures
            final(self)@ == old(self)@.with_active(old(self)@.active().push(ch)),
    {
        match self.field {
            AddField::Name => push_char(&mut self.name, ch),
            AddField::Host => push_char(&mut self.host, ch),
            AddField::User => push_char(&mut self.user, ch),
            AddField::Port => push_char(&mut self.port, ch),
            AddField::Identity => push_char(&mut self.identity_file, ch),
            AddField::Tags => push_char(&mut self.tags, ch),
        }
    }

    /// Erases the last character of the buffer under the cursor, if any.
    pub fn pop_active(&mut self)
        ensures
            final(self)@ == old(self)@.with_active(
                if old(self)@.active().len() == 0 {
                    old(self)@.active()
                } else {
                    old(self)@.active().drop_last()
                },
            ),
    {
        match self.field {
            AddField::Name => {
                pop_char(&mut self.name);
            },
            AddField::Host => {
                pop_char(&mut self.host);
            },
            AddField::User => {
                pop_char(&mut self.user);
            },
            AddField::Port => {
                pop_char(&mut self.port);
            },
            AddField::Identity => {
                pop_char(&mut self.identity_file);
            },
            AddField::Tags => {
                pop_char(&mut self.tags);
            },
        }
    }

    pub fn identity_exists(&self) -> (r: Option<bool>)
        ensures
            r == self@.identity_exists,
    {
        self.identity_exists
    }

    pub fn identity_suggestions(&self) -> (r: &Vec<String>)
        ensures
            crate::model::strings_view(r@) == self@.identity_suggestions,
    {
        &self.identity_suggestions
    }

    /// Records the result of an identity-path lookup.
    pub fn set_identity_state(&mut self, exists: Option<bool>, suggestions: Vec<String>)
        ensures
            final(self)@ == (AddFormView {
                identity_exists: exists,
                identity_suggestions: crate::model::strings_view(suggestions@),
                ..old(self)@
            }),
    {
        self.identity_exists = exists;
        self.identity_suggestions = suggestions;
    }
}

/// The fields of the scp form, in their cycle order.
#[derive(Clone, Copy, Debug, PartialEq, Eq, Structural)]
pub enum ScpField {
    Direction,
    Local,
    Remote,
    Recursive,
}

/// Position of a field in the scp cycle.
pub open spec fn scp_field_pos(f: ScpField) -> nat {
    match f {
        ScpField::Direction => 0,
        ScpField::Local => 1,
        ScpField::Remote => 2,
        ScpField::Recursive => 3,
    }
}

/// The field after `f` in the cycle.
pub open spec fn scp_field_after(f: ScpField) -> ScpField {
    match f {
        ScpField::Direction => ScpField::Local,
        ScpField::Local => ScpField::Remote,
        ScpField::Remote => ScpField::Recursive,
        ScpField::Recursive => ScpField::Direction,
    }
}

/// The field before `f` in the cycle.
pub open spec fn scp_field_before(f: ScpField) -> ScpField {
    match f {
        ScpField::Direction => ScpField::Recursive,
        ScpField::Local => ScpField::Direction,
        ScpField::Remote => ScpField::Local,
        ScpField::Recursive => ScpField::Remote,
    }
}

/// Moving forward or back steps one position around the cycle of four fields.
pub proof fn lemma_scp_field_cycle(f: ScpField)
    ensures
        scp_field_pos(scp_field_after(f)) == (scp_field_pos(f) + 1) % 4,
        scp_field_pos(scp_field_before(f)) == (scp_field_pos(f) + 3) % 4,
        scp_field_before(scp_field_after(f)) == f,
{
}

impl ScpField {
    /// The following field; after `Recursive` comes `Direction` again.
    pub fn next(self) -> (r: Self)
        ensures
            r == scp_field_after(self),
    {
        match self {
            ScpField::Direction => ScpField::Local,
            ScpField::Local => ScpField::Remote,
            ScpField::Remote => ScpField::Recursive,
            ScpField::Recursive => ScpField::Direction,
        }
    }

    /// The preceding field; before `Direction` comes `Recursive`.
    pub fn prev(self) -> (r: Self)
        ensures
            r == scp_field_before(self),
    {
        match self {
            ScpField::Direction => ScpField::Recursive,
            ScpField::Local => ScpField::Direction,
            ScpField::Remote => ScpField::Local,
            ScpField::Recursive => ScpField::Remote,
        }
    }
}

/// Which way the files go.
#[derive(Clone, Copy, Debug, PartialEq, Eq, Structural)]
pub enum ScpDirection {
    To,
    From,
}

impl ScpDirection {
    pub fn toggle(self) -> (r: Self)
        ensures
            r == (if self == ScpDirection::To {
                ScpDirection::From
            } else {
                ScpDirection::To
            }),
    {
        match self {
            ScpDirection::To => ScpDirection::From,
            ScpDirection::From => ScpDirection::To,
        }
    }

    /// How the form shows the direction.
    pub fn label(self) -> (r: &'static str)
        ensures
            self == ScpDirection::To ==> r@ == "to (local -> remote)"@,
            self == ScpDirection::From ==> r@ == "from (remote -> local)"@,
    {
        match self {
            ScpDirection::To => "to (local -> remote)",
            ScpDirection::From => "from (remote -> local)",
        }
    }
}

/// The contents of an scp form.
pub struct ScpFormView {
    pub session: SessionView,
    pub local_path: Seq<char>,
    pub remote_path: Seq<char>,
    pub direction: ScpDirection,
    pub recursive: bool,
    pub field: ScpField,
}

/// Edit buffers of the scp form, bound to one session.
pub struct ScpForm {
    pub session: Session,
    pub local_path: String,
    pub remote_path: String,
    pub direction: ScpDirection,
    pub recursive: bool,
    pub field: ScpField,
}

impl View for ScpForm {
    type V = ScpFormView;

    open spec fn view(&self) -> ScpFormView {
        ScpFormView {
            session: self.session@,
            local_path: self.local_path@,
            remote_path: self.remote_path@,
            direction: self.direction,
            recursive: self.recursive,
            field: self.field,
        }
    }
}

/// A new scp form for a session: empty paths, upload, not recursive, cursor on `Local`.
pub open spec fn fresh_scp_form(session: SessionView) -> ScpFormView {
    ScpFormView {
        session,
        local_path: Seq::empty(),
        remote_path: Seq::empty(),
        direction: ScpDirection::To,
        recursive: false,
        field: ScpField::Local,
    }
}

impl ScpForm {
    /// An empty form for `session`: upload, not recursive, cursor on `Local`.
    pub fn new(session: Session) -> (r: Self)
        ensures
            r@ == fresh_scp_form(session@),
    {
        ScpForm {
            session,
            local_path: String::new(),
            remote_path: String::new(),
            direction: ScpDirection::To,
            recursive: false,
            field: ScpField::Local,
        }
    }

    pub fn field(&self) -> (r: ScpField)
        ensures
            r == self@.field,
    {
        self.field
    }

    pub fn next_field(&mut self)
        ensures
            final(self)@ == (ScpFormView { field: scp_field_after(old(self)@.field), ..old(self)@ }),
    {
        self.field = self.field.next();
    }

    pub fn prev_field(&mut self)
        ensures
            final(self)@ == (ScpFormView { field: scp_field_before(old(self)@.field), ..old(self)@ }),
    {
        self.field = self.field.prev();
    }

    pub fn toggle_direction(&mut self)
        ensures
            final(self)@ == (ScpFormView {
                direction: if old(self)@.direction == ScpDirection::To {
                    ScpDirection::From
                } else {
                    ScpDirection::To
                },
                ..old(self)@
            }),
    {
        self.direction = self.direction.toggle();
    }

    pub fn toggle_recursive(&mut self)
        ensures
            final(self)@ == (ScpFormView { recursive: !old(self)@.recursive, ..old(self)@ }),
    {
        self.recursive = !self.recursive;
    }

    /// Types `ch` into the path under the cursor; on `Direction` and
    /// `Recursive`, which hold no text, nothing changes.
    pub fn push_active(&mut self, ch: char)
        ensures
            final(self)@ == (match old(self)@.field {
                ScpField::Local => ScpFormView {
                    local_path: old(self)@.local_path.push(ch),
                    ..old(self)@
                },
                ScpField::Remote => ScpFormView {
                    remote_path: old(self)@.remote_path.push(ch),
                    ..old(self)@
                },
                _ => old(self)@,
            }),
    {
        match self.field {
            ScpField::Local => push_char(&mut self.local_path, ch),
            ScpField::Remote => push_char(&mut self.remote_path, ch),
            _ => {},
        }
    }

    /// Erases the last character of the path under the cursor, if any.
    pub fn pop_active(&mut self)
        ensures
            final(self)@ == (match old(self)@.field {
                ScpField::Local => ScpFormView {
                    local_path: drop_last_if_any(old(self)@.local_path),
                    ..old(self)@
                },
                ScpField::Remote => ScpFormView {
                    remote_path: drop_last_if_any(old(self)@.remote_path),
                    ..old(self)@
                },
                _ => old(self)@,
            }),
    {
        match self.field {
            ScpField::Local => {
                pop_char(&mut self.local_path);
            },
            ScpField::Remote => {
                pop_char(&mut self.remote_path);
            },
            _ => {},
        }
    }
}

/// `s` without its last character; the empty sequence stays empty.
pub open spec fn drop_last_if_any(s: Seq<char>) -> Seq<char> {
    if s.len() == 0 {
        s
    } else {
        s.drop_last()
    }
}

} // verus!
