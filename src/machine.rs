//! The mode machine: what each key does in each mode, and how the results of
//! the outside work it asks for (store writes, scp runs, path lookups) come back.
use crate::forms::{
    AddField, AddFormView, ScpDirection, ScpField, ScpFormView, add_field_after, add_field_before,
    drop_last_if_any, fresh_add_form, fresh_scp_form, scp_field_after, scp_field_before,
};
use crate::keys::{
    KeyCode, KeyInput, NormalAction, chord_next, chord_step, is_interrupt, normal_action,
    normal_action_of, typed_char,
};
use crate::model::{Session, SessionView, opt_string_view, tags_of, target_of};
use crate::state::{AppState, AppView, InputMode, ModeView, flipped, scp_erased, scp_typed, without_name};
use crate::text::{
    decimal_seq, int_text, parse_u16, parse_unsigned, push_char, str_trim, trim_seq,
};
use vstd::prelude::*;

verus! {

/// How far a page moves the cursor.
pub const PAGE_STEP: usize = 5;

/// An scp run: the session it is for, and the arguments after the program name.
pub struct ScpRequest {
    pub session_name: String,
    pub args: Vec<String>,
}

pub struct ScpRequestView {
    pub session_name: Seq<char>,
    pub args: Seq<Seq<char>>,
}

impl View for ScpRequest {
    type V = ScpRequestView;

    open spec fn view(&self) -> ScpRequestView {
        ScpRequestView {
            session_name: self.session_name@,
            args: crate::model::strings_view(self.args@),
        }
    }
}

/// What the driver must do after a key.
pub enum Effect {
    /// Nothing: draw and wait for the next key.
    Continue,
    /// Leave the interaction, connecting to the session if one is given.
    Exit(Option<Session>),
    /// Remove the named session from the store, then call `finish_delete`.
    RemoveSession(String),
    /// Add the session to the store, then call `finish_add_session`.
    AddSession(Session),
    /// Run scp, then call `finish_scp`.
    RunScp(ScpRequest),
    /// Look up the identity path typed so far, then record what was found with
    /// `AppState::set_add_identity_state`.
    LookupIdentity(String),
}

pub enum EffectView {
    Continue,
    Exit(Option<SessionView>),
    RemoveSession(Seq<char>),
    AddSession(SessionView),
    RunScp(ScpRequestView),
    LookupIdentity(Seq<char>),
}

impl View for Effect {
    type V = EffectView;

    open spec fn view(&self) -> EffectView {
        match self {
            Effect::Continue => EffectView::Continue,
            Effect::Exit(s) => EffectView::Exit(
                match s {
                    Some(x) => Some(x@),
                    None => None,
                },
            ),
            Effect::RemoveSession(n) => EffectView::RemoveSession(n@),
            Effect::AddSession(s) => EffectView::AddSession(s@),
            Effect::RunScp(r) => EffectView::RunScp(r@),
            Effect::LookupIdentity(p) => EffectView::LookupIdentity(p@),
        }
    }
}

pub open spec fn pending_of(m: ModeView) -> Option<char> {
    match m {
        ModeView::Normal { pending } => pending,
        _ => None,
    }
}

pub open spec fn normal_mode() -> ModeView {
    ModeView::Normal { pending: None }
}

/// What a key does in `Normal` mode: `w` and `e` are the state and the effect after it.
pub open spec fn normal_step(
    v: AppView,
    key: KeyInput,
    default_user: Option<Seq<char>>,
    w: AppView,
    e: EffectView,
) -> bool {
    let a = normal_action(key);
    let p = chord_next(pending_of(v.mode), a).0;
    let fired = chord_next(pending_of(v.mode), a).1;
    match a {
        NormalAction::Quit => e == EffectView::Exit(None) && w == v,
        NormalAction::Connect => e == EffectView::Exit(v.selected()) && w == v,
        _ => e == EffectView::Continue && match a {
            NormalAction::PageDown => w == v.moved_by(PAGE_STEP as int).with_pending(p),
            NormalAction::PageUp => w == v.moved_by(-(PAGE_STEP as int)).with_pending(p),
            NormalAction::Delete => if fired {
                match v.selected() {
                    Some(s) => w == v.in_mode(
                        ModeView::ConfirmDelete { target: s.name, input: Seq::empty() },
                    ).with_status("Type session name to confirm deletion"@),
                    None => w == v.with_status("No session selected to delete"@).with_pending(p),
                }
            } else {
                w == v.with_pending(p)
            },
            NormalAction::Add => w == v.in_mode(
                ModeView::AddSession { form: fresh_add_form(default_user) },
            ).with_status("Add session: Enter/Tab/Up/Down move fields, Esc cancel"@),
            NormalAction::Scp => match v.selected() {
                Some(s) => w == v.in_mode(ModeView::Scp { scp: fresh_scp_form(s) }).with_status(
                    "SCP: Enter/Tab move fields, Esc cancel"@,
                ),
                None => w == v.with_status("No session selected for SCP"@).with_pending(p),
            },
            NormalAction::ToggleMonitor => w == (AppView {
                monitor_enabled: !v.monitor_enabled,
                ..v
            }).with_pending(p),
            NormalAction::Prev => w == v.moved_by(-1).with_pending(p),
            NormalAction::Next => w == v.moved_by(1).with_pending(p),
            NormalAction::First => w == v.at_first().with_pending(p),
            NormalAction::Last => w == v.at_last().with_pending(p),
            NormalAction::Top => w == (if fired {
                v.at_first()
            } else {
                v
            }).with_pending(p),
            NormalAction::Search => w == v.refiltered(v.sessions, Seq::empty()).in_mode(
                ModeView::Search,
            ).with_status("Search mode: type to filter, Enter/Esc to exit"@),
            NormalAction::Escape => w == v.with_status(Seq::empty()).with_pending(p),
            _ => w == v.with_pending(p),
        },
    }
}

/// What a key does in `Search` mode: characters edit the query, arrows move,
/// Enter and Esc go back to `Normal` keeping the query.
pub open spec fn search_step(v: AppView, key: KeyInput, w: AppView, e: EffectView) -> bool {
    e == EffectView::Continue && match key.code {
        KeyCode::Esc | KeyCode::Enter => w == v.in_mode(normal_mode()).with_status(Seq::empty()),
        KeyCode::Backspace => w == v.refiltered(v.sessions, drop_last_if_any(v.query)),
        KeyCode::Up => w == v.moved_by(-1),
        KeyCode::Down => w == v.moved_by(1),
        _ => match typed_char(key) {
            Some(c) => w == v.refiltered(v.sessions, v.query.push(c)),
            None => w == v,
        },
    }
}

/// What a key does in `ConfirmDelete` mode.
pub open spec fn confirm_step(v: AppView, key: KeyInput, w: AppView, e: EffectView) -> bool {
    match v.mode {
        ModeView::ConfirmDelete { target, input } => match key.code {
            KeyCode::Esc => e == EffectView::Continue && w == v.in_mode(normal_mode()).with_status(
                Seq::empty(),
            ),
            KeyCode::Enter => if target == input {
                e == EffectView::RemoveSession(target) && w == v
            } else {
                e == EffectView::Continue && w == v.with_status(
                    "Delete confirmation does not match session name"@,
                )
            },
            KeyCode::Backspace => e == EffectView::Continue && w == v.in_mode(
                ModeView::ConfirmDelete { target, input: drop_last_if_any(input) },
            ),
            _ => e == EffectView::Continue && match typed_char(key) {
                Some(c) => w == v.in_mode(ModeView::ConfirmDelete { target, input: input.push(c) }),
                None => w == v,
            },
        },
        _ => false,
    }
}

/// The session an add-session form describes, or the message that rejects it.
pub open spec fn add_form_session(f: AddFormView) -> Result<SessionView, Seq<char>> {
    let name = trim_seq(f.name);
    let host = trim_seq(f.host);
    let user = trim_seq(f.user);
    let port_in = trim_seq(f.port);
    let id = trim_seq(f.identity_file);
    if name.len() == 0 || host.len() == 0 || user.len() == 0 {
        Err("Name, host, and user are required"@)
    } else if port_in.len() > 0 && parse_unsigned(port_in, 0xffff) is None {
        Err("Port must be a valid number"@)
    } else {
        Ok(
            SessionView {
                name,
                host,
                user,
                port: if port_in.len() == 0 {
                    22
                } else {
                    parse_unsigned(port_in, 0xffff)->0 as u16
                },
                identity_file: if id.len() == 0 {
                    None
                } else {
                    Some(id)
                },
                tags: tags_of(f.tags),
                last_connected_at: None,
            },
        )
    }
}

/// Submitting an add-session form: a rejected form stays open with the
/// message; an accepted one asks the store to add the session.
pub open spec fn submit_add_step(v: AppView, f: AddFormView, w: AppView, e: EffectView) -> bool {
    match add_form_session(f) {
        Ok(s) => e == EffectView::AddSession(s) && w == v,
        Err(m) => e == EffectView::Continue && w == v.with_status(m),
    }
}

/// What a key does in `AddSession` mode.
pub open spec fn add_step(v: AppView, key: KeyInput, w: AppView, e: EffectView) -> bool {
    match v.mode {
        ModeView::AddSession { form: f } => match key.code {
            KeyCode::Esc => e == EffectView::Continue && w == v.in_mode(normal_mode()).with_status(
                Seq::empty(),
            ),
            KeyCode::Tab | KeyCode::Down => e == EffectView::Continue && w == v.in_mode(
                ModeView::AddSession { form: f.with_field(add_field_after(f.field)) },
            ),
            KeyCode::BackTab | KeyCode::Up => e == EffectView::Continue && w == v.in_mode(
                ModeView::AddSession { form: f.with_field(add_field_before(f.field)) },
            ),
            KeyCode::Enter => if f.field == AddField::Tags {
                submit_add_step(v, f, w, e)
            } else {
                e == EffectView::Continue && w == v.in_mode(
                    ModeView::AddSession { form: f.with_field(add_field_after(f.field)) },
                )
            },
            KeyCode::Backspace => edited_step(v, f, f.with_active(drop_last_if_any(f.active())), w, e),
            _ => match typed_char(key) {
                Some(c) => edited_step(v, f, f.with_active(f.active().push(c)), w, e),
                None => e == EffectView::Continue && w == v,
            },
        },
        _ => false,
    }
}

/// After an edit of the form `f` into `g`: an edit of the identity path asks
/// for a lookup of the new path.
pub open spec fn edited_step(
    v: AppView,
    f: AddFormView,
    g: AddFormView,
    w: AppView,
    e: EffectView,
) -> bool {
    w == v.in_mode(ModeView::AddSession { form: g }) && e == (if f.field == AddField::Identity {
        EffectView::LookupIdentity(g.identity_file)
    } else {
        EffectView::Continue
    })
}

/// The arguments of an scp run: `-r` if recursive, `-i <identity>` if the
/// session has one, `-P <port>`, then source and destination.
pub open spec fn scp_args_spec(
    s: SessionView,
    local: Seq<char>,
    remote: Seq<char>,
    direction: ScpDirection,
    recursive: bool,
) -> Seq<Seq<char>> {
    let r = if recursive {
        seq![seq!['-', 'r']]
    } else {
        Seq::empty()
    };
    let i = match s.identity_file {
        Some(p) => seq![seq!['-', 'i'], p],
        None => Seq::empty(),
    };
    let port = seq![seq!['-', 'P'], decimal_seq(s.port as nat)];
    let remote_target = target_of(s.user, s.host) + seq![':'] + remote;
    let pos = if direction == ScpDirection::To {
        seq![local, remote_target]
    } else {
        seq![remote_target, local]
    };
    r + i + port + pos
}

/// Submitting an scp form: both paths are needed; then scp is asked to run.
pub open spec fn submit_scp_step(v: AppView, f: ScpFormView, w: AppView, e: EffectView) -> bool {
    let local = trim_seq(f.local_path);
    let remote = trim_seq(f.remote_path);
    if local.len() == 0 || remote.len() == 0 {
        e == EffectView::Continue && w == v.with_status("Local and remote paths are required"@)
    } else {
        w == v && e == EffectView::RunScp(
            ScpRequestView {
                session_name: f.session.name,
                args: scp_args_spec(f.session, local, remote, f.direction, f.recursive),
            },
        )
    }
}

/// What a key does in `Scp` mode.
pub open spec fn scp_step(v: AppView, key: KeyInput, w: AppView, e: EffectView) -> bool {
    match v.mode {
        ModeView::Scp { scp: f } => {
            let stay = |g: ScpFormView| e == EffectView::Continue && w == v.in_mode(ModeView::Scp { scp: g });
            match key.code {
                KeyCode::Esc => e == EffectView::Continue && w == v.in_mode(normal_mode()).with_status(
                    Seq::empty(),
                ),
                KeyCode::Tab => stay(ScpFormView { field: scp_field_after(f.field), ..f }),
                KeyCode::BackTab => stay(ScpFormView { field: scp_field_before(f.field), ..f }),
                KeyCode::Enter => if f.field == ScpField::Recursive {
                    submit_scp_step(v, f, w, e)
                } else {
                    stay(ScpFormView { field: scp_field_after(f.field), ..f })
                },
                KeyCode::Left | KeyCode::Right => if f.field == ScpField::Direction {
                    stay(ScpFormView { direction: flipped(f.direction), ..f })
                } else if f.field == ScpField::Recursive {
                    stay(ScpFormView { recursive: !f.recursive, ..f })
                } else {
                    stay(f)
                },
                KeyCode::Backspace => stay(scp_erased(f)),
                KeyCode::Char(c) => if (c == 't' || c == ' ') && f.field == ScpField::Direction {
                    stay(ScpFormView { direction: flipped(f.direction), ..f })
                } else if (c == 'r' || c == ' ') && f.field == ScpField::Recursive {
                    stay(ScpFormView { recursive: !f.recursive, ..f })
                } else {
                    match typed_char(key) {
                        Some(t) => stay(scp_typed(f, t)),
                        None => stay(f),
                    }
                },
                _ => stay(f),
            }
        },
        _ => false,
    }
}


/// The character a key types into a buffer, if it types one.
pub fn typed_char_of(key: KeyInput) -> (r: Option<char>)
    ensures
        r == typed_char(key),
{
    match key.code {
        KeyCode::Char(c) => {
            if !key.ctrl && !key.alt {
                Some(c)
            } else {
                None
            }
        },
        _ => None,
    }
}

fn joined(a: &str, b: &str) -> (r: String)
    ensures
        r@ == a@ + b@,
{
    let mut s = a.to_owned();
    s.append(b);
    s
}

/// Handles a key in `Normal` mode (see `normal_step`).
pub fn handle_normal_key(app: &mut AppState, key: KeyInput, default_user: &Option<String>) -> (r: Effect)
    requires
        old(app)@.wf(),
        old(app)@.mode is Normal,
    ensures
        final(app)@.wf(),
        normal_step(old(app)@, key, opt_string_view(*default_user), final(app)@, r@),
{
    let action = normal_action_of(key);
    let (next_pending, fired) = chord_step(app.pending(), action);
    match action {
        NormalAction::Quit => {
            return Effect::Exit(None);
        },
        NormalAction::Connect => {
            let selection = match app.selected_session() {
                Some(s) => Some(s.clone()),
                None => None,
            };
            return Effect::Exit(selection);
        },
        NormalAction::PageDown => app.page_down(PAGE_STEP),
        NormalAction::PageUp => app.page_up(PAGE_STEP),
        NormalAction::Delete => {
            if fired {
                if app.start_delete() {
                    app.set_status("Type session name to confirm deletion".to_owned());
                } else {
                    app.set_status("No session selected to delete".to_owned());
                }
            }
        },
        NormalAction::Add => {
            let user = match default_user {
                Some(u) => Some(u.clone()),
                None => None,
            };
            app.start_add_session(user);
            app.set_status("Add session: Enter/Tab/Up/Down move fields, Esc cancel".to_owned());
        },
        NormalAction::Scp => {
            let selection = match app.selected_session() {
                Some(s) => Some(s.clone()),
                None => None,
            };
            match selection {
                Some(session) => {
                    app.start_scp(session);
                    app.set_status("SCP: Enter/Tab move fields, Esc cancel".to_owned());
                },
                None => app.set_status("No session selected for SCP".to_owned()),
            }
        },
        NormalAction::ToggleMonitor => app.toggle_monitor(),
        NormalAction::Prev => app.move_prev(),
        NormalAction::Next => app.move_next(),
        NormalAction::First => app.select_first(),
        NormalAction::Last => app.select_last(),
        NormalAction::Top => {
            if fired {
                app.select_first();
            }
        },
        NormalAction::Search => {
            app.clear_filter();
            app.set_mode(InputMode::Search);
            app.set_status("Search mode: type to filter, Enter/Esc to exit".to_owned());
        },
        NormalAction::Escape => app.clear_status(),
        NormalAction::Ignore => {},
    }
    app.set_pending(next_pending);
    Effect::Continue
}

/// Handles a key in `Search` mode (see `search_step`).
pub fn handle_search_key(app: &mut AppState, key: KeyInput) -> (r: Effect)
    requires
        old(app)@.wf(),
        old(app)@.mode is Search,
    ensures
        final(app)@.wf(),
        search_step(old(app)@, key, final(app)@, r@),
{
    match key.code {
        KeyCode::Esc | KeyCode::Enter => {
            app.set_mode(InputMode::Normal);
            app.clear_status();
        },
        KeyCode::Backspace => app.backspace(),
        KeyCode::Up => app.move_prev(),
        KeyCode::Down => app.move_next(),
        _ => {
            if let Some(c) = typed_char_of(key) {
                app.on_char(c);
            }
        },
    }
    Effect::Continue
}

/// Handles a key in `ConfirmDelete` mode (see `confirm_step`).
pub fn handle_confirm_delete_key(app: &mut AppState, key: KeyInput) -> (r: Effect)
    requires
        old(app)@.wf(),
        old(app)@.mode is ConfirmDelete,
    ensures
        final(app)@.wf(),
        confirm_step(old(app)@, key, final(app)@, r@),
{
    match key.code {
        KeyCode::Esc => {
            app.cancel_delete();
            app.clear_status();
        },
        KeyCode::Enter => {
            if app.confirm_delete_matches() {
                if let Some(target) = app.delete_target() {
                    return Effect::RemoveSession(target.to_owned());
                }
            } else {
                app.set_status("Delete confirmation does not match session name".to_owned());
            }
        },
        KeyCode::Backspace => app.pop_delete_input(),
        _ => {
            if let Some(c) = typed_char_of(key) {
                app.push_delete_input(c);
            }
        },
    }
    Effect::Continue
}

/// Completes a confirmed deletion once the store has answered: on success the
/// session leaves the catalog; either way the mode returns to `Normal` with a
/// message.
pub fn finish_delete(app: &mut AppState, name: &str, result: Result<(), String>)
    requires
        old(app)@.wf(),
    ensures
        final(app)@.wf(),
        (match result {
            Ok(()) => final(app)@ == old(app)@.refiltered(
                without_name(old(app)@.sessions, name@),
                old(app)@.query,
            ).in_mode(normal_mode()).with_status("Deleted session: "@ + name@),
            Err(m) => final(app)@ == old(app)@.in_mode(normal_mode()).with_status(
                "Failed to delete session: "@ + m@,
            ),
        }),
{
    match result {
        Ok(()) => {
            app.remove_by_name(name);
            app.set_status(joined("Deleted session: ", name));
        },
        Err(m) => {
            app.set_status(joined("Failed to delete session: ", m.as_str()));
        },
    }
    app.cancel_delete();
}

fn trimmed_owned(s: &String) -> (r: String)
    ensures
        r@ == trim_seq(s@),
{
    str_trim(s.as_str()).to_owned()
}

/// Validates the add-session form (see `submit_add_step`).
pub fn submit_add_session(app: &mut AppState) -> (r: Effect)
    requires
        old(app)@.wf(),
        old(app)@.mode is AddSession,
    ensures
        final(app)@.wf(),
        (match old(app)@.mode {
            ModeView::AddSession { form } => submit_add_step(old(app)@, form, final(app)@, r@),
            _ => false,
        }),
{
    let form = match app.add_form() {
        Some(f) => f,
        None => {
            return Effect::Continue;
        },
    };
    let name = trimmed_owned(&form.name);
    let host = trimmed_owned(&form.host);
    let user = trimmed_owned(&form.user);
    let port_input = trimmed_owned(&form.port);
    let identity_input = trimmed_owned(&form.identity_file);
    let tags = crate::model::split_tags(form.tags.as_str());
    if name.as_str().is_empty() || host.as_str().is_empty() || user.as_str().is_empty() {
        app.set_status("Name, host, and user are required".to_owned());
        return Effect::Continue;
    }
    let port: u16 = if port_input.as_str().is_empty() {
        22
    } else {
        match parse_u16(port_input.as_str()) {
            Some(p) => p,
            None => {
                app.set_status("Port must be a valid number".to_owned());
                return Effect::Continue;
            },
        }
    };
    let identity_file = if identity_input.as_str().is_empty() {
        None
    } else {
        Some(identity_input)
    };
    let session = Session {
        name,
        host,
        user,
        port,
        identity_file,
        tags,
        last_connected_at: None,
    };
    Effect::AddSession(session)
}

/// Completes an add once the store has answered: a refusal (a taken name)
/// keeps the form open with the store's message; success appends the session,
/// closes the form and says so.
pub fn finish_add_session(app: &mut AppState, session: Session, result: Result<(), String>)
    requires
        old(app)@.wf(),
        old(app)@.sessions.len() < usize::MAX,
    ensures
        final(app)@.wf(),
        (match result {
            Ok(()) => final(app)@ == old(app)@.refiltered(
                old(app)@.sessions.push(session@),
                old(app)@.query,
            ).in_mode(normal_mode()).with_status("Added session: "@ + session@.name),
            Err(m) => final(app)@ == old(app)@.with_status("Failed to add session: "@ + m@),
        }),
{
    match result {
        Ok(()) => {
            let message = joined("Added session: ", session.name.as_str());
            app.add_session(session);
            app.cancel_add_session();
            app.set_status(message);
        },
        Err(m) => {
            app.set_status(joined("Failed to add session: ", m.as_str()));
        },
    }
}

/// Handles a key in `AddSession` mode (see `add_step`).
pub fn handle_add_session_key(app: &mut AppState, key: KeyInput) -> (r: Effect)
    requires
        old(app)@.wf(),
        old(app)@.mode is AddSession,
    ensures
        final(app)@.wf(),
        add_step(old(app)@, key, final(app)@, r@),
{
    let field = match app.add_form() {
        Some(f) => f.field(),
        None => {
            return Effect::Continue;
        },
    };
    match key.code {
        KeyCode::Esc => {
            app.cancel_add_session();
            app.clear_status();
            Effect::Continue
        },
        KeyCode::Tab | KeyCode::Down => {
            app.add_form_next_field();
            Effect::Continue
        },
        KeyCode::BackTab | KeyCode::Up => {
            app.add_form_prev_field();
            Effect::Continue
        },
        KeyCode::Enter => {
            if field == AddField::Tags {
                submit_add_session(app)
            } else {
                app.add_form_next_field();
                Effect::Continue
            }
        },
        KeyCode::Backspace => {
            app.add_form_pop();
            identity_effect(app, field)
        },
        _ => {
            match typed_char_of(key) {
                Some(c) => {
                    app.add_form_push(c);
                    identity_effect(app, field)
                },
                None => Effect::Continue,
            }
        },
    }
}

fn identity_effect(app: &AppState, field: AddField) -> (r: Effect)
    requires
        app@.mode is AddSession,
    ensures
        (match app@.mode {
            ModeView::AddSession { form } => r@ == (if field == AddField::Identity {
                EffectView::LookupIdentity(form.identity_file)
            } else {
                EffectView::Continue
            }),
            _ => false,
        }),
{
    if field == AddField::Identity {
        match app.add_form() {
            Some(f) => Effect::LookupIdentity(f.identity_file.clone()),
            None => Effect::Continue,
        }
    } else {
        Effect::Continue
    }
}

fn push_str_arg(args: &mut Vec<String>, s: &str)
    ensures
        crate::model::strings_view(final(args)@) == crate::model::strings_view(old(args)@).push(s@),
{
    args.push(s.to_owned());
    assert(crate::model::strings_view(final(args)@) =~= crate::model::strings_view(old(args)@).push(s@));
}

/// The arguments of an scp run (see `scp_args_spec`).
pub fn scp_args(
    session: &Session,
    local: &str,
    remote: &str,
    direction: ScpDirection,
    recursive: bool,
) -> (r: Vec<String>)
    ensures
        crate::model::strings_view(r@) == scp_args_spec(session@, local@, remote@, direction, recursive),
{
    let ghost sv = session@;
    let ghost r_part: Seq<Seq<char>> = if recursive {
        seq![seq!['-', 'r']]
    } else {
        Seq::empty()
    };
    let ghost i_part: Seq<Seq<char>> = match sv.identity_file {
        Some(p) => seq![seq!['-', 'i'], p],
        None => Seq::empty(),
    };
    let mut args: Vec<String> = Vec::new();
    let mut flag = String::new();
    push_char(&mut flag, '-');
    if recursive {
        let mut r = flag.clone();
        push_char(&mut r, 'r');
        assert(r@ =~= seq!['-', 'r']);
        push_str_arg(&mut args, r.as_str());
    }
    assert(crate::model::strings_view(args@) =~= r_part);
    if let Some(identity) = &session.identity_file {
        let mut i = flag.clone();
        push_char(&mut i, 'i');
        assert(i@ =~= seq!['-', 'i']);
        push_str_arg(&mut args, i.as_str());
        push_str_arg(&mut args, identity.as_str());
    }
    assert(crate::model::strings_view(args@) =~= r_part + i_part);
    let mut p = flag.clone();
    push_char(&mut p, 'P');
    assert(p@ =~= seq!['-', 'P']);
    push_str_arg(&mut args, p.as_str());
    let port = int_text(session.port as i64);
    assert(port@ == decimal_seq(sv.port as nat));
    push_str_arg(&mut args, port.as_str());
    assert(crate::model::strings_view(args@) =~= r_part + i_part + seq![
        seq!['-', 'P'],
        decimal_seq(sv.port as nat),
    ]);
    let mut remote_target = session.target();
    push_char(&mut remote_target, ':');
    remote_target.append(remote);
    assert(remote_target@ =~= target_of(sv.user, sv.host) + seq![':'] + remote@);
    match direction {
        ScpDirection::To => {
            push_str_arg(&mut args, local);
            push_str_arg(&mut args, remote_target.as_str());
        },
        ScpDirection::From => {
            push_str_arg(&mut args, remote_target.as_str());
            push_str_arg(&mut args, local);
        },
    }
    proof {
        assert(crate::model::strings_view(args@) =~= scp_args_spec(
            session@,
            local@,
            remote@,
            direction,
            recursive,
        ));
    }
    args
}

/// Validates the scp form (see `submit_scp_step`).
pub fn submit_scp(app: &mut AppState) -> (r: Effect)
    requires
        old(app)@.wf(),
        old(app)@.mode is Scp,
    ensures
        final(app)@.wf(),
        (match old(app)@.mode {
            ModeView::Scp { scp } => submit_scp_step(old(app)@, scp, final(app)@, r@),
            _ => false,
        }),
{
    let form = match app.scp_form() {
        Some(f) => f,
        None => {
            return Effect::Continue;
        },
    };
    let local = str_trim(form.local_path.as_str());
    let remote = str_trim(form.remote_path.as_str());
    if local.is_empty() || remote.is_empty() {
        app.set_status("Local and remote paths are required".to_owned());
        return Effect::Continue;
    }
    let args = scp_args(&form.session, local, remote, form.direction, form.recursive);
    Effect::RunScp(ScpRequest { session_name: form.session.name.clone(), args })
}

/// Completes an scp run: success closes the form and says so; failure keeps
/// the form, with the exit status described by `result`.
pub fn finish_scp(app: &mut AppState, result: Result<(), String>)
    requires
        old(app)@.wf(),
        old(app)@.mode is Scp,
    ensures
        final(app)@.wf(),
        (match (old(app)@.mode, result) {
            (ModeView::Scp { scp }, Ok(())) => final(app)@ == old(app)@.in_mode(
                normal_mode(),
            ).with_status("SCP complete: "@ + scp.session.name),
            (_, Err(m)) => final(app)@ == old(app)@.with_status("scp exited with status "@ + m@),
            _ => false,
        }),
{
    match result {
        Ok(()) => {
            let message = match app.scp_form() {
                Some(f) => joined("SCP complete: ", f.session.name.as_str()),
                None => String::new(),
            };
            app.cancel_scp();
            app.set_status(message);
        },
        Err(m) => {
            app.set_status(joined("scp exited with status ", m.as_str()));
        },
    }
}

/// Handles a key in `Scp` mode (see `scp_step`).
pub fn handle_scp_key(app: &mut AppState, key: KeyInput) -> (r: Effect)
    requires
        old(app)@.wf(),
        old(app)@.mode is Scp,
    ensures
        final(app)@.wf(),
        scp_step(old(app)@, key, final(app)@, r@),
{
    let field = match app.scp_form() {
        Some(f) => f.field(),
        None => {
            return Effect::Continue;
        },
    };
    match key.code {
        KeyCode::Esc => {
            app.cancel_scp();
            app.clear_status();
        },
        KeyCode::Tab => app.scp_form_next_field(),
        KeyCode::BackTab => app.scp_form_prev_field(),
        KeyCode::Enter => {
            if field == ScpField::Recursive {
                return submit_scp(app);
            } else {
                app.scp_form_next_field();
            }
        },
        KeyCode::Left | KeyCode::Right => {
            if field == ScpField::Direction {
                app.scp_toggle_direction();
            } else if field == ScpField::Recursive {
                app.scp_toggle_recursive();
            }
        },
        KeyCode::Backspace => app.scp_form_pop(),
        KeyCode::Char(c) => {
            if (c == 't' || c == ' ') && field == ScpField::Direction {
                app.scp_toggle_direction();
            } else if (c == 'r' || c == ' ') && field == ScpField::Recursive {
                app.scp_toggle_recursive();
            } else if let Some(t) = typed_char_of(key) {
                app.scp_form_push(t);
            }
        },
        _ => {},
    }
    Effect::Continue
}

/// Dispatches a key to the handler of the active mode; Ctrl-C leaves from any
/// mode, dropping whatever form or confirmation was in progress.
pub fn handle_key(app: &mut AppState, key: KeyInput, default_user: &Option<String>) -> (r: Effect)
    requires
        old(app)@.wf(),
    ensures
        final(app)@.wf(),
        is_interrupt(key) ==> r@ == EffectView::Exit(None) && final(app)@ == old(app)@,
        !is_interrupt(key) ==> match old(app)@.mode {
            ModeView::Normal { .. } => normal_step(
                old(app)@,
                key,
                opt_string_view(*default_user),
                final(app)@,
                r@,
            ),
            ModeView::Search => search_step(old(app)@, key, final(app)@, r@),
            ModeView::ConfirmDelete { .. } => confirm_step(old(app)@, key, final(app)@, r@),
            ModeView::AddSession { .. } => add_step(old(app)@, key, final(app)@, r@),
            ModeView::Scp { .. } => scp_step(old(app)@, key, final(app)@, r@),
        },
{
    if key.ctrl && key.code == KeyCode::Char('c') {
        return Effect::Exit(None);
    }
    match app.mode() {
        InputMode::Normal => handle_normal_key(app, key, default_user),
        InputMode::Search => handle_search_key(app, key),
        InputMode::ConfirmDelete => handle_confirm_delete_key(app, key),
        InputMode::AddSession => handle_add_session_key(app, key),
        InputMode::Scp => handle_scp_key(app, key),
    }
}

} // verus!
