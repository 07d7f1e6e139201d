//! The catalog held in memory, its filtered view and cursor, and the mode the
//! interaction is in, each mode with the data that only it uses.
use crate::filter::{filter_sessions, filter_spec, lemma_filter_ordered};
use crate::forms::{
    AddFormView, AddSessionForm, ScpDirection, ScpForm, ScpFormView, add_field_after,
    add_field_before, drop_last_if_any, scp_field_after, scp_field_before,
};
use crate::model::{Session, SessionView, sessions_view};
use crate::text::{pop_char, push_char, str_eq};
use vstd::prelude::*;

verus! {

/// The kind of interaction in progress.
#[derive(Clone, Copy, Debug, PartialEq, Eq, Structural)]
pub enum InputMode {
    Normal,
    Search,
    ConfirmDelete,
    AddSession,
    Scp,
}

/// A process judged to be a live connection to the selected host.
#[derive(Debug)]
pub struct MonitorEntry {
    pub pid: u32,
    pub tty: Option<String>,
}

/// The mode together with the data that only it uses.
enum ModeState {
    Normal { pending: Option<char> },
    Search,
    ConfirmDelete { target: String, input: String },
    AddSession { form: AddSessionForm },
    Scp { scp: ScpForm },
}

/// The mode and its data, as plain values. `pending` is the first key of a
/// two-key chord that waits for its second.
pub enum ModeView {
    Normal { pending: Option<char> },
    Search,
    ConfirmDelete { target: Seq<char>, input: Seq<char> },
    AddSession { form: AddFormView },
    Scp { scp: ScpFormView },
}

pub open spec fn input_mode_of(m: ModeView) -> InputMode {
    match m {
        ModeView::Normal { .. } => InputMode::Normal,
        ModeView::Search => InputMode::Search,
        ModeView::ConfirmDelete { .. } => InputMode::ConfirmDelete,
        ModeView::AddSession { .. } => InputMode::AddSession,
        ModeView::Scp { .. } => InputMode::Scp,
    }
}

/// What the interaction state holds.
pub struct AppView {
    pub sessions: Seq<SessionView>,
    pub query: Seq<char>,
    pub filtered: Seq<usize>,
    pub cursor: usize,
    pub mode: ModeView,
    pub status: Seq<char>,
    pub monitor_enabled: bool,
    pub monitor_last: Option<u64>,
    pub monitor_entries: Seq<MonitorEntry>,
}

/// The cursor stands on an entry of a view of `n` entries, or at 0 on an empty view.
pub open spec fn cursor_ok(cursor: usize, n: nat) -> bool {
    if n == 0 {
        cursor == 0
    } else {
        cursor < n
    }
}

/// The cursor kept where it is if it is still in range, else sent to the first entry.
pub open spec fn reclamp(cursor: usize, n: nat) -> usize {
    if cursor < n {
        cursor
    } else {
        0
    }
}

/// Time passed from `last` to `now`; none if the clock went back.
pub open spec fn elapsed(last: u64, now: u64) -> int {
    if now >= last {
        now - last
    } else {
        0
    }
}

/// A refresh is due when none has happened yet, or `interval` has passed since the last.
pub open spec fn refresh_due(last: Option<u64>, now: u64, interval: u64) -> bool {
    match last {
        None => true,
        Some(l) => elapsed(l, now) >= interval,
    }
}

impl AppView {
    /// The filtered view is the filter of the catalog by the query, and the
    /// cursor stands in it.
    pub open spec fn wf(self) -> bool {
        &&& self.sessions.len() <= usize::MAX
        &&& self.filtered.len() <= usize::MAX
        &&& self.filtered == filter_spec(self.sessions, self.query)
        &&& cursor_ok(self.cursor, self.filtered.len())
    }

    /// The state after the catalog or the query changed to the given values:
    /// the filter recomputed and the cursor re-clamped.
    pub open spec fn refiltered(self, sessions: Seq<SessionView>, query: Seq<char>) -> AppView {
        AppView {
            sessions,
            query,
            filtered: filter_spec(sessions, query),
            cursor: reclamp(self.cursor, filter_spec(sessions, query).len()),
            ..self
        }
    }

    /// The session under the cursor, if the view is not empty.
    pub open spec fn selected(self) -> Option<SessionView> {
        if self.filtered.len() > 0 {
            Some(self.sessions[self.filtered[self.cursor as int] as int])
        } else {
            None
        }
    }

    /// The cursor moved `delta` entries, wrapping around the view; on an empty
    /// view nothing moves.
    pub open spec fn moved_by(self, delta: int) -> AppView {
        if self.filtered.len() > 0 {
            AppView { cursor: ((self.cursor + delta) % (self.filtered.len() as int)) as usize, ..self }
        } else {
            self
        }
    }

    /// The cursor on the last entry of a non-empty view.
    pub open spec fn at_last(self) -> AppView {
        if self.filtered.len() > 0 {
            AppView { cursor: (self.filtered.len() - 1) as usize, ..self }
        } else {
            self
        }
    }

    pub open spec fn at_first(self) -> AppView {
        AppView { cursor: 0, ..self }
    }

    /// The chord marker set to `p`; it exists only in `Normal` mode.
    pub open spec fn with_pending(self, p: Option<char>) -> AppView {
        match self.mode {
            ModeView::Normal { .. } => self.in_mode(ModeView::Normal { pending: p }),
            _ => self,
        }
    }

    pub open spec fn mode_kind(self) -> InputMode {
        input_mode_of(self.mode)
    }

    pub open spec fn in_mode(self, mode: ModeView) -> AppView {
        AppView { mode, ..self }
    }

    pub open spec fn with_status(self, status: Seq<char>) -> AppView {
        AppView { status, ..self }
    }
}

/// The interaction state: the catalog, its view and cursor, the mode, the
/// status line and the monitor's last observation.
pub struct AppState {
    sessions: Vec<Session>,
    filter: String,
    filtered_indices: Vec<usize>,
    selected: usize,
    mode: ModeState,
    status: String,
    monitor_enabled: bool,
    monitor_last_update: Option<u64>,
    monitor_entries: Vec<MonitorEntry>,
}

spec fn mode_view(m: ModeState) -> ModeView {
    match m {
        ModeState::Normal { pending } => ModeView::Normal { pending },
        ModeState::Search => ModeView::Search,
        ModeState::ConfirmDelete { target, input } => ModeView::ConfirmDelete {
            target: target@,
            input: input@,
        },
        ModeState::AddSession { form } => ModeView::AddSession { form: form@ },
        ModeState::Scp { scp } => ModeView::Scp { scp: scp@ },
    }
}

impl View for AppState {
    type V = AppView;

    closed spec fn view(&self) -> AppView {
        AppView {
            sessions: sessions_view(self.sessions@),
            query: self.filter@,
            filtered: self.filtered_indices@,
            cursor: self.selected,
            mode: mode_view(self.mode),
            status: self.status@,
            monitor_enabled: self.monitor_enabled,
            monitor_last: self.monitor_last_update,
            monitor_entries: self.monitor_entries@,
        }
    }
}

impl AppState {
    /// Starts in `Normal` mode on an empty query, with the whole catalog shown,
    /// the cursor on the first entry, and the monitor off.
    pub fn new(sessions: &[Session]) -> (r: Self)
        ensures
            r@.wf(),
            r@.sessions == sessions_view(sessions@),
            r@.query.len() == 0,
            r@.cursor == 0,
            r@.mode == (ModeView::Normal { pending: None }),
            r@.status.len() == 0,
            !r@.monitor_enabled,
            r@.monitor_last is None,
            r@.monitor_entries.len() == 0,
    {
        let mut copy: Vec<Session> = Vec::new();
        let mut i: usize = 0;
        while i < sessions.len()
            invariant
                i <= sessions.len(),
                sessions_view(copy@) =~= sessions_view(sessions@.subrange(0, i as int)),
            decreases sessions.len() - i,
        {
            copy.push(sessions[i].clone());
            proof {
                assert(sessions_view(sessions@.subrange(0, i + 1)) =~= sessions_view(
                    sessions@.subrange(0, i as int),
                ).push(sessions@[i as int]@));
            }
            i += 1;
        }
        proof {
            assert(sessions@.subrange(0, i as int) =~= sessions@);
        }
        let mut state = AppState {
            sessions: copy,
            filter: String::new(),
            filtered_indices: Vec::new(),
            selected: 0,
            mode: ModeState::Normal { pending: None },
            status: String::new(),
            monitor_enabled: false,
            monitor_last_update: None,
            monitor_entries: Vec::new(),
        };
        state.refresh_filter();
        state
    }

    /// Recomputes the view from the catalog and the query, and re-clamps the
    /// cursor.
    fn refresh(&mut self)
        requires
            old(self)@.sessions.len() <= usize::MAX,
        ensures
            final(self)@ == old(self)@.refiltered(old(self)@.sessions, old(self)@.query),
            final(self)@.wf(),
    {
        self.filtered_indices = filter_sessions(self.sessions.as_slice(), self.filter.as_str());
        if self.selected >= self.filtered_indices.len() {
            self.selected = 0;
        }
    }

    /// Recomputes the view; on a consistent state this changes nothing.
    pub fn refresh_filter(&mut self)
        requires
            old(self)@.sessions.len() <= usize::MAX,
        ensures
            final(self)@ == old(self)@.refiltered(old(self)@.sessions, old(self)@.query),
            final(self)@.wf(),
            old(self)@.wf() ==> final(self)@ == old(self)@,
    {
        self.refresh();
    }

    pub fn mode(&self) -> (r: InputMode)
        ensures
            r == self@.mode_kind(),
    {
        match &self.mode {
            ModeState::Normal { .. } => InputMode::Normal,
            ModeState::Search => InputMode::Search,
            ModeState::ConfirmDelete { .. } => InputMode::ConfirmDelete,
            ModeState::AddSession { .. } => InputMode::AddSession,
            ModeState::Scp { .. } => InputMode::Scp,
        }
    }

    /// Switches between `Normal` and `Search`, which carry no data; the other
    /// modes are entered through `start_delete`, `start_add_session` and
    /// `start_scp`. Whatever the old mode held is dropped.
    pub fn set_mode(&mut self, mode: InputMode)
        requires
            mode == InputMode::Normal || mode == InputMode::Search,
        ensures
            final(self)@ == old(self)@.in_mode(
                if mode == InputMode::Normal {
                    ModeView::Normal { pending: None }
                } else {
                    ModeView::Search
                },
            ),
    {
        if mode == InputMode::Normal {
            self.mode = ModeState::Normal { pending: None };
        } else {
            self.mode = ModeState::Search;
        }
    }

    /// Sets the chord marker; it exists only in `Normal` mode, elsewhere this
    /// does nothing.
    pub fn set_pending(&mut self, pending: Option<char>)
        ensures
            final(self)@ == old(self)@.with_pending(pending),
    {
        if let ModeState::Normal { .. } = &self.mode {
            self.mode = ModeState::Normal { pending };
        }
    }

    pub fn pending(&self) -> (r: Option<char>)
        ensures
            r == (match self@.mode {
                ModeView::Normal { pending } => pending,
                _ => None,
            }),
    {
        match &self.mode {
            ModeState::Normal { pending } => *pending,
            _ => None,
        }
    }

    pub fn set_status(&mut self, status: String)
        ensures
            final(self)@ == old(self)@.with_status(status@),
    {
        self.status = status;
    }

    pub fn clear_status(&mut self)
        ensures
            final(self)@ == old(self)@.with_status(Seq::empty()),
    {
        self.status = String::new();
    }

    pub fn status(&self) -> (r: &str)
        ensures
            r@ == self@.status,
    {
        self.status.as_str()
    }

    /// The query that the view is filtered by.
    pub fn filter(&self) -> (r: &str)
        ensures
            r@ == self@.query,
    {
        self.filter.as_str()
    }
}


impl AppState {
    /// Moves the cursor one entry down, from the last back to the first.
    pub fn move_next(&mut self)
        requires
            old(self)@.wf(),
        ensures
            final(self)@.wf(),
            final(self)@ == old(self)@.moved_by(1),
    {
        if self.filtered_indices.len() == 0 {
            return;
        }
        self.selected = (self.selected + 1) % self.filtered_indices.len();
    }

    /// Moves the cursor one entry up, from the first to the last.
    pub fn move_prev(&mut self)
        requires
            old(self)@.wf(),
        ensures
            final(self)@.wf(),
            final(self)@ == old(self)@.moved_by(-1),
    {
        if self.filtered_indices.len() == 0 {
            return;
        }
        if self.selected == 0 {
            self.selected = self.filtered_indices.len() - 1;
            proof {
                let n = self.filtered_indices@.len() as int;
                vstd::arithmetic::div_mod::lemma_mod_add_multiples_vanish(-1, n);
                vstd::arithmetic::div_mod::lemma_small_mod((n - 1) as nat, n as nat);
            }
        } else {
            self.selected -= 1;
            proof {
                let n = self.filtered_indices@.len() as int;
                vstd::arithmetic::div_mod::lemma_small_mod(self.selected as nat, n as nat);
            }
        }
    }

    /// Moves the cursor `step` entries down, wrapping around.
    pub fn page_down(&mut self, step: usize)
        requires
            old(self)@.wf(),
        ensures
            final(self)@.wf(),
            final(self)@ == old(self)@.moved_by(step as int),
    {
        let ghost c0 = self.selected as int;
        let ghost n = self.filtered_indices@.len() as int;
        proof {
            if n > 0 {
                vstd::arithmetic::div_mod::lemma_small_mod(c0 as nat, n as nat);
            }
        }
        let mut k: usize = 0;
        while k < step
            invariant
                k <= step,
                self@.wf(),
                n == self@.filtered.len(),
                self@ == (AppView { cursor: self@.cursor, ..old(self)@ }),
                n > 0 ==> self@.cursor == (c0 + k) % n,
                n == 0 ==> self@.cursor == c0,
            decreases step - k,
        {
            let ghost prev = self@.cursor as int;
            self.move_next();
            proof {
                if n > 0 {
                    vstd::arithmetic::div_mod::lemma_mod_bound(prev + 1, n);
                    assert(self@.cursor as int == (prev + 1) % n);
                    vstd::arithmetic::div_mod::lemma_add_mod_noop(c0 + k, 1, n);
                    if n > 1 {
                        vstd::arithmetic::div_mod::lemma_small_mod(1, n as nat);
                    }
                    vstd::arithmetic::div_mod::lemma_mod_twice(c0 + k + 1, n);
                }
            }
            k += 1;
        }
    }

    /// Moves the cursor `step` entries up, wrapping around.
    pub fn page_up(&mut self, step: usize)
        requires
            old(self)@.wf(),
        ensures
            final(self)@.wf(),
            final(self)@ == old(self)@.moved_by(-step),
    {
        let ghost c0 = self.selected as int;
        let ghost n = self.filtered_indices@.len() as int;
        proof {
            if n > 0 {
                vstd::arithmetic::div_mod::lemma_small_mod(c0 as nat, n as nat);
            }
        }
        let mut k: usize = 0;
        while k < step
            invariant
                k <= step,
                self@.wf(),
                n == self@.filtered.len(),
                self@ == (AppView { cursor: self@.cursor, ..old(self)@ }),
                n > 0 ==> self@.cursor == (c0 - k) % n,
                n == 0 ==> self@.cursor == c0,
            decreases step - k,
        {
            let ghost prev = self@.cursor as int;
            self.move_prev();
            proof {
                if n > 0 {
                    vstd::arithmetic::div_mod::lemma_mod_bound(prev - 1, n);
                    assert(self@.cursor as int == (prev - 1) % n);
                    vstd::arithmetic::div_mod::lemma_sub_mod_noop(c0 - k, 1, n);
                    if n > 1 {
                        vstd::arithmetic::div_mod::lemma_small_mod(1, n as nat);
                    }
                    vstd::arithmetic::div_mod::lemma_mod_twice(c0 - k - 1, n);
                }
            }
            k += 1;
        }
    }

    /// Puts the cursor on the first entry.
    pub fn select_first(&mut self)
        requires
            old(self)@.wf(),
        ensures
            final(self)@.wf(),
            final(self)@ == old(self)@.at_first(),
    {
        self.selected = 0;
    }

    /// Puts the cursor on the last entry, if there is one.
    pub fn select_last(&mut self)
        requires
            old(self)@.wf(),
        ensures
            final(self)@.wf(),
            final(self)@ == old(self)@.at_last(),
    {
        if self.filtered_indices.len() > 0 {
            self.selected = self.filtered_indices.len() - 1;
        }
    }

    /// Types `ch` at the end of the query and filters again.
    pub fn on_char(&mut self, ch: char)
        requires
            old(self)@.wf(),
        ensures
            final(self)@ == old(self)@.refiltered(old(self)@.sessions, old(self)@.query.push(ch)),
            final(self)@.wf(),
    {
        push_char(&mut self.filter, ch);
        self.refresh();
    }

    /// Erases the last character of the query, if any, and filters again.
    pub fn backspace(&mut self)
        requires
            old(self)@.wf(),
        ensures
            final(self)@ == old(self)@.refiltered(
                old(self)@.sessions,
                crate::forms::drop_last_if_any(old(self)@.query),
            ),
            final(self)@.wf(),
    {
        pop_char(&mut self.filter);
        self.refresh();
    }

    /// Empties the query and filters again, which shows the whole catalog.
    pub fn clear_filter(&mut self)
        requires
            old(self)@.wf(),
        ensures
            final(self)@ == old(self)@.refiltered(old(self)@.sessions, Seq::empty()),
            final(self)@.wf(),
    {
        self.filter = String::new();
        self.refresh();
    }

    /// The position of the cursor in the view, if the view is not empty.
    pub fn selected_index(&self) -> (r: Option<usize>)
        ensures
            r == (if self@.filtered.len() == 0 {
                None
            } else {
                Some(self@.cursor)
            }),
    {
        if self.filtered_indices.len() == 0 {
            None
        } else {
            Some(self.selected)
        }
    }

    /// The session under the cursor, if the view is not empty.
    pub fn selected_session(&self) -> (r: Option<&Session>)
        requires
            self@.wf(),
        ensures
            r is Some == self@.selected() is Some,
            r matches Some(s) ==> Some(s@) == self@.selected(),
    {
        proof {
            lemma_filter_ordered(self@.sessions, self@.query);
        }
        if self.selected < self.filtered_indices.len() {
            let index = self.filtered_indices[self.selected];
            Some(&self.sessions[index])
        } else {
            None
        }
    }

    /// The sessions of the view, in order.
    pub fn filtered_sessions(&self) -> (r: Vec<&Session>)
        requires
            self@.wf(),
        ensures
            r@.len() == self@.filtered.len(),
            forall|i: int|
                0 <= i < r@.len() ==> (#[trigger] r@[i])@ == self@.sessions[self@.filtered[i] as int],
    {
        proof {
            lemma_filter_ordered(self@.sessions, self@.query);
        }
        let mut r: Vec<&Session> = Vec::new();
        let mut i: usize = 0;
        while i < self.filtered_indices.len()
            invariant
                i <= self.filtered_indices.len(),
                self@.wf(),
                forall|k: int| 0 <= k < self@.filtered.len() ==> self@.filtered[k] < self@.sessions.len(),
                r@.len() == i,
                forall|k: int|
                    0 <= k < i ==> (#[trigger] r@[k])@ == self@.sessions[self@.filtered[k] as int],
            decreases self.filtered_indices.len() - i,
        {
            let index = self.filtered_indices[i];
            r.push(&self.sessions[index]);
            i += 1;
        }
        r
    }
}


/// The catalog without the sessions named `name`.
pub open spec fn without_name(ss: Seq<SessionView>, name: Seq<char>) -> Seq<SessionView> {
    ss.filter(|s: SessionView| s.name != name)
}

/// The first position whose session is named `name`.
pub open spec fn first_named(ss: Seq<SessionView>, name: Seq<char>, i: int) -> bool {
    0 <= i < ss.len() && ss[i].name == name && forall|k: int| 0 <= k < i ==> ss[k].name != name
}

impl AppState {
    /// Enters `ConfirmDelete` for the session under the cursor, with an empty
    /// confirmation buffer. With nothing selected, nothing changes.
    pub fn start_delete(&mut self) -> (r: bool)
        requires
            old(self)@.wf(),
        ensures
            r == old(self)@.selected() is Some,
            r ==> final(self)@ == old(self)@.in_mode(
                ModeView::ConfirmDelete {
                    target: old(self)@.selected()->0.name,
                    input: Seq::empty(),
                },
            ),
            !r ==> final(self)@ == old(self)@,
    {
        let target = match self.selected_session() {
            Some(session) => session.name.clone(),
            None => {
                return false;
            },
        };
        self.mode = ModeState::ConfirmDelete { target, input: String::new() };
        true
    }

    /// Leaves whatever mode is active for `Normal`, dropping its data.
    pub fn cancel_delete(&mut self)
        ensures
            final(self)@ == old(self)@.in_mode(ModeView::Normal { pending: None }),
    {
        self.mode = ModeState::Normal { pending: None };
    }

    /// The name that deletion waits to be confirmed for.
    pub fn delete_target(&self) -> (r: Option<&str>)
        ensures
            (match self@.mode {
                ModeView::ConfirmDelete { target, .. } => r is Some && r->0@ == target,
                _ => r is None,
            }),
    {
        match &self.mode {
            ModeState::ConfirmDelete { target, .. } => Some(target.as_str()),
            _ => None,
        }
    }

    /// The confirmation typed so far; empty outside `ConfirmDelete`.
    pub fn delete_input(&self) -> (r: &str)
        ensures
            (match self@.mode {
                ModeView::ConfirmDelete { input, .. } => r@ == input,
                _ => r@.len() == 0,
            }),
    {
        match &self.mode {
            ModeState::ConfirmDelete { input, .. } => input.as_str(),
            _ => {
                proof {
                    reveal_strlit("");
                }
                ""
            },
        }
    }

    /// Types `ch` into the confirmation buffer; outside `ConfirmDelete` nothing changes.
    pub fn push_delete_input(&mut self, ch: char)
        ensures
            final(self)@ == (match old(self)@.mode {
                ModeView::ConfirmDelete { target, input } => old(self)@.in_mode(
                    ModeView::ConfirmDelete { target, input: input.push(ch) },
                ),
                _ => old(self)@,
            }),
    {
        match &mut self.mode {
            ModeState::ConfirmDelete { input, .. } => push_char(input, ch),
            _ => {},
        }
    }

    /// Erases the last character of the confirmation buffer, if any.
    pub fn pop_delete_input(&mut self)
        ensures
            final(self)@ == (match old(self)@.mode {
                ModeView::ConfirmDelete { target, input } => old(self)@.in_mode(
                    ModeView::ConfirmDelete {
                        target,
                        input: crate::forms::drop_last_if_any(input),
                    },
                ),
                _ => old(self)@,
            }),
    {
        match &mut self.mode {
            ModeState::ConfirmDelete { input, .. } => {
                pop_char(input);
            },
            _ => {},
        }
    }

    /// The confirmation buffer equals the target name, character for character.
    pub fn confirm_delete_matches(&self) -> (r: bool)
        ensures
            r == (match self@.mode {
                ModeView::ConfirmDelete { target, input } => target == input,
                _ => false,
            }),
    {
        match &self.mode {
            ModeState::ConfirmDelete { target, input } => str_eq(target.as_str(), input.as_str()),
            _ => false,
        }
    }

    /// Drops every session named `name` and filters again; tells whether any was.
    pub fn remove_by_name(&mut self, name: &str) -> (r: bool)
        requires
            old(self)@.wf(),
        ensures
            final(self)@ == old(self)@.refiltered(
                without_name(old(self)@.sessions, name@),
                old(self)@.query,
            ),
            final(self)@.wf(),
            r == (without_name(old(self)@.sessions, name@).len() != old(self)@.sessions.len()),
    {
        let ghost old_ss = self@.sessions;
        let ghost pred = |s: SessionView| s.name != name@;
        let mut kept: Vec<Session> = Vec::new();
        let mut i: usize = 0;
        while i < self.sessions.len()
            invariant
                i <= self.sessions.len(),
                old_ss == sessions_view(self.sessions@),
                pred == (|s: SessionView| s.name != name@),
                sessions_view(kept@) == old_ss.subrange(0, i as int).filter(pred),
            decreases self.sessions.len() - i,
        {
            proof {
                assert(old_ss.subrange(0, i + 1) =~= old_ss.subrange(0, i as int).push(
                    old_ss[i as int],
                ));
                old_ss.subrange(0, i as int).lemma_filter_push(old_ss[i as int], pred);
            }
            if !str_eq(self.sessions[i].name.as_str(), name) {
                let ghost before = kept@;
                kept.push(self.sessions[i].clone());
                proof {
                    assert(sessions_view(kept@) =~= sessions_view(before).push(old_ss[i as int]));
                }
            }
            i += 1;
        }
        proof {
            assert(old_ss.subrange(0, i as int) =~= old_ss);
            old_ss.lemma_filter_len(pred);
        }
        let removed = kept.len() != self.sessions.len();
        self.sessions = kept;
        self.refresh();
        removed
    }

    /// Appends `session` to the catalog and filters again.
    pub fn add_session(&mut self, session: Session)
        requires
            old(self)@.wf(),
            old(self)@.sessions.len() < usize::MAX,
        ensures
            final(self)@ == old(self)@.refiltered(
                old(self)@.sessions.push(session@),
                old(self)@.query,
            ),
            final(self)@.wf(),
    {
        let ghost sv = session@;
        self.sessions.push(session);
        proof {
            assert(sessions_view(self.sessions@) =~= old(self)@.sessions.push(sv));
        }
        self.refresh();
    }

    /// Replaces the first session named `original_name` by `session` and
    /// filters again; without such a session nothing changes.
    pub fn update_session(&mut self, original_name: &str, session: Session)
        requires
            old(self)@.wf(),
        ensures
            final(self)@.wf(),
            (exists|i: int| first_named(old(self)@.sessions, original_name@, i)) ==> exists|i: int|
                first_named(old(self)@.sessions, original_name@, i) && final(self)@
                    == old(self)@.refiltered(
                    old(self)@.sessions.update(i, session@),
                    old(self)@.query,
                ),
            !(exists|i: int| first_named(old(self)@.sessions, original_name@, i)) ==> final(self)@
                == old(self)@,
    {
        let mut i: usize = 0;
        while i < self.sessions.len()
            invariant
                i <= self.sessions.len(),
                self@ == old(self)@,
                forall|k: int| 0 <= k < i ==> self@.sessions[k].name != original_name@,
            decreases self.sessions.len() - i,
        {
            if str_eq(self.sessions[i].name.as_str(), original_name) {
                let ghost sv = session@;
                assert(first_named(old(self)@.sessions, original_name@, i as int));
                self.sessions.set(i, session);
                proof {
                    assert(sessions_view(self.sessions@) =~= old(self)@.sessions.update(
                        i as int,
                        sv,
                    ));
                }
                self.refresh();
                return;
            }
            i += 1;
        }
        proof {
            assert forall|j: int| !first_named(old(self)@.sessions, original_name@, j) by {}
        }
    }
}


/// The scp form after a character typed into the path under its cursor.
pub open spec fn scp_typed(f: ScpFormView, ch: char) -> ScpFormView {
    match f.field {
        crate::forms::ScpField::Local => ScpFormView { local_path: f.local_path.push(ch), ..f },
        crate::forms::ScpField::Remote => ScpFormView { remote_path: f.remote_path.push(ch), ..f },
        _ => f,
    }
}

/// The scp form after a backspace in the path under its cursor.
pub open spec fn scp_erased(f: ScpFormView) -> ScpFormView {
    match f.field {
        crate::forms::ScpField::Local => ScpFormView {
            local_path: drop_last_if_any(f.local_path),
            ..f
        },
        crate::forms::ScpField::Remote => ScpFormView {
            remote_path: drop_last_if_any(f.remote_path),
            ..f
        },
        _ => f,
    }
}

pub open spec fn flipped(d: ScpDirection) -> ScpDirection {
    if d == ScpDirection::To {
        ScpDirection::From
    } else {
        ScpDirection::To
    }
}

impl AppView {
    /// The state with the add-session form replaced by `g(form)`; outside
    /// `AddSession`, the state itself.
    pub open spec fn map_add_form(self, g: spec_fn(AddFormView) -> AddFormView) -> AppView {
        match self.mode {
            ModeView::AddSession { form } => self.in_mode(ModeView::AddSession { form: g(form) }),
            _ => self,
        }
    }

    /// The state with the scp form replaced by `g(form)`; outside `Scp`, the
    /// state itself.
    pub open spec fn map_scp_form(self, g: spec_fn(ScpFormView) -> ScpFormView) -> AppView {
        match self.mode {
            ModeView::Scp { scp } => self.in_mode(ModeView::Scp { scp: g(scp) }),
            _ => self,
        }
    }
}

impl AppState {
    /// Opens an empty add-session form (see `AddSessionForm::new`).
    pub fn start_add_session(&mut self, default_user: Option<String>)
        ensures
            final(self)@ == old(self)@.in_mode(
                ModeView::AddSession {
                    form: crate::forms::fresh_add_form(crate::model::opt_string_view(default_user)),
                },
            ),
    {
        self.mode = ModeState::AddSession { form: AddSessionForm::new(default_user) };
    }

    /// Closes whatever mode is active for `Normal`, dropping its data.
    pub fn cancel_add_session(&mut self)
        ensures
            final(self)@ == old(self)@.in_mode(ModeView::Normal { pending: None }),
    {
        self.mode = ModeState::Normal { pending: None };
    }

    pub fn add_form(&self) -> (r: Option<&AddSessionForm>)
        ensures
            (match self@.mode {
                ModeView::AddSession { form } => r is Some && r->0@ == form,
                _ => r is None,
            }),
    {
        match &self.mode {
            ModeState::AddSession { form } => Some(form),
            _ => None,
        }
    }

    /// Moves the add-session cursor forward.
    pub fn add_form_next_field(&mut self)
        ensures
            final(self)@ == old(self)@.map_add_form(
                |f: AddFormView| f.with_field(add_field_after(f.field)),
            ),
    {
        match &mut self.mode {
            ModeState::AddSession { form } => form.next_field(),
            _ => {},
        }
    }

    /// Moves the add-session cursor back.
    pub fn add_form_prev_field(&mut self)
        ensures
            final(self)@ == old(self)@.map_add_form(
                |f: AddFormView| f.with_field(add_field_before(f.field)),
            ),
    {
        match &mut self.mode {
            ModeState::AddSession { form } => form.prev_field(),
            _ => {},
        }
    }

    /// Types `ch` into the add-session buffer under the cursor.
    pub fn add_form_push(&mut self, ch: char)
        ensures
            final(self)@ == old(self)@.map_add_form(
                |f: AddFormView| f.with_active(f.active().push(ch)),
            ),
    {
        match &mut self.mode {
            ModeState::AddSession { form } => form.push_active(ch),
            _ => {},
        }
    }

    /// Erases the last character of the add-session buffer under the cursor.
    pub fn add_form_pop(&mut self)
        ensures
            final(self)@ == old(self)@.map_add_form(
                |f: AddFormView| f.with_active(drop_last_if_any(f.active())),
            ),
    {
        match &mut self.mode {
            ModeState::AddSession { form } => form.pop_active(),
            _ => {},
        }
    }

    /// Records an identity-path lookup in the add-session form.
    pub fn set_add_identity_state(&mut self, exists: Option<bool>, suggestions: Vec<String>)
        ensures
            final(self)@ == old(self)@.map_add_form(
                |f: AddFormView|
                    AddFormView {
                        identity_exists: exists,
                        identity_suggestions: crate::model::strings_view(suggestions@),
                        ..f
                    },
            ),
    {
        match &mut self.mode {
            ModeState::AddSession { form } => form.set_identity_state(exists, suggestions),
            _ => {},
        }
    }

    /// Opens an scp form bound to `session` (see `ScpForm::new`).
    pub fn start_scp(&mut self, session: Session)
        ensures
            final(self)@ == old(self)@.in_mode(
                ModeView::Scp { scp: crate::forms::fresh_scp_form(session@) },
            ),
    {
        self.mode = ModeState::Scp { scp: ScpForm::new(session) };
    }

    /// Closes whatever mode is active for `Normal`, dropping its data.
    pub fn cancel_scp(&mut self)
        ensures
            final(self)@ == old(self)@.in_mode(ModeView::Normal { pending: None }),
    {
        self.mode = ModeState::Normal { pending: None };
    }

    pub fn scp_form(&self) -> (r: Option<&ScpForm>)
        ensures
            (match self@.mode {
                ModeView::Scp { scp } => r is Some && r->0@ == scp,
                _ => r is None,
            }),
    {
        match &self.mode {
            ModeState::Scp { scp } => Some(scp),
            _ => None,
        }
    }

    /// Moves the scp cursor forward.
    pub fn scp_form_next_field(&mut self)
        ensures
            final(self)@ == old(self)@.map_scp_form(
                |f: ScpFormView| ScpFormView { field: scp_field_after(f.field), ..f },
            ),
    {
        match &mut self.mode {
            ModeState::Scp { scp } => scp.next_field(),
            _ => {},
        }
    }

    /// Moves the scp cursor back.
    pub fn scp_form_prev_field(&mut self)
        ensures
            final(self)@ == old(self)@.map_scp_form(
                |f: ScpFormView| ScpFormView { field: scp_field_before(f.field), ..f },
            ),
    {
        match &mut self.mode {
            ModeState::Scp { scp } => scp.prev_field(),
            _ => {},
        }
    }

    /// Flips the transfer direction.
    pub fn scp_toggle_direction(&mut self)
        ensures
            final(self)@ == old(self)@.map_scp_form(
                |f: ScpFormView| ScpFormView { direction: flipped(f.direction), ..f },
            ),
    {
        match &mut self.mode {
            ModeState::Scp { scp } => scp.toggle_direction(),
            _ => {},
        }
    }

    /// Flips the recursive flag.
    pub fn scp_toggle_recursive(&mut self)
        ensures
            final(self)@ == old(self)@.map_scp_form(
                |f: ScpFormView| ScpFormView { recursive: !f.recursive, ..f },
            ),
    {
        match &mut self.mode {
            ModeState::Scp { scp } => scp.toggle_recursive(),
            _ => {},
        }
    }

    /// Types `ch` into the scp path under the cursor.
    pub fn scp_form_push(&mut self, ch: char)
        ensures
            final(self)@ == old(self)@.map_scp_form(|f: ScpFormView| scp_typed(f, ch)),
    {
        match &mut self.mode {
            ModeState::Scp { scp } => scp.push_active(ch),
            _ => {},
        }
    }

    /// Erases the last character of the scp path under the cursor.
    pub fn scp_form_pop(&mut self)
        ensures
            final(self)@ == old(self)@.map_scp_form(|f: ScpFormView| scp_erased(f)),
    {
        match &mut self.mode {
            ModeState::Scp { scp } => scp.pop_active(),
            _ => {},
        }
    }

    pub fn set_monitor_enabled(&mut self, enabled: bool)
        ensures
            final(self)@ == (AppView { monitor_enabled: enabled, ..old(self)@ }),
    {
        self.monitor_enabled = enabled;
    }

    pub fn toggle_monitor(&mut self)
        ensures
            final(self)@ == (AppView { monitor_enabled: !old(self)@.monitor_enabled, ..old(self)@ }),
    {
        self.monitor_enabled = !self.monitor_enabled;
    }

    pub fn monitor_enabled(&self) -> (r: bool)
        ensures
            r == self@.monitor_enabled,
    {
        self.monitor_enabled
    }

    /// Whether the process snapshot may be taken again at `now`: never taken
    /// yet, or `interval` has passed since the last one. Times are readings of
    /// one monotonic clock, in any fixed unit.
    pub fn monitor_should_refresh(&self, now: u64, interval: u64) -> (r: bool)
        ensures
            r == refresh_due(self@.monitor_last, now, interval),
    {
        match self.monitor_last_update {
            Some(last) => {
                let passed = if now >= last {
                    now - last
                } else {
                    0
                };
                passed >= interval
            },
            None => true,
        }
    }

    /// Records a snapshot's result, taken at `now`.
    pub fn update_monitor(&mut self, entries: Vec<MonitorEntry>, now: u64)
        ensures
            final(self)@ == (AppView {
                monitor_entries: entries@,
                monitor_last: Some(now),
                ..old(self)@
            }),
    {
        self.monitor_entries = entries;
        self.monitor_last_update = Some(now);
    }

    pub fn monitor_entries(&self) -> (r: &Vec<MonitorEntry>)
        ensures
            r@ == self@.monitor_entries,
    {
        &self.monitor_entries
    }
}

/// The snapshot is due on first use; right after one is recorded at `t` it is
/// not due again until `interval` has passed, and then it is.
pub proof fn lemma_monitor_throttle(t: u64, now: u64, interval: u64)
    requires
        interval > 0,
    ensures
        refresh_due(None, now, interval),
        t <= now < t + interval ==> !refresh_due(Some(t), now, interval),
        now >= t + interval ==> refresh_due(Some(t), now, interval),
{
}


/// After the catalog or the query changes, the recomputed view is the filter
/// of the new catalog by the new query, and the cursor is either on one of its
/// entries or, when it is empty, at 0 (no selection).
pub proof fn lemma_refiltered_cursor(v: AppView, sessions: Seq<SessionView>, query: Seq<char>)
    requires
        sessions.len() <= usize::MAX,
    ensures
        v.refiltered(sessions, query).wf(),
        v.refiltered(sessions, query).filtered.len() == 0 ==> v.refiltered(sessions, query).selected()
            is None,
        v.refiltered(sessions, query).filtered.len() > 0 ==> v.refiltered(sessions, query).cursor
            < v.refiltered(sessions, query).filtered.len(),
{
    lemma_filter_ordered(sessions, query);
}

} // verus!
