//! The selection state machine: one session owns the catalog (entries plus
//! index-aligned selection flags), a cursor, and a mode, and interprets key
//! presses as pure state transitions.
//!
//! Deletion is gated: the only transition that asks the caller to delete is
//! the affirm key pressed while the session is in `ConfirmDelete`.
use vstd::prelude::*;

use crate::catalog::NodeModuleEntry;
use crate::scan::clone_path;

verus! {

/// Current mode of an interactive session. `Exited` is terminal.
#[derive(Clone, Copy, PartialEq, Eq, Structural, Debug)]
pub enum Mode {
    /// Showing the catalog; movement and selection keys apply.
    Listing,
    /// A reload is in progress (advisory only; reloads are synchronous).
    Loading,
    /// Waiting for the operator to affirm or deny the pending deletion.
    ConfirmDelete,
    /// The session is over; no further input is interpreted.
    Exited,
}

/// One key press, as the session interprets it.
#[derive(Clone, Copy, PartialEq, Eq, Structural, Debug)]
pub enum Key {
    Esc,
    Enter,
    Up,
    Down,
    Tab,
    BackTab,
    Char(char),
    Other,
}

/// What the caller must do after a key has been handled.
#[derive(Clone, Copy, PartialEq, Eq, Structural, Debug)]
pub enum Action {
    /// Keep looping: draw and wait for the next key.
    Nothing,
    /// Delete the selected entries, then reload the catalog.
    DeleteSelected,
}

/// Model of the session state that key handling reads and writes: the mode,
/// the cursor, and the selection flags (the entries themselves never change
/// on a key press).
pub struct SessionModel {
    pub mode: Mode,
    pub cursor: int,
    pub selected: Seq<bool>,
}

/// The cursor stays in range while the catalog is non-empty, and is pinned to
/// zero when it is empty.
pub open spec fn model_wf(s: SessionModel) -> bool {
    if s.selected.len() == 0 {
        s.cursor == 0
    } else {
        0 <= s.cursor < s.selected.len()
    }
}

/// Cursor after a move up: cyclic, a no-op on an empty catalog.
pub open spec fn move_up_cursor(cursor: int, len: int) -> int {
    if len == 0 {
        cursor
    } else if cursor == 0 {
        len - 1
    } else {
        cursor - 1
    }
}

/// Cursor after a move down: cyclic, a no-op on an empty catalog.
pub open spec fn move_down_cursor(cursor: int, len: int) -> int {
    if len == 0 {
        cursor
    } else if cursor >= len - 1 {
        0
    } else {
        cursor + 1
    }
}

/// Forces the flag under the cursor to `v`; a no-op on an empty catalog.
pub open spec fn set_selected(s: SessionModel, v: bool) -> SessionModel {
    if s.selected.len() == 0 {
        s
    } else {
        SessionModel { selected: s.selected.update(s.cursor, v), ..s }
    }
}

/// Flips the flag under the cursor; a no-op on an empty catalog.
pub open spec fn toggle_selected(s: SessionModel) -> SessionModel {
    if s.selected.len() == 0 {
        s
    } else {
        SessionModel { selected: s.selected.update(s.cursor, !s.selected[s.cursor]), ..s }
    }
}

/// Key handling while listing: quit, open the confirm gate, move the cursor
/// cyclically, or change the selection under the cursor. Anything else is
/// ignored.
pub open spec fn listing_step(s: SessionModel, k: Key) -> SessionModel {
    match k {
        Key::Esc => SessionModel { mode: Mode::Exited, ..s },
        Key::Enter => SessionModel { mode: Mode::ConfirmDelete, ..s },
        Key::Up | Key::BackTab => SessionModel {
            cursor: move_up_cursor(s.cursor, s.selected.len() as int),
            ..s
        },
        Key::Down | Key::Tab => SessionModel {
            cursor: move_down_cursor(s.cursor, s.selected.len() as int),
            ..s
        },
        Key::Char(c) => if c == 'q' {
            SessionModel { mode: Mode::Exited, ..s }
        } else if c == 'l' {
            set_selected(s, true)
        } else if c == 'h' {
            set_selected(s, false)
        } else if c == ' ' {
            toggle_selected(s)
        } else if c == 'k' {
            SessionModel { cursor: move_up_cursor(s.cursor, s.selected.len() as int), ..s }
        } else if c == 'j' {
            SessionModel { cursor: move_down_cursor(s.cursor, s.selected.len() as int), ..s }
        } else {
            s
        },
        _ => s,
    }
}

/// The whole transition function: next state and required action, per mode.
/// The delete action arises in exactly one place: the affirm key `'y'` in
/// `ConfirmDelete`; the session then terminates. Denying returns to the
/// listing with the selection unchanged.
pub open spec fn step(s: SessionModel, k: Key) -> (SessionModel, Action) {
    match s.mode {
        Mode::Listing => (listing_step(s, k), Action::Nothing),
        Mode::Loading => if k == Key::Esc {
            (SessionModel { mode: Mode::Listing, ..s }, Action::Nothing)
        } else {
            (s, Action::Nothing)
        },
        Mode::ConfirmDelete => if k == Key::Char('y') {
            (SessionModel { mode: Mode::Exited, ..s }, Action::DeleteSelected)
        } else if k == Key::Char('n') || k == Key::Esc {
            (SessionModel { mode: Mode::Listing, ..s }, Action::Nothing)
        } else {
            (s, Action::Nothing)
        },
        Mode::Exited => (s, Action::Nothing),
    }
}

/// A transition keeps the state well formed.
pub proof fn lemma_step_wf(s: SessionModel, k: Key)
    requires
        model_wf(s),
    ensures
        model_wf(step(s, k).0),
        step(s, k).0.selected.len() == s.selected.len(),
{
}

/// An interactive session over the catalog: the entries, the index-aligned
/// selection flags, the cursor, and the mode.
pub struct App {
    pub mode: Mode,
    pub cursor: usize,
    pub entries: Vec<NodeModuleEntry>,
    pub selected: Vec<bool>,
}

impl App {
    /// Model of the mutable session state.
    pub open spec fn model(self) -> SessionModel {
        SessionModel { mode: self.mode, cursor: self.cursor as int, selected: self.selected@ }
    }

    /// Selection flags and entries are index-aligned and the cursor is in range.
    pub open spec fn wf(self) -> bool {
        &&& self.selected@.len() == self.entries@.len()
        &&& model_wf(self.model())
    }

    /// Starts a session over a freshly built catalog: listing, cursor at the
    /// top, nothing selected.
    pub fn new(entries: Vec<NodeModuleEntry>) -> (r: App)
        ensures
            r.wf(),
            r.mode == Mode::Listing,
            r.cursor == 0,
            r.entries == entries,
            r.selected@.len() == entries@.len(),
            forall|i: int| 0 <= i < r.selected@.len() ==> r.selected@[i] == false,
    {
        let selected = all_false(entries.len());
        App { mode: Mode::Listing, cursor: 0, entries, selected }
    }

    /// Replaces the catalog after a completed deletion cycle: fresh entries,
    /// nothing selected, cursor back at the top; the mode is untouched.
    pub fn reload_dirs(&mut self, entries: Vec<NodeModuleEntry>)
        ensures
            final(self).wf(),
            final(self).mode == old(self).mode,
            final(self).cursor == 0,
            final(self).entries == entries,
            final(self).selected@.len() == entries@.len(),
            forall|i: int| 0 <= i < final(self).selected@.len() ==> final(self).selected@[i] == false,
    {
        let selected = all_false(entries.len());
        self.entries = entries;
        self.selected = selected;
        self.cursor = 0;
    }

    /// Forces the entry under the cursor to selected.
    pub fn select_item(&mut self)
        requires
            old(self).wf(),
        ensures
            final(self).wf(),
            final(self).entries == old(self).entries,
            final(self).model() == set_selected(old(self).model(), true),
    {
        if self.entries.len() > 0 {
            let c = self.cursor;
            self.selected.set(c, true);
        }
    }

    /// Forces the entry under the cursor to unselected.
    pub fn unselect_item(&mut self)
        requires
            old(self).wf(),
        ensures
            final(self).wf(),
            final(self).entries == old(self).entries,
            final(self).model() == set_selected(old(self).model(), false),
    {
        if self.entries.len() > 0 {
            let c = self.cursor;
            self.selected.set(c, false);
        }
    }

    /// Flips the selection of the entry under the cursor.
    pub fn toggle_item_selection(&mut self)
        requires
            old(self).wf(),
        ensures
            final(self).wf(),
            final(self).entries == old(self).entries,
            final(self).model() == toggle_selected(old(self).model()),
    {
        if self.entries.len() > 0 {
            let c = self.cursor;
            let cur = self.selected[c];
            self.selected.set(c, !cur);
        }
    }

    /// Moves the cursor up one entry, wrapping from the top to the bottom.
    pub fn move_up(&mut self)
        requires
            old(self).wf(),
        ensures
            final(self).wf(),
            final(self).entries == old(self).entries,
            final(self).selected == old(self).selected,
            final(self).mode == old(self).mode,
            final(self).cursor as int == move_up_cursor(
                old(self).cursor as int,
                old(self).selected@.len() as int,
            ),
    {
        if self.entries.len() > 0 {
            if self.cursor == 0 {
                self.cursor = self.entries.len() - 1;
            } else {
                self.cursor = self.cursor - 1;
            }
        }
    }

    /// Moves the cursor down one entry, wrapping from the bottom to the top.
    pub fn move_down(&mut self)
        requires
            old(self).wf(),
        ensures
            final(self).wf(),
            final(self).entries == old(self).entries,
            final(self).selected == old(self).selected,
            final(self).mode == old(self).mode,
            final(self).cursor as int == move_down_cursor(
                old(self).cursor as int,
                old(self).selected@.len() as int,
            ),
    {
        if self.entries.len() > 0 {
            if self.cursor >= self.entries.len() - 1 {
                self.cursor = 0;
            } else {
                self.cursor = self.cursor + 1;
            }
        }
    }

    /// Handles one key press while listing.
    pub fn handle_events_on_list_dir(&mut self, key: Key)
        requires
            old(self).wf(),
        ensures
            final(self).wf(),
            final(self).entries == old(self).entries,
            final(self).model() == listing_step(old(self).model(), key),
    {
        match key {
            Key::Esc => {
                self.mode = Mode::Exited;
            },
            Key::Enter => {
                self.mode = Mode::ConfirmDelete;
            },
            Key::Up | Key::BackTab => {
                self.move_up();
            },
            Key::Down | Key::Tab => {
                self.move_down();
            },
            Key::Char(c) => {
                if c == 'q' {
                    self.mode = Mode::Exited;
                } else if c == 'l' {
                    self.select_item();
                } else if c == 'h' {
                    self.unselect_item();
                } else if c == ' ' {
                    self.toggle_item_selection();
                } else if c == 'k' {
                    self.move_up();
                } else if c == 'j' {
                    self.move_down();
                }
            },
            _ => {},
        }
    }

    /// Handles one key press in any mode and says what the caller must do
    /// next. The delete action comes back only for the affirm key while the
    /// session is in `ConfirmDelete`, and the session is then terminated.
    pub fn handle_key(&mut self, key: Key) -> (a: Action)
        requires
            old(self).wf(),
        ensures
            final(self).wf(),
            final(self).entries == old(self).entries,
            final(self).model() == step(old(self).model(), key).0,
            a == step(old(self).model(), key).1,
    {
        match self.mode {
            Mode::Listing => {
                self.handle_events_on_list_dir(key);
                Action::Nothing
            },
            Mode::Loading => {
                if key == Key::Esc {
                    self.mode = Mode::Listing;
                }
                Action::Nothing
            },
            Mode::ConfirmDelete => {
                if key == Key::Char('y') {
                    self.mode = Mode::Exited;
                    Action::DeleteSelected
                } else if key == Key::Char('n') || key == Key::Esc {
                    self.mode = Mode::Listing;
                    Action::Nothing
                } else {
                    Action::Nothing
                }
            },
            Mode::Exited => Action::Nothing,
        }
    }

    /// The deletion executor's work list: the paths of exactly the selected
    /// entries, in catalog order.
    pub fn selected_paths(&self) -> (r: Vec<Vec<String>>)
        requires
            self.wf(),
        ensures
            r.deep_view() == selected_paths_spec(self.entries@, self.selected@),
    {
        let mut r: Vec<Vec<String>> = Vec::new();
        let mut i: usize = 0;
        while i < self.entries.len()
            invariant
                0 <= i <= self.entries@.len(),
                self.selected@.len() == self.entries@.len(),
                r.deep_view() == selected_paths_spec(
                    self.entries@.subrange(0, i as int),
                    self.selected@.subrange(0, i as int),
                ),
            decreases self.entries@.len() - i,
        {
            let ghost r0 = r.deep_view();
            if self.selected[i] {
                let p = clone_path(&self.entries[i].path);
                r.push(p);
            }
            proof {
                assert(self.entries@.subrange(0, i + 1).drop_last() =~= self.entries@.subrange(
                    0,
                    i as int,
                ));
                assert(self.selected@.subrange(0, i + 1).drop_last() =~= self.selected@.subrange(
                    0,
                    i as int,
                ));
                assert(self.entries@.subrange(0, i + 1).last() == self.entries@[i as int]);
                assert(self.selected@.subrange(0, i + 1).last() == self.selected@[i as int]);
                if self.selected@[i as int] {
                    assert(r.deep_view() =~= r0.push(
                        self.entries@[i as int].path.deep_view(),
                    ));
                }
            }
            i = i + 1;
        }
        proof {
            assert(self.entries@.subrange(0, self.entries@.len() as int) =~= self.entries@);
            assert(self.selected@.subrange(0, self.selected@.len() as int) =~= self.selected@);
        }
        r
    }
}

/// The paths of the selected entries, in catalog order.
pub open spec fn selected_paths_spec(entries: Seq<NodeModuleEntry>, selected: Seq<bool>) -> Seq<
    Seq<Seq<char>>,
>
    recommends
        entries.len() == selected.len(),
    decreases entries.len(),
{
    if entries.len() == 0 {
        Seq::empty()
    } else {
        let rest = selected_paths_spec(entries.drop_last(), selected.drop_last());
        if selected.len() > 0 && selected.last() {
            rest.push(entries.last().path.deep_view())
        } else {
            rest
        }
    }
}

/// A selection vector of the given length, all false.
fn all_false(n: usize) -> (r: Vec<bool>)
    ensures
        r@.len() == n,
        forall|i: int| 0 <= i < n ==> r@[i] == false,
{
    let mut r: Vec<bool> = Vec::new();
    let mut i: usize = 0;
    while i < n
        invariant
            0 <= i <= n,
            r@.len() == i,
            forall|k: int| 0 <= k < i ==> r@[k] == false,
        decreases n - i,
    {
        r.push(false);
        i = i + 1;
    }
    r
}

/// Cursor movement is cyclic: moving up from the first entry lands on the
/// last, and moving down from the last entry lands on the first.
pub proof fn lemma_cursor_cyclic(len: int)
    requires
        len > 0,
    ensures
        move_up_cursor(0, len) == len - 1,
        move_down_cursor(len - 1, len) == 0,
{
}

/// Forcing the flag under the cursor is idempotent: marking (or unmarking)
/// an entry again changes nothing.
pub proof fn lemma_mark_idempotent(s: SessionModel, v: bool)
    requires
        model_wf(s),
    ensures
        set_selected(set_selected(s, v), v) == set_selected(s, v),
{
    if s.selected.len() > 0 {
        assert(set_selected(set_selected(s, v), v).selected =~= set_selected(s, v).selected);
    }
}

/// Toggling the entry under the cursor twice restores the original selection.
pub proof fn lemma_toggle_twice(s: SessionModel)
    requires
        model_wf(s),
    ensures
        toggle_selected(toggle_selected(s)) == s,
{
    if s.selected.len() > 0 {
        assert(toggle_selected(toggle_selected(s)).selected =~= s.selected);
    }
}

/// True when some step of the run over `keys`, starting from `s`, emits the
/// delete action.
pub open spec fn run_emits_delete(s: SessionModel, keys: Seq<Key>) -> bool
    decreases keys.len(),
{
    if keys.len() == 0 {
        false
    } else {
        step(s, keys.first()).1 == Action::DeleteSelected || run_emits_delete(
            step(s, keys.first()).0,
            keys.drop_first(),
        )
    }
}

/// The confirm gate: a run that never receives the affirm key `'y'` never
/// emits the delete action, from any starting state. The deletion executor
/// runs only on that action, so such a session leaves the filesystem
/// unmodified.
pub proof fn lemma_no_affirm_no_delete(s: SessionModel, keys: Seq<Key>)
    requires
        forall|i: int| 0 <= i < keys.len() ==> keys[i] != Key::Char('y'),
    ensures
        !run_emits_delete(s, keys),
    decreases keys.len(),
{
    if keys.len() > 0 {
        assert(keys[0] != Key::Char('y'));
        assert forall|i: int| 0 <= i < keys.drop_first().len() implies keys.drop_first()[i]
            != Key::Char('y') by {
            assert(keys.drop_first()[i] == keys[i + 1]);
        }
        lemma_no_affirm_no_delete(step(s, keys.first()).0, keys.drop_first());
    }
}

} // verus!
