use vstd::prelude::*;

use crate::db::VaultError;
use crate::helsafe::{rows_of, Helsafe};
use crate::password::{Password, RowView, StoredPassword};
use crate::view::{spec_select_next, spec_select_prev, NavState, DETAILS_ROWS};

verus! {

/// The active tab: a fixed cycle `Details -> Insert -> Delete -> Search`
/// entered by the next-tab transition; `Details` is initial.
#[derive(Clone, Copy, Debug, PartialEq, Eq, Structural)]
pub enum State {
    Details,
    Insert,
    Delete,
    Search,
}

/// One discrete input event. Each maps to exactly one transition of the
/// interaction state machine; `Other` stands for every unrecognized event,
/// which is a no-op.
#[derive(Clone, Copy, Debug, PartialEq, Eq, Structural)]
pub enum InputEvent {
    Quit,
    SelectPrev,
    SelectNext,
    ToggleFocus,
    NextTab,
    ToggleReveal,
    EnterInsert,
    EnterDelete,
    Other,
}

/// The next tab in the cycle.
pub open spec fn spec_next_tab(s: State) -> State {
    match s {
        State::Details => State::Insert,
        State::Insert => State::Delete,
        State::Delete => State::Search,
        State::Search => State::Details,
    }
}

/// The position of a tab in the tab bar.
pub open spec fn spec_tab_index(s: State) -> usize {
    match s {
        State::Details => 0usize,
        State::Insert => 1usize,
        State::Delete => 2usize,
        State::Search => 3usize,
    }
}

/// The pure transition of the interaction state machine: from the current
/// mode, navigation state and record count, an event yields the next mode
/// and navigation state. Selection and focus respond only in `Details`
/// mode; revealing and tab movement respond anywhere; unrecognized events
/// change nothing.
pub open spec fn nav_step(mode: State, v: NavState, n: usize, ev: InputEvent) -> (State, NavState) {
    match ev {
        InputEvent::Quit => (mode, v),
        InputEvent::SelectNext => if mode is Details {
            (mode, step_focused(v, n, true))
        } else {
            (mode, v)
        },
        InputEvent::SelectPrev => if mode is Details {
            (mode, step_focused(v, n, false))
        } else {
            (mode, v)
        },
        InputEvent::ToggleFocus => if mode is Details {
            (mode, NavState {
                passwords_selected: v.passwords_selected,
                details_selected: v.details_selected,
                show_password: v.show_password,
                focus_details: !v.focus_details,
            })
        } else {
            (mode, v)
        },
        InputEvent::NextTab => (spec_next_tab(mode), v),
        InputEvent::ToggleReveal => (mode, NavState {
            passwords_selected: v.passwords_selected,
            details_selected: v.details_selected,
            show_password: !v.show_password,
            focus_details: v.focus_details,
        }),
        InputEvent::EnterInsert => (State::Insert, v),
        InputEvent::EnterDelete => (State::Delete, v),
        InputEvent::Other => (mode, v),
    }
}

/// One selection step on whichever list has focus.
pub open spec fn step_focused(v: NavState, n: usize, forward: bool) -> NavState {
    if v.focus_details {
        NavState {
            passwords_selected: v.passwords_selected,
            details_selected: if forward {
                spec_select_next(v.details_selected, DETAILS_ROWS)
            } else {
                spec_select_prev(v.details_selected, DETAILS_ROWS)
            },
            show_password: v.show_password,
            focus_details: v.focus_details,
        }
    } else {
        NavState {
            passwords_selected: if forward {
                spec_select_next(v.passwords_selected, n)
            } else {
                spec_select_prev(v.passwords_selected, n)
            },
            details_selected: v.details_selected,
            show_password: v.show_password,
            focus_details: v.focus_details,
        }
    }
}

/// The tab cycle closes after four steps: four next-tab events return any
/// mode — in particular the initial `Details` — to itself.
pub proof fn lemma_tab_cycle(s: State)
    ensures
        spec_next_tab(spec_next_tab(spec_next_tab(spec_next_tab(s)))) == s,
{
}

/// The interaction layer: the session together with the active tab.
pub struct App {
    helsafe: Helsafe,
    state: State,
}

impl App {
    /// The records currently loaded, as values.
    pub closed spec fn records(self) -> Seq<RowView> {
        self.helsafe@
    }

    /// The active tab.
    pub closed spec fn mode(self) -> State {
        self.state
    }

    pub closed spec fn inv(self) -> bool {
        self.helsafe.inv()
    }

    /// Opens the store at `path` under the given passphrase, loads every
    /// record and starts on the `Details` tab.
    pub fn new(path: &str, key: &str) -> (r: Result<App, VaultError>)
        ensures
            r matches Ok(app) ==> app.inv() && app.mode() is Details,
            r matches Err(e) ==> e is AuthFailure || e is IOFailure,
    {
        match Helsafe::new(path, key) {
            Ok(helsafe) => Ok(App { helsafe, state: State::Details }),
            Err(e) => Err(e),
        }
    }

    /// Advances the active tab one step along the cycle; records,
    /// selection and reveal state are untouched.
    pub fn next_tab(&mut self)
        requires
            old(self).inv(),
        ensures
            final(self).inv(),
            final(self).mode() == spec_next_tab(old(self).mode()),
            final(self).records() == old(self).records(),
    {
        match self.state {
            State::Details => self.state = State::Insert,
            State::Insert => self.state = State::Delete,
            State::Delete => self.state = State::Search,
            State::Search => self.state = State::Details,
        }
    }

    /// Applies one input event: a pure transition of mode and navigation
    /// state, never a store mutation. Returns whether the event asked to
    /// quit.
    pub fn handle_event(&mut self, view: &mut NavState, ev: InputEvent) -> (quit: bool)
        requires
            old(self).inv(),
        ensures
            final(self).inv(),
            final(self).records() == old(self).records(),
            quit == (ev is Quit),
            ({
                let (m2, v2) = nav_step(old(self).mode(), *old(view), old(self).records().len() as usize, ev);
                final(self).mode() == m2 && *final(view) == v2
            }),
    {
        match ev {
            InputEvent::Quit => true,
            InputEvent::SelectNext => {
                if matches!(self.state, State::Details) {
                    view.select_next(self.helsafe.len());
                }
                false
            },
            InputEvent::SelectPrev => {
                if matches!(self.state, State::Details) {
                    view.select_prev(self.helsafe.len());
                }
                false
            },
            InputEvent::ToggleFocus => {
                if matches!(self.state, State::Details) {
                    view.toggle_focus_details();
                }
                false
            },
            InputEvent::NextTab => {
                self.next_tab();
                false
            },
            InputEvent::ToggleReveal => {
                view.toggle_show_password();
                false
            },
            InputEvent::EnterInsert => {
                self.state = State::Insert;
                false
            },
            InputEvent::EnterDelete => {
                self.state = State::Delete;
                false
            },
            InputEvent::Other => false,
        }
    }

    /// One insert attempt: commits the record through the session, then
    /// returns to `Details` whether the mutation succeeded or failed.
    pub fn submit_insert(&mut self, password: &Password) -> (r: Result<i64, VaultError>)
        requires
            old(self).inv(),
        ensures
            final(self).inv(),
            final(self).mode() is Details,
            r matches Ok(id) ==> final(self).records() == old(self).records().push(
                RowView { id: id, entry: password@ },
            ) && (forall|i: int| 0 <= i < old(self).records().len() ==> old(self).records()[i].id < id),
            r matches Err(e) ==> final(self).records() == old(self).records() && e is WriteFailure,
    {
        let r = self.helsafe.insert(password);
        self.state = State::Details;
        r
    }

    /// One delete attempt, addressed by mirror position: resolves through
    /// the session, then returns to `Details` whether the mutation
    /// succeeded or failed.
    pub fn submit_delete(&mut self, index: usize) -> (r: Result<StoredPassword, VaultError>)
        requires
            old(self).inv(),
        ensures
            final(self).inv(),
            final(self).mode() is Details,
            index < old(self).records().len() ==> (
                (r matches Ok(p) ==> final(self).records() == old(self).records().remove(index as int)
                    && p@ == old(self).records()[index as int])
                && (r matches Err(e) ==> final(self).records() == old(self).records() && e is WriteFailure)
            ),
            index >= old(self).records().len() ==> final(self).records() == old(self).records()
                && (r matches Err(e) && e is InvalidIndex),
    {
        let r = self.helsafe.delete(index);
        self.state = State::Details;
        r
    }

    /// The records currently loaded, in store order.
    pub fn get_passwords(&self) -> (r: &Vec<StoredPassword>)
        ensures
            rows_of(r@) == self.records(),
    {
        self.helsafe.get_passwords()
    }

    /// How many records are loaded.
    pub fn get_num_passwords(&self) -> (r: usize)
        ensures
            r == self.records().len(),
    {
        self.helsafe.len()
    }

    /// The active tab.
    pub fn get_state(&self) -> (r: State)
        ensures
            r == self.mode(),
    {
        self.state
    }

    /// The active tab's position in the tab bar.
    pub fn get_tab_index(&self) -> (r: usize)
        ensures
            r == spec_tab_index(self.mode()),
    {
        match self.state {
            State::Details => 0,
            State::Insert => 1,
            State::Delete => 2,
            State::Search => 3,
        }
    }
}

} // verus!
