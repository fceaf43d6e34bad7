use vstd::prelude::*;

use crate::password::{Password, PasswordView};
use vstd::string::StringExecFns;

verus! {

/// The details pane shows a fixed list of four rows: title, username,
/// email and password.
pub const DETAILS_ROWS: usize = 4;

/// The ephemeral navigation and focus state: which row of each list is
/// selected, whether the secret is shown in the clear, and which pane has
/// input focus. Never persisted; reset to the defaults on start.
pub struct NavState {
    pub passwords_selected: Option<usize>,
    pub details_selected: Option<usize>,
    pub show_password: bool,
    pub focus_details: bool,
}

/// One "select next" step on a circular list of `n` rows: an empty list
/// admits no selection; on a first step index 0 is selected; from the last
/// row the selection wraps to the first.
pub open spec fn spec_select_next(sel: Option<usize>, n: usize) -> Option<usize> {
    if n == 0 {
        None
    } else {
        match sel {
            None => Some(0usize),
            Some(row) => if row + 1 >= n {
                Some(0usize)
            } else {
                Some((row + 1) as usize)
            },
        }
    }
}

/// One "select previous" step on a circular list of `n` rows: an empty
/// list admits no selection; on a first step index 0 is selected; from the
/// first row the selection wraps to the last.
pub open spec fn spec_select_prev(sel: Option<usize>, n: usize) -> Option<usize> {
    if n == 0 {
        None
    } else {
        match sel {
            None => Some(0usize),
            Some(row) => if row == 0 || row >= n {
                Some((n - 1) as usize)
            } else {
                Some((row - 1) as usize)
            },
        }
    }
}

impl NavState {
    /// The defaults: nothing selected, secret masked, focus on the
    /// passwords list.
    pub fn new() -> (r: NavState)
        ensures
            r.passwords_selected is None,
            r.details_selected is None,
            !r.show_password,
            !r.focus_details,
    {
        NavState {
            passwords_selected: None,
            details_selected: None,
            show_password: false,
            focus_details: false,
        }
    }

    /// Advances the selection of whichever list has focus: the fixed
    /// four-row details list, or the passwords list of `num_passwords`
    /// rows.
    pub fn select_next(&mut self, num_passwords: usize)
        ensures
            final(self).show_password == old(self).show_password,
            final(self).focus_details == old(self).focus_details,
            old(self).focus_details ==> final(self).details_selected
                == spec_select_next(old(self).details_selected, DETAILS_ROWS)
                && final(self).passwords_selected == old(self).passwords_selected,
            !old(self).focus_details ==> final(self).passwords_selected
                == spec_select_next(old(self).passwords_selected, num_passwords)
                && final(self).details_selected == old(self).details_selected,
    {
        if self.focus_details {
            self.details_selected = Self::step_next(self.details_selected, DETAILS_ROWS);
        } else {
            self.passwords_selected = Self::step_next(self.passwords_selected, num_passwords);
        }
    }

    /// Moves the selection of whichever list has focus back by one.
    pub fn select_prev(&mut self, num_passwords: usize)
        ensures
            final(self).show_password == old(self).show_password,
            final(self).focus_details == old(self).focus_details,
            old(self).focus_details ==> final(self).details_selected
                == spec_select_prev(old(self).details_selected, DETAILS_ROWS)
                && final(self).passwords_selected == old(self).passwords_selected,
            !old(self).focus_details ==> final(self).passwords_selected
                == spec_select_prev(old(self).passwords_selected, num_passwords)
                && final(self).details_selected == old(self).details_selected,
    {
        if self.focus_details {
            self.details_selected = Self::step_prev(self.details_selected, DETAILS_ROWS);
        } else {
            self.passwords_selected = Self::step_prev(self.passwords_selected, num_passwords);
        }
    }

    fn step_next(sel: Option<usize>, num_rows: usize) -> (r: Option<usize>)
        ensures
            r == spec_select_next(sel, num_rows),
    {
        if num_rows == 0 {
            return None;
        }
        let row: usize = match sel {
            Some(row) => {
                if row >= num_rows - 1 {
                    0
                } else {
                    row + 1
                }
            },
            None => 0,
        };
        Some(row)
    }

    fn step_prev(sel: Option<usize>, num_rows: usize) -> (r: Option<usize>)
        ensures
            r == spec_select_prev(sel, num_rows),
    {
        if num_rows == 0 {
            return None;
        }
        let row: usize = match sel {
            Some(row) => {
                if row == 0 || row >= num_rows {
                    num_rows - 1
                } else {
                    row - 1
                }
            },
            None => 0,
        };
        Some(row)
    }

    /// Flips whether the secret is shown in the clear; purely cosmetic.
    pub fn toggle_show_password(&mut self)
        ensures
            final(self).show_password == !old(self).show_password,
            final(self).passwords_selected == old(self).passwords_selected,
            final(self).details_selected == old(self).details_selected,
            final(self).focus_details == old(self).focus_details,
    {
        self.show_password = !self.show_password;
    }

    /// Flips input focus between the passwords list and the details list.
    pub fn toggle_focus_details(&mut self)
        ensures
            final(self).focus_details == !old(self).focus_details,
            final(self).passwords_selected == old(self).passwords_selected,
            final(self).details_selected == old(self).details_selected,
            final(self).show_password == old(self).show_password,
    {
        self.focus_details = !self.focus_details;
    }

    /// What the rendering layer is told to display for the password field:
    /// the actual secret when revealed, a fixed-width mask otherwise.
    pub fn displayed_password(&self, password: &Password) -> (r: String)
        ensures
            r@ == spec_displayed_password(self.show_password, password@),
    {
        if self.show_password {
            password.password.clone()
        } else {
            String::from_str("********")
        }
    }

    /// The row count shown in the footer: the selected position,
    /// one-based, or 0 when nothing is selected.
    pub fn footer_selection(&self) -> (r: usize)
        ensures
            self.passwords_selected matches Some(i) ==> r == (if i < usize::MAX { i + 1 } else { i as int }),
            self.passwords_selected is None ==> r == 0,
    {
        match self.passwords_selected {
            Some(i) => if i < usize::MAX {
                i + 1
            } else {
                i
            },
            None => 0,
        }
    }
}

/// The displayed password field as a value: the secret itself when
/// revealed, the mask otherwise.
pub open spec fn spec_displayed_password(show: bool, p: PasswordView) -> Seq<char> {
    if show {
        p.password
    } else {
        "********"@
    }
}

/// The label shown beside a record's title in the passwords list: the
/// username when one is set, else the email.
pub fn list_label(password: &Password) -> (r: String)
    ensures
        password@.username.len() > 0 ==> r@ == password@.username,
        password@.username.len() == 0 ==> r@ == password@.email,
{
    if password.username.as_str().unicode_len() > 0 {
        password.username.clone()
    } else {
        password.email.clone()
    }
}

/// Revealing is an involution: toggling the reveal flag twice leaves the
/// displayed password field exactly as it began, masked or unmasked.
pub proof fn lemma_reveal_involution(show: bool, p: PasswordView)
    ensures
        spec_displayed_password(!!show, p) == spec_displayed_password(show, p),
{
}

/// How the selection stands after `k` "select next" steps.
pub open spec fn iter_select_next(k: nat, sel: Option<usize>, n: usize) -> Option<usize>
    decreases k,
{
    if k == 0 {
        sel
    } else {
        spec_select_next(iter_select_next((k - 1) as nat, sel, n), n)
    }
}

/// After `k` steps from no selection on a non-empty list of `n` rows,
/// `1 <= k <= n`, the selection stands at `k - 1`: the first step selects
/// index 0 and each further step moves forward once.
pub proof fn lemma_select_next_counts(k: nat, n: usize)
    requires
        1 <= k <= n,
    ensures
        iter_select_next(k, None, n) == Some((k - 1) as usize),
    decreases k,
{
    if k == 1 {
        assert(iter_select_next(0, None, n) == None::<usize>);
    } else {
        lemma_select_next_counts((k - 1) as nat, n);
    }
}

/// Cyclic closure of "select next": from no selection on a non-empty list
/// of `n` rows, one full cycle — the first step that selects index 0 and
/// the `n` steps that walk the whole list — returns the selection to
/// index 0.
pub proof fn lemma_select_next_cycles(n: usize)
    requires
        n >= 1,
    ensures
        iter_select_next((n + 1) as nat, None, n) == Some(0usize),
{
    lemma_select_next_counts(n as nat, n);
    assert(iter_select_next(n as nat + 1, None, n)
        == spec_select_next(iter_select_next(n as nat, None, n), n));
}

} // verus!
