//! Application state: the current table rows, the selected row, and the
//! refresh policy. Selection moves with wrap-around; a refresh replaces the
//! row sequence wholesale and never leaves a partial update behind.

use vstd::arithmetic::div_mod::{
    lemma_add_mod_noop, lemma_add_mod_noop_right, lemma_mod_bound, lemma_mod_self_0,
    lemma_small_mod,
};
use vstd::prelude::*;

use crate::api::{DisplayRow, FetchError};

verus! {

/// Elapsed seconds after which a scheduled refresh becomes due.
pub const REFRESH_SECS: u64 = 60;

/// A key event, as the state machine sees it: a character key, the arrow
/// keys the table reacts to, or anything else.
pub enum Key {
    Char(char),
    Down,
    Up,
    Other,
}

/// What the event loop must do after a key was dispatched.
#[derive(Debug, PartialEq, Eq, Structural)]
pub enum Control {
    /// Leave the loop and tear the terminal down.
    Quit,
    /// Fetch now and hand the outcome to `force_update`.
    ForceRefresh,
    /// Render and wait for the next event.
    Continue,
}

/// The selection is either unset or a valid index into `len` rows.
pub open spec fn sel_in_range(sel: Option<usize>, len: nat) -> bool {
    sel is Some ==> (sel->Some_0 as nat) < len
}

/// One `next` step: advance by one, wrapping to 0 past the last row;
/// select the first row when nothing is selected; do nothing on an empty
/// row sequence.
pub open spec fn next_sel(sel: Option<usize>, len: nat) -> Option<usize> {
    if len == 0 {
        sel
    } else {
        match sel {
            None => Some(0usize),
            Some(i) => if i + 1 >= len {
                Some(0usize)
            } else {
                Some((i + 1) as usize)
            },
        }
    }
}

/// One `previous` step: retreat by one, wrapping to the last row from 0;
/// select the first row when nothing is selected; do nothing on an empty
/// row sequence.
pub open spec fn prev_sel(sel: Option<usize>, len: nat) -> Option<usize> {
    if len == 0 {
        sel
    } else {
        match sel {
            None => Some(0usize),
            Some(i) => if i == 0 {
                Some((len - 1) as usize)
            } else {
                Some((i - 1) as usize)
            },
        }
    }
}

/// The selection after the rows were replaced by `len` new ones: kept
/// numerically while still in range, clamped to the last row when the new
/// sequence is shorter, unset when it is empty or nothing was selected.
pub open spec fn clamp_sel(sel: Option<usize>, len: nat) -> Option<usize> {
    match sel {
        None => None,
        Some(i) => if (i as nat) < len {
            Some(i)
        } else if len > 0 {
            Some((len - 1) as usize)
        } else {
            None
        },
    }
}

/// A scheduled refresh is due once more than `REFRESH_SECS` seconds have
/// elapsed since the last one. A clock that went backwards counts as no
/// elapsed time.
pub open spec fn refresh_due(last: u64, now: u64) -> bool {
    now > last && now - last > REFRESH_SECS
}

/// The dashboard's state: the rows on display, the selected row, and the
/// timestamp (in seconds) of the last successful refresh.
pub struct App {
    pub items: Vec<DisplayRow>,
    pub selected: Option<usize>,
    pub last_update: u64,
}

impl App {
    /// The selection, when set, is a valid index into the rows.
    pub open spec fn wf(self) -> bool {
        sel_in_range(self.selected, self.items@.len())
    }

    /// Builds the initial state from the startup fetch outcome. A failed
    /// startup fetch yields an empty-but-valid table rather than an error:
    /// the next scheduled refresh will fill it.
    pub fn new(now: u64, fetched: Result<Vec<DisplayRow>, FetchError>) -> (app: App)
        ensures
            app.wf(),
            app.selected is None,
            app.last_update == now,
            fetched is Ok ==> app.items == fetched->Ok_0,
            fetched is Err ==> app.items@.len() == 0,
    {
        let items = match fetched {
            Ok(rows) => rows,
            Err(_) => Vec::new(),
        };
        App { items, selected: None, last_update: now }
    }

    /// Advances the selection by one row, wrapping past the end.
    pub fn next(&mut self)
        requires
            old(self).wf(),
        ensures
            final(self).wf(),
            final(self).items == old(self).items,
            final(self).last_update == old(self).last_update,
            final(self).selected == next_sel(old(self).selected, old(self).items@.len()),
    {
        if self.items.len() == 0 {
            return ;
        }
        let i: usize = match self.selected {
            Some(i) => if i >= self.items.len() - 1 {
                0
            } else {
                i + 1
            },
            None => 0,
        };
        self.selected = Some(i);
    }

    /// Retreats the selection by one row, wrapping to the last row from 0.
    pub fn previous(&mut self)
        requires
            old(self).wf(),
        ensures
            final(self).wf(),
            final(self).items == old(self).items,
            final(self).last_update == old(self).last_update,
            final(self).selected == prev_sel(old(self).selected, old(self).items@.len()),
    {
        if self.items.len() == 0 {
            return ;
        }
        let i: usize = match self.selected {
            Some(i) => if i == 0 {
                self.items.len() - 1
            } else {
                i - 1
            },
            None => 0,
        };
        self.selected = Some(i);
    }

    /// Replaces the rows wholesale and clamps the selection to the new
    /// row count. The swap is a single assignment: no caller can observe
    /// a half-updated sequence.
    fn replace_items(&mut self, rows: Vec<DisplayRow>)
        requires
            old(self).wf(),
        ensures
            final(self).wf(),
            final(self).items == rows,
            final(self).last_update == old(self).last_update,
            final(self).selected == clamp_sel(old(self).selected, rows@.len()),
    {
        let len = rows.len();
        self.items = rows;
        self.selected = match self.selected {
            None => None,
            Some(i) => if i < len {
                Some(i)
            } else if len > 0 {
                Some(len - 1)
            } else {
                None
            },
        };
    }

    /// True when a scheduled refresh is due at time `now`: the event loop
    /// fetches only then.
    pub fn needs_refresh(&self, now: u64) -> (due: bool)
        ensures
            due == refresh_due(self.last_update, now),
    {
        now > self.last_update && now - self.last_update > REFRESH_SECS
    }

    /// Scheduled refresh: when due at `now`, applies the fetch outcome —
    /// on success the rows are replaced atomically and the timestamp
    /// advances to `now`; on failure, and when not due, the prior state is
    /// left untouched.
    pub fn update(&mut self, now: u64, fetched: Result<Vec<DisplayRow>, FetchError>)
        requires
            old(self).wf(),
        ensures
            final(self).wf(),
            !refresh_due(old(self).last_update, now) ==> *final(self) == *old(self),
            refresh_due(old(self).last_update, now) && fetched is Err ==> *final(self) == *old(
                self,
            ),
            refresh_due(old(self).last_update, now) && fetched is Ok ==> {
                &&& final(self).items == fetched->Ok_0
                &&& final(self).last_update == now
                &&& final(self).selected == clamp_sel(old(self).selected, fetched->Ok_0@.len())
            },
    {
        if self.needs_refresh(now) {
            match fetched {
                Ok(rows) => {
                    self.last_update = now;
                    self.replace_items(rows);
                },
                Err(_) => {},
            }
        }
    }

    /// Forced refresh: applies the fetch outcome unconditionally, without
    /// touching the refresh timestamp — on failure the prior state is left
    /// untouched.
    pub fn force_update(&mut self, fetched: Result<Vec<DisplayRow>, FetchError>)
        requires
            old(self).wf(),
        ensures
            final(self).wf(),
            final(self).last_update == old(self).last_update,
            fetched is Err ==> *final(self) == *old(self),
            fetched is Ok ==> {
                &&& final(self).items == fetched->Ok_0
                &&& final(self).selected == clamp_sel(old(self).selected, fetched->Ok_0@.len())
            },
    {
        match fetched {
            Ok(rows) => self.replace_items(rows),
            Err(_) => {},
        }
    }

    /// Dispatches one key event: `q` quits, `r` asks for a forced refresh,
    /// the arrow keys move the selection, everything else is ignored.
    pub fn handle_key(&mut self, key: Key) -> (c: Control)
        requires
            old(self).wf(),
        ensures
            final(self).wf(),
            final(self).items == old(self).items,
            final(self).last_update == old(self).last_update,
            match key {
                Key::Char(ch) => if ch == 'q' {
                    c == Control::Quit && *final(self) == *old(self)
                } else if ch == 'r' {
                    c == Control::ForceRefresh && *final(self) == *old(self)
                } else {
                    c == Control::Continue && *final(self) == *old(self)
                },
                Key::Down => c == Control::Continue && final(self).selected == next_sel(
                    old(self).selected,
                    old(self).items@.len(),
                ),
                Key::Up => c == Control::Continue && final(self).selected == prev_sel(
                    old(self).selected,
                    old(self).items@.len(),
                ),
                Key::Other => c == Control::Continue && *final(self) == *old(self),
            },
    {
        match key {
            Key::Char(ch) => {
                if ch == 'q' {
                    Control::Quit
                } else if ch == 'r' {
                    Control::ForceRefresh
                } else {
                    Control::Continue
                }
            },
            Key::Down => {
                self.next();
                Control::Continue
            },
            Key::Up => {
                self.previous();
                Control::Continue
            },
            Key::Other => Control::Continue,
        }
    }
}

/// The selection after `k` `next` steps on `len` rows.
pub open spec fn iterate_next(sel: Option<usize>, len: nat, k: nat) -> Option<usize>
    decreases k,
{
    if k == 0 {
        sel
    } else {
        next_sel(iterate_next(sel, len, (k - 1) as nat), len)
    }
}

proof fn lemma_iterate_next_closed_form(i: usize, len: nat, k: nat)
    requires
        0 < len,
        len <= usize::MAX,
        (i as nat) < len,
    ensures
        iterate_next(Some(i), len, k) == Some(((i + k) % (len as int)) as usize),
    decreases k,
{
    if k == 0 {
        lemma_small_mod(i as nat, len);
    } else {
        lemma_iterate_next_closed_form(i, len, (k - 1) as nat);
        let x = i + k - 1;
        lemma_mod_bound(x, len as int);
        let p = x % (len as int);
        lemma_add_mod_noop_right(1, x, len as int);
        assert((1 + p) % (len as int) == (x + 1) % (len as int));
        if p == len - 1 {
            lemma_mod_self_0(len as int);
            assert((i + k) % (len as int) == 0);
        } else {
            lemma_small_mod((p + 1) as nat, len);
            assert((i + k) % (len as int) == p + 1);
        }
    }
}

/// Wrap-around closure: starting from any valid selected index, as many
/// `next` steps as there are rows return the selection to its starting
/// value.
pub proof fn lemma_next_wraps_around(sel: Option<usize>, len: nat)
    requires
        0 < len,
        len <= usize::MAX,
        sel is Some,
        sel_in_range(sel, len),
    ensures
        iterate_next(sel, len, len) == sel,
{
    let i = sel->Some_0;
    lemma_iterate_next_closed_form(i, len, len);
    lemma_add_mod_noop(i as int, len as int, len as int);
    lemma_mod_self_0(len as int);
    lemma_small_mod(i as nat, len);
}

/// From index 0, one `previous` step wraps to the last row.
pub proof fn lemma_previous_wraps_to_last(len: nat)
    requires
        0 < len,
    ensures
        prev_sel(Some(0usize), len) == Some((len - 1) as usize),
{
}

/// On an empty row sequence, `next` and `previous` leave the selection
/// unchanged.
pub proof fn lemma_empty_selection_unchanged(sel: Option<usize>)
    ensures
        next_sel(sel, 0) == sel,
        prev_sel(sel, 0) == sel,
{
}

} // verus!
