//! A list with a cursor: one row may be highlighted, and the row that was
//! highlighted last is remembered while none is.

use crate::cursor::highlighted;
use tui::widgets::ListState;
use vstd::prelude::*;

verus! {

/// What a list with a cursor holds: the highlighted row, the remembered row
/// and the elements in order.
pub struct ListModel<T> {
    pub selected: Option<usize>,
    pub last_pos: Option<usize>,
    pub items: Seq<T>,
}

impl<T> ListModel<T> {
    /// The row that the cursor moves to from row `i`, going down: the next
    /// one, and the first after the last.
    pub open spec fn row_after(self, i: usize) -> usize {
        if i + 1 >= self.items.len() {
            0
        } else {
            (i + 1) as usize
        }
    }

    /// The row that the cursor moves to from row `i`, going up: the one
    /// before, and the last before the first.
    pub open spec fn row_before(self, i: usize) -> usize {
        if i == 0 {
            (self.items.len() - 1) as usize
        } else {
            (i - 1) as usize
        }
    }

    /// The row on which a cursor that highlights nothing comes back: the
    /// remembered one, or the first.
    pub open spec fn resumed_row(self) -> usize {
        match self.last_pos {
            Some(i) => i,
            None => 0,
        }
    }

    /// Whether the cursor may be moved: a highlighted row needs a list with
    /// at least one row to move in.
    pub open spec fn movable(self) -> bool {
        self.selected is Some ==> self.items.len() > 0
    }

    pub open spec fn select_next(self) -> Self {
        ListModel {
            selected: Some(
                match self.selected {
                    Some(i) => self.row_after(i),
                    None => self.resumed_row(),
                },
            ),
            ..self
        }
    }

    pub open spec fn select_previous(self) -> Self {
        ListModel {
            selected: Some(
                match self.selected {
                    Some(i) => self.row_before(i),
                    None => self.resumed_row(),
                },
            ),
            ..self
        }
    }

    pub open spec fn unselect(self) -> Self {
        ListModel {
            selected: None,
            last_pos: match self.selected {
                Some(i) => Some(i),
                None => self.last_pos,
            },
            ..self
        }
    }

    pub open spec fn push(self, item: T) -> Self {
        ListModel { items: self.items.push(item), ..self }
    }

    /// The list without row `idx`. The cursor moves only where the row that
    /// leaves is the last one and is highlighted: then the row before it is
    /// highlighted, or none where there is no row before it.
    pub open spec fn remove(self, idx: usize) -> Self {
        ListModel {
            selected: if self.selected == Some(idx) && idx + 1 == self.items.len() {
                if idx == 0 {
                    None
                } else {
                    Some((idx - 1) as usize)
                }
            } else {
                self.selected
            },
            last_pos: self.last_pos,
            items: self.items.remove(idx as int),
        }
    }

    /// The list after `n` moves of the cursor down.
    pub open spec fn select_next_n(self, n: nat) -> Self
        decreases n,
    {
        if n == 0 {
            self
        } else {
            self.select_next_n((n - 1) as nat).select_next()
        }
    }

    /// The list after `n` moves of the cursor up.
    pub open spec fn select_previous_n(self, n: nat) -> Self
        decreases n,
    {
        if n == 0 {
            self
        } else {
            self.select_previous_n((n - 1) as nat).select_previous()
        }
    }

    /// Whether a row of the list is highlighted.
    pub open spec fn on_row(self) -> bool {
        self.selected matches Some(i) && i < self.items.len()
    }
}

proof fn lemma_select_next_n_row<T>(list: ListModel<T>, n: nat)
    requires
        list.on_row(),
        list.items.len() <= usize::MAX,
        n <= list.items.len(),
    ensures
        list.select_next_n(n) == (ListModel {
            selected: Some(
                (if list.selected->0 + n < list.items.len() {
                    list.selected->0 + n
                } else {
                    list.selected->0 + n - list.items.len()
                }) as usize,
            ),
            ..list
        }),
    decreases n,
{
    if n > 0 {
        lemma_select_next_n_row(list, (n - 1) as nat);
    }
}

proof fn lemma_select_previous_n_row<T>(list: ListModel<T>, n: nat)
    requires
        list.on_row(),
        list.items.len() <= usize::MAX,
        n <= list.items.len(),
    ensures
        list.select_previous_n(n) == (ListModel {
            selected: Some(
                (if list.selected->0 >= n {
                    list.selected->0 - n
                } else {
                    list.selected->0 - n + list.items.len()
                }) as usize,
            ),
            ..list
        }),
    decreases n,
{
    if n > 0 {
        lemma_select_previous_n_row(list, (n - 1) as nat);
    }
}

/// Moving the cursor down once for each row of the list brings it back to
/// the row on which it started. The list is one that fits in memory.
pub proof fn lemma_select_next_cycles<T>(list: ListModel<T>)
    requires
        list.on_row(),
        list.items.len() <= usize::MAX,
    ensures
        list.select_next_n(list.items.len()) == list,
{
    lemma_select_next_n_row(list, list.items.len());
}

/// Moving the cursor up once for each row of the list brings it back to the
/// row on which it started. The list is one that fits in memory.
pub proof fn lemma_select_previous_cycles<T>(list: ListModel<T>)
    requires
        list.on_row(),
        list.items.len() <= usize::MAX,
    ensures
        list.select_previous_n(list.items.len()) == list,
{
    lemma_select_previous_n_row(list, list.items.len());
}

/// A highlight that is taken away comes back on the same row with the next
/// move of the cursor, down or up.
pub proof fn lemma_unselect_then_select_restores<T>(list: ListModel<T>)
    requires
        list.selected is Some,
    ensures
        list.unselect().select_next().selected == list.selected,
        list.unselect().select_previous().selected == list.selected,
{
}

/// Taking the highlight away twice leaves the list as taking it away once
/// does.
pub proof fn lemma_unselect_idempotent<T>(list: ListModel<T>)
    ensures
        list.unselect().unselect() == list.unselect(),
{
}

/// When the last row leaves while it is highlighted, the highlight moves to
/// the row before it, or to none where it was the only row.
pub proof fn lemma_remove_selected_last<T>(list: ListModel<T>, idx: usize)
    requires
        idx + 1 == list.items.len(),
        list.selected == Some(idx),
    ensures
        idx > 0 ==> list.remove(idx).selected == Some((idx - 1) as usize),
        idx == 0 ==> list.remove(idx).selected is None,
{
}

/// When any other row leaves, the cursor keeps its number, also where the
/// row that leaves is the highlighted one.
pub proof fn lemma_remove_keeps_cursor<T>(list: ListModel<T>, idx: usize)
    requires
        idx < list.items.len(),
        !(list.selected == Some(idx) && idx + 1 == list.items.len()),
    ensures
        list.remove(idx).selected == list.selected,
        list.remove(idx).last_pos == list.last_pos,
{
}

pub struct StatefulList<T> {
    pub state: ListState,
    pub last_pos: Option<usize>,
    pub items: Vec<T>,
}

impl<T> View for StatefulList<T> {
    type V = ListModel<T>;

    open spec fn view(&self) -> ListModel<T> {
        ListModel { selected: highlighted(self.state), last_pos: self.last_pos, items: self.items@ }
    }
}

impl<T> StatefulList<T> {
    /// A list of `items` in which no row is highlighted and none remembered.
    pub fn with_items(items: Vec<T>) -> (list: Self)
        ensures
            list@ == (ListModel { selected: None, last_pos: None, items: items@ }),
    {
        Self { state: ListState::default(), last_pos: None, items }
    }

    /// The highlighted row, if any.
    pub fn selected(&self) -> (index: Option<usize>)
        ensures
            index == self@.selected,
    {
        self.state.selected()
    }

    /// Appends `item`; the cursor stays as it is.
    pub fn push(&mut self, item: T)
        ensures
            final(self)@ == old(self)@.push(item),
    {
        self.items.push(item);
    }

    /// Takes row `idx` out and returns its element.
    pub fn remove(&mut self, idx: usize) -> (item: T)
        requires
            idx < old(self)@.items.len(),
        ensures
            item == old(self)@.items[idx as int],
            final(self)@ == old(self)@.remove(idx),
    {
        if let Some(selected) = self.state.selected() {
            if selected == idx && idx == self.items.len() - 1 {
                self.state.select(selected.checked_sub(1));
            }
        }
        self.items.remove(idx)
    }

    /// Moves the cursor down by one row, from the last row to the first. A
    /// cursor that highlights nothing comes back on the remembered row, or on
    /// the first.
    pub fn select_next(&mut self)
        requires
            old(self)@.movable(),
        ensures
            final(self)@ == old(self)@.select_next(),
    {
        let i = match self.state.selected() {
            Some(i) => {
                if i >= self.items.len() - 1 {
                    0
                } else {
                    i + 1
                }
            },
            None => self.last_pos.unwrap_or(0),
        };
        self.state.select(Some(i));
    }

    /// Moves the cursor up by one row, from the first row to the last. A
    /// cursor that highlights nothing comes back on the remembered row, or on
    /// the first.
    pub fn select_previous(&mut self)
        requires
            old(self)@.movable(),
        ensures
            final(self)@ == old(self)@.select_previous(),
    {
        let i = match self.state.selected() {
            Some(i) => {
                if i == 0 {
                    self.items.len() - 1
                } else {
                    i - 1
                }
            },
            None => self.last_pos.unwrap_or(0),
        };
        self.state.select(Some(i));
    }

    /// Takes the highlight away and remembers the row that had it. Where no
    /// row had it, the row remembered before stays remembered.
    pub fn unselect(&mut self)
        ensures
            final(self)@ == old(self)@.unselect(),
    {
        if let Some(selected) = self.state.selected() {
            self.last_pos = Some(selected);
        }
        self.state.select(None);
    }
}

} // verus!
