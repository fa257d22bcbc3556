//! A list with a cursor whose rows are items under dividers: the cursor rests
//! on items only.

use crate::stateful_list::{ListModel, StatefulList};
use vstd::prelude::*;

verus! {

/// A row of a divided list: the heading of a group, or an item.
pub enum DividedListItem<T> {
    Divider(String),
    Item(T),
}

impl<T> ListModel<DividedListItem<T>> {
    /// Whether the highlighted row is an item.
    pub open spec fn on_item(self) -> bool {
        self.selected matches Some(i) && i < self.items.len() && self.items[i as int] is Item
    }

    /// Whether any row is an item.
    pub open spec fn has_item(self) -> bool {
        exists|i: int| 0 <= i < self.items.len() && self.items[i] is Item
    }

    /// Whether the `n`th move of the cursor down is the first after which it
    /// rests on an item.
    pub open spec fn lands_next(self, n: nat) -> bool {
        &&& n >= 1
        &&& self.select_next_n(n).on_item()
        &&& forall|k: nat| 1 <= k < n ==> !(#[trigger] self.select_next_n(k)).on_item()
    }

    /// Whether the `n`th move of the cursor up is the first after which it
    /// rests on an item.
    pub open spec fn lands_previous(self, n: nat) -> bool {
        &&& n >= 1
        &&& self.select_previous_n(n).on_item()
        &&& forall|k: nat| 1 <= k < n ==> !(#[trigger] self.select_previous_n(k)).on_item()
    }

    /// The list after the cursor has moved down until it rests on an item.
    pub open spec fn select_next_item(self) -> Self {
        self.select_next_n(choose|n: nat| self.lands_next(n))
    }

    /// The list after the cursor has moved up until it rests on an item.
    pub open spec fn select_previous_item(self) -> Self {
        self.select_previous_n(choose|n: nat| self.lands_previous(n))
    }

    /// How many moves down bring the cursor to the item in row `target` at
    /// the latest, counted from a cursor that does not rest on that row yet.
    spec fn moves_down_to(self, target: int) -> int {
        match self.selected {
            None => (self.items.len() + 1) as int,
            Some(i) => if i < target {
                target - i
            } else if i < self.items.len() {
                self.items.len() - i + target
            } else {
                1 + target
            },
        }
    }

    /// How many moves up bring the cursor to the item in row `target` at the
    /// latest, counted from a cursor that does not rest on that row yet.
    spec fn moves_up_to(self, target: int) -> int {
        match self.selected {
            None => (usize::MAX + self.items.len() + 1) as int,
            Some(i) => if i > target {
                i - target
            } else {
                i + self.items.len() - target
            },
        }
    }
}

/// The cursor first rests on an item after one number of moves down only.
pub proof fn lemma_lands_next_once<T>(list: ListModel<DividedListItem<T>>, n: nat, m: nat)
    requires
        list.lands_next(n),
        list.lands_next(m),
    ensures
        n == m,
{
}

/// The cursor first rests on an item after one number of moves up only.
pub proof fn lemma_lands_previous_once<T>(list: ListModel<DividedListItem<T>>, n: nat, m: nat)
    requires
        list.lands_previous(n),
        list.lands_previous(m),
    ensures
        n == m,
{
}

/// Moving down `n` times from the list after one move is moving down
/// `n + 1` times.
proof fn lemma_select_next_n_shift<T>(list: ListModel<T>, n: nat)
    ensures
        list.select_next().select_next_n(n) == list.select_next_n(n + 1),
    decreases n,
{
    reveal_with_fuel(ListModel::select_next_n, 2);
    if n > 0 {
        lemma_select_next_n_shift(list, (n - 1) as nat);
    }
}

/// Moving up `n` times from the list after one move is moving up `n + 1`
/// times.
proof fn lemma_select_previous_n_shift<T>(list: ListModel<T>, n: nat)
    ensures
        list.select_previous().select_previous_n(n) == list.select_previous_n(n + 1),
    decreases n,
{
    reveal_with_fuel(ListModel::select_previous_n, 2);
    if n > 0 {
        lemma_select_previous_n_shift(list, (n - 1) as nat);
    }
}

proof fn lemma_lands_next_towards<T>(list: ListModel<DividedListItem<T>>, target: int)
    requires
        0 <= target < list.items.len(),
        list.items[target] is Item,
        list.items.len() <= usize::MAX,
    ensures
        exists|n: nat| list.lands_next(n),
    decreases
        (if list.select_next().on_item() {
            0
        } else {
            list.select_next().moves_down_to(target)
        }),
{
    reveal_with_fuel(ListModel::select_next_n, 2);
    let moved = list.select_next();
    if moved.on_item() {
        assert(list.lands_next(1));
    } else {
        lemma_lands_next_towards(moved, target);
        let m = choose|m: nat| moved.lands_next(m);
        lemma_select_next_n_shift(list, m);
        assert forall|k: nat| 1 <= k < m + 1 implies !(#[trigger] list.select_next_n(k)).on_item() by {
            if k > 1 {
                lemma_select_next_n_shift(list, (k - 1) as nat);
                assert(!moved.select_next_n((k - 1) as nat).on_item());
            }
        }
        assert(list.lands_next(m + 1));
    }
}

proof fn lemma_lands_previous_towards<T>(list: ListModel<DividedListItem<T>>, target: int)
    requires
        0 <= target < list.items.len(),
        list.items[target] is Item,
        list.items.len() <= usize::MAX,
    ensures
        exists|n: nat| list.lands_previous(n),
    decreases
        (if list.select_previous().on_item() {
            0
        } else {
            list.select_previous().moves_up_to(target)
        }),
{
    reveal_with_fuel(ListModel::select_previous_n, 2);
    let moved = list.select_previous();
    if moved.on_item() {
        assert(list.lands_previous(1));
    } else {
        lemma_lands_previous_towards(moved, target);
        let m = choose|m: nat| moved.lands_previous(m);
        lemma_select_previous_n_shift(list, m);
        assert forall|k: nat| 1 <= k < m + 1 implies !(#[trigger] list.select_previous_n(
            k,
        )).on_item() by {
            if k > 1 {
                lemma_select_previous_n_shift(list, (k - 1) as nat);
                assert(!moved.select_previous_n((k - 1) as nat).on_item());
            }
        }
        assert(list.lands_previous(m + 1));
    }
}

/// In a list with an item the cursor never comes to rest on a divider: moved
/// down or up until it rests on an item, it does so after finitely many
/// moves, whatever it highlighted before. The list is one that fits in
/// memory.
pub proof fn lemma_select_item_lands<T>(list: ListModel<DividedListItem<T>>)
    requires
        list.has_item(),
        list.items.len() <= usize::MAX,
    ensures
        list.select_next_item().on_item(),
        list.select_previous_item().on_item(),
{
    let target = choose|i: int| 0 <= i < list.items.len() && list.items[i] is Item;
    lemma_lands_next_towards(list, target);
    lemma_lands_previous_towards(list, target);
}

/// A highlight that is taken away from an item comes back on that item with
/// the next move of the cursor, down or up: the first move lands on it.
pub proof fn lemma_unselect_then_select_item_restores<T>(list: ListModel<DividedListItem<T>>)
    requires
        list.on_item(),
    ensures
        list.unselect().lands_next(1),
        list.unselect().select_next_item().selected == list.selected,
        list.unselect().lands_previous(1),
        list.unselect().select_previous_item().selected == list.selected,
{
    reveal_with_fuel(ListModel::select_next_n, 2);
    reveal_with_fuel(ListModel::select_previous_n, 2);
    let away = list.unselect();
    lemma_lands_next_once(away, 1, choose|n: nat| away.lands_next(n));
    lemma_lands_previous_once(away, 1, choose|n: nat| away.lands_previous(n));
}

pub struct DividedList<T> {
    pub list: StatefulList<DividedListItem<T>>,
}

impl<T> View for DividedList<T> {
    type V = ListModel<DividedListItem<T>>;

    open spec fn view(&self) -> ListModel<DividedListItem<T>> {
        self.list@
    }
}

impl<T> DividedList<T> {
    /// A list of `items` in which no row is highlighted and none remembered.
    pub fn with_items(items: Vec<DividedListItem<T>>) -> (list: Self)
        ensures
            list@ == (ListModel { selected: None, last_pos: None, items: items@ }),
    {
        Self { list: StatefulList::with_items(items) }
    }

    /// The highlighted row, if any.
    pub fn selected(&self) -> (index: Option<usize>)
        ensures
            index == self@.selected,
    {
        self.list.selected()
    }

    /// Whether the highlighted row is an item.
    pub fn is_on_item(&self) -> (on_item: bool)
        ensures
            on_item == self@.on_item(),
    {
        match self.list.selected() {
            Some(i) => i < self.list.items.len() && matches!(self.list.items[i], DividedListItem::Item(_)),
            None => false,
        }
    }

    /// Whether any row is an item.
    pub fn has_item(&self) -> (found: bool)
        ensures
            found == self@.has_item(),
    {
        let mut i: usize = 0;
        while i < self.list.items.len()
            invariant
                i <= self.list.items.len(),
                forall|k: int| 0 <= k < i ==> !(self@.items[k] is Item),
            decreases self.list.items.len() - i,
        {
            if matches!(self.list.items[i], DividedListItem::Item(_)) {
                return true;
            }
            i += 1;
        }
        false
    }

    /// Moves the cursor down, as in a plain list, until it rests on an item.
    pub fn select_next(&mut self)
        requires
            old(self)@.has_item(),
        ensures
            final(self)@.on_item(),
            exists|n: nat| old(self)@.lands_next(n),
            final(self)@ == old(self)@.select_next_item(),
    {
        let ghost start = self@;
        let ghost target = choose|i: int| 0 <= i < start.items.len() && start.items[i] is Item;
        let ghost mut n: nat = 0;
        loop
            invariant_except_break
                self@ == start.select_next_n(n),
                n > 0 ==> !self@.on_item() && self@.selected is Some,
            invariant
                0 <= target < start.items.len(),
                start.items[target] is Item,
                start.items.len() == self.list.items.len(),
                self@.items == start.items,
                forall|k: nat| 1 <= k < n ==> !(#[trigger] start.select_next_n(k)).on_item(),
            ensures
                n >= 1,
                self@ == start.select_next_n(n),
                self@.on_item(),
            decreases self@.moves_down_to(target),
        {
            self.list.select_next();
            proof {
                n = n + 1;
            }
            if self.is_on_item() {
                break;
            }
        }
        assert(start.lands_next(n));
        proof {
            lemma_lands_next_once(start, n, choose|m: nat| start.lands_next(m));
        }
    }

    /// Moves the cursor up, as in a plain list, until it rests on an item.
    pub fn select_previous(&mut self)
        requires
            old(self)@.has_item(),
        ensures
            final(self)@.on_item(),
            exists|n: nat| old(self)@.lands_previous(n),
            final(self)@ == old(self)@.select_previous_item(),
    {
        let ghost start = self@;
        let ghost target = choose|i: int| 0 <= i < start.items.len() && start.items[i] is Item;
        let ghost mut n: nat = 0;
        loop
            invariant_except_break
                self@ == start.select_previous_n(n),
                n > 0 ==> !self@.on_item() && self@.selected is Some,
            invariant
                0 <= target < start.items.len(),
                start.items[target] is Item,
                start.items.len() == self.list.items.len(),
                self@.items == start.items,
                forall|k: nat| 1 <= k < n ==> !(#[trigger] start.select_previous_n(k)).on_item(),
            ensures
                n >= 1,
                self@ == start.select_previous_n(n),
                self@.on_item(),
            decreases self@.moves_up_to(target),
        {
            self.list.select_previous();
            proof {
                n = n + 1;
            }
            if self.is_on_item() {
                break;
            }
        }
        assert(start.lands_previous(n));
        proof {
            lemma_lands_previous_once(start, n, choose|m: nat| start.lands_previous(m));
        }
    }

    /// Takes the highlight away and remembers the row that had it.
    pub fn unselect(&mut self)
        ensures
            final(self)@ == old(self)@.unselect(),
    {
        self.list.unselect();
    }
}

} // verus!
