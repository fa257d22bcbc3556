//! What the planner shows: the rows of the catalogue, the lines of the
//! queue, the faction in play, and the text that a written queue holds.

use crate::app::App;
use crate::catalogue::Entry;
use crate::divided_list::DividedListItem;
use crate::item::Faction;
use crate::text::{entry_text, format_todolist_entry};
use vstd::prelude::*;
use vstd::string::StringExecFns;

verus! {

/// A row of the catalogue as it is shown: its text, and whether it is a
/// divider, which is set apart from the items.
pub struct Row {
    pub text: String,
    pub divider: bool,
}

/// Whether a row is shown while `active` is the faction in play: dividers
/// always, an item unless it is tied to the other faction.
pub open spec fn row_shown(row: DividedListItem<Entry>, active: Faction) -> bool {
    match row {
        DividedListItem::Divider(_) => true,
        DividedListItem::Item(entry) => entry.item.shown_to(active),
    }
}

/// The text of a row: a divider's label, an item's full name.
pub open spec fn row_text(row: DividedListItem<Entry>) -> Seq<char> {
    match row {
        DividedListItem::Divider(label) => label@,
        DividedListItem::Item(entry) => entry.item.name@,
    }
}

/// The rows that are shown while `active` is the faction in play.
pub open spec fn shown_rows(rows: Seq<DividedListItem<Entry>>, active: Faction) -> Seq<
    DividedListItem<Entry>,
> {
    rows.filter(|row: DividedListItem<Entry>| row_shown(row, active))
}

/// The text of a written queue: the line of each entry, without the space
/// after the position label, each ended by a line feed.
pub open spec fn output_text(queue: Seq<Entry>) -> Seq<char>
    decreases queue.len(),
{
    if queue.len() == 0 {
        Seq::empty()
    } else {
        (output_text(queue.drop_last()) + entry_text(
            queue.last().item,
            (queue.len() - 1) as nat,
            false,
        )).push('\n')
    }
}

impl App {
    /// The rows of the catalogue that are shown, in order.
    pub fn main_list_rows(&self) -> (rows: Vec<Row>)
        ensures
            rows@.len() == shown_rows(self@.main_list.items, self@.faction).len(),
            forall|i: int|
                0 <= i < rows@.len() ==> {
                    let shown = shown_rows(self@.main_list.items, self@.faction)[i];
                    &&& (#[trigger] rows@[i]).text@ == row_text(shown)
                    &&& rows@[i].divider == (shown is Divider)
                },
    {
        let ghost all = self@.main_list.items;
        let ghost active = self.faction;
        let ghost shows = |row: DividedListItem<Entry>| row_shown(row, active);
        let mut rows: Vec<Row> = Vec::new();
        let mut i: usize = 0;
        while i < self.main_list.list.items.len()
            invariant
                i <= all.len(),
                all == self@.main_list.items,
                active == self.faction,
                shows == |row: DividedListItem<Entry>| row_shown(row, active),
                rows@.len() == all.take(i as int).filter(shows).len(),
                forall|k: int|
                    0 <= k < rows@.len() ==> {
                        let shown = all.take(i as int).filter(shows)[k];
                        &&& (#[trigger] rows@[k]).text@ == row_text(shown)
                        &&& rows@[k].divider == (shown is Divider)
                    },
            decreases all.len() - i,
        {
            proof {
                assert(all.take(i + 1) == all.take(i as int).push(all[i as int]));
                all.take(i as int).lemma_filter_push(all[i as int], shows);
            }
            match &self.main_list.list.items[i] {
                DividedListItem::Divider(label) => {
                    rows.push(Row { text: label.clone(), divider: true });
                },
                DividedListItem::Item(entry) => {
                    if entry.item.is_shown_to(self.faction) {
                        rows.push(Row { text: String::from_str(entry.item.name), divider: false });
                    }
                },
            }
            i += 1;
        }
        proof {
            assert(all.take(i as int) == all);
        }
        rows
    }

    /// The lines of the queue as they are shown, in order: the line of each
    /// entry, with the space after the position label.
    pub fn todolist_rows(&self) -> (rows: Vec<String>)
        ensures
            rows@.len() == self@.todolist.items.len(),
            forall|n: int|
                0 <= n < rows@.len() ==> (#[trigger] rows@[n])@ == entry_text(
                    self@.todolist.items[n].item,
                    n as nat,
                    true,
                ),
    {
        let mut rows: Vec<String> = Vec::new();
        let mut n: usize = 0;
        while n < self.todolist.items.len()
            invariant
                n <= self.todolist.items.len(),
                rows@.len() == n,
                forall|k: int|
                    0 <= k < n ==> (#[trigger] rows@[k])@ == entry_text(
                        self@.todolist.items[k].item,
                        k as nat,
                        true,
                    ),
            decreases self.todolist.items.len() - n,
        {
            rows.push(format_todolist_entry(&self.todolist.items[n].item, n, true));
            n += 1;
        }
        rows
    }

    /// The line that names the faction in play.
    pub fn faction_text(&self) -> (line: String)
        ensures
            line@ == "Faction: "@ + self@.faction.name(),
    {
        let mut line = String::from_str("Faction: ");
        line.append(self.faction.as_str());
        line
    }

    /// The text under which the queue is written out.
    pub fn write_output(&self) -> (output: String)
        ensures
            output@ == output_text(self@.todolist.items),
    {
        let ghost queue = self@.todolist.items;
        let mut output = String::new();
        let mut n: usize = 0;
        while n < self.todolist.items.len()
            invariant
                n <= queue.len(),
                queue == self@.todolist.items,
                output@ == output_text(queue.take(n as int)),
            decreases queue.len() - n,
        {
            proof {
                assert(queue.take(n + 1).drop_last() == queue.take(n as int));
            }
            let line = format_todolist_entry(&self.todolist.items[n].item, n, false);
            output.append(line.as_str());
            output.push('\n');
            n += 1;
        }
        proof {
            assert(queue.take(n as int) == queue);
        }
        output
    }
}

} // verus!
