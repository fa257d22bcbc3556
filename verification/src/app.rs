//! The planner's state and the rules by which commands change it: which of
//! the two lists holds the cursor, what is queued, and what is shown.

use crate::catalogue::{
    catalogue_rows, is_mpf_catalogue, lemma_catalogue_rows_have_item, main_items, mpf_catalogue,
    Category, Entry,
};
use crate::divided_list::{DividedList, DividedListItem};
use crate::item::Faction;
use crate::queue::{lemma_stable_sorted_is_sorted, precedes, sort_queue, sorted, stable_sorted};
use crate::stateful_list::{ListModel, StatefulList};
use vstd::prelude::*;

verus! {

/// The value of `selected_list` while the catalogue holds the cursor.
pub const CATALOGUE_LIST: usize = 0;

/// The value of `selected_list` while the queue holds the cursor.
pub const QUEUE_LIST: usize = 1;

/// A key as the planner tells keys apart.
#[derive(Clone, Copy, Debug)]
pub enum Key {
    Left,
    Right,
    Up,
    Down,
    Enter,
    Char(char),
    Other,
}

/// What the user may ask of the planner.
#[derive(Clone, Copy, Debug, PartialEq, Eq, Structural)]
pub enum Command {
    MoveUp,
    MoveDown,
    MoveLeft,
    MoveRight,
    Confirm,
    ToggleFactionFilter,
    WriteOutput,
    Quit,
}

/// What is left to the caller once a command has been handled.
#[derive(Clone, Copy, Debug, PartialEq, Eq, Structural)]
pub enum Action {
    /// Nothing but to show the new state.
    Continue,
    /// The queue is to be written out.
    WriteOutput,
    /// The planner is to end.
    Quit,
}

impl Key {
    /// The command that a key stands for, if any.
    pub open spec fn command(self) -> Option<Command> {
        match self {
            Key::Left => Some(Command::MoveLeft),
            Key::Right => Some(Command::MoveRight),
            Key::Up => Some(Command::MoveUp),
            Key::Down => Some(Command::MoveDown),
            Key::Enter => Some(Command::Confirm),
            Key::Char(c) => if c == 'q' {
                Some(Command::Quit)
            } else if c == 'w' {
                Some(Command::WriteOutput)
            } else if c == 'f' {
                Some(Command::ToggleFactionFilter)
            } else {
                None
            },
            Key::Other => None,
        }
    }

    pub fn to_command(self) -> (command: Option<Command>)
        ensures
            command == self.command(),
    {
        match self {
            Key::Left => Some(Command::MoveLeft),
            Key::Right => Some(Command::MoveRight),
            Key::Up => Some(Command::MoveUp),
            Key::Down => Some(Command::MoveDown),
            Key::Enter => Some(Command::Confirm),
            Key::Char(c) => if c == 'q' {
                Some(Command::Quit)
            } else if c == 'w' {
                Some(Command::WriteOutput)
            } else if c == 'f' {
                Some(Command::ToggleFactionFilter)
            } else {
                None
            },
            Key::Other => None,
        }
    }
}

impl Command {
    /// What a command leaves to the caller.
    pub open spec fn action(self) -> Action {
        match self {
            Command::Quit => Action::Quit,
            Command::WriteOutput => Action::WriteOutput,
            _ => Action::Continue,
        }
    }
}

/// What the planner holds.
pub struct AppModel {
    pub catalogue: Seq<Category>,
    pub main_list: ListModel<DividedListItem<Entry>>,
    pub todolist: ListModel<Entry>,
    pub selected_list: usize,
    pub faction: Faction,
}

impl AppModel {
    /// Whether the cursor of the catalogue, where it highlights a row,
    /// highlights one that the catalogue has.
    pub open spec fn catalogue_cursor_in_range(self) -> bool {
        self.main_list.selected matches Some(i) ==> i < self.main_list.items.len()
    }

    /// Whether the cursor of the queue, where it highlights a row, highlights
    /// one that the queue has.
    pub open spec fn queue_cursor_in_range(self) -> bool {
        self.todolist.selected matches Some(i) ==> i < self.todolist.items.len()
    }

    /// The state with the highlighted item of the catalogue queued: put
    /// behind the queue, which is then put in order. Nothing changes while
    /// the catalogue highlights a divider or nothing.
    pub open spec fn add_to_todolist(self) -> Self {
        if self.main_list.on_item() {
            AppModel {
                todolist: ListModel {
                    items: stable_sorted(
                        self.catalogue,
                        self.todolist.items.push(
                            self.main_list.items[self.main_list.selected->0 as int]->Item_0,
                        ),
                    ),
                    ..self.todolist
                },
                ..self
            }
        } else {
            self
        }
    }

    /// The state with the highlighted row of the queue taken out. Nothing
    /// changes while the queue highlights nothing.
    pub open spec fn remove_from_todolist(self) -> Self {
        match self.todolist.selected {
            Some(i) => AppModel { todolist: self.todolist.remove(i), ..self },
            None => self,
        }
    }

    pub open spec fn swap_faction(self) -> Self {
        AppModel { faction: self.faction.other(), ..self }
    }

    /// Whether `command` can be carried out: a cursor that is to move has a
    /// row to move to, and a row that is to be queued or taken out is there.
    pub open spec fn accepts(self, command: Command) -> bool {
        if self.selected_list == CATALOGUE_LIST {
            match command {
                Command::MoveRight => self.todolist.movable(),
                Command::MoveUp | Command::MoveDown => self.main_list.has_item(),
                Command::Confirm => self.catalogue_cursor_in_range(),
                _ => true,
            }
        } else if self.selected_list == QUEUE_LIST {
            match command {
                Command::MoveLeft => self.main_list.has_item(),
                Command::MoveUp | Command::MoveDown => self.todolist.movable(),
                Command::Confirm => self.queue_cursor_in_range(),
                _ => true,
            }
        } else {
            true
        }
    }

    /// The state after the part of `command` that depends on the list that
    /// holds the cursor. A `selected_list` that names neither list is set
    /// back to the catalogue, whatever the command.
    pub open spec fn steer(self, command: Command) -> Self {
        if self.selected_list == CATALOGUE_LIST {
            match command {
                Command::MoveRight => AppModel {
                    main_list: self.main_list.unselect(),
                    selected_list: QUEUE_LIST,
                    todolist: self.todolist.select_next(),
                    ..self
                },
                Command::MoveUp => AppModel {
                    main_list: self.main_list.select_previous_item(),
                    ..self
                },
                Command::MoveDown => AppModel {
                    main_list: self.main_list.select_next_item(),
                    ..self
                },
                Command::Confirm => self.add_to_todolist(),
                _ => self,
            }
        } else if self.selected_list == QUEUE_LIST {
            match command {
                Command::MoveLeft => AppModel {
                    todolist: self.todolist.unselect(),
                    selected_list: CATALOGUE_LIST,
                    main_list: self.main_list.select_next_item(),
                    ..self
                },
                Command::MoveUp => AppModel { todolist: self.todolist.select_previous(), ..self },
                Command::MoveDown => AppModel { todolist: self.todolist.select_next(), ..self },
                Command::Confirm => self.remove_from_todolist(),
                _ => self,
            }
        } else {
            AppModel { selected_list: CATALOGUE_LIST, ..self }
        }
    }

    /// The state after `command`.
    pub open spec fn handle(self, command: Command) -> Self {
        match command {
            Command::ToggleFactionFilter => self.steer(command).swap_faction(),
            _ => self.steer(command),
        }
    }

    /// The state after a key that stands for no command: only a
    /// `selected_list` that names neither list changes.
    pub open spec fn settle(self) -> Self {
        if self.selected_list == CATALOGUE_LIST || self.selected_list == QUEUE_LIST {
            self
        } else {
            AppModel { selected_list: CATALOGUE_LIST, ..self }
        }
    }

    /// The state after `key`.
    pub open spec fn handle_key(self, key: Key) -> Self {
        match key.command() {
            Some(command) => self.handle(command),
            None => self.settle(),
        }
    }

    /// Whether `key` can be handled.
    pub open spec fn accepts_key(self, key: Key) -> bool {
        key.command() matches Some(command) ==> self.accepts(command)
    }
}

/// Queuing an item leaves the queue in order, whatever its order was.
pub proof fn lemma_add_sorts_queue(app: AppModel)
    requires
        app.main_list.on_item(),
    ensures
        sorted(app.catalogue, app.add_to_todolist().todolist.items),
{
    lemma_stable_sorted_is_sorted(
        app.catalogue,
        app.todolist.items.push(app.main_list.items[app.main_list.selected->0 as int]->Item_0),
    );
}

/// No command takes a queue that is in order out of order. A queue that
/// starts empty and changes by commands alone is therefore in order always.
pub proof fn lemma_handle_keeps_queue_sorted(app: AppModel, command: Command)
    requires
        app.accepts(command),
        sorted(app.catalogue, app.todolist.items),
    ensures
        sorted(app.handle(command).catalogue, app.handle(command).todolist.items),
{
    if app.selected_list == CATALOGUE_LIST && command == Command::Confirm
        && app.main_list.on_item() {
        lemma_add_sorts_queue(app);
    }
    if app.selected_list == QUEUE_LIST && command == Command::Confirm
        && app.todolist.selected is Some {
        let idx = app.todolist.selected->0 as int;
        let before = app.todolist.items;
        let after = before.remove(idx);
        assert forall|i: int, j: int| 0 <= i < j < after.len() implies precedes(
            app.catalogue,
            after[i],
            after[j],
        ) by {
            let from_i = if i < idx { i } else { i + 1 };
            let from_j = if j < idx { j } else { j + 1 };
            assert(precedes(app.catalogue, before[from_i], before[from_j]));
        }
    }
}

/// After any command one of the two lists holds the cursor.
pub proof fn lemma_handle_settles_on_a_list(app: AppModel, command: Command)
    ensures
        app.handle(command).selected_list == CATALOGUE_LIST || app.handle(command).selected_list
            == QUEUE_LIST,
{
}

/// A move up or down is made in the list that holds the cursor: the other
/// list stays as it is.
pub proof fn lemma_moves_stay_in_the_list_with_the_cursor(app: AppModel, command: Command)
    requires
        command == Command::MoveUp || command == Command::MoveDown,
    ensures
        app.selected_list == CATALOGUE_LIST ==> app.handle(command).todolist == app.todolist,
        app.selected_list == QUEUE_LIST ==> app.handle(command).main_list == app.main_list,
        app.handle(command).selected_list == app.settle().selected_list,
{
}

/// The faction in play bears on what is shown only: putting the other one in
/// play leaves the catalogue, both lists and their cursors as they are.
pub proof fn lemma_toggle_keeps_lists(app: AppModel)
    ensures
        app.handle(Command::ToggleFactionFilter).faction == app.faction.other(),
        app.handle(Command::ToggleFactionFilter).catalogue == app.catalogue,
        app.handle(Command::ToggleFactionFilter).main_list == app.main_list,
        app.handle(Command::ToggleFactionFilter).todolist == app.todolist,
{
}

pub struct App {
    pub catalogue: Vec<Category>,
    pub main_list: DividedList<Entry>,
    pub todolist: StatefulList<Entry>,
    pub selected_list: usize,
    pub faction: Faction,
}

impl View for App {
    type V = AppModel;

    open spec fn view(&self) -> AppModel {
        AppModel {
            catalogue: self.catalogue@,
            main_list: self.main_list@,
            todolist: self.todolist@,
            selected_list: self.selected_list,
            faction: self.faction,
        }
    }
}

impl App {
    /// The planner as it starts: the factory's catalogue laid out in the
    /// main list, an empty queue, no row highlighted, the cursor with the
    /// catalogue and the wardens in play.
    pub fn new() -> (app: Self)
        ensures
            is_mpf_catalogue(app@.catalogue),
            app@.main_list == (ListModel {
                selected: None,
                last_pos: None,
                items: catalogue_rows(app@.catalogue),
            }),
            app@.todolist == (ListModel {
                selected: None,
                last_pos: None,
                items: Seq::<Entry>::empty(),
            }),
            app@.selected_list == CATALOGUE_LIST,
            app@.faction == Faction::Warden,
            app@.main_list.has_item(),
    {
        let catalogue = mpf_catalogue();
        let main_items = main_items(&catalogue);
        proof {
            lemma_catalogue_rows_have_item(catalogue@, 0);
        }
        Self {
            catalogue,
            main_list: DividedList::with_items(main_items),
            todolist: StatefulList::with_items(Vec::new()),
            selected_list: CATALOGUE_LIST,
            faction: Faction::Warden,
        }
    }

    /// Queues the item that the catalogue highlights.
    pub fn add_to_todolist(&mut self)
        requires
            old(self)@.catalogue_cursor_in_range(),
        ensures
            final(self)@ == old(self)@.add_to_todolist(),
            old(self)@.main_list.on_item() ==> sorted(
                final(self)@.catalogue,
                final(self)@.todolist.items,
            ),
    {
        if let Some(selected) = self.main_list.selected() {
            if let DividedListItem::Item(entry) = &self.main_list.list.items[selected] {
                let entry = *entry;
                self.todolist.push(entry);
                sort_queue(&self.catalogue, &mut self.todolist.items);
            }
        }
    }

    /// Takes the row that the queue highlights out of the queue.
    pub fn remove_from_todolist(&mut self)
        requires
            old(self)@.queue_cursor_in_range(),
        ensures
            final(self)@ == old(self)@.remove_from_todolist(),
    {
        if let Some(selected) = self.todolist.selected() {
            let _ = self.todolist.remove(selected);
        }
    }

    /// Puts the other faction in play.
    pub fn swap_faction(&mut self)
        ensures
            final(self)@ == old(self)@.swap_faction(),
    {
        self.faction = match self.faction {
            Faction::Warden => Faction::Colonial,
            Faction::Colonial => Faction::Warden,
        };
    }

    /// Whether `command` can be carried out as the planner stands.
    pub fn can_handle(&self, command: Command) -> (accepted: bool)
        ensures
            accepted == self@.accepts(command),
    {
        let queue_movable = self.todolist.selected().is_none() || self.todolist.items.len() > 0;
        if self.selected_list == CATALOGUE_LIST {
            match command {
                Command::MoveRight => queue_movable,
                Command::MoveUp | Command::MoveDown => self.main_list.has_item(),
                Command::Confirm => match self.main_list.selected() {
                    Some(i) => i < self.main_list.list.items.len(),
                    None => true,
                },
                _ => true,
            }
        } else if self.selected_list == QUEUE_LIST {
            match command {
                Command::MoveLeft => self.main_list.has_item(),
                Command::MoveUp | Command::MoveDown => queue_movable,
                Command::Confirm => match self.todolist.selected() {
                    Some(i) => i < self.todolist.items.len(),
                    None => true,
                },
                _ => true,
            }
        } else {
            true
        }
    }

    /// Carries `command` out and says what is left to the caller.
    pub fn handle(&mut self, command: Command) -> (action: Action)
        requires
            old(self)@.accepts(command),
        ensures
            final(self)@ == old(self)@.handle(command),
            action == command.action(),
    {
        if self.selected_list == CATALOGUE_LIST {
            match command {
                Command::MoveRight => {
                    self.main_list.unselect();
                    self.selected_list = QUEUE_LIST;
                    self.todolist.select_next();
                },
                Command::MoveUp => self.main_list.select_previous(),
                Command::MoveDown => self.main_list.select_next(),
                Command::Confirm => self.add_to_todolist(),
                _ => {},
            }
        } else if self.selected_list == QUEUE_LIST {
            match command {
                Command::MoveLeft => {
                    self.todolist.unselect();
                    self.selected_list = CATALOGUE_LIST;
                    self.main_list.select_next();
                },
                Command::MoveUp => self.todolist.select_previous(),
                Command::MoveDown => self.todolist.select_next(),
                Command::Confirm => self.remove_from_todolist(),
                _ => {},
            }
        } else {
            self.selected_list = CATALOGUE_LIST;
        }
        match command {
            Command::Quit => Action::Quit,
            Command::WriteOutput => Action::WriteOutput,
            Command::ToggleFactionFilter => {
                self.swap_faction();
                Action::Continue
            },
            _ => Action::Continue,
        }
    }

    /// Handles a key: carries out the command that it stands for, if any.
    pub fn handle_key(&mut self, key: Key) -> (action: Action)
        requires
            old(self)@.accepts_key(key),
        ensures
            final(self)@ == old(self)@.handle_key(key),
            action == match key.command() {
                Some(command) => command.action(),
                None => Action::Continue,
            },
    {
        match key.to_command() {
            Some(command) => self.handle(command),
            None => {
                if self.selected_list != CATALOGUE_LIST && self.selected_list != QUEUE_LIST {
                    self.selected_list = CATALOGUE_LIST;
                }
                Action::Continue
            },
        }
    }
}

} // verus!
