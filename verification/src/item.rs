//! The record of one producible item.

use vstd::prelude::*;

verus! {

/// The side that may produce an item.
#[derive(Clone, Copy, Debug, PartialEq, Eq, Structural)]
pub enum Faction {
    Warden,
    Colonial,
}

impl Faction {
    /// The other faction.
    pub open spec fn other(self) -> Faction {
        match self {
            Faction::Warden => Faction::Colonial,
            Faction::Colonial => Faction::Warden,
        }
    }

    /// The faction's name.
    pub open spec fn name(self) -> Seq<char> {
        match self {
            Faction::Warden => "Warden"@,
            Faction::Colonial => "Colonial"@,
        }
    }

    pub fn as_str(self) -> (name: &'static str)
        ensures
            name@ == self.name(),
    {
        match self {
            Faction::Warden => "Warden",
            Faction::Colonial => "Colonial",
        }
    }
}

/// One producible item with the materials that a queue of it costs.
#[derive(Clone, Copy, Debug)]
pub struct Item {
    pub name: &'static str,
    pub short_name: Option<&'static str>,
    pub bmats: u32,
    pub emats: u32,
    pub rmats: u32,
    pub hemats: u32,
    pub useless: bool,
    /// `None` for an item that either side may produce.
    pub faction: Option<Faction>,
}

impl Item {
    /// An item that is worth producing.
    pub open spec fn spec_new(
        name: &'static str,
        short_name: Option<&'static str>,
        bmats: u32,
        emats: u32,
        rmats: u32,
        hemats: u32,
        faction: Option<Faction>,
    ) -> Self {
        Item { name, short_name, bmats, emats, rmats, hemats, useless: false, faction }
    }

    /// An item that is listed though it is not worth producing.
    pub open spec fn spec_new_useless(
        name: &'static str,
        short_name: Option<&'static str>,
        bmats: u32,
        emats: u32,
        rmats: u32,
        hemats: u32,
        faction: Option<Faction>,
    ) -> Self {
        Item { name, short_name, bmats, emats, rmats, hemats, useless: true, faction }
    }

    #[verifier::when_used_as_spec(spec_new)]
    pub fn new(
        name: &'static str,
        short_name: Option<&'static str>,
        bmats: u32,
        emats: u32,
        rmats: u32,
        hemats: u32,
        faction: Option<Faction>,
    ) -> (item: Self)
        ensures
            item == Self::spec_new(name, short_name, bmats, emats, rmats, hemats, faction),
    {
        Self { name, short_name, bmats, emats, rmats, hemats, useless: false, faction }
    }

    #[verifier::when_used_as_spec(spec_new_useless)]
    pub fn new_useless(
        name: &'static str,
        short_name: Option<&'static str>,
        bmats: u32,
        emats: u32,
        rmats: u32,
        hemats: u32,
        faction: Option<Faction>,
    ) -> (item: Self)
        ensures
            item == Self::spec_new_useless(name, short_name, bmats, emats, rmats, hemats, faction),
    {
        Self { name, short_name, bmats, emats, rmats, hemats, useless: true, faction }
    }

    /// The label under which the item is queued: its short name where it has
    /// one, else its full name.
    pub open spec fn label(self) -> Seq<char> {
        match self.short_name {
            Some(short) => short@,
            None => self.name@,
        }
    }

    /// Whether the item is shown while `active` is the faction in play: an
    /// item tied to the other faction is hidden.
    pub open spec fn shown_to(self, active: Faction) -> bool {
        match self.faction {
            Some(faction) => faction == active,
            None => true,
        }
    }

    pub fn is_shown_to(&self, active: Faction) -> (shown: bool)
        ensures
            shown == self.shown_to(active),
    {
        match self.faction {
            Some(faction) => faction == active,
            None => true,
        }
    }
}

} // verus!
