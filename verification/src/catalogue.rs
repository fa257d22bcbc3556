//! The items that the factory produces, by category.

use crate::divided_list::DividedListItem;
use crate::item::{Faction, Item};
use vstd::prelude::*;
use vstd::string::StringExecFns;

verus! {

/// A named group of items.
pub struct Category {
    pub name: String,
    pub items: Vec<Item>,
}

/// An item together with the place at which a catalogue lists it: the number
/// of its category and its position in that category.
#[derive(Clone, Copy, Debug)]
pub struct Entry {
    pub category: usize,
    pub position: usize,
    pub item: Item,
}

/// Whether the place of `entry` is one of `catalogue`.
pub open spec fn lists(catalogue: Seq<Category>, entry: Entry) -> bool {
    entry.category < catalogue.len() && entry.position < catalogue[entry.category as int].items@.len()
}

/// The number of the category that holds `entry`, and `usize::MAX` for an
/// entry whose place the catalogue does not have.
pub open spec fn category_of(catalogue: Seq<Category>, entry: Entry) -> usize {
    if lists(catalogue, entry) {
        entry.category
    } else {
        usize::MAX
    }
}

pub fn find_category(catalogue: &Vec<Category>, entry: &Entry) -> (n: usize)
    ensures
        n == category_of(catalogue@, *entry),
{
    if entry.category < catalogue.len() && entry.position < catalogue[entry.category].items.len() {
        entry.category
    } else {
        usize::MAX
    }
}

/// The rows under which a category is shown: its name as a divider, then its
/// items in order, each with its place. `number` is the category's number.
pub open spec fn category_rows(category: Category, number: usize) -> Seq<DividedListItem<Entry>> {
    seq![DividedListItem::Divider(category.name)] + Seq::new(
        category.items@.len(),
        |p: int|
            DividedListItem::Item(
                Entry { category: number, position: p as usize, item: category.items@[p] },
            ),
    )
}

/// The rows under which a catalogue is shown: those of its categories, one
/// category after the other.
pub open spec fn catalogue_rows(catalogue: Seq<Category>) -> Seq<DividedListItem<Entry>>
    decreases catalogue.len(),
{
    if catalogue.len() == 0 {
        Seq::empty()
    } else {
        catalogue_rows(catalogue.drop_last()) + category_rows(
            catalogue.last(),
            (catalogue.len() - 1) as usize,
        )
    }
}

/// Where a category of the catalogue has an item, one of the catalogue's rows
/// is an item.
pub proof fn lemma_catalogue_rows_have_item(catalogue: Seq<Category>, number: int)
    requires
        0 <= number < catalogue.len(),
        catalogue[number].items@.len() > 0,
    ensures
        exists|i: int|
            0 <= i < catalogue_rows(catalogue).len() && catalogue_rows(catalogue)[i] is Item,
    decreases catalogue.len(),
{
    let front = catalogue_rows(catalogue.drop_last());
    let last = category_rows(catalogue.last(), (catalogue.len() - 1) as usize);
    if number == catalogue.len() - 1 {
        assert(last[1] is Item);
        assert(catalogue_rows(catalogue)[front.len() as int + 1] == last[1]);
    } else {
        lemma_catalogue_rows_have_item(catalogue.drop_last(), number);
        let i = choose|i: int| 0 <= i < front.len() && front[i] is Item;
        assert(catalogue_rows(catalogue)[i] == front[i]);
    }
}

/// Every item among the rows of a catalogue has its place in that catalogue.
pub proof fn lemma_catalogue_rows_are_listed(catalogue: Seq<Category>, i: int)
    requires
        0 <= i < catalogue_rows(catalogue).len(),
        catalogue_rows(catalogue)[i] is Item,
        catalogue.len() <= usize::MAX,
        forall|k: int| 0 <= k < catalogue.len() ==> (#[trigger] catalogue[k]).items@.len() <= usize::MAX,
    ensures
        lists(catalogue, catalogue_rows(catalogue)[i]->Item_0),
    decreases catalogue.len(),
{
    let front = catalogue_rows(catalogue.drop_last());
    if i < front.len() {
        lemma_catalogue_rows_are_listed(catalogue.drop_last(), i);
    }
}

/// Lays a catalogue out as the rows of a divided list.
pub fn main_items(catalogue: &Vec<Category>) -> (rows: Vec<DividedListItem<Entry>>)
    ensures
        rows@ == catalogue_rows(catalogue@),
{
    let mut rows: Vec<DividedListItem<Entry>> = Vec::new();
    let mut k: usize = 0;
    while k < catalogue.len()
        invariant
            k <= catalogue.len(),
            rows@ == catalogue_rows(catalogue@.take(k as int)),
        decreases catalogue.len() - k,
    {
        let category = &catalogue[k];
        let ghost before = rows@;
        rows.push(DividedListItem::Divider(category.name.clone()));
        let mut p: usize = 0;
        while p < category.items.len()
            invariant
                p <= category.items.len(),
                rows@ == before + category_rows(*category, k).take(1 + p),
            decreases category.items.len() - p,
        {
            rows.push(
                DividedListItem::Item(Entry { category: k, position: p, item: category.items[p] }),
            );
            p += 1;
        }
        proof {
            let upto = catalogue@.take(k + 1);
            assert(upto.drop_last() == catalogue@.take(k as int));
            assert(category_rows(*category, k).take(1 + p) == category_rows(*category, k));
        }
        k += 1;
    }
    assert(catalogue@.take(k as int) == catalogue@);
    rows
}

/// The items of the category "Small Arms", in the order in which they are listed.
pub open spec fn small_arms_table() -> Seq<Item> {
    seq![
        Item::new("Booker Storm Rifle Model 838", None, 904, 0, 0, 0, Some(Faction::Warden)),
        Item::new("Aalto Storm Rifle 24", None, 904, 0, 0, 0, Some(Faction::Warden)),
        Item::new("\"Dusk\" ce.III", None, 904, 0, 0, 0, Some(Faction::Colonial)),
        Item::new("7.92mm", None, 660, 0, 0, 0, None),
        Item::new("Malone MK.2", None, 0, 0, 134, 0, Some(Faction::Warden)),
        Item::new("A3 Harpa Fragmentation Grenade", Some("Harpa"), 550, 110, 0, 0, Some(Faction::Warden)),
        Item::new_useless("Cascadier 837", None, 330, 0, 0, 0, Some(Faction::Warden)),
        Item::new("Catara mo.II", Some("Catara"), 904, 0, 0, 0, Some(Faction::Colonial)),
        Item::new("KRN886-127 Gast Machine Gun", Some("Gast"), 0, 0, 134, 0, Some(Faction::Colonial)),
        Item::new("Bombastone Grenade", Some("Bombastone"), 550, 110, 0, 0, Some(Faction::Colonial)),
        Item::new_useless("8mm", None, 220, 0, 0, 0, None),
        Item::new("Cometa T2-9", Some("Revolver"), 330, 0, 0, 0, None),
        Item::new("The Hangman 757", Some("Hangman"), 684, 0, 0, 0, Some(Faction::Warden)),
        Item::new("0.44", None, 220, 0, 0, 0, None),
        Item::new("Sampo Auto-Rifle 77", Some("Sampo"), 684, 0, 0, 0, Some(Faction::Warden)),
        Item::new("Blakerow 871", Some("Blakerow"), 770, 0, 0, 0, Some(Faction::Warden)),
        Item::new("Clancy Cinder M3", Some("Clancy Cinder"), 715, 0, 0, 0, Some(Faction::Warden)),
        Item::new("No.2 Loughcaster", Some("Loughcaster"), 550, 0, 0, 0, Some(Faction::Warden)),
        Item::new("Clancy-Raca M4", Some("Clancy-Raca"), 1100, 0, 79, 0, Some(Faction::Warden)),
        Item::new("Argenti r.II Rifle", Some("Argenti"), 550, 0, 0, 0, Some(Faction::Colonial)),
        Item::new("Volta r.I Repeater", Some("Volta"), 550, 0, 0, 0, Some(Faction::Colonial)),
        Item::new("Fuscina pi.I", Some("Fuscina"), 770, 0, 0, 0, Some(Faction::Colonial)),
        Item::new("KRR2-790 Omen", Some("Omen"), 849, 0, 0, 0, Some(Faction::Colonial)),
        Item::new("KRR3-792 Auger", Some("Auger"), 1100, 134, 0, 0, Some(Faction::Colonial)),
        Item::new("7.62", None, 440, 0, 0, 0, None),
        Item::new("Brasa Shotgun", Some("Shotgun"), 440, 0, 0, 0, None),
        Item::new("Buckshot", None, 440, 0, 0, 0, None),
        Item::new("No.1 \"The Liar\" Submachinegun", Some("The Liar"), 660, 0, 0, 0, Some(Faction::Warden)),
        Item::new("Fiddler Submachine Gun Model 868", Some("Fiddler"), 660, 0, 0, 0, Some(Faction::Warden)),
        Item::new("\"The Pitch Gun\" mc. V", Some("Pitch Gun"), 440, 0, 0, 0, Some(Faction::Colonial)),
        Item::new("\"Lionclaw\" mc.VIII", Some("Lionclaw"), 660, 0, 0, 0, Some(Faction::Colonial)),
        Item::new("9mm", None, 440, 0, 0, 0, None),
        Item::new("PT-815 Smoke Grenade", Some("Smoke Grenade"), 660, 0, 0, 0, None),
        Item::new("Green Ash Grenade", Some("Green Ash"), 770, 0, 0, 0, None),
        Item::new("12.7mm", None, 550, 0, 0, 0, None),
    ]
}

pub fn mpf_small_arms() -> (items: Vec<Item>)
    ensures
        items@ == small_arms_table(),
{
    vec![
        Item::new("Booker Storm Rifle Model 838", None, 904, 0, 0, 0, Some(Faction::Warden)),
        Item::new("Aalto Storm Rifle 24", None, 904, 0, 0, 0, Some(Faction::Warden)),
        Item::new("\"Dusk\" ce.III", None, 904, 0, 0, 0, Some(Faction::Colonial)),
        Item::new("7.92mm", None, 660, 0, 0, 0, None),
        Item::new("Malone MK.2", None, 0, 0, 134, 0, Some(Faction::Warden)),
        Item::new("A3 Harpa Fragmentation Grenade", Some("Harpa"), 550, 110, 0, 0, Some(Faction::Warden)),
        Item::new_useless("Cascadier 837", None, 330, 0, 0, 0, Some(Faction::Warden)),
        Item::new("Catara mo.II", Some("Catara"), 904, 0, 0, 0, Some(Faction::Colonial)),
        Item::new("KRN886-127 Gast Machine Gun", Some("Gast"), 0, 0, 134, 0, Some(Faction::Colonial)),
        Item::new("Bombastone Grenade", Some("Bombastone"), 550, 110, 0, 0, Some(Faction::Colonial)),
        Item::new_useless("8mm", None, 220, 0, 0, 0, None),
        Item::new("Cometa T2-9", Some("Revolver"), 330, 0, 0, 0, None),
        Item::new("The Hangman 757", Some("Hangman"), 684, 0, 0, 0, Some(Faction::Warden)),
        Item::new("0.44", None, 220, 0, 0, 0, None),
        Item::new("Sampo Auto-Rifle 77", Some("Sampo"), 684, 0, 0, 0, Some(Faction::Warden)),
        Item::new("Blakerow 871", Some("Blakerow"), 770, 0, 0, 0, Some(Faction::Warden)),
        Item::new("Clancy Cinder M3", Some("Clancy Cinder"), 715, 0, 0, 0, Some(Faction::Warden)),
        Item::new("No.2 Loughcaster", Some("Loughcaster"), 550, 0, 0, 0, Some(Faction::Warden)),
        Item::new("Clancy-Raca M4", Some("Clancy-Raca"), 1100, 0, 79, 0, Some(Faction::Warden)),
        Item::new("Argenti r.II Rifle", Some("Argenti"), 550, 0, 0, 0, Some(Faction::Colonial)),
        Item::new("Volta r.I Repeater", Some("Volta"), 550, 0, 0, 0, Some(Faction::Colonial)),
        Item::new("Fuscina pi.I", Some("Fuscina"), 770, 0, 0, 0, Some(Faction::Colonial)),
        Item::new("KRR2-790 Omen", Some("Omen"), 849, 0, 0, 0, Some(Faction::Colonial)),
        Item::new("KRR3-792 Auger", Some("Auger"), 1100, 134, 0, 0, Some(Faction::Colonial)),
        Item::new("7.62", None, 440, 0, 0, 0, None),
        Item::new("Brasa Shotgun", Some("Shotgun"), 440, 0, 0, 0, None),
        Item::new("Buckshot", None, 440, 0, 0, 0, None),
        Item::new("No.1 \"The Liar\" Submachinegun", Some("The Liar"), 660, 0, 0, 0, Some(Faction::Warden)),
        Item::new("Fiddler Submachine Gun Model 868", Some("Fiddler"), 660, 0, 0, 0, Some(Faction::Warden)),
        Item::new("\"The Pitch Gun\" mc. V", Some("Pitch Gun"), 440, 0, 0, 0, Some(Faction::Colonial)),
        Item::new("\"Lionclaw\" mc.VIII", Some("Lionclaw"), 660, 0, 0, 0, Some(Faction::Colonial)),
        Item::new("9mm", None, 440, 0, 0, 0, None),
        Item::new("PT-815 Smoke Grenade", Some("Smoke Grenade"), 660, 0, 0, 0, None),
        Item::new("Green Ash Grenade", Some("Green Ash"), 770, 0, 0, 0, None),
        Item::new("12.7mm", None, 550, 0, 0, 0, None),
    ]
}

/// The items of the category "Heavy Arms", in the order in which they are listed.
pub open spec fn heavy_arms_table() -> Seq<Item> {
    seq![
        Item::new("135 Neville Anti-Tank Rifle", Some("Anti-Tank Rifle"), 825, 0, 0, 0, Some(Faction::Warden)),
        Item::new("Typhon ra.XII", Some("Typhon"), 550, 0, 24, 0, Some(Faction::Colonial)),
        Item::new("20mm", None, 550, 0, 0, 0, None),
        Item::new("Mounted Bonesaw MK.3", Some("Mounted Bonesaw"), 550, 0, 24, 0, Some(Faction::Warden)),
        Item::new("Bonesaw MK.3", Some("Bonesaw"), 550, 0, 134, 0, Some(Faction::Warden)),
        Item::new("Venom c.II 35", Some("Venom"), 550, 0, 79, 0, Some(Faction::Colonial)),
        Item::new("Bane 45", Some("Bane"), 825, 0, 220, 0, Some(Faction::Colonial)),
        Item::new("AP/RPG", None, 330, 409, 0, 0, Some(Faction::Colonial)),
        Item::new("ARC/RPG", None, 330, 409, 0, 0, None),
        Item::new("Willow's Bane Model 845", Some("Flamethrower"), 904, 0, 165, 0, Some(Faction::Warden)),
        Item::new("\"Molten Wind\" v.II Flame Torch", Some("Flamethrower"), 1014, 0, 134, 0, Some(Faction::Colonial)),
        Item::new("KLG91-2 Lunaire F", Some("Lunaire"), 275, 0, 24, 0, Some(Faction::Colonial)),
        Item::new("Tremola Grenade GPb-1", Some("Tremola"), 825, 55, 0, 0, None),
        Item::new("Malone Ratcheter MK.1", Some("Malone Ratcheter"), 550, 0, 24, 0, Some(Faction::Warden)),
        Item::new("Lamentum mm.IV", Some("Lamentum"), 550, 0, 24, 0, Some(Faction::Colonial)),
        Item::new("Daucus isg.III", Some("ISG"), 550, 0, 24, 0, Some(Faction::Colonial)),
        Item::new("30mm", None, 440, 110, 0, 0, None),
        Item::new("Cremari Mortar", None, 550, 0, 134, 0, None),
        Item::new("Mortar Flare Shell", None, 330, 55, 0, 0, None),
        Item::new("Mortar Shrapnel Shell", None, 330, 79, 0, 0, None),
        Item::new("Mortar Shell", None, 330, 189, 0, 0, None),
        Item::new("BF5 White Ash Flask Grenade", Some("White Ash"), 550, 220, 0, 0, Some(Faction::Warden)),
        Item::new("Ignifist 30", Some("Ignifist"), 464, 189, 0, 0, Some(Faction::Colonial)),
        Item::new("Mammon 91-b", Some("Mammon"), 550, 55, 0, 0, None),
        Item::new("Anti-Tank Sticky Bomb", Some("Sticky Bomb"), 275, 275, 0, 0, None),
        Item::new("Cutler Foebreaker", Some("Foebreaker"), 550, 0, 24, 0, Some(Faction::Warden)),
        Item::new("Cutler Launcher 4", None, 550, 0, 189, 0, Some(Faction::Warden)),
        Item::new("RPG Shell", None, 330, 244, 0, 0, None),
    ]
}

pub fn mpf_heavy_arms() -> (items: Vec<Item>)
    ensures
        items@ == heavy_arms_table(),
{
    vec![
        Item::new("135 Neville Anti-Tank Rifle", Some("Anti-Tank Rifle"), 825, 0, 0, 0, Some(Faction::Warden)),
        Item::new("Typhon ra.XII", Some("Typhon"), 550, 0, 24, 0, Some(Faction::Colonial)),
        Item::new("20mm", None, 550, 0, 0, 0, None),
        Item::new("Mounted Bonesaw MK.3", Some("Mounted Bonesaw"), 550, 0, 24, 0, Some(Faction::Warden)),
        Item::new("Bonesaw MK.3", Some("Bonesaw"), 550, 0, 134, 0, Some(Faction::Warden)),
        Item::new("Venom c.II 35", Some("Venom"), 550, 0, 79, 0, Some(Faction::Colonial)),
        Item::new("Bane 45", Some("Bane"), 825, 0, 220, 0, Some(Faction::Colonial)),
        Item::new("AP/RPG", None, 330, 409, 0, 0, Some(Faction::Colonial)),
        Item::new("ARC/RPG", None, 330, 409, 0, 0, None),
        Item::new("Willow's Bane Model 845", Some("Flamethrower"), 904, 0, 165, 0, Some(Faction::Warden)),
        Item::new("\"Molten Wind\" v.II Flame Torch", Some("Flamethrower"), 1014, 0, 134, 0, Some(Faction::Colonial)),
        Item::new("KLG91-2 Lunaire F", Some("Lunaire"), 275, 0, 24, 0, Some(Faction::Colonial)),
        Item::new("Tremola Grenade GPb-1", Some("Tremola"), 825, 55, 0, 0, None),
        Item::new("Malone Ratcheter MK.1", Some("Malone Ratcheter"), 550, 0, 24, 0, Some(Faction::Warden)),
        Item::new("Lamentum mm.IV", Some("Lamentum"), 550, 0, 24, 0, Some(Faction::Colonial)),
        Item::new("Daucus isg.III", Some("ISG"), 550, 0, 24, 0, Some(Faction::Colonial)),
        Item::new("30mm", None, 440, 110, 0, 0, None),
        Item::new("Cremari Mortar", None, 550, 0, 134, 0, None),
        Item::new("Mortar Flare Shell", None, 330, 55, 0, 0, None),
        Item::new("Mortar Shrapnel Shell", None, 330, 79, 0, 0, None),
        Item::new("Mortar Shell", None, 330, 189, 0, 0, None),
        Item::new("BF5 White Ash Flask Grenade", Some("White Ash"), 550, 220, 0, 0, Some(Faction::Warden)),
        Item::new("Ignifist 30", Some("Ignifist"), 464, 189, 0, 0, Some(Faction::Colonial)),
        Item::new("Mammon 91-b", Some("Mammon"), 550, 55, 0, 0, None),
        Item::new("Anti-Tank Sticky Bomb", Some("Sticky Bomb"), 275, 275, 0, 0, None),
        Item::new("Cutler Foebreaker", Some("Foebreaker"), 550, 0, 24, 0, Some(Faction::Warden)),
        Item::new("Cutler Launcher 4", None, 550, 0, 189, 0, Some(Faction::Warden)),
        Item::new("RPG Shell", None, 330, 244, 0, 0, None),
    ]
}

/// The items of the category "Heavy Ammunition", in the order in which they are listed.
pub open spec fn heavy_ammunition_table() -> Seq<Item> {
    seq![
        Item::new("150mm", None, 660, 0, 0, 55, None),
        Item::new("120mm", None, 330, 79, 0, 0, None),
        Item::new("250mm", None, 660, 0, 0, 134, None),
        Item::new("68mm", None, 660, 660, 0, 0, None),
        Item::new("40mm", None, 880, 660, 0, 0, None),
    ]
}

pub fn mpf_heavy_ammunition() -> (items: Vec<Item>)
    ensures
        items@ == heavy_ammunition_table(),
{
    vec![
        Item::new("150mm", None, 660, 0, 0, 55, None),
        Item::new("120mm", None, 330, 79, 0, 0, None),
        Item::new("250mm", None, 660, 0, 0, 134, None),
        Item::new("68mm", None, 660, 660, 0, 0, None),
        Item::new("40mm", None, 880, 660, 0, 0, None),
    ]
}

/// The items of the category "Uniforms", in the order in which they are listed.
pub open spec fn uniforms_table() -> Seq<Item> {
    seq![
        Item::new("Specialist's Overcoat", None, 550, 0, 0, 0, Some(Faction::Warden)),
        Item::new("Gunner's Breastplate", None, 550, 0, 0, 0, Some(Faction::Warden)),
        Item::new("Sapper Gear", None, 550, 0, 0, 0, Some(Faction::Warden)),
        Item::new("Physician's Jacket", None, 550, 0, 0, 0, Some(Faction::Warden)),
        Item::new("Officer's Regalia", None, 550, 0, 0, 0, Some(Faction::Warden)),
        Item::new("Outrider's Mantle", None, 550, 0, 0, 0, Some(Faction::Warden)),
        Item::new("Caovish Parka", None, 550, 0, 0, 0, Some(Faction::Warden)),
        Item::new("Padded Boiler Suit", None, 550, 0, 0, 0, Some(Faction::Warden)),
        Item::new("Velian Flak Vest", None, 550, 0, 0, 0, Some(Faction::Colonial)),
        Item::new("Fabri Rucksack", None, 550, 0, 0, 0, Some(Faction::Colonial)),
        Item::new("Grenadier's Baldric", None, 550, 0, 0, 0, Some(Faction::Colonial)),
        Item::new("Medic Fatigues", None, 550, 0, 0, 0, Some(Faction::Colonial)),
        Item::new("Officialis' Attire", None, 550, 0, 0, 0, Some(Faction::Colonial)),
        Item::new("Legionary's Oilcoat", None, 550, 0, 0, 0, Some(Faction::Colonial)),
        Item::new("Recon Camo", None, 550, 0, 0, 0, Some(Faction::Colonial)),
        Item::new("Heavy Topcoat", None, 550, 0, 0, 0, Some(Faction::Colonial)),
        Item::new("Tankman's Coveralls", None, 550, 0, 0, 0, Some(Faction::Colonial)),
    ]
}

pub fn mpf_uniforms() -> (items: Vec<Item>)
    ensures
        items@ == uniforms_table(),
{
    vec![
        Item::new("Specialist's Overcoat", None, 550, 0, 0, 0, Some(Faction::Warden)),
        Item::new("Gunner's Breastplate", None, 550, 0, 0, 0, Some(Faction::Warden)),
        Item::new("Sapper Gear", None, 550, 0, 0, 0, Some(Faction::Warden)),
        Item::new("Physician's Jacket", None, 550, 0, 0, 0, Some(Faction::Warden)),
        Item::new("Officer's Regalia", None, 550, 0, 0, 0, Some(Faction::Warden)),
        Item::new("Outrider's Mantle", None, 550, 0, 0, 0, Some(Faction::Warden)),
        Item::new("Caovish Parka", None, 550, 0, 0, 0, Some(Faction::Warden)),
        Item::new("Padded Boiler Suit", None, 550, 0, 0, 0, Some(Faction::Warden)),
        Item::new("Velian Flak Vest", None, 550, 0, 0, 0, Some(Faction::Colonial)),
        Item::new("Fabri Rucksack", None, 550, 0, 0, 0, Some(Faction::Colonial)),
        Item::new("Grenadier's Baldric", None, 550, 0, 0, 0, Some(Faction::Colonial)),
        Item::new("Medic Fatigues", None, 550, 0, 0, 0, Some(Faction::Colonial)),
        Item::new("Officialis' Attire", None, 550, 0, 0, 0, Some(Faction::Colonial)),
        Item::new("Legionary's Oilcoat", None, 550, 0, 0, 0, Some(Faction::Colonial)),
        Item::new("Recon Camo", None, 550, 0, 0, 0, Some(Faction::Colonial)),
        Item::new("Heavy Topcoat", None, 550, 0, 0, 0, Some(Faction::Colonial)),
        Item::new("Tankman's Coveralls", None, 550, 0, 0, 0, Some(Faction::Colonial)),
    ]
}

/// Whether `categories` is the catalogue of the factory: its four categories
/// in their order, each with its name and its table.
pub open spec fn is_mpf_catalogue(categories: Seq<Category>) -> bool {
    &&& categories.len() == 4
    &&& categories[0].name@ == "Small Arms"@
    &&& categories[0].items@ == small_arms_table()
    &&& categories[1].name@ == "Heavy Arms"@
    &&& categories[1].items@ == heavy_arms_table()
    &&& categories[2].name@ == "Heavy Ammunition"@
    &&& categories[2].items@ == heavy_ammunition_table()
    &&& categories[3].name@ == "Uniforms"@
    &&& categories[3].items@ == uniforms_table()
}

/// The catalogue of the factory.
pub fn mpf_catalogue() -> (categories: Vec<Category>)
    ensures
        is_mpf_catalogue(categories@),
{
    let mut categories: Vec<Category> = Vec::new();
    categories.push(Category { name: String::from_str("Small Arms"), items: mpf_small_arms() });
    categories.push(Category { name: String::from_str("Heavy Arms"), items: mpf_heavy_arms() });
    categories.push(
        Category { name: String::from_str("Heavy Ammunition"), items: mpf_heavy_ammunition() },
    );
    categories.push(Category { name: String::from_str("Uniforms"), items: mpf_uniforms() });
    categories
}

} // verus!
