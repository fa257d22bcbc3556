use mpf_queue::catalogue::{
    find_category, main_items, mpf_catalogue, mpf_heavy_ammunition, mpf_heavy_arms,
    mpf_small_arms, mpf_uniforms, Category, Entry,
};
use mpf_queue::divided_list::DividedListItem;
use mpf_queue::item::{Faction, Item};

fn entry_at(category: usize, position: usize) -> Entry {
    Entry { category, position, item: Item::new("Probe", None, 1, 0, 0, 0, None) }
}

#[test]
fn item_new_sets_every_field() {
    let item = Item::new("Bonesaw MK.3", Some("Bonesaw"), 550, 1, 134, 2, Some(Faction::Warden));
    assert_eq!(item.name, "Bonesaw MK.3");
    assert_eq!(item.short_name, Some("Bonesaw"));
    assert_eq!(item.bmats, 550);
    assert_eq!(item.emats, 1);
    assert_eq!(item.rmats, 134);
    assert_eq!(item.hemats, 2);
    assert!(!item.useless);
    assert_eq!(item.faction, Some(Faction::Warden));
}

#[test]
fn item_new_useless_sets_the_flag() {
    let item = Item::new_useless("8mm", None, 220, 0, 0, 0, None);
    assert_eq!(item.name, "8mm");
    assert_eq!(item.short_name, None);
    assert_eq!(item.bmats, 220);
    assert!(item.useless);
    assert_eq!(item.faction, None);
}

#[test]
fn item_is_shown_to_its_own_faction_only() {
    let warden = Item::new("W", None, 1, 0, 0, 0, Some(Faction::Warden));
    let colonial = Item::new("C", None, 1, 0, 0, 0, Some(Faction::Colonial));
    let neutral = Item::new("N", None, 1, 0, 0, 0, None);
    assert!(warden.is_shown_to(Faction::Warden));
    assert!(!warden.is_shown_to(Faction::Colonial));
    assert!(colonial.is_shown_to(Faction::Colonial));
    assert!(!colonial.is_shown_to(Faction::Warden));
    assert!(neutral.is_shown_to(Faction::Warden));
    assert!(neutral.is_shown_to(Faction::Colonial));
}

#[test]
fn faction_names() {
    assert_eq!(Faction::Warden.as_str(), "Warden");
    assert_eq!(Faction::Colonial.as_str(), "Colonial");
}

#[test]
fn tables_have_their_items() {
    assert_eq!(mpf_small_arms().len(), 35);
    assert_eq!(mpf_heavy_arms().len(), 28);
    assert_eq!(mpf_heavy_ammunition().len(), 5);
    assert_eq!(mpf_uniforms().len(), 17);
}

#[test]
fn small_arms_start_with_the_storm_rifle() {
    let table = mpf_small_arms();
    assert_eq!(table[0].name, "Booker Storm Rifle Model 838");
    assert_eq!(table[0].short_name, None);
    assert_eq!(table[0].bmats, 904);
    assert_eq!(table[0].faction, Some(Faction::Warden));
    assert_eq!(table[2].name, "\"Dusk\" ce.III");
    assert_eq!(table[2].faction, Some(Faction::Colonial));
    assert_eq!(table[5].short_name, Some("Harpa"));
    assert_eq!(table[5].emats, 110);
    assert!(table[6].useless);
    assert!(table[10].useless);
    assert!(!table[11].useless);
    assert_eq!(table[34].name, "12.7mm");
}

#[test]
fn heavy_ammunition_ends_with_40mm() {
    let table = mpf_heavy_ammunition();
    assert_eq!(table[4].name, "40mm");
    assert_eq!(table[4].bmats, 880);
    assert_eq!(table[4].emats, 660);
    assert_eq!(table[4].faction, None);
    assert_eq!(table[0].hemats, 55);
    assert_eq!(table[2].hemats, 134);
}

#[test]
fn heavy_arms_and_uniforms_hold_their_rows() {
    let arms = mpf_heavy_arms();
    assert_eq!(arms[0].short_name, Some("Anti-Tank Rifle"));
    assert_eq!(arms[6].rmats, 220);
    assert_eq!(arms[27].name, "RPG Shell");
    assert_eq!(arms[27].emats, 244);
    let uniforms = mpf_uniforms();
    assert_eq!(uniforms[0].name, "Specialist's Overcoat");
    assert_eq!(uniforms[16].name, "Tankman's Coveralls");
    assert_eq!(uniforms[16].faction, Some(Faction::Colonial));
}

#[test]
fn catalogue_names_its_four_categories() {
    let catalogue = mpf_catalogue();
    let names: Vec<&str> = catalogue.iter().map(|category| category.name.as_str()).collect();
    assert_eq!(names, vec!["Small Arms", "Heavy Arms", "Heavy Ammunition", "Uniforms"]);
    assert_eq!(catalogue[0].items.len(), 35);
    assert_eq!(catalogue[1].items.len(), 28);
    assert_eq!(catalogue[2].items.len(), 5);
    assert_eq!(catalogue[3].items.len(), 17);
    assert_eq!(catalogue[2].items[4].name, "40mm");
}

#[test]
fn main_items_put_each_category_under_its_divider() {
    let rows = main_items(&mpf_catalogue());
    assert_eq!(rows.len(), 4 + 85);
    assert!(matches!(&rows[0], DividedListItem::Divider(label) if label == "Small Arms"));
    assert!(matches!(&rows[36], DividedListItem::Divider(label) if label == "Heavy Arms"));
    assert!(matches!(&rows[65], DividedListItem::Divider(label) if label == "Heavy Ammunition"));
    assert!(matches!(&rows[71], DividedListItem::Divider(label) if label == "Uniforms"));
    let dividers = rows.iter().filter(|row| matches!(row, DividedListItem::Divider(_))).count();
    assert_eq!(dividers, 4);
}

#[test]
fn main_items_give_each_item_its_place() {
    let rows = main_items(&mpf_catalogue());
    match &rows[1] {
        DividedListItem::Item(entry) => {
            assert_eq!(entry.category, 0);
            assert_eq!(entry.position, 0);
            assert_eq!(entry.item.name, "Booker Storm Rifle Model 838");
        }
        DividedListItem::Divider(_) => panic!("row 1 is an item"),
    }
    match &rows[70] {
        DividedListItem::Item(entry) => {
            assert_eq!(entry.category, 2);
            assert_eq!(entry.position, 4);
            assert_eq!(entry.item.name, "40mm");
        }
        DividedListItem::Divider(_) => panic!("row 70 is an item"),
    }
    match &rows[88] {
        DividedListItem::Item(entry) => {
            assert_eq!(entry.category, 3);
            assert_eq!(entry.position, 16);
            assert_eq!(entry.item.name, "Tankman's Coveralls");
        }
        DividedListItem::Divider(_) => panic!("row 88 is an item"),
    }
}

#[test]
fn main_items_of_a_small_catalogue() {
    let catalogue = vec![
        Category { name: "Empty".to_string(), items: Vec::new() },
        Category {
            name: "Pair".to_string(),
            items: vec![Item::new("one", None, 1, 0, 0, 0, None), Item::new("two", None, 2, 0, 0, 0, None)],
        },
    ];
    let rows = main_items(&catalogue);
    assert_eq!(rows.len(), 4);
    assert!(matches!(&rows[0], DividedListItem::Divider(label) if label == "Empty"));
    assert!(matches!(&rows[1], DividedListItem::Divider(label) if label == "Pair"));
    assert!(matches!(&rows[2], DividedListItem::Item(entry)
        if entry.category == 1 && entry.position == 0 && entry.item.name == "one"));
    assert!(matches!(&rows[3], DividedListItem::Item(entry)
        if entry.category == 1 && entry.position == 1 && entry.item.name == "two"));
    assert!(main_items(&Vec::new()).is_empty());
}

#[test]
fn find_category_gives_the_category_of_a_listed_entry() {
    let catalogue = mpf_catalogue();
    assert_eq!(find_category(&catalogue, &entry_at(0, 0)), 0);
    assert_eq!(find_category(&catalogue, &entry_at(0, 34)), 0);
    assert_eq!(find_category(&catalogue, &entry_at(2, 4)), 2);
    assert_eq!(find_category(&catalogue, &entry_at(3, 16)), 3);
}

#[test]
fn find_category_gives_max_for_an_entry_that_is_not_listed() {
    let catalogue = mpf_catalogue();
    assert_eq!(find_category(&catalogue, &entry_at(0, 35)), usize::MAX);
    assert_eq!(find_category(&catalogue, &entry_at(2, 5)), usize::MAX);
    assert_eq!(find_category(&catalogue, &entry_at(4, 0)), usize::MAX);
    assert_eq!(find_category(&catalogue, &entry_at(usize::MAX, 0)), usize::MAX);
    assert_eq!(find_category(&Vec::new(), &entry_at(0, 0)), usize::MAX);
}
