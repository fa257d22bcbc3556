use mpf_queue::item::{Faction, Item};
use mpf_queue::text::{
    crate_count, format_material_amount, format_material_amounts, format_todolist_entry,
    push_decimal,
};

fn harpa() -> Item {
    Item::new("A3 Harpa Fragmentation Grenade", Some("Harpa"), 550, 0, 110, 0, Some(Faction::Warden))
}

fn decimal(value: u32) -> String {
    let mut out = String::new();
    push_decimal(&mut out, value);
    out
}

#[test]
fn crate_count_rounds_up() {
    assert_eq!(crate_count(134, 20), 7);
    assert_eq!(crate_count(110, 20), 6);
    assert_eq!(crate_count(550, 100), 6);
    assert_eq!(crate_count(1, 20), 1);
    assert_eq!(crate_count(21, 20), 2);
}

#[test]
fn crate_count_of_full_crates_is_exact() {
    assert_eq!(crate_count(100, 100), 1);
    assert_eq!(crate_count(20, 20), 1);
    assert_eq!(crate_count(660, 20), 33);
    assert_eq!(crate_count(0, 20), 0);
}

#[test]
fn crate_count_of_large_amounts() {
    assert_eq!(crate_count(4_000_000_001, 100), 40_000_001);
    assert_eq!(crate_count(u32::MAX, 20), 214_748_365);
    assert_eq!(crate_count(u32::MAX, 1), u32::MAX);
    assert_eq!(crate_count(u32::MAX, u32::MAX), 1);
}

#[test]
fn push_decimal_writes_numerals() {
    assert_eq!(decimal(0), "0");
    assert_eq!(decimal(7), "7");
    assert_eq!(decimal(10), "10");
    assert_eq!(decimal(904), "904");
    assert_eq!(decimal(1100), "1100");
    assert_eq!(decimal(u32::MAX), "4294967295");
}

#[test]
fn push_decimal_appends() {
    let mut out = String::from("n=");
    push_decimal(&mut out, 42);
    assert_eq!(out, "n=42");
}

#[test]
fn format_material_amount_writes_amount_name_and_crates() {
    let mut out = String::new();
    let written = format_material_amount(&mut out, 134, "Rmats", 20, false);
    assert!(written);
    assert_eq!(out, "134 Rmats (7\u{1F4E6})");
}

#[test]
fn format_material_amount_puts_a_comma_after_an_earlier_material() {
    let mut out = String::from("550 Bmats (6\u{1F4E6})");
    let written = format_material_amount(&mut out, 110, "Emats", 20, true);
    assert!(written);
    assert_eq!(out, "550 Bmats (6\u{1F4E6}), 110 Emats (6\u{1F4E6})");
}

#[test]
fn format_material_amount_leaves_zero_out() {
    let mut out = String::from("x");
    assert!(!format_material_amount(&mut out, 0, "Emats", 20, false));
    assert_eq!(out, "x");
    assert!(format_material_amount(&mut out, 0, "Emats", 20, true));
    assert_eq!(out, "x");
}

#[test]
fn materials_summary_of_bmats_and_rmats() {
    assert_eq!(
        format_material_amounts(&harpa()),
        "550 Bmats (6\u{1F4E6}), 110 Rmats (6\u{1F4E6})"
    );
}

#[test]
fn materials_summary_of_nothing_is_empty() {
    let free = Item::new("Nothing", None, 0, 0, 0, 0, None);
    assert_eq!(format_material_amounts(&free), "");
}

#[test]
fn materials_summary_of_one_material_has_no_comma() {
    let malone = Item::new("Malone MK.2", None, 0, 0, 134, 0, Some(Faction::Warden));
    assert_eq!(format_material_amounts(&malone), "134 Rmats (7\u{1F4E6})");
    let shell = Item::new("Shell", None, 0, 0, 0, 55, None);
    assert_eq!(format_material_amounts(&shell), "55 HEmats (3\u{1F4E6})");
    let plain = Item::new("Plain", None, 100, 0, 0, 0, None);
    assert_eq!(format_material_amounts(&plain), "100 Bmats (1\u{1F4E6})");
}

#[test]
fn materials_summary_of_all_four_keeps_their_order() {
    let all = Item::new("All", None, 101, 20, 21, 1, None);
    assert_eq!(
        format_material_amounts(&all),
        "101 Bmats (2\u{1F4E6}), 20 Emats (1\u{1F4E6}), 21 Rmats (2\u{1F4E6}), 1 HEmats (1\u{1F4E6})"
    );
}

#[test]
fn entry_at_position_zero_is_labelled_a() {
    assert_eq!(
        format_todolist_entry(&harpa(), 0, false),
        "\u{1F1E6}\u{30FB}1 Queue of Harpa\u{30FB}550 Bmats (6\u{1F4E6}), 110 Rmats (6\u{1F4E6})"
    );
}

#[test]
fn entry_with_letter_width_hack_has_a_space_after_the_label() {
    assert_eq!(
        format_todolist_entry(&harpa(), 1, true),
        "\u{1F1E7} \u{30FB}1 Queue of Harpa\u{30FB}550 Bmats (6\u{1F4E6}), 110 Rmats (6\u{1F4E6})"
    );
}

#[test]
fn entry_without_short_name_shows_the_full_name() {
    let storm_rifle =
        Item::new("Booker Storm Rifle Model 838", None, 904, 0, 0, 0, Some(Faction::Warden));
    assert_eq!(
        format_todolist_entry(&storm_rifle, 2, false),
        "\u{1F1E8}\u{30FB}1 Queue of Booker Storm Rifle Model 838\u{30FB}904 Bmats (10\u{1F4E6})"
    );
}

#[test]
fn entry_without_materials_ends_after_the_name() {
    let free = Item::new("Nothing", Some("Nil"), 0, 0, 0, 0, None);
    assert_eq!(format_todolist_entry(&free, 0, false), "\u{1F1E6}\u{30FB}1 Queue of Nil\u{30FB}");
}

#[test]
fn entry_labels_follow_the_alphabet() {
    let line = format_todolist_entry(&harpa(), 25, false);
    assert_eq!(line.chars().next(), Some('\u{1F1FF}'));
    let line = format_todolist_entry(&harpa(), 3, false);
    assert_eq!(line.chars().next(), Some('\u{1F1E9}'));
}

#[test]
fn entry_labels_go_on_through_the_code_points() {
    let line = format_todolist_entry(&harpa(), 26, false);
    assert_eq!(line.chars().next(), Some('\u{1F200}'));
    let line = format_todolist_entry(&harpa(), 0xF0E19, false);
    assert_eq!(line.chars().next(), Some('\u{10FFFF}'));
}

#[test]
fn entry_label_is_x_once_the_code_points_are_used_up() {
    let line = format_todolist_entry(&harpa(), 0xF0E1A, false);
    assert_eq!(line.chars().next(), Some('X'));
    let line = format_todolist_entry(&harpa(), usize::MAX, true);
    assert!(line.starts_with("X \u{30FB}1 Queue of Harpa"));
}
