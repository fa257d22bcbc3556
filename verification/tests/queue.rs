use mpf_queue::catalogue::{mpf_catalogue, Entry};
use mpf_queue::item::Item;
use mpf_queue::queue::{sort_queue, sorts_after};

fn entry(category: usize, position: usize, name: &'static str) -> Entry {
    Entry { category, position, item: Item::new(name, None, 1, 0, 0, 0, None) }
}

fn names(queue: &[Entry]) -> Vec<&'static str> {
    queue.iter().map(|entry| entry.item.name).collect()
}

#[test]
fn sorts_after_goes_by_category_first() {
    let catalogue = mpf_catalogue();
    assert!(sorts_after(&catalogue, &entry(1, 0, "a"), &entry(0, 34, "b")));
    assert!(!sorts_after(&catalogue, &entry(0, 34, "b"), &entry(1, 0, "a")));
}

#[test]
fn sorts_after_goes_by_position_within_a_category() {
    let catalogue = mpf_catalogue();
    assert!(sorts_after(&catalogue, &entry(1, 3, "a"), &entry(1, 2, "b")));
    assert!(!sorts_after(&catalogue, &entry(1, 2, "b"), &entry(1, 3, "a")));
}

#[test]
fn sorts_after_is_false_between_entries_of_one_place() {
    let catalogue = mpf_catalogue();
    assert!(!sorts_after(&catalogue, &entry(1, 2, "a"), &entry(1, 2, "b")));
    assert!(!sorts_after(&catalogue, &entry(1, 2, "b"), &entry(1, 2, "a")));
}

#[test]
fn sorts_after_puts_unlisted_entries_last() {
    let catalogue = mpf_catalogue();
    assert!(sorts_after(&catalogue, &entry(0, 99, "stray"), &entry(3, 16, "listed")));
    assert!(!sorts_after(&catalogue, &entry(3, 16, "listed"), &entry(0, 99, "stray")));
    assert!(sorts_after(&catalogue, &entry(7, 1, "x"), &entry(9, 0, "y")));
    assert!(!sorts_after(&catalogue, &entry(9, 0, "y"), &entry(7, 1, "x")));
}

#[test]
fn sort_queue_orders_by_category_then_position() {
    let catalogue = mpf_catalogue();
    let mut queue = vec![
        entry(2, 4, "40mm"),
        entry(0, 5, "Harpa"),
        entry(3, 0, "Overcoat"),
        entry(0, 0, "Booker"),
        entry(1, 27, "RPG Shell"),
        entry(1, 2, "20mm"),
    ];
    sort_queue(&catalogue, &mut queue);
    assert_eq!(names(&queue), vec!["Booker", "Harpa", "20mm", "RPG Shell", "40mm", "Overcoat"]);
}

#[test]
fn sort_queue_keeps_the_order_of_ties() {
    let catalogue = mpf_catalogue();
    let mut queue = vec![
        entry(1, 1, "first"),
        entry(0, 0, "front"),
        entry(1, 1, "second"),
        entry(1, 1, "third"),
        entry(1, 0, "before"),
    ];
    sort_queue(&catalogue, &mut queue);
    assert_eq!(names(&queue), vec!["front", "before", "first", "second", "third"]);
}

#[test]
fn sort_queue_puts_unlisted_entries_last() {
    let catalogue = mpf_catalogue();
    let mut queue = vec![
        entry(9, 1, "stray late"),
        entry(3, 16, "Coveralls"),
        entry(0, 40, "stray early"),
        entry(0, 1, "Aalto"),
    ];
    sort_queue(&catalogue, &mut queue);
    assert_eq!(names(&queue), vec!["Aalto", "Coveralls", "stray late", "stray early"]);
}

#[test]
fn sort_queue_leaves_an_ordered_queue_alone() {
    let catalogue = mpf_catalogue();
    let mut queue = vec![entry(0, 0, "a"), entry(0, 0, "b"), entry(0, 3, "c"), entry(2, 1, "d")];
    sort_queue(&catalogue, &mut queue);
    assert_eq!(names(&queue), vec!["a", "b", "c", "d"]);
}

#[test]
fn sort_queue_takes_short_queues() {
    let catalogue = mpf_catalogue();
    let mut none: Vec<Entry> = Vec::new();
    sort_queue(&catalogue, &mut none);
    assert!(none.is_empty());
    let mut one = vec![entry(1, 1, "only")];
    sort_queue(&catalogue, &mut one);
    assert_eq!(names(&one), vec!["only"]);
    let mut two = vec![entry(1, 1, "late"), entry(0, 1, "early")];
    sort_queue(&catalogue, &mut two);
    assert_eq!(names(&two), vec!["early", "late"]);
}

#[test]
fn sort_queue_reverses_a_reversed_queue() {
    let catalogue = mpf_catalogue();
    let mut queue: Vec<Entry> = (0..17).rev().map(|position| entry(3, position, "u")).collect();
    sort_queue(&catalogue, &mut queue);
    let positions: Vec<usize> = queue.iter().map(|entry| entry.position).collect();
    assert_eq!(positions, (0..17).collect::<Vec<usize>>());
}
