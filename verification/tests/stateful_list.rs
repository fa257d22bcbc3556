use mpf_queue::stateful_list::StatefulList;

fn letters() -> StatefulList<char> {
    StatefulList::with_items(vec!['a', 'b', 'c', 'd'])
}

#[test]
fn with_items_highlights_nothing() {
    let list = letters();
    assert_eq!(list.selected(), None);
    assert_eq!(list.state.selected(), None);
    assert_eq!(list.last_pos, None);
    assert_eq!(list.items, vec!['a', 'b', 'c', 'd']);
}

#[test]
fn select_next_from_nothing_takes_the_first_row() {
    let mut list = letters();
    list.select_next();
    assert_eq!(list.selected(), Some(0));
    assert_eq!(list.last_pos, None);
}

#[test]
fn select_previous_from_nothing_takes_the_first_row() {
    let mut list = letters();
    list.select_previous();
    assert_eq!(list.selected(), Some(0));
}

#[test]
fn select_next_advances_by_one() {
    let mut list = letters();
    list.select_next();
    list.select_next();
    assert_eq!(list.selected(), Some(1));
    list.select_next();
    assert_eq!(list.selected(), Some(2));
}

#[test]
fn select_next_wraps_from_last_to_first() {
    let mut list = letters();
    list.state.select(Some(3));
    list.select_next();
    assert_eq!(list.selected(), Some(0));
}

#[test]
fn select_previous_wraps_from_first_to_last() {
    let mut list = letters();
    list.state.select(Some(0));
    list.select_previous();
    assert_eq!(list.selected(), Some(3));
    list.select_previous();
    assert_eq!(list.selected(), Some(2));
}

#[test]
fn select_next_once_per_row_comes_back() {
    for start in 0..4 {
        let mut list = letters();
        list.state.select(Some(start));
        for _ in 0..list.items.len() {
            list.select_next();
        }
        assert_eq!(list.selected(), Some(start));
    }
}

#[test]
fn select_previous_once_per_row_comes_back() {
    for start in 0..4 {
        let mut list = letters();
        list.state.select(Some(start));
        for _ in 0..list.items.len() {
            list.select_previous();
        }
        assert_eq!(list.selected(), Some(start));
    }
}

#[test]
fn select_next_on_single_row_stays() {
    let mut list = StatefulList::with_items(vec![7u8]);
    list.select_next();
    assert_eq!(list.selected(), Some(0));
    list.select_next();
    assert_eq!(list.selected(), Some(0));
    list.select_previous();
    assert_eq!(list.selected(), Some(0));
}

#[test]
fn select_next_past_the_end_goes_to_first() {
    let mut list = letters();
    list.state.select(Some(9));
    list.select_next();
    assert_eq!(list.selected(), Some(0));
}

#[test]
fn select_next_on_empty_list_without_highlight_takes_row_zero() {
    let mut list: StatefulList<u8> = StatefulList::with_items(Vec::new());
    list.select_next();
    assert_eq!(list.selected(), Some(0));
}

#[test]
fn unselect_remembers_the_row() {
    let mut list = letters();
    list.state.select(Some(2));
    list.unselect();
    assert_eq!(list.selected(), None);
    assert_eq!(list.last_pos, Some(2));
}

#[test]
fn unselect_then_select_next_restores() {
    let mut list = letters();
    list.state.select(Some(2));
    list.unselect();
    list.select_next();
    assert_eq!(list.selected(), Some(2));
}

#[test]
fn unselect_then_select_previous_restores() {
    let mut list = letters();
    list.state.select(Some(3));
    list.unselect();
    list.select_previous();
    assert_eq!(list.selected(), Some(3));
}

#[test]
fn unselect_twice_is_unselect_once() {
    let mut once = letters();
    once.state.select(Some(1));
    once.unselect();
    let mut twice = letters();
    twice.state.select(Some(1));
    twice.unselect();
    twice.unselect();
    assert_eq!(twice.selected(), once.selected());
    assert_eq!(twice.last_pos, once.last_pos);
    assert_eq!(twice.last_pos, Some(1));
    assert_eq!(twice.items, once.items);
}

#[test]
fn unselect_without_highlight_keeps_the_remembered_row() {
    let mut list = letters();
    list.last_pos = Some(3);
    list.unselect();
    assert_eq!(list.selected(), None);
    assert_eq!(list.last_pos, Some(3));
}

#[test]
fn push_appends_and_keeps_the_cursor() {
    let mut list = letters();
    list.state.select(Some(1));
    list.last_pos = Some(3);
    list.push('e');
    assert_eq!(list.items, vec!['a', 'b', 'c', 'd', 'e']);
    assert_eq!(list.selected(), Some(1));
    assert_eq!(list.last_pos, Some(3));
}

#[test]
fn remove_returns_the_row_and_closes_the_gap() {
    let mut list = letters();
    let removed = list.remove(1);
    assert_eq!(removed, 'b');
    assert_eq!(list.items, vec!['a', 'c', 'd']);
}

#[test]
fn remove_selected_last_moves_the_highlight_back() {
    let mut list = letters();
    list.state.select(Some(3));
    let removed = list.remove(3);
    assert_eq!(removed, 'd');
    assert_eq!(list.selected(), Some(2));
    assert_eq!(list.items, vec!['a', 'b', 'c']);
}

#[test]
fn remove_selected_only_row_clears_the_highlight() {
    let mut list = StatefulList::with_items(vec!['x']);
    list.state.select(Some(0));
    let removed = list.remove(0);
    assert_eq!(removed, 'x');
    assert_eq!(list.selected(), None);
    assert!(list.items.is_empty());
}

#[test]
fn remove_selected_row_that_is_not_last_keeps_the_number() {
    let mut list = letters();
    list.state.select(Some(1));
    list.remove(1);
    assert_eq!(list.selected(), Some(1));
    assert_eq!(list.items[1], 'c');
}

#[test]
fn remove_without_highlight_keeps_none() {
    let mut list = letters();
    list.last_pos = Some(2);
    list.remove(3);
    assert_eq!(list.selected(), None);
    assert_eq!(list.last_pos, Some(2));
}

#[test]
fn remove_of_an_earlier_row_keeps_the_number() {
    let mut list = letters();
    list.state.select(Some(3));
    list.remove(0);
    assert_eq!(list.selected(), Some(3));
    assert_eq!(list.items, vec!['b', 'c', 'd']);
}

#[test]
fn remove_of_the_last_row_keeps_another_highlight() {
    let mut list = letters();
    list.state.select(Some(1));
    list.remove(3);
    assert_eq!(list.selected(), Some(1));
}
