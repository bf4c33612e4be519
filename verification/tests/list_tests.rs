use pman::list::FuzzyList;
use pman::session::TmuxSession;

fn session(name: &str) -> TmuxSession {
    TmuxSession {
        name: name.to_string(),
        attached: false,
        path: None,
        windows: 1,
        created: None,
    }
}

fn order_of(list: &FuzzyList<TmuxSession>) -> Vec<usize> {
    let mut v = Vec::new();
    let mut k = 0;
    while k < list.filtered_len() {
        v.push(list.filtered_index_at(k));
        k += 1;
    }
    v
}

#[test]
fn empty_query_gives_identity_order() {
    let mut list: FuzzyList<TmuxSession> = FuzzyList::new("Sessions".to_string());
    list.set_items(vec![session("alpha"), session("beta"), session("gamma")]);
    assert_eq!(order_of(&list), vec![0, 1, 2]);
    assert_eq!(list.cursor(), Some(0));
}

#[test]
fn wor_query_filters_work_and_worship_only() {
    let mut list: FuzzyList<TmuxSession> = FuzzyList::new("Sessions".to_string());
    list.set_items(vec![session("work"), session("worship"), session("play")]);
    list.push_char('w');
    list.push_char('o');
    list.push_char('r');
    let order = order_of(&list);
    assert_eq!(order.len(), 2);
    assert!(order.contains(&0));
    assert!(order.contains(&1));
    assert!(!order.contains(&2));
}

#[test]
fn unmatched_query_empties_order_and_cursor() {
    let mut list: FuzzyList<TmuxSession> = FuzzyList::new("Sessions".to_string());
    list.set_items(vec![session("work"), session("play")]);
    for c in "zzz".chars() {
        list.push_char(c);
    }
    assert_eq!(list.filtered_len(), 0);
    assert_eq!(list.cursor(), None);
    assert!(list.selected().is_none());
}

#[test]
fn set_items_twice_is_idempotent() {
    let mut list: FuzzyList<TmuxSession> = FuzzyList::new("Sessions".to_string());
    let items = vec![session("work"), session("worship"), session("play")];
    list.push_char('w');
    list.set_items(items.clone());
    list.move_down();
    let order1 = order_of(&list);
    let cursor1 = list.cursor();
    list.set_items(items);
    assert_eq!(order_of(&list), order1);
    assert_eq!(list.cursor(), cursor1);
}

#[test]
fn cursor_invariant_holds_after_operation_sequences() {
    let mut list: FuzzyList<TmuxSession> = FuzzyList::new("Sessions".to_string());
    list.set_items(vec![session("one"), session("two"), session("three")]);
    list.move_down();
    list.push_char('t');
    list.move_up();
    list.pop_char();
    list.page_down(5);
    list.page_up(2);
    list.clear_query();
    list.set_items(vec![session("solo")]);
    match list.cursor() {
        Some(c) => assert!(c < list.filtered_len()),
        None => assert_eq!(list.filtered_len(), 0),
    }
    list.set_items(Vec::new());
    assert_eq!(list.cursor(), None);
    list.move_up();
    list.move_down();
    assert_eq!(list.cursor(), None);
}

#[test]
fn move_up_and_down_wrap_around() {
    let mut list: FuzzyList<TmuxSession> = FuzzyList::new("Sessions".to_string());
    list.set_items(vec![session("a"), session("b"), session("c")]);
    assert_eq!(list.cursor(), Some(0));
    list.move_up();
    assert_eq!(list.cursor(), Some(2));
    list.move_down();
    assert_eq!(list.cursor(), Some(0));
    list.move_down();
    assert_eq!(list.cursor(), Some(1));
}

#[test]
fn paging_saturates_without_wrapping() {
    let mut list: FuzzyList<TmuxSession> = FuzzyList::new("Sessions".to_string());
    list.set_items(vec![session("a"), session("b"), session("c"), session("d")]);
    list.page_down(10);
    assert_eq!(list.cursor(), Some(3));
    list.page_down(10);
    assert_eq!(list.cursor(), Some(3));
    list.page_up(2);
    assert_eq!(list.cursor(), Some(1));
    list.page_up(10);
    assert_eq!(list.cursor(), Some(0));
}

#[test]
fn selected_follows_cursor_through_filter() {
    let mut list: FuzzyList<TmuxSession> = FuzzyList::new("Sessions".to_string());
    list.set_items(vec![session("work"), session("worship"), session("play")]);
    list.push_char('w');
    let first = list.selected().expect("a match is selected").name.clone();
    list.move_down();
    let second = list.selected().expect("a match is selected").name.clone();
    assert_ne!(first, second);
    assert!(first.starts_with("wor"));
    assert!(second.starts_with("wor"));
    assert_eq!(list.query(), "w");
}

#[test]
fn shrinking_filter_clamps_cursor_to_top() {
    let mut list: FuzzyList<TmuxSession> = FuzzyList::new("Sessions".to_string());
    list.set_items(vec![session("aa"), session("ab"), session("ac")]);
    list.move_down();
    list.move_down();
    assert_eq!(list.cursor(), Some(2));
    list.push_char('a');
    list.push_char('b');
    assert_eq!(list.filtered_len(), 1);
    assert_eq!(list.cursor(), Some(0));
    assert_eq!(list.selected().unwrap().name, "ab");
}

#[test]
fn reset_discards_query_and_cursor() {
    let mut list: FuzzyList<TmuxSession> = FuzzyList::new("Sessions".to_string());
    list.set_items(vec![session("work"), session("worship"), session("play")]);
    list.push_char('w');
    list.move_down();
    assert_eq!(list.cursor(), Some(1));
    list.reset();
    assert_eq!(list.query(), "");
    assert_eq!(list.cursor(), Some(0));
    assert_eq!(order_of(&list), vec![0, 1, 2]);
}

#[test]
fn search_text_reaches_the_scorer() {
    // The same candidate set filters differently under different queries, so
    // the scorer must be reading the handed-over search text.
    let mut list: FuzzyList<TmuxSession> = FuzzyList::new("Sessions".to_string());
    list.set_items(vec![session("alpha"), session("beta")]);
    list.push_char('a');
    list.push_char('l');
    assert_eq!(order_of(&list), vec![0]);
    list.clear_query();
    list.push_char('b');
    list.push_char('e');
    assert_eq!(order_of(&list), vec![1]);
}
