use worker_engine::ActiveTab;
use worker_engine::TodoItem;

#[test]
fn test_active_tab_index() {
    assert_eq!(ActiveTab::Table.index(), 0);
    assert_eq!(ActiveTab::Raw.index(), 1);
}

#[test]
fn test_active_tab_next() {
    assert_eq!(ActiveTab::Table.next(), ActiveTab::Raw);
    assert_eq!(ActiveTab::Raw.next(), ActiveTab::Table);
}

#[test]
fn new_todo_item_is_open() {
    let item = TodoItem::new("Write a worker".to_string());
    assert_eq!(item.text, "Write a worker");
    assert!(!item.completed);
}

#[test]
fn toggling_twice_restores_the_item() {
    let mut item = TodoItem::new("Ship it".to_string());
    item.toggle();
    assert!(item.completed);
    assert_eq!(item.text, "Ship it");
    item.toggle();
    assert!(!item.completed);
    assert_eq!(item.text, "Ship it");
}
