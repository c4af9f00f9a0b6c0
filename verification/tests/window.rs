use scroll_anchor::item::Item;
use scroll_anchor::window::ItemWindow;

fn item(id: u128) -> Item {
    Item { id, payload: format!("message {}", id) }
}

fn items(ids: &[u128]) -> Vec<Item> {
    ids.iter().map(|id| item(*id)).collect()
}

fn ids(window: &ItemWindow) -> Vec<u128> {
    window.items().iter().map(|item| item.id).collect()
}

#[test]
fn new_window_is_empty() {
    let window = ItemWindow::new();
    assert_eq!(window.len(), 0);
    assert!(window.is_empty());
    assert!(window.items().is_empty());
}

#[test]
fn from_items_keeps_display_order() {
    let window = ItemWindow::from_items(items(&[7, 8, 9]));
    assert_eq!(window.len(), 3);
    assert!(!window.is_empty());
    assert_eq!(ids(&window), vec![7, 8, 9]);
    assert_eq!(window.items()[0], item(7));
}

#[test]
fn prepend_inserts_at_index_zero_in_batch_order() {
    let mut window = ItemWindow::from_items(items(&[10, 11]));
    window.prepend(items(&[1, 2, 3]));
    assert_eq!(ids(&window), vec![1, 2, 3, 10, 11]);
}

#[test]
fn append_inserts_at_the_end_in_batch_order() {
    let mut window = ItemWindow::from_items(items(&[10, 11]));
    window.append(items(&[1, 2, 3]));
    assert_eq!(ids(&window), vec![10, 11, 1, 2, 3]);
}

#[test]
fn prepend_and_append_of_nothing_change_nothing() {
    let mut window = ItemWindow::from_items(items(&[4, 5]));
    window.prepend(Vec::new());
    window.append(Vec::new());
    assert_eq!(ids(&window), vec![4, 5]);
}

#[test]
fn trim_prefix_removes_the_first_items() {
    let mut window = ItemWindow::from_items(items(&[1, 2, 3, 4, 5]));
    window.trim_prefix(2);
    assert_eq!(ids(&window), vec![3, 4, 5]);
}

#[test]
fn trim_suffix_removes_the_last_items() {
    let mut window = ItemWindow::from_items(items(&[1, 2, 3, 4, 5]));
    window.trim_suffix(2);
    assert_eq!(ids(&window), vec![1, 2, 3]);
}

#[test]
fn trim_of_zero_is_a_no_op() {
    let mut window = ItemWindow::from_items(items(&[1, 2, 3]));
    window.trim_prefix(0);
    assert_eq!(ids(&window), vec![1, 2, 3]);
    window.trim_suffix(0);
    assert_eq!(ids(&window), vec![1, 2, 3]);
}

#[test]
fn trim_of_exactly_the_length_empties_the_window() {
    let mut window = ItemWindow::from_items(items(&[1, 2, 3]));
    window.trim_prefix(3);
    assert!(window.is_empty());
    let mut window = ItemWindow::from_items(items(&[1, 2, 3]));
    window.trim_suffix(3);
    assert!(window.is_empty());
}

#[test]
fn trim_underflow_removes_all_and_does_not_fail() {
    let mut window = ItemWindow::from_items(items(&[1, 2, 3]));
    window.trim_prefix(5);
    assert_eq!(window.len(), 0);
    let mut window = ItemWindow::from_items(items(&[1, 2, 3]));
    window.trim_suffix(usize::MAX);
    assert_eq!(window.len(), 0);
    window.trim_suffix(1);
    window.trim_prefix(1);
    assert_eq!(window.len(), 0);
}
