use task_manager::list::TaskList;
use task_manager::task::TodoItem;

fn list_of(n: i64) -> TaskList {
    let mut items = Vec::new();
    for id in 1..=n {
        items.push(TodoItem::new(id, &format!("task {}", id)));
    }
    TaskList::new(items)
}

fn descriptions(list: &TaskList) -> Vec<String> {
    (0..list.len()).map(|i| list.get(i).description().to_string()).collect()
}

#[test]
fn new_selects_first_task() {
    assert_eq!(list_of(3).selected(), Some(0));
    assert_eq!(list_of(0).selected(), None);
    assert!(list_of(0).is_empty());
}

#[test]
fn next_and_previous_clamp_at_the_ends() {
    let mut list = list_of(3);
    list.select_previous();
    assert_eq!(list.selected(), Some(0));
    list.select_next();
    assert_eq!(list.selected(), Some(1));
    list.select_next();
    list.select_next();
    list.select_next();
    assert_eq!(list.selected(), Some(2));
    list.select_previous();
    assert_eq!(list.selected(), Some(1));
}

#[test]
fn cursor_stays_in_range_on_every_move() {
    for n in 1..5 {
        let mut list = list_of(n);
        for step in 0..20 {
            match step % 4 {
                0 | 1 => list.select_next(),
                2 => list.select_previous(),
                _ => list.select_next(),
            }
            let c = list.selected().unwrap();
            assert!(c < list.len());
        }
    }
}

#[test]
fn moves_on_empty_list_keep_cursor_unset() {
    let mut list = list_of(0);
    list.select_next();
    list.select_previous();
    list.select_first();
    list.select_last();
    assert_eq!(list.selected(), None);
}

#[test]
fn first_and_last_jump() {
    let mut list = list_of(4);
    list.select_last();
    assert_eq!(list.selected(), Some(3));
    list.select_first();
    assert_eq!(list.selected(), Some(0));
}

#[test]
fn append_selects_new_task() {
    let mut list = list_of(2);
    list.append(TodoItem::new(9, "new"));
    assert_eq!(list.len(), 3);
    assert_eq!(list.selected(), Some(2));
    assert_eq!(list.get(2).id(), 9);
    assert_eq!(list.get(2).description(), "new");
    assert!(!list.get(2).is_done());
}

#[test]
fn append_then_remove_restores_tasks() {
    let mut list = list_of(3);
    list.select_first();
    let before = descriptions(&list);
    list.append(TodoItem::new(7, "extra"));
    list.remove(3);
    assert_eq!(descriptions(&list), before);
    assert_eq!(list.selected(), Some(2));

    let mut empty = list_of(0);
    empty.append(TodoItem::new(1, "only"));
    empty.remove(0);
    assert!(empty.is_empty());
    assert_eq!(empty.selected(), None);
}

#[test]
fn remove_in_middle_keeps_cursor() {
    let mut list = list_of(3);
    list.select_next();
    list.remove(1);
    assert_eq!(descriptions(&list), vec!["task 1", "task 3"]);
    assert_eq!(list.selected(), Some(1));
}

#[test]
fn remove_last_moves_cursor_to_new_last() {
    let mut list = list_of(3);
    list.select_last();
    list.remove(2);
    assert_eq!(list.len(), 2);
    assert_eq!(list.selected(), Some(1));
}

#[test]
fn remove_only_task_unsets_cursor() {
    let mut list = list_of(1);
    list.remove(0);
    assert_eq!(list.len(), 0);
    assert_eq!(list.selected(), None);
}

#[test]
fn remove_out_of_range_does_nothing() {
    let mut list = list_of(2);
    list.remove(5);
    assert_eq!(list.len(), 2);
    assert_eq!(list.selected(), Some(0));
}

#[test]
fn toggle_twice_restores_flag() {
    let mut list = list_of(2);
    list.toggle(1);
    assert!(list.get(1).is_done());
    assert!(!list.get(0).is_done());
    list.toggle(1);
    assert!(!list.get(1).is_done());
}

#[test]
fn toggle_out_of_range_does_nothing() {
    let mut list = list_of(1);
    list.toggle(3);
    assert!(!list.get(0).is_done());
}

#[test]
fn row_flag_nonzero_means_done() {
    assert!(TodoItem::from_row(1, "a".to_string(), 1).is_done());
    assert!(TodoItem::from_row(2, "b".to_string(), -3).is_done());
    assert!(!TodoItem::from_row(3, "c".to_string(), 0).is_done());
    assert_eq!(TodoItem::from_row(4, "d".to_string(), 0).description(), "d");
}
