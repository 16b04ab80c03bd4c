use todo_cli::task::{Todo, TodoList};

#[test]
fn test_clear() {
    let mut todo_list = TodoList::new();
    todo_list.add_todo("task 1", 1);
    todo_list.add_todo("task 2", 2);
    todo_list.clear_todo();
    assert_eq!(todo_list.todos.len(), 0);

    todo_list.clear_todo();
    assert_eq!(todo_list.todos.len(), 0);
}

#[test]
fn test_add() {
    let mut todo_list = TodoList::new();
    todo_list.add_todo("task 1", 1);
    assert_eq!(todo_list.todos.len(), 1);

    todo_list.add_todo("Invalid task", 0);
    assert_eq!(todo_list.todos.len(), 1);

    todo_list.add_todo("Invalid task", 6);
    assert_eq!(todo_list.todos.len(), 1);
}

#[test]
fn test_delete() {
    let mut todo_list = TodoList::new();
    todo_list.remove_todo(1);
    assert_eq!(todo_list.todos.len(), 0);

    todo_list.add_todo("task 1", 1);
    todo_list.add_todo("task 2", 2);
    todo_list.add_todo("task 3", 3);

    todo_list.remove_todo(0);
    assert_eq!(todo_list.todos.len(), 3);

    todo_list.remove_todo(4);
    assert_eq!(todo_list.todos.len(), 3);

    todo_list.remove_todo(1);
    assert_eq!(todo_list.todos.len(), 2);

    assert_eq!(todo_list.todos[0].task, "task 2");
    assert_eq!(todo_list.todos[1].task, "task 3");
}

#[test]
fn test_edit() {
    let mut todo_list = TodoList::new();

    todo_list.add_todo("task 1", 1);
    todo_list.add_todo("task 2", 2);
    todo_list.add_todo("task 3", 3);

    todo_list.edit_todo("edited task", 1);
    assert_eq!(todo_list.todos[0].task, "edited task");

    todo_list.edit_todo("bad edited task", 4);
    assert_eq!(todo_list.todos[0].task, "edited task");
    assert_eq!(todo_list.todos[1].task, "task 2");
    assert_eq!(todo_list.todos[2].task, "task 3");
}

fn ids(list: &TodoList) -> Vec<u64> {
    list.todos.iter().map(|t| t.id).collect()
}

fn tasks(todos: &[Todo]) -> Vec<String> {
    todos.iter().map(|t| t.task.clone()).collect()
}

#[test]
fn valid_adds_number_ids_densely() {
    let mut list = TodoList::new();
    for (k, p) in [1u64, 5, 3, 2, 4].iter().enumerate() {
        assert!(list.add_todo_at("t", *p, 100));
        assert_eq!(ids(&list), (1..=(k as u64 + 1)).collect::<Vec<u64>>());
    }
}

#[test]
fn invalid_priority_is_refused_and_consumes_no_id() {
    let mut list = TodoList::new();
    assert!(list.add_todo_at("a", 2, 10));
    assert!(!list.add_todo_at("bad", 0, 10));
    assert!(!list.add_todo_at("bad", 6, 10));
    assert!(!list.add_todo_at("bad", u64::MAX, 10));
    assert_eq!(list.todos.len(), 1);
    assert!(list.add_todo_at("b", 5, 11));
    assert_eq!(ids(&list), vec![1, 2]);
    assert_eq!(list.todos[1].task, "b");
    assert_eq!(list.todos[1].priority, 5);
    assert_eq!(list.todos[1].created, 11);
}

#[test]
fn add_with_clock_stamps_a_time_after_the_epoch() {
    let mut list = TodoList::new();
    assert!(list.add_todo("now", 3));
    assert!(list.todos[0].created > 1_500_000_000);
}

#[test]
fn remove_out_of_range_changes_nothing() {
    let mut list = TodoList::new();
    assert!(!list.remove_todo(1));
    list.add_todo_at("a", 1, 1);
    list.add_todo_at("b", 2, 2);
    assert!(!list.remove_todo(0));
    assert!(!list.remove_todo(3));
    assert_eq!(tasks(&list.todos), vec!["a", "b"]);
    assert_eq!(ids(&list), vec![1, 2]);
}

#[test]
fn remove_renumbers_survivors_in_order() {
    let mut list = TodoList::new();
    list.add_todo_at("task 1", 1, 10);
    list.add_todo_at("task 2", 2, 20);
    list.add_todo_at("task 3", 3, 30);
    list.add_todo_at("task 4", 4, 40);
    assert!(list.remove_todo(2));
    assert_eq!(ids(&list), vec![1, 2, 3]);
    assert_eq!(tasks(&list.todos), vec!["task 1", "task 3", "task 4"]);
    assert_eq!(list.todos[1].priority, 3);
    assert_eq!(list.todos[1].created, 30);
    assert!(list.remove_todo(3));
    assert_eq!(ids(&list), vec![1, 2]);
    assert_eq!(tasks(&list.todos), vec!["task 1", "task 3"]);
}

#[test]
fn edit_out_of_range_and_zero_change_nothing() {
    let mut list = TodoList::new();
    list.add_todo_at("task 1", 1, 1);
    list.add_todo_at("task 2", 2, 2);
    list.add_todo_at("task 3", 3, 3);
    assert!(!list.edit_todo("bad", 4));
    assert!(!list.edit_todo("bad", 0));
    assert_eq!(tasks(&list.todos), vec!["task 1", "task 2", "task 3"]);
}

#[test]
fn edit_changes_only_the_description() {
    let mut list = TodoList::new();
    list.add_todo_at("task 1", 1, 7);
    list.add_todo_at("task 2", 4, 8);
    assert!(list.edit_todo("new", 2));
    assert_eq!(tasks(&list.todos), vec!["task 1", "new"]);
    assert_eq!(ids(&list), vec![1, 2]);
    assert_eq!(list.todos[1].priority, 4);
    assert_eq!(list.todos[1].created, 8);
    assert_eq!(list.todos[0].priority, 1);
    assert_eq!(list.todos[0].created, 7);
}

#[test]
fn clear_on_empty_store() {
    let mut list = TodoList::new();
    list.clear_todo();
    assert_eq!(list.todos.len(), 0);
}

#[test]
fn priority_order_is_stable() {
    let mut list = TodoList::new();
    list.add_todo_at("low a", 1, 1);
    list.add_todo_at("high a", 5, 2);
    list.add_todo_at("mid", 3, 3);
    list.add_todo_at("high b", 5, 4);
    list.add_todo_at("low b", 1, 5);
    let view = list.order_by_priority();
    assert_eq!(tasks(&view), vec!["high a", "high b", "mid", "low a", "low b"]);
    let view_ids: Vec<u64> = view.iter().map(|t| t.id).collect();
    assert_eq!(view_ids, vec![2, 4, 3, 1, 5]);
}

#[test]
fn creation_order_is_stable() {
    let mut list = TodoList::new();
    list.add_todo_at("c", 1, 30);
    list.add_todo_at("a1", 2, 10);
    list.add_todo_at("b", 3, 20);
    list.add_todo_at("a2", 4, 10);
    let view = list.order_by_creation();
    assert_eq!(tasks(&view), vec!["a1", "a2", "b", "c"]);
}

#[test]
fn orderings_leave_the_store_unchanged() {
    let mut list = TodoList::new();
    list.add_todo_at("x", 1, 30);
    list.add_todo_at("y", 5, 10);
    let _ = list.order_by_priority();
    let _ = list.order_by_creation();
    assert_eq!(tasks(&list.todos), vec!["x", "y"]);
    assert_eq!(ids(&list), vec![1, 2]);
}

#[test]
fn saved_records_restore_to_the_same_store() {
    let mut list = TodoList::new();
    list.add_todo_at("a", 2, 100);
    list.add_todo_at("b", 4, 200);
    let records = list.into_todos();
    let back = TodoList::restore(Some(records)).expect("valid records");
    assert_eq!(ids(&back), vec![1, 2]);
    assert_eq!(tasks(&back.todos), vec!["a", "b"]);
    assert_eq!(back.todos[1].priority, 4);
    assert_eq!(back.todos[1].created, 200);
}

#[test]
fn nothing_saved_restores_an_empty_store() {
    let list = TodoList::restore(None).expect("empty store");
    assert_eq!(list.todos.len(), 0);
}

#[test]
fn invalid_records_are_refused() {
    let gap = vec![
        Todo { id: 1, task: "a".to_string(), priority: 1, created: 0 },
        Todo { id: 3, task: "b".to_string(), priority: 1, created: 0 },
    ];
    assert!(TodoList::from_todos(gap).is_none());
    let bad_priority = vec![Todo { id: 1, task: "a".to_string(), priority: 9, created: 0 }];
    assert!(TodoList::from_todos(bad_priority).is_none());
    let bad_time = vec![Todo { id: 1, task: "a".to_string(), priority: 1, created: -1 }];
    assert!(TodoList::from_todos(bad_time).is_none());
    let ok = vec![Todo { id: 1, task: "a".to_string(), priority: 1, created: 0 }];
    assert!(TodoList::from_todos(ok).is_some());
}
