use todo_list::app::App;
use todo_list::todo::TodoItem;

fn app_with(texts: &[&str]) -> App {
    let mut app = App::new();
    for t in texts {
        app.todos.push(TodoItem { text: t.to_string(), completed: false });
    }
    app
}

#[test]
fn add_appends_and_drains_input() {
    let mut app = App::new();
    for c in "buy milk".chars() {
        app.char_input(c);
    }
    app.add_todo();
    assert_eq!(app.todos.len(), 1);
    assert_eq!(app.todos[0].text, "buy milk");
    assert!(!app.todos[0].completed);
    assert_eq!(app.input, "");
}

#[test]
fn add_with_empty_input_is_a_noop() {
    let mut app = App::new();
    app.add_todo();
    assert_eq!(app.todos.len(), 0);
}

#[test]
fn toggle_twice_restores_completion() {
    let mut app = app_with(&["a", "b"]);
    app.selected = Some(0);
    app.toggle_todo();
    assert!(app.todos[0].completed);
    assert!(!app.todos[1].completed);
    app.toggle_todo();
    assert!(!app.todos[0].completed);
}

#[test]
fn toggle_without_selection_is_a_noop() {
    let mut app = app_with(&["a"]);
    app.toggle_todo();
    assert!(!app.todos[0].completed);
}

#[test]
fn remove_at_tail_selects_new_last_index() {
    let mut app = app_with(&["a", "b", "c"]);
    app.selected = Some(2);
    app.remove_todo();
    assert_eq!(app.todos.len(), 2);
    assert_eq!(app.selected, Some(1));
}

#[test]
fn remove_last_item_clears_selection() {
    let mut app = app_with(&["a"]);
    app.selected = Some(0);
    app.remove_todo();
    assert_eq!(app.todos.len(), 0);
    assert_eq!(app.selected, None);
}

#[test]
fn remove_in_middle_keeps_index() {
    let mut app = app_with(&["a", "b", "c"]);
    app.selected = Some(1);
    app.remove_todo();
    assert_eq!(app.todos.len(), 2);
    assert_eq!(app.selected, Some(1));
    assert_eq!(app.todos[1].text, "c");
}

#[test]
fn remove_without_selection_is_a_noop() {
    let mut app = app_with(&["a"]);
    app.remove_todo();
    assert_eq!(app.todos.len(), 1);
}

#[test]
fn wrap_around_returns_to_start() {
    let mut app = app_with(&["a", "b", "c"]);
    app.selected = Some(0);
    for _ in 0..3 {
        app.move_selection(1);
    }
    assert_eq!(app.selected, Some(0));
}

#[test]
fn move_down_visits_each_index() {
    let mut app = app_with(&["a", "b", "c"]);
    app.move_selection(1);
    assert_eq!(app.selected, Some(0));
    app.move_selection(1);
    assert_eq!(app.selected, Some(1));
    app.move_selection(1);
    assert_eq!(app.selected, Some(2));
}

#[test]
fn move_up_from_none_selects_last() {
    let mut app = app_with(&["a", "b", "c"]);
    app.move_selection(-1);
    assert_eq!(app.selected, Some(2));
}

#[test]
fn move_up_wraps_to_last() {
    let mut app = app_with(&["a", "b", "c"]);
    app.selected = Some(0);
    app.move_selection(-1);
    assert_eq!(app.selected, Some(2));
}

#[test]
fn move_by_large_negative_delta_wraps() {
    let mut app = app_with(&["a", "b", "c"]);
    app.selected = Some(1);
    app.move_selection(-7);
    assert_eq!(app.selected, Some(0));
}

#[test]
fn move_on_empty_list_clears_selection() {
    let mut app = App::new();
    app.move_selection(1);
    assert_eq!(app.selected, None);
}

#[test]
fn file_selection_moves_cyclically() {
    let mut app = App::new();
    app.file_list = vec!["a.list".to_string(), "b.list".to_string()];
    app.move_file_selection(1);
    assert_eq!(app.file_selected, Some(0));
    app.move_file_selection(1);
    assert_eq!(app.file_selected, Some(1));
    app.move_file_selection(1);
    assert_eq!(app.file_selected, Some(0));
    app.move_file_selection(-1);
    assert_eq!(app.file_selected, Some(1));
}

#[test]
fn file_selection_up_from_none_selects_last() {
    let mut app = App::new();
    app.file_list = vec!["a.list".to_string(), "b.list".to_string()];
    app.move_file_selection(-1);
    assert_eq!(app.file_selected, Some(1));
}

#[test]
fn file_selection_on_empty_list_clears_selection() {
    let mut app = App::new();
    app.move_file_selection(1);
    assert_eq!(app.file_selected, None);
}
