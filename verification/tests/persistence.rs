use todo_list::app::App;
use todo_list::codec::{filter_file_list, parse_todo_list, serialize_todos};
use todo_list::todo::TodoItem;

#[test]
fn serialize_writes_one_marked_line_per_item() {
    let todos = vec![
        TodoItem { text: "buy milk".to_string(), completed: true },
        TodoItem { text: "walk dog".to_string(), completed: false },
    ];
    assert_eq!(serialize_todos(&todos), "[√] buy milk\n[ ] walk dog\n");
}

#[test]
fn serialize_empty_list_is_empty_text() {
    assert_eq!(serialize_todos(&Vec::new()), "");
}

#[test]
fn round_trip_reproduces_items() {
    let todos = vec![
        TodoItem { text: "buy milk".to_string(), completed: true },
        TodoItem { text: "walk dog".to_string(), completed: false },
        TodoItem { text: "x".to_string(), completed: true },
    ];
    let parsed = parse_todo_list(&serialize_todos(&todos));
    assert_eq!(parsed.len(), 3);
    for (a, b) in todos.iter().zip(parsed.iter()) {
        assert_eq!(a.text, b.text);
        assert_eq!(a.completed, b.completed);
    }
}

#[test]
fn lenient_parsing_drops_short_lines() {
    let parsed = parse_todo_list("[ ] task one\nabc\n");
    assert_eq!(parsed.len(), 1);
    assert_eq!(parsed[0].text, "task one");
    assert!(!parsed[0].completed);
}

#[test]
fn parse_reads_both_markers() {
    let parsed = parse_todo_list("[√] done\n[ ] open\n");
    assert_eq!(parsed.len(), 2);
    assert!(parsed[0].completed);
    assert_eq!(parsed[0].text, "done");
    assert!(!parsed[1].completed);
    assert_eq!(parsed[1].text, "open");
}

#[test]
fn parse_skips_lines_without_marker() {
    let parsed = parse_todo_list("no marker here\n[x] wrong marker\n[ ] kept\n");
    assert_eq!(parsed.len(), 1);
    assert_eq!(parsed[0].text, "kept");
}

#[test]
fn parse_takes_text_from_character_four() {
    let parsed = parse_todo_list("[ ]Xab\n");
    assert_eq!(parsed.len(), 1);
    assert_eq!(parsed[0].text, "ab");
}

#[test]
fn parse_line_of_exactly_four_characters_is_dropped() {
    let parsed = parse_todo_list("[ ] \n");
    assert_eq!(parsed.len(), 0);
}

#[test]
fn parse_strips_carriage_return_line_endings() {
    let parsed = parse_todo_list("[ ] a\r\n[√] b\r\n");
    assert_eq!(parsed.len(), 2);
    assert_eq!(parsed[0].text, "a");
    assert_eq!(parsed[1].text, "b");
    assert!(parsed[1].completed);
}

#[test]
fn final_unterminated_line_keeps_carriage_return() {
    let parsed = parse_todo_list("[ ] a\r");
    assert_eq!(parsed.len(), 1);
    assert_eq!(parsed[0].text, "a\r");
}

#[test]
fn parse_handles_missing_final_newline() {
    let parsed = parse_todo_list("[ ] a\n[ ] b");
    assert_eq!(parsed.len(), 2);
    assert_eq!(parsed[1].text, "b");
}

#[test]
fn parse_empty_text_gives_no_items() {
    assert_eq!(parse_todo_list("").len(), 0);
}

#[test]
fn filter_keeps_only_save_files() {
    let names = vec![
        "a.list".to_string(),
        "b.txt".to_string(),
        "c.list".to_string(),
        "d".to_string(),
        ".list".to_string(),
    ];
    let kept = filter_file_list(&names);
    assert_eq!(kept, vec!["a.list".to_string(), "c.list".to_string(), ".list".to_string()]);
}

#[test]
fn load_from_file_replaces_list_wholesale() {
    let app = App::load_from_file("x.list", "[√] buy milk\n[ ] walk dog\n");
    assert_eq!(app.todos.len(), 2);
    assert_eq!(app.todos[0].text, "buy milk");
    assert!(app.todos[0].completed);
    assert_eq!(app.todos[1].text, "walk dog");
    assert!(!app.todos[1].completed);
    assert_eq!(app.current_file, Some("x.list".to_string()));
    assert_eq!(app.selected, None);
}

#[test]
fn saved_then_loaded_scenario() {
    let mut writer = App::new();
    for c in "buy milk".chars() {
        writer.char_input(c);
    }
    writer.add_todo();
    for c in "walk dog".chars() {
        writer.char_input(c);
    }
    writer.add_todo();
    writer.selected = Some(0);
    writer.toggle_todo();
    let content = writer.save_content();

    let mut reader = App::new();
    reader.finish_load("x.list", Ok(content.as_str()));
    assert_eq!(reader.todos.len(), 2);
    assert_eq!(reader.todos[0].text, "buy milk");
    assert!(reader.todos[0].completed);
    assert_eq!(reader.todos[1].text, "walk dog");
    assert!(!reader.todos[1].completed);
    assert_eq!(reader.current_file, Some("x.list".to_string()));
}
