use todo_list::app::{App, Command, Effect};
use todo_list::input_mode::InputMode;

#[test]
fn new_app_starts_normal_and_empty() {
    let app = App::new();
    assert_eq!(app.input_mode, InputMode::Normal);
    assert_eq!(app.todos.len(), 0);
    assert_eq!(app.selected, None);
    assert_eq!(app.current_file, None);
    assert_eq!(app.message, "");
    assert_eq!(app.input, "");
}

#[test]
fn begin_edit_clears_message_and_input() {
    let mut app = App::new();
    app.message = "old news".to_string();
    app.input = "stale".to_string();
    app.begin_edit();
    assert_eq!(app.input_mode, InputMode::Editing);
    assert_eq!(app.message, "");
    assert_eq!(app.input, "");
}

#[test]
fn backspace_removes_last_character() {
    let mut app = App::new();
    app.char_input('h');
    app.char_input('i');
    app.backspace();
    assert_eq!(app.input, "h");
    app.backspace();
    assert_eq!(app.input, "");
    app.backspace();
    assert_eq!(app.input, "");
}

#[test]
fn cancel_from_editing_keeps_input() {
    let mut app = App::new();
    app.begin_edit();
    app.char_input('a');
    app.cancel();
    assert_eq!(app.input_mode, InputMode::Normal);
    assert_eq!(app.input, "a");
}

#[test]
fn cancel_from_saving_clears_input() {
    let mut app = App::new();
    app.input_mode = InputMode::Saving;
    app.input = "half a name".to_string();
    app.cancel();
    assert_eq!(app.input_mode, InputMode::Normal);
    assert_eq!(app.input, "");
}

#[test]
fn start_saving_without_current_file_enters_saving() {
    let mut app = App::new();
    app.input = "leftover".to_string();
    let to_save = app.start_saving();
    assert_eq!(to_save, None);
    assert_eq!(app.input_mode, InputMode::Saving);
    assert_eq!(app.input, "");
}

#[test]
fn start_saving_with_current_file_returns_it() {
    let mut app = App::new();
    app.current_file = Some("todo.list".to_string());
    let to_save = app.start_saving();
    assert_eq!(to_save, Some("todo.list".to_string()));
    assert_eq!(app.input_mode, InputMode::Normal);
}

#[test]
fn resolve_empty_input_gives_default_name() {
    let mut app = App::new();
    assert_eq!(app.resolve_save_filename(), "todo.list");
    assert_eq!(app.input, "");
}

#[test]
fn resolve_appends_extension_when_missing() {
    let mut app = App::new();
    app.input = "notes".to_string();
    assert_eq!(app.resolve_save_filename(), "notes.list");
    assert_eq!(app.input, "notes.list");
}

#[test]
fn resolve_keeps_extension_when_present() {
    let mut app = App::new();
    app.input = "notes.list".to_string();
    assert_eq!(app.resolve_save_filename(), "notes.list");
    assert_eq!(app.input, "notes.list");
}

#[test]
fn finish_save_reports_and_binds_file() {
    let mut app = App::new();
    app.input_mode = InputMode::Saving;
    app.finish_save("todo.list", None);
    assert_eq!(app.input_mode, InputMode::Normal);
    assert_eq!(app.message, "Todo list saved to todo.list");
    assert_eq!(app.current_file, Some("todo.list".to_string()));
}

#[test]
fn finish_save_failure_keeps_bound_file() {
    let mut app = App::new();
    app.finish_save("todo.list", Some("permission denied"));
    assert_eq!(app.message, "Failed to save todo list: permission denied");
    assert_eq!(app.current_file, None);
    assert_eq!(app.input_mode, InputMode::Normal);
}

#[test]
fn start_loading_selects_first_save_file() {
    let mut app = App::new();
    let names = vec!["b.txt".to_string(), "a.list".to_string()];
    app.start_loading(&names);
    assert_eq!(app.input_mode, InputMode::Loading);
    assert_eq!(app.file_list, vec!["a.list".to_string()]);
    assert_eq!(app.file_selected, Some(0));
}

#[test]
fn start_loading_with_no_save_files_selects_nothing() {
    let mut app = App::new();
    let names = vec!["b.txt".to_string()];
    app.start_loading(&names);
    assert_eq!(app.input_mode, InputMode::Loading);
    assert_eq!(app.file_list.len(), 0);
    assert_eq!(app.file_selected, None);
}

#[test]
fn refresh_clears_out_of_range_selection() {
    let mut app = App::new();
    app.file_list = vec!["a.list".to_string(), "b.list".to_string()];
    app.file_selected = Some(1);
    let names = vec!["a.list".to_string()];
    app.refresh_file_list(&names);
    assert_eq!(app.file_list, vec!["a.list".to_string()]);
    assert_eq!(app.file_selected, None);
}

#[test]
fn load_target_names_selected_entry() {
    let mut app = App::new();
    app.file_list = vec!["a.list".to_string(), "b.list".to_string()];
    app.file_selected = Some(1);
    assert_eq!(app.load_target(), Some("b.list".to_string()));
    app.file_selected = None;
    assert_eq!(app.load_target(), None);
}

#[test]
fn finish_load_selects_first_item() {
    let mut app = App::new();
    app.input_mode = InputMode::Loading;
    app.finish_load("x.list", Ok("[ ] a\n[√] b\n"));
    assert_eq!(app.input_mode, InputMode::Normal);
    assert_eq!(app.todos.len(), 2);
    assert_eq!(app.selected, Some(0));
    assert_eq!(app.message, "Todo list loaded from x.list");
    assert_eq!(app.current_file, Some("x.list".to_string()));
}

#[test]
fn finish_load_of_empty_file_selects_nothing() {
    let mut app = App::new();
    app.finish_load("x.list", Ok(""));
    assert_eq!(app.todos.len(), 0);
    assert_eq!(app.selected, None);
}

#[test]
fn finish_load_failure_keeps_old_list() {
    let mut app = App::new();
    app.todos.push(todo_list::todo::TodoItem { text: "keep me".to_string(), completed: false });
    app.finish_load("x.list", Err("no such file"));
    assert_eq!(app.message, "Failed to load todo list: no such file");
    assert_eq!(app.todos.len(), 1);
    assert_eq!(app.current_file, None);
    assert_eq!(app.input_mode, InputMode::Normal);
}

#[test]
fn commands_outside_mode_vocabulary_are_noops() {
    let mut app = App::new();
    let eff = app.apply(Command::Commit);
    assert!(matches!(eff, Effect::Nothing));
    assert_eq!(app.input_mode, InputMode::Normal);
    let eff = app.apply(Command::Backspace);
    assert!(matches!(eff, Effect::Nothing));
    app.begin_edit();
    let eff = app.apply(Command::Toggle);
    assert!(matches!(eff, Effect::Nothing));
    assert_eq!(app.input_mode, InputMode::Editing);
}

#[test]
fn commit_in_loading_with_no_selection_returns_to_normal() {
    let mut app = App::new();
    app.start_loading(&vec!["b.txt".to_string()]);
    assert_eq!(app.input_mode, InputMode::Loading);
    assert_eq!(app.file_selected, None);
    let eff = app.apply(Command::Commit);
    assert!(matches!(eff, Effect::Nothing));
    assert_eq!(app.input_mode, InputMode::Normal);
    assert_eq!(app.todos.len(), 0);
}

#[test]
fn quit_only_from_normal() {
    let mut app = App::new();
    assert!(matches!(app.apply(Command::Quit), Effect::Quit));
    app.begin_edit();
    assert!(matches!(app.apply(Command::Quit), Effect::Nothing));
}

#[test]
fn empty_save_session_writes_default_empty_file() {
    let mut app = App::new();
    let eff = app.apply(Command::BeginSave);
    assert!(matches!(eff, Effect::Nothing));
    assert_eq!(app.input_mode, InputMode::Saving);
    match app.apply(Command::Commit) {
        Effect::Write { filename, content } => {
            assert_eq!(filename, "todo.list");
            assert_eq!(content, "");
        }
        _ => panic!("expected a write"),
    }
    app.finish_save("todo.list", None);
    assert_eq!(app.input_mode, InputMode::Normal);
    assert_eq!(app.current_file, Some("todo.list".to_string()));
}

#[test]
fn full_session_edits_saves_and_reloads() {
    let mut app = App::new();
    app.apply(Command::BeginEdit);
    for c in "buy milk".chars() {
        app.apply(Command::CharInput(c));
    }
    app.apply(Command::Commit);
    for c in "walk dog".chars() {
        app.apply(Command::CharInput(c));
    }
    app.apply(Command::Commit);
    app.apply(Command::Cancel);
    app.apply(Command::Move(1));
    app.apply(Command::Toggle);

    app.apply(Command::BeginSave);
    for c in "x.list".chars() {
        app.apply(Command::CharInput(c));
    }
    let (name, saved) = match app.apply(Command::Commit) {
        Effect::Write { filename, content } => (filename, content),
        _ => panic!("expected a write"),
    };
    assert_eq!(name, "x.list");
    app.finish_save(&name, None);

    let mut fresh = App::new();
    assert!(matches!(fresh.apply(Command::BeginLoad), Effect::RefreshFiles));
    fresh.start_loading(&vec!["x.list".to_string()]);
    let target = match fresh.apply(Command::Commit) {
        Effect::ReadFile { filename } => filename,
        _ => panic!("expected a read"),
    };
    assert_eq!(target, "x.list");
    fresh.finish_load(&target, Ok(saved.as_str()));

    assert_eq!(fresh.todos.len(), 2);
    assert_eq!(fresh.todos[0].text, "buy milk");
    assert!(fresh.todos[0].completed);
    assert_eq!(fresh.todos[1].text, "walk dog");
    assert!(!fresh.todos[1].completed);
    assert_eq!(fresh.selected, Some(0));
}

#[test]
fn immediate_save_when_file_already_bound() {
    let mut app = App::new();
    app.current_file = Some("todo.list".to_string());
    match app.apply(Command::BeginSave) {
        Effect::Write { filename, content } => {
            assert_eq!(filename, "todo.list");
            assert_eq!(content, "");
        }
        _ => panic!("expected a write"),
    }
    assert_eq!(app.input_mode, InputMode::Normal);
}
