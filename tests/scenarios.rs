use todo_app::app::{App, InputMode, Key, State};
use todo_app::todo::{TodoItem, TodoList};

fn type_text(app: &mut App, text: &str) {
    for c in text.chars() {
        app.handle_key(Key::Char(c), true);
    }
}

fn app_with_titles(titles: &[&str]) -> App {
    let mut app = App::new();
    for t in titles {
        app.handle_key(Key::Char('n'), true);
        type_text(&mut app, t);
        app.handle_key(Key::Enter, true);
    }
    app
}

#[test]
fn new_item_flow_adds_one_item() {
    let mut app = App::new();
    assert_eq!(app.state, State::Startup);
    app.handle_key(Key::Char('n'), true);
    assert_eq!(app.input_mode, InputMode::Input);
    type_text(&mut app, "Buy milk");
    assert_eq!(app.input, "Buy milk");
    assert_eq!(app.cursor_index, 8);
    app.handle_key(Key::Enter, true);
    assert_eq!(app.todo_list.len(), 1);
    let item = app.todo_list.get_todo(0).unwrap();
    assert_eq!(item.title(), "Buy milk");
    assert!(!item.completed());
    assert_eq!(item.body(), None);
    assert_eq!(app.input_mode, InputMode::Visual);
    assert_eq!(app.input, "");
    assert_eq!(app.cursor_index, 0);
}

#[test]
fn complete_toggles_twice() {
    let mut app = app_with_titles(&["Only"]);
    app.handle_key(Key::Down, true);
    assert_eq!(app.input_mode, InputMode::Select);
    app.handle_key(Key::Char('c'), true);
    assert!(app.todo_list.get_todo(0).unwrap().completed());
    app.handle_key(Key::Char('c'), true);
    assert!(!app.todo_list.get_todo(0).unwrap().completed());
}

#[test]
fn delete_last_selected_clamps_selection() {
    let mut app = app_with_titles(&["a", "b", "c"]);
    assert_eq!(app.todo_list.len(), 3);
    app.handle_key(Key::Down, true);
    app.handle_key(Key::Down, true);
    app.handle_key(Key::Down, true);
    app.handle_key(Key::Down, true);
    assert_eq!(app.selected, Some(2));
    app.handle_key(Key::Char('d'), true);
    assert_eq!(app.todo_list.len(), 2);
    assert_eq!(app.selected, Some(1));
    assert_eq!(app.todo_list_index, 1);
    assert_eq!(app.todo_list.get_todo(0).unwrap().title(), "c");
    assert_eq!(app.todo_list.get_todo(1).unwrap().title(), "b");
}

#[test]
fn duplicate_add_is_rejected() {
    let mut list = TodoList::new();
    list.add_todo("X".to_string(), None);
    list.add_todo("X".to_string(), None);
    assert_eq!(list.len(), 1);
}

#[test]
fn duplicate_title_keeps_editing_mode() {
    let mut app = app_with_titles(&["X"]);
    app.handle_key(Key::Char('n'), true);
    type_text(&mut app, "X");
    app.handle_key(Key::Enter, true);
    assert_eq!(app.todo_list.len(), 1);
    assert_eq!(app.input_mode, InputMode::Input);
    assert_eq!(app.input, "X");
}

#[test]
fn empty_title_is_rejected() {
    let mut list = TodoList::new();
    list.add_todo(String::new(), None);
    assert!(list.is_empty());
    let mut app = App::new();
    app.handle_key(Key::Char('n'), true);
    app.handle_key(Key::Enter, true);
    assert_eq!(app.input_mode, InputMode::Input);
    assert_eq!(app.todo_list.len(), 0);
}

#[test]
fn add_inserts_at_front() {
    let mut list = TodoList::new();
    list.add_todo_at("first".to_string(), None, 100);
    list.add_todo_at("second".to_string(), Some("b".to_string()), 200);
    assert_eq!(list.len(), 2);
    let front = list.get_todo(0).unwrap();
    assert_eq!(front.title(), "second");
    assert_eq!(front.body(), Some("b"));
    assert_eq!(front.creation_date(), 200);
    assert_eq!(front.last_edit_date(), 200);
    assert_eq!(list.get_todo(1).unwrap().title(), "first");
}

#[test]
fn remove_out_of_range_is_none() {
    let mut list = TodoList::new();
    list.add_todo_at("a".to_string(), None, 1);
    assert!(list.remove_todo(1).is_none());
    assert!(list.remove_todo(5).is_none());
    assert_eq!(list.len(), 1);
    let removed = list.remove_todo(0).unwrap();
    assert_eq!(removed.title(), "a");
    assert!(list.is_empty());
}

#[test]
fn complete_and_update_out_of_range() {
    let mut list = TodoList::new();
    assert!(!list.complete_todo(0));
    assert!(!list.update_todo(0, None, Some("x".to_string())));
    list.add_todo_at("a".to_string(), None, 1);
    assert!(list.complete_todo(0));
    assert!(list.get_todo(0).unwrap().completed());
}

#[test]
fn update_sets_body_and_edit_time() {
    let mut list = TodoList::new();
    list.add_todo_at("a".to_string(), None, 10);
    assert!(list.update_todo_at(0, None, Some("details".to_string()), 20));
    let item = list.get_todo(0).unwrap();
    assert_eq!(item.title(), "a");
    assert_eq!(item.body(), Some("details"));
    assert_eq!(item.creation_date(), 10);
    assert_eq!(item.last_edit_date(), 20);
    assert!(list.update_todo_at(0, Some("b".to_string()), None, 30));
    let item = list.get_todo(0).unwrap();
    assert_eq!(item.title(), "b");
    assert_eq!(item.body(), Some("details"));
}

#[test]
fn item_complete_toggles() {
    let mut item = TodoItem::new_at("t".to_string(), None, 5);
    assert!(!item.completed());
    item.complete();
    assert!(item.completed());
    item.complete();
    assert!(!item.completed());
}

#[test]
fn from_parts_keeps_every_field() {
    let item = TodoItem::from_parts("t".to_string(), Some("b".to_string()), 3, 4, true);
    let copy = TodoItem::from_parts(
        item.title().to_string(),
        item.body().map(|b| b.to_string()),
        item.creation_date(),
        item.last_edit_date(),
        item.completed(),
    );
    assert_eq!(copy.title(), "t");
    assert_eq!(copy.body(), Some("b"));
    assert_eq!(copy.creation_date(), 3);
    assert_eq!(copy.last_edit_date(), 4);
    assert!(copy.completed());
}

#[test]
fn sort_and_filters() {
    let mut list = TodoList::new();
    list.add_todo_at("old".to_string(), None, 10);
    list.add_todo_at("mid".to_string(), None, 20);
    list.add_todo_at("new".to_string(), None, 30);
    list.complete_todo(1);
    let done: Vec<&str> = list.filter_completed().iter().map(|t| t.title()).collect();
    assert_eq!(done, vec!["mid"]);
    let open: Vec<&str> = list.filter_uncompleted().iter().map(|t| t.title()).collect();
    assert_eq!(open, vec!["new", "old"]);
    let mut items = Vec::new();
    items.push(TodoItem::new_at("b".to_string(), None, 5));
    items.push(TodoItem::new_at("c".to_string(), None, 9));
    items.push(TodoItem::new_at("a".to_string(), None, 7));
    let mut list = TodoList::from_items(items);
    list.sort_by_date();
    let dates: Vec<i64> = list.get_todos().iter().map(|t| t.creation_date()).collect();
    assert_eq!(dates, vec![9, 7, 5]);
}

#[test]
fn contains_title_is_exact() {
    let mut list = TodoList::new();
    list.add_todo_at("Milk".to_string(), None, 1);
    assert!(list.contains_title(&"Milk".to_string()));
    assert!(!list.contains_title(&"milk".to_string()));
    assert!(!list.contains_title(&"Milk ".to_string()));
}
