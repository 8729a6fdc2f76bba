use todo_storage::ui::{
    clamp_selection, commit_input, handle_add_mode, handle_normal_mode, Key, Mode, Status,
    UiState,
};
use todo_storage::TodoApp;

fn app_with(tasks: &[&str]) -> TodoApp {
    let mut app = TodoApp::load_or_new(&[]).unwrap();
    for t in tasks {
        app.add_task(t.to_string()).unwrap();
    }
    app
}

fn descriptions(app: &TodoApp) -> Vec<String> {
    app.list_tasks()
        .into_iter()
        .map(|t| t.description.clone())
        .collect()
}

#[test]
fn clamp_selection_keeps_selection_in_range() {
    assert_eq!(clamp_selection(None, 0), None);
    assert_eq!(clamp_selection(Some(3), 0), None);
    assert_eq!(clamp_selection(None, 4), Some(0));
    assert_eq!(clamp_selection(Some(2), 4), Some(2));
    assert_eq!(clamp_selection(Some(9), 4), Some(3));
    assert_eq!(clamp_selection(Some(usize::MAX), 1), Some(0));
}

#[test]
fn q_quits_and_other_keys_do_not() {
    let mut app = app_with(&[]);
    let mut state = UiState::new();
    assert!(handle_normal_mode(Key::Char('q'), &mut state, &mut app).unwrap());
    assert!(!handle_normal_mode(Key::Other, &mut state, &mut app).unwrap());
    assert_eq!(state.mode, Mode::Normal);
}

#[test]
fn typing_and_enter_add_a_trimmed_task() {
    let mut app = app_with(&[]);
    let mut state = UiState::new();
    handle_normal_mode(Key::Char('a'), &mut state, &mut app).unwrap();
    assert_eq!(state.mode, Mode::Adding);
    assert!(matches!(state.status, Status::AddPrompt));
    for c in "  hix".chars() {
        handle_add_mode(Key::Char(c), &mut state, &mut app).unwrap();
    }
    handle_add_mode(Key::Backspace, &mut state, &mut app).unwrap();
    handle_add_mode(Key::Char(' '), &mut state, &mut app).unwrap();
    assert_eq!(state.input, "  hi ");
    handle_add_mode(Key::Enter, &mut state, &mut app).unwrap();
    assert_eq!(state.mode, Mode::Normal);
    assert!(state.input.is_empty());
    assert!(matches!(&state.status, Status::Added(t) if t.description == "hi" && t.id == 1));
    assert_eq!(descriptions(&app), vec!["hi"]);
}

#[test]
fn enter_on_blank_input_is_refused() {
    let mut app = app_with(&[]);
    let mut state = UiState::new();
    state.mode = Mode::Adding;
    state.input = "   ".to_string();
    handle_add_mode(Key::Enter, &mut state, &mut app).unwrap();
    assert!(matches!(state.status, Status::EmptyDescription));
    assert_eq!(state.mode, Mode::Normal);
    assert_eq!(app.len(), 0);
}

#[test]
fn commit_input_adds_the_given_text() {
    let mut app = app_with(&["first"]);
    let mut state = UiState::new();
    state.mode = Mode::Adding;
    commit_input("second", &mut state, &mut app).unwrap();
    assert_eq!(descriptions(&app), vec!["first", "second"]);
    commit_input("", &mut state, &mut app).unwrap();
    assert!(matches!(state.status, Status::EmptyDescription));
    assert_eq!(app.len(), 2);
}

#[test]
fn esc_cancels_adding() {
    let mut app = app_with(&[]);
    let mut state = UiState::new();
    state.mode = Mode::Adding;
    state.input = "draft".to_string();
    handle_add_mode(Key::Esc, &mut state, &mut app).unwrap();
    assert_eq!(state.mode, Mode::Normal);
    assert!(state.input.is_empty());
    assert!(matches!(state.status, Status::AddCancelled));
    assert_eq!(app.len(), 0);
}

#[test]
fn d_completes_the_oldest_task() {
    let mut app = app_with(&["one", "two"]);
    let mut state = UiState::new();
    handle_normal_mode(Key::Char('d'), &mut state, &mut app).unwrap();
    assert!(matches!(&state.status, Status::Completed(t) if t.description == "one"));
    handle_normal_mode(Key::Char('d'), &mut state, &mut app).unwrap();
    handle_normal_mode(Key::Char('d'), &mut state, &mut app).unwrap();
    assert!(matches!(state.status, Status::NothingToComplete));
    assert_eq!(app.len(), 0);
}

#[test]
fn x_deletes_the_selected_task() {
    let mut app = app_with(&["one", "two", "three"]);
    let mut state = UiState::new();
    handle_normal_mode(Key::Char('x'), &mut state, &mut app).unwrap();
    assert!(matches!(state.status, Status::NoSelection));
    assert_eq!(app.len(), 3);
    handle_normal_mode(Key::Down, &mut state, &mut app).unwrap();
    assert_eq!(state.selected, Some(1));
    handle_normal_mode(Key::Delete, &mut state, &mut app).unwrap();
    assert!(matches!(&state.status, Status::Deleted(t) if t.description == "two"));
    assert_eq!(descriptions(&app), vec!["one", "three"]);
    state.selected = Some(5);
    handle_normal_mode(Key::Char('x'), &mut state, &mut app).unwrap();
    assert!(matches!(state.status, Status::NoSelection));
}

#[test]
fn selection_moves_saturate() {
    let mut app = app_with(&[]);
    let mut state = UiState::new();
    handle_normal_mode(Key::Char('k'), &mut state, &mut app).unwrap();
    assert_eq!(state.selected, Some(0));
    handle_normal_mode(Key::Char('j'), &mut state, &mut app).unwrap();
    handle_normal_mode(Key::Down, &mut state, &mut app).unwrap();
    assert_eq!(state.selected, Some(2));
    handle_normal_mode(Key::Up, &mut state, &mut app).unwrap();
    assert_eq!(state.selected, Some(1));
    state.selected = Some(usize::MAX);
    handle_normal_mode(Key::Down, &mut state, &mut app).unwrap();
    assert_eq!(state.selected, Some(usize::MAX));
}
