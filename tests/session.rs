use command_manager::event_state::{Confirm, EventType, Mode, SubMode, Tab};
use command_manager::parser::KeyParser;
use command_manager::protocol::{AppError, Key, Reply, Request, Step};
use command_manager::session::App;

/// Storage kept in memory: namespaces in order, and (namespace, command, tag) rows.
struct Store {
    namespaces: Vec<String>,
    rows: Vec<(String, String, String)>,
    created_namespaces: Vec<String>,
    fail: bool,
}

impl Store {
    fn new(namespaces: &[&str], rows: &[(&str, &str, &str)]) -> Store {
        Store {
            namespaces: namespaces.iter().map(|s| s.to_string()).collect(),
            rows: rows
                .iter()
                .map(|(n, c, t)| (n.to_string(), c.to_string(), t.to_string()))
                .collect(),
            created_namespaces: Vec::new(),
            fail: false,
        }
    }

    fn entries(&self, namespace: &str) -> Reply {
        let mine: Vec<&(String, String, String)> =
            self.rows.iter().filter(|r| r.0 == namespace).collect();
        Reply::Entries(
            mine.iter().map(|r| r.1.clone()).collect(),
            mine.iter().map(|r| r.2.clone()).collect(),
        )
    }

    fn handle(&mut self, request: &Request) -> Result<Reply, String> {
        if self.fail {
            return Err("disk full".to_string());
        }
        Ok(match request {
            Request::LoadCommands { namespace, .. } => self.entries(namespace),
            Request::FindNamespace(name) => Reply::Found(self.namespaces.contains(name)),
            Request::CreateNamespace(name) => {
                self.created_namespaces.push(name.clone());
                self.namespaces.push(name.clone());
                Reply::Namespaces(self.namespaces.clone())
            }
            Request::CreateCommand { command, tag, namespace } => {
                self.rows.push((namespace.clone(), command.clone(), tag.clone()));
                self.entries(namespace)
            }
            Request::DeleteCommand { command, namespace } => {
                self.rows.retain(|r| !(r.0 == *namespace && r.1 == *command));
                self.entries(namespace)
            }
            Request::DeleteNamespace(name) => {
                self.namespaces.retain(|n| n != name);
                self.rows.retain(|r| r.0 != *name);
                Reply::Namespaces(self.namespaces.clone())
            }
        })
    }
}

fn open(store: &Store) -> App {
    App::new(store.namespaces.clone(), Vec::new(), Vec::new())
}

/// Presses a key and serves every storage request that follows.
fn press(app: &mut App, store: &mut Store, key: Key) -> Step {
    let mut step = KeyParser::parse_event(key, app);
    while let Step::Store(request) = step {
        let reply = store.handle(&request);
        step = KeyParser::complete(app, request, reply);
    }
    step
}

fn type_text(app: &mut App, store: &mut Store, text: &str) {
    for c in text.chars() {
        assert!(matches!(press(app, store, Key::Char(c)), Step::Idle));
    }
}

fn sample() -> Store {
    Store::new(
        &["git", "docker"],
        &[
            ("git", "git status", "status"),
            ("git", "git log", "log"),
            ("docker", "docker ps", "ps"),
        ],
    )
}

#[test]
fn starts_on_tab_row() {
    let store = sample();
    let app = open(&store);
    assert!(app.tabs.is_selected);
    assert_eq!(app.event_state.mode, Mode::Normal);
    assert_eq!(app.event_state.confirm, Confirm::Hide);
    assert_eq!(app.namespaces.selected, None);
}

#[test]
fn down_focuses_first_namespace_and_loads_it() {
    let mut store = sample();
    let mut app = open(&store);
    assert!(matches!(press(&mut app, &mut store, Key::Down), Step::Idle));
    assert_eq!(app.namespaces.selected, Some(0));
    assert!(app.namespaces.is_selected);
    assert!(!app.tabs.is_selected);
    assert_eq!(app.commands.items, vec!["git status", "git log"]);
    assert_eq!(app.tags.items, vec!["status", "log"]);
}

#[test]
fn namespace_change_reloads_aligned_lists() {
    let mut store = sample();
    let mut app = open(&store);
    press(&mut app, &mut store, Key::Char('j'));
    press(&mut app, &mut store, Key::Char('j'));
    assert_eq!(app.namespaces.selected, Some(1));
    assert_eq!(app.commands.items, vec!["docker ps"]);
    assert_eq!(app.tags.items.len(), app.commands.items.len());
    press(&mut app, &mut store, Key::Up);
    assert_eq!(app.namespaces.selected, Some(0));
    assert_eq!(app.commands.items.len(), 2);
    assert_eq!(app.tags.items.len(), 2);
    press(&mut app, &mut store, Key::Up);
    assert_eq!(app.namespaces.selected, Some(1));
    assert_eq!(app.commands.items.len(), 1);
}

#[test]
fn confirm_twice_runs_selected_command() {
    let mut store = sample();
    let mut app = open(&store);
    press(&mut app, &mut store, Key::Down);
    press(&mut app, &mut store, Key::Right);
    assert!(app.commands.is_selected && app.tags.is_selected);
    press(&mut app, &mut store, Key::Down);
    assert_eq!(app.commands.selected, Some(1));
    assert_eq!(app.tags.selected, Some(1));
    assert!(matches!(press(&mut app, &mut store, Key::Enter), Step::Idle));
    assert_eq!(app.event_state.confirm, Confirm::Display);
    match press(&mut app, &mut store, Key::Char(' ')) {
        Step::Run(c, t) => {
            assert_eq!(c, "git log");
            assert_eq!(t, "log");
        }
        other => panic!("expected a command to run, got {:?}", other),
    }
    assert_eq!(app.event_state.confirm, Confirm::Confirmed);
}

#[test]
fn esc_disarms_confirm_prompt() {
    let mut store = sample();
    let mut app = open(&store);
    press(&mut app, &mut store, Key::Down);
    press(&mut app, &mut store, Key::Enter);
    assert!(app.commands.is_selected);
    press(&mut app, &mut store, Key::Enter);
    assert_eq!(app.event_state.confirm, Confirm::Display);
    assert!(matches!(press(&mut app, &mut store, Key::Esc), Step::Idle));
    assert_eq!(app.event_state.confirm, Confirm::Hide);
    assert!(app.commands.is_selected);
    assert!(matches!(press(&mut app, &mut store, Key::Esc), Step::Idle));
    assert!(app.tabs.is_selected);
    assert_eq!(app.namespaces.selected, None);
    assert_eq!(app.commands.selected, None);
}

#[test]
fn add_namespace_that_does_not_exist() {
    let mut store = sample();
    let mut app = open(&store);
    press(&mut app, &mut store, Key::Char('n'));
    assert_eq!(app.event_state.mode, Mode::Add);
    assert_eq!(app.event_state.event_type, EventType::Namespace);
    app.place_cursor(2, 3, 20);
    type_text(&mut app, &mut store, "web");
    assert_eq!(app.cursor_position.as_ref().unwrap().x, 5);
    assert!(matches!(press(&mut app, &mut store, Key::Enter), Step::Idle));
    assert_eq!(store.created_namespaces, vec!["web"]);
    assert!(app.namespaces.items.contains(&"web".to_string()));
    assert_eq!(app.event_state.mode, Mode::Normal);
    assert_eq!(app.event_state.event_type, EventType::Idle);
    assert_eq!(app.event_state.confirm, Confirm::Hide);
    assert!(app.cursor_position.is_none());
    assert!(app.namespace_input.is_empty());
}

#[test]
fn add_namespace_that_exists() {
    let mut store = Store::new(&["web"], &[]);
    let mut app = open(&store);
    press(&mut app, &mut store, Key::Char('n'));
    type_text(&mut app, &mut store, "web");
    assert!(matches!(press(&mut app, &mut store, Key::Enter), Step::Idle));
    assert!(store.created_namespaces.is_empty());
    assert_eq!(app.event_state.mode, Mode::Add);
    assert_eq!(app.event_state.event_type, EventType::Namespace);
    assert_eq!(app.event_state.confirm, Confirm::Hide);
    assert!(matches!(app.error, Some(AppError::NamespaceExists)));
    assert_eq!(app.namespace_input, vec!['w', 'e', 'b']);
}

#[test]
fn delete_only_command_of_namespace() {
    let mut store = Store::new(&["a", "b"], &[("a", "make", "build")]);
    let mut app = open(&store);
    press(&mut app, &mut store, Key::Down);
    press(&mut app, &mut store, Key::Right);
    assert_eq!(app.commands.items, vec!["make"]);
    press(&mut app, &mut store, Key::Char('d'));
    assert_eq!(app.event_state.mode, Mode::Delete);
    assert_eq!(app.event_state.confirm, Confirm::Display);
    assert!(matches!(press(&mut app, &mut store, Key::Enter), Step::Idle));
    assert!(app.commands.items.is_empty());
    assert!(app.tags.items.is_empty());
    assert_eq!(app.namespaces.items, vec!["a", "b"]);
    assert_eq!(app.event_state.mode, Mode::Normal);
    assert_eq!(app.event_state.confirm, Confirm::Hide);
}

#[test]
fn move_right_on_empty_namespaces_does_nothing() {
    let mut store = Store::new(&[], &[]);
    let mut app = open(&store);
    assert!(matches!(press(&mut app, &mut store, Key::Right), Step::Idle));
    assert_eq!(app.tabs.index, 0);
    assert_eq!(app.event_state.tab, Tab::Tab1);
    assert!(app.tabs.is_selected);
    assert!(!app.namespaces.is_selected);
    assert!(!app.commands.is_selected);
}

#[test]
fn right_without_selection_changes_tab() {
    let mut store = sample();
    let mut app = open(&store);
    press(&mut app, &mut store, Key::Right);
    assert_eq!(app.tabs.index, 1);
    assert_eq!(app.event_state.tab, Tab::Tab2);
    press(&mut app, &mut store, Key::Down);
    assert_eq!(app.namespaces.selected, None);
    press(&mut app, &mut store, Key::Char('l'));
    assert_eq!(app.event_state.tab, Tab::Tab3);
    press(&mut app, &mut store, Key::Right);
    assert_eq!(app.event_state.tab, Tab::Tab1);
    press(&mut app, &mut store, Key::Left);
    assert_eq!(app.event_state.tab, Tab::Tab3);
}

#[test]
fn add_command_wizard_stores_both_fields() {
    let mut store = sample();
    let mut app = open(&store);
    assert!(matches!(press(&mut app, &mut store, Key::Char('a')), Step::Idle));
    assert_eq!(app.event_state.mode, Mode::Normal);
    press(&mut app, &mut store, Key::Down);
    press(&mut app, &mut store, Key::Char('a'));
    assert_eq!(app.event_state.sub_mode, SubMode::Command);
    assert_eq!(app.event_state.event_type, EventType::Command);
    type_text(&mut app, &mut store, "git qush");
    for _ in 0..4 {
        press(&mut app, &mut store, Key::Backspace);
    }
    type_text(&mut app, &mut store, "push");
    press(&mut app, &mut store, Key::Enter);
    assert_eq!(app.event_state.event_type, EventType::Tag);
    type_text(&mut app, &mut store, "push");
    press(&mut app, &mut store, Key::Enter);
    assert_eq!(app.event_state.confirm, Confirm::Display);
    assert_eq!(app.command_input.iter().collect::<String>(), "git push");
    assert!(matches!(press(&mut app, &mut store, Key::Enter), Step::Idle));
    assert_eq!(app.commands.items, vec!["git status", "git log", "git push"]);
    assert_eq!(app.tags.items, vec!["status", "log", "push"]);
    assert_eq!(app.event_state.mode, Mode::Normal);
    assert!(app.command_input.is_empty() && app.tag_input.is_empty());
}

#[test]
fn esc_abandons_add_wizard() {
    let mut store = sample();
    let mut app = open(&store);
    press(&mut app, &mut store, Key::Char('n'));
    type_text(&mut app, &mut store, "qa");
    assert!(matches!(press(&mut app, &mut store, Key::Esc), Step::Idle));
    assert!(store.created_namespaces.is_empty());
    assert_eq!(app.event_state.mode, Mode::Normal);
    assert!(app.namespace_input.is_empty());
}

#[test]
fn enter_on_empty_field_is_refused() {
    let mut store = sample();
    let mut app = open(&store);
    press(&mut app, &mut store, Key::Char('n'));
    assert!(matches!(press(&mut app, &mut store, Key::Enter), Step::Idle));
    assert!(matches!(app.error, Some(AppError::EmptyInput)));
    assert_eq!(app.event_state.mode, Mode::Add);
}

#[test]
fn quit_only_outside_text_entry() {
    let mut store = sample();
    let mut app = open(&store);
    assert!(matches!(press(&mut app, &mut store, Key::Char('q')), Step::Quit));
    press(&mut app, &mut store, Key::Char('n'));
    assert!(matches!(press(&mut app, &mut store, Key::Char('q')), Step::Idle));
    assert_eq!(app.namespace_input, vec!['q']);
}

#[test]
fn delete_namespace_reloads_first_remaining() {
    let mut store = sample();
    let mut app = open(&store);
    press(&mut app, &mut store, Key::Down);
    press(&mut app, &mut store, Key::Char('d'));
    assert!(matches!(press(&mut app, &mut store, Key::Enter), Step::Idle));
    assert_eq!(app.namespaces.items, vec!["docker"]);
    assert_eq!(app.namespaces.selected, Some(0));
    assert_eq!(app.commands.items, vec!["docker ps"]);
    assert_eq!(app.event_state.mode, Mode::Normal);
}

#[test]
fn storage_failure_changes_nothing_but_error() {
    let mut store = sample();
    let mut app = open(&store);
    store.fail = true;
    assert!(matches!(press(&mut app, &mut store, Key::Down), Step::Idle));
    assert_eq!(app.namespaces.selected, None);
    assert!(app.tabs.is_selected);
    match &app.error {
        Some(AppError::Storage(m)) => assert_eq!(m, "disk full"),
        other => panic!("expected a storage error, got {:?}", other),
    }
}

#[test]
fn misaligned_reply_is_refused() {
    let store = sample();
    let mut app = open(&store);
    let request = Request::LoadCommands { index: 0, namespace: "git".to_string() };
    let reply = Reply::Entries(vec!["a".to_string()], Vec::new());
    assert!(matches!(KeyParser::complete(&mut app, request, Ok(reply)), Step::Idle));
    assert!(matches!(app.error, Some(AppError::UnexpectedReply)));
    assert_eq!(app.namespaces.selected, None);
    assert!(app.commands.items.is_empty());
}

#[test]
fn find_request_carries_typed_name() {
    let store = sample();
    let mut app = open(&store);
    KeyParser::parse_event(Key::Char('n'), &mut app);
    KeyParser::parse_event(Key::Char('o'), &mut app);
    KeyParser::parse_event(Key::Char('k'), &mut app);
    match KeyParser::parse_event(Key::Enter, &mut app) {
        Step::Store(Request::FindNamespace(name)) => assert_eq!(name, "ok"),
        other => panic!("expected a lookup, got {:?}", other),
    }
}
