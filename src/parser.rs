use vstd::prelude::*;
use crate::event_state::{Confirm, EventState, EventType, Mode, SubMode, Tab};
use crate::list::{State, StatefulList};
use crate::protocol::{string_of, AppError, Key, Reply, Request, Step};
use crate::rules;
use crate::session::{tab_of, App};

verus! {

/// The key handler: turns key presses and storage replies into new session
/// states and into what the caller has to do next.
pub struct KeyParser;

fn tab_at(index: usize) -> (r: Tab)
    ensures
        r == tab_of(index),
{
    if index == 0 {
        Tab::Tab1
    } else if index == 1 {
        Tab::Tab2
    } else {
        Tab::Tab3
    }
}

fn is_confirm(key: Key) -> (r: bool)
    ensures
        r == rules::is_confirm(key),
{
    key == Key::Enter || key == Key::Char(' ')
}

impl KeyParser {
    /// Handles one key press.
    pub fn parse_event(key: Key, app: &mut App) -> (r: Step)
        requires
            old(app).wf(),
        ensures
            final(app).wf(),
            (final(app)@, r@) == rules::key_step(old(app)@, key),
    {
        app.error = None;
        KeyParser::process_key_code(key, app)
    }

    fn process_key_code(key: Key, app: &mut App) -> (r: Step)
        requires
            old(app).wf(),
            old(app).error is None,
        ensures
            final(app).wf(),
            (final(app)@, r@) == rules::key_step(old(app)@, key),
    {
        if key == Key::Char('q') && (app.event_state.mode == Mode::Normal || app.event_state.mode == Mode::Delete) {
            return Step::Quit;
        }
        if key == Key::Esc {
            return KeyParser::esc(app);
        }
        match app.event_state.tab {
            Tab::Tab1 => match app.event_state.mode {
                Mode::Normal => KeyParser::process_normal_mode(key, app),
                Mode::Add => KeyParser::process_add_mode(key, app),
                Mode::Delete => KeyParser::process_delete_mode(key, app),
            },
            _ => KeyParser::process_other_tab(key, app),
        }
    }

    fn next_tab(app: &mut App)
        requires
            old(app).wf(),
        ensures
            final(app).wf(),
            final(app)@ == old(app)@.with_tabs(old(app).tabs.after_next()),
    {
        app.tabs.next();
        app.event_state.tab = tab_at(app.tabs.index);
    }

    fn previous_tab(app: &mut App)
        requires
            old(app).wf(),
        ensures
            final(app).wf(),
            final(app)@ == old(app)@.with_tabs(old(app).tabs.after_previous()),
    {
        app.tabs.previous();
        app.event_state.tab = tab_at(app.tabs.index);
    }

    fn process_other_tab(key: Key, app: &mut App) -> (r: Step)
        requires
            old(app).wf(),
        ensures
            final(app).wf(),
            (final(app)@, r@) == rules::other_tab(old(app)@, key),
    {
        if key == Key::Right || key == Key::Char('l') {
            KeyParser::next_tab(app);
        } else if key == Key::Left || key == Key::Char('h') {
            KeyParser::previous_tab(app);
        }
        Step::Idle
    }

    fn process_normal_mode(key: Key, app: &mut App) -> (r: Step)
        requires
            old(app).wf(),
            old(app).event_state.mode == Mode::Normal,
        ensures
            final(app).wf(),
            (final(app)@, r@) == rules::normal_mode(old(app)@, key),
    {
        if app.event_state.confirm == Confirm::Display && !is_confirm(key) {
            Step::Idle
        } else if key == Key::Right || key == Key::Char('l') {
            KeyParser::move_right(app)
        } else if key == Key::Left || key == Key::Char('h') {
            KeyParser::move_left(app)
        } else if key == Key::Down || key == Key::Char('j') {
            KeyParser::move_down(app)
        } else if key == Key::Up || key == Key::Char('k') {
            KeyParser::move_up(app)
        } else if is_confirm(key) {
            KeyParser::enter(app)
        } else if key == Key::Char('n') {
            KeyParser::change_to_add_namespace_mode(app)
        } else if key == Key::Char('a') {
            KeyParser::change_to_add_command_mode(app)
        } else if key == Key::Char('d') {
            KeyParser::change_to_delete_mode(app)
        } else {
            Step::Idle
        }
    }

    pub fn move_right(app: &mut App) -> (r: Step)
        requires
            old(app).wf(),
        ensures
            final(app).wf(),
            (final(app)@, r@) == rules::move_right(old(app)@),
    {
        if app.namespaces.items.len() == 0 {
            return Step::Idle;
        }
        if app.namespaces.selected.is_some() {
            app.namespaces.is_selected = false;
            app.commands.is_selected = true;
            app.tags.is_selected = true;
            app.commands.select_first();
            app.tags.select_first();
        } else {
            KeyParser::next_tab(app);
        }
        Step::Idle
    }

    pub fn move_left(app: &mut App) -> (r: Step)
        requires
            old(app).wf(),
        ensures
            final(app).wf(),
            (final(app)@, r@) == rules::move_left(old(app)@),
    {
        if app.commands.is_selected {
            app.namespaces.is_selected = true;
            app.commands.is_selected = false;
            app.tags.is_selected = false;
            app.commands.unselect();
            app.tags.unselect();
        } else if app.namespaces.is_selected || app.namespaces.selected.is_some() {
            app.namespaces.is_selected = false;
            app.commands.is_selected = false;
            app.tags.is_selected = false;
            app.namespaces.unselect();
            app.commands.unselect();
            app.tags.unselect();
            app.tabs.is_selected = true;
        } else {
            KeyParser::previous_tab(app);
        }
        Step::Idle
    }

    fn move_vertical(app: &mut App, forward: bool) -> (r: Step)
        requires
            old(app).wf(),
        ensures
            final(app).wf(),
            (final(app)@, r@) == rules::move_vertical(old(app)@, forward),
    {
        if app.namespaces.items.len() == 0 {
            return Step::Idle;
        }
        if app.commands.is_selected {
            if app.commands.items.len() > 0 {
                if forward {
                    app.commands.next();
                    app.tags.next();
                } else {
                    app.commands.previous();
                    app.tags.previous();
                }
            }
            Step::Idle
        } else {
            let n = app.namespaces.items.len();
            let target = KeyParser::step_index(app.namespaces.selected, n, forward);
            let namespace = app.namespaces.items[target].clone();
            Step::Store(Request::LoadCommands { index: target, namespace })
        }
    }

    fn step_index(selected: Option<usize>, n: usize, forward: bool) -> (r: usize)
        requires
            n > 0,
            selected matches Some(i) ==> i < n,
        ensures
            r < n,
            r == (match (if forward { crate::list::next_index(selected, n as nat) } else {
                crate::list::previous_index(selected, n as nat) }) { Some(i) => i, None => 0 }),
    {
        match selected {
            Some(i) => if forward {
                if i >= n - 1 { 0 } else { i + 1 }
            } else {
                if i == 0 { n - 1 } else { i - 1 }
            },
            None => 0,
        }
    }

    pub fn move_down(app: &mut App) -> (r: Step)
        requires
            old(app).wf(),
        ensures
            final(app).wf(),
            (final(app)@, r@) == rules::move_vertical(old(app)@, true),
    {
        KeyParser::move_vertical(app, true)
    }

    pub fn move_up(app: &mut App) -> (r: Step)
        requires
            old(app).wf(),
        ensures
            final(app).wf(),
            (final(app)@, r@) == rules::move_vertical(old(app)@, false),
    {
        KeyParser::move_vertical(app, false)
    }

    pub fn enter(app: &mut App) -> (r: Step)
        requires
            old(app).wf(),
            old(app).event_state.mode == Mode::Normal,
        ensures
            final(app).wf(),
            (final(app)@, r@) == rules::enter(old(app)@),
    {
        if app.event_state.confirm == Confirm::Display {
            match app.commands.selected {
                Some(i) => {
                    if i < app.commands.items.len() && i < app.tags.items.len() {
                        app.event_state.confirm = Confirm::Confirmed;
                        return Step::Run(app.commands.items[i].clone(), app.tags.items[i].clone());
                    }
                },
                None => {},
            }
            app.event_state.confirm = Confirm::Hide;
            Step::Idle
        } else if app.commands.is_selected {
            if app.commands.selected.is_some() {
                app.commands.is_selected = false;
                app.tags.is_selected = false;
                app.event_state.confirm = Confirm::Display;
            }
            Step::Idle
        } else if app.namespaces.is_selected {
            app.namespaces.is_selected = false;
            app.commands.is_selected = true;
            app.tags.is_selected = true;
            app.commands.select_first();
            app.tags.select_first();
            Step::Idle
        } else {
            Step::Idle
        }
    }

    fn back_to_normal(app: &mut App)
        requires
            old(app).wf(),
        ensures
            final(app).wf(),
            final(app)@ == old(app)@.normal(),
    {
        app.event_state = EventState {
            confirm: Confirm::Hide,
            event_type: EventType::Idle,
            mode: Mode::Normal,
            sub_mode: SubMode::Idle,
            tab: app.event_state.tab,
        };
    }

    fn clear_inputs(app: &mut App)
        requires
            old(app).wf(),
        ensures
            final(app).wf(),
            final(app)@ == old(app)@.without_inputs(),
    {
        app.namespace_input = Vec::new();
        app.command_input = Vec::new();
        app.tag_input = Vec::new();
        app.cursor_position = None;
    }

    pub fn esc(app: &mut App) -> (r: Step)
        requires
            old(app).wf(),
        ensures
            final(app).wf(),
            (final(app)@, r@) == rules::esc(old(app)@),
    {
        match app.event_state.mode {
            Mode::Add => {
                KeyParser::clear_inputs(app);
            },
            Mode::Delete => {},
            Mode::Normal => {
                if app.event_state.confirm == Confirm::Display {
                    app.commands.is_selected = true;
                    app.tags.is_selected = true;
                } else if app.commands.is_selected || app.namespaces.is_selected {
                    app.namespaces.is_selected = false;
                    app.commands.is_selected = false;
                    app.tags.is_selected = false;
                    app.namespaces.unselect();
                    app.commands.unselect();
                    app.tags.unselect();
                    app.tabs.is_selected = true;
                }
            },
        }
        KeyParser::back_to_normal(app);
        Step::Idle
    }

    pub fn change_to_add_namespace_mode(app: &mut App) -> (r: Step)
        requires
            old(app).wf(),
        ensures
            final(app).wf(),
            (final(app)@, r@) == rules::add_namespace_mode(old(app)@),
    {
        app.event_state = EventState {
            confirm: Confirm::Hide,
            event_type: EventType::Namespace,
            mode: Mode::Add,
            sub_mode: SubMode::Namespace,
            tab: app.event_state.tab,
        };
        Step::Idle
    }

    pub fn change_to_add_command_mode(app: &mut App) -> (r: Step)
        requires
            old(app).wf(),
        ensures
            final(app).wf(),
            (final(app)@, r@) == rules::add_command_mode(old(app)@),
    {
        if app.namespaces.selected.is_some() {
            app.event_state = EventState {
                confirm: Confirm::Hide,
                event_type: EventType::Command,
                mode: Mode::Add,
                sub_mode: SubMode::Command,
                tab: app.event_state.tab,
            };
        }
        Step::Idle
    }

    pub fn change_to_delete_mode(app: &mut App) -> (r: Step)
        requires
            old(app).wf(),
            old(app).event_state.mode == Mode::Normal,
        ensures
            final(app).wf(),
            (final(app)@, r@) == rules::delete_mode(old(app)@),
    {
        if app.commands.is_selected || app.namespaces.is_selected {
            app.event_state.mode = Mode::Delete;
            app.event_state.confirm = Confirm::Display;
        }
        Step::Idle
    }

    /// A character or Backspace typed into the field being filled.
    fn input_handler(key: Key, app: &mut App) -> (r: Step)
        requires
            old(app).wf(),
            old(app).event_state.mode == Mode::Add,
        ensures
            final(app).wf(),
            (final(app)@, r@) == rules::edit(old(app)@, key),
    {
        match key {
            Key::Char(c) => {
                match app.event_state.event_type {
                    EventType::Namespace => app.namespace_input.push(c),
                    EventType::Command => app.command_input.push(c),
                    _ => app.tag_input.push(c),
                }
                match &mut app.cursor_position {
                    Some(cur) => {
                        if cur.x < usize::MAX && cur.y < usize::MAX && cur.input.len() < usize::MAX {
                            cur.push_inc(c);
                        }
                    },
                    None => {},
                }
            },
            Key::Backspace => {
                match app.event_state.event_type {
                    EventType::Namespace => {
                        let _ = app.namespace_input.pop();
                    },
                    EventType::Command => {
                        let _ = app.command_input.pop();
                    },
                    _ => {
                        let _ = app.tag_input.pop();
                    },
                }
                match &mut app.cursor_position {
                    Some(cur) => cur.pop_dec(),
                    None => {},
                }
            },
            _ => {},
        }
        Step::Idle
    }

    fn process_add_mode(key: Key, app: &mut App) -> (r: Step)
        requires
            old(app).wf(),
            old(app).event_state.mode == Mode::Add,
        ensures
            final(app).wf(),
            (final(app)@, r@) == rules::add_mode(old(app)@, key),
    {
        let field = app.event_state.event_type;
        if field == EventType::Idle {
            return Step::Idle;
        }
        if field == EventType::Tag && app.event_state.confirm == Confirm::Display {
            if is_confirm(key) {
                match app.namespaces.selected {
                    Some(j) => {
                        if j < app.namespaces.items.len() {
                            return Step::Store(
                                Request::CreateCommand {
                                    command: string_of(&app.command_input),
                                    tag: string_of(&app.tag_input),
                                    namespace: app.namespaces.items[j].clone(),
                                },
                            );
                        }
                    },
                    None => {},
                }
                KeyParser::clear_inputs(app);
                KeyParser::back_to_normal(app);
            }
            return Step::Idle;
        }
        if key == Key::Enter {
            let len = match field {
                EventType::Namespace => app.namespace_input.len(),
                EventType::Command => app.command_input.len(),
                _ => app.tag_input.len(),
            };
            if len == 0 {
                app.error = Some(AppError::EmptyInput);
                Step::Idle
            } else if field == EventType::Namespace {
                Step::Store(Request::FindNamespace(string_of(&app.namespace_input)))
            } else if field == EventType::Command {
                app.event_state.event_type = EventType::Tag;
                app.cursor_position = None;
                Step::Idle
            } else {
                app.event_state.confirm = Confirm::Display;
                Step::Idle
            }
        } else {
            KeyParser::input_handler(key, app)
        }
    }

    fn process_delete_mode(key: Key, app: &mut App) -> (r: Step)
        requires
            old(app).wf(),
        ensures
            final(app).wf(),
            (final(app)@, r@) == rules::delete_key(old(app)@, key),
    {
        if !is_confirm(key) {
            return Step::Idle;
        }
        if app.commands.is_selected {
            match (app.commands.selected, app.namespaces.selected) {
                (Some(i), Some(j)) => {
                    if i < app.commands.items.len() && j < app.namespaces.items.len() {
                        return Step::Store(
                            Request::DeleteCommand {
                                command: app.commands.items[i].clone(),
                                namespace: app.namespaces.items[j].clone(),
                            },
                        );
                    }
                },
                _ => {},
            }
        }
        if app.namespaces.is_selected {
            match app.namespaces.selected {
                Some(j) => {
                    if j < app.namespaces.items.len() {
                        return Step::Store(Request::DeleteNamespace(app.namespaces.items[j].clone()));
                    }
                },
                None => {},
            }
        }
        KeyParser::back_to_normal(app);
        Step::Idle
    }

    /// Hands the storage reply to a request back to the session. A failure
    /// is kept as the error and changes nothing else; so does a reply that
    /// does not fit the request.
    pub fn complete(app: &mut App, request: Request, reply: Result<Reply, String>) -> (r: Step)
        requires
            old(app).wf(),
        ensures
            final(app).wf(),
            (final(app)@, r@) == rules::reply_step(old(app)@, request@, reply),
    {
        let r = match reply {
            Err(msg) => {
                app.error = Some(AppError::Storage(msg));
                return Step::Idle;
            },
            Ok(r) => r,
        };
        match (request, r) {
            (Request::LoadCommands { index, .. }, Reply::Entries(c, t)) => {
                if index < app.namespaces.items.len() && c.len() == t.len() {
                    app.namespaces.selected = Some(index);
                    app.namespaces.is_selected = true;
                    app.tabs.is_selected = false;
                    app.commands = StatefulList { items: c, selected: None, is_selected: false };
                    app.tags = StatefulList { items: t, selected: None, is_selected: false };
                } else {
                    app.error = Some(AppError::UnexpectedReply);
                }
                Step::Idle
            },
            (Request::FindNamespace(name), Reply::Found(found)) => {
                if found {
                    app.error = Some(AppError::NamespaceExists);
                    Step::Idle
                } else {
                    Step::Store(Request::CreateNamespace(name))
                }
            },
            (Request::CreateNamespace(_), Reply::Namespaces(list)) => {
                app.namespaces = StatefulList { items: list, selected: None, is_selected: false };
                app.commands.unselect();
                app.commands.is_selected = false;
                app.tags.unselect();
                app.tags.is_selected = false;
                app.tabs.is_selected = true;
                KeyParser::clear_inputs(app);
                KeyParser::back_to_normal(app);
                Step::Idle
            },
            (Request::CreateCommand { .. }, Reply::Entries(c, t)) => {
                if c.len() == t.len() {
                    app.namespaces.is_selected = true;
                    app.commands = StatefulList { items: c, selected: None, is_selected: false };
                    app.tags = StatefulList { items: t, selected: None, is_selected: false };
                    KeyParser::clear_inputs(app);
                    KeyParser::back_to_normal(app);
                } else {
                    app.error = Some(AppError::UnexpectedReply);
                }
                Step::Idle
            },
            (Request::DeleteCommand { .. }, Reply::Entries(c, t)) => {
                if c.len() == t.len() {
                    app.commands = StatefulList { items: c, selected: None, is_selected: true };
                    app.tags = StatefulList { items: t, selected: None, is_selected: true };
                    app.commands.select_first();
                    app.tags.select_first();
                    KeyParser::back_to_normal(app);
                } else {
                    app.error = Some(AppError::UnexpectedReply);
                }
                Step::Idle
            },
            (Request::DeleteNamespace(_), Reply::Namespaces(list)) => {
                let first = if list.len() > 0 { Some(list[0].clone()) } else { None };
                app.namespaces = StatefulList { items: list, selected: None, is_selected: false };
                app.commands = StatefulList { items: Vec::new(), selected: None, is_selected: false };
                app.tags = StatefulList { items: Vec::new(), selected: None, is_selected: false };
                KeyParser::back_to_normal(app);
                match first {
                    Some(namespace) => {
                        app.namespaces.is_selected = true;
                        Step::Store(Request::LoadCommands { index: 0, namespace })
                    },
                    None => {
                        app.tabs.is_selected = true;
                        Step::Idle
                    },
                }
            },
            _ => {
                app.error = Some(AppError::UnexpectedReply);
                Step::Idle
            },
        }
    }
}

} // verus!
